//! The case-insensitive, suffix-based deny-list for configuration keys.

use vstd::prelude::*;
use crate::text::{self, str_chars};

verus! {

/// Centralized, case-insensitive suffix-based deny-list: configuration fields whose names end
/// with one of these suffixes cannot be set through environment variables.
/// `cookie` blocks raw cookies only (paths like `cookie_dir` are not affected), and
/// `private_key` blocks raw private keys only (paths like `*_private_key_path` are not affected).
pub const DENY_CONFIG_KEY_SUFFIX_LIST: [&'static str; 5] = [
    "password",
    "secret",
    "token",
    "cookie",
    "private_key",
];

/// The deny-list suffixes, as character sequences.
pub open spec fn deny_suffixes() -> Seq<Seq<char>> {
    seq![
        DENY_CONFIG_KEY_SUFFIX_LIST[0]@,
        DENY_CONFIG_KEY_SUFFIX_LIST[1]@,
        DENY_CONFIG_KEY_SUFFIX_LIST[2]@,
        DENY_CONFIG_KEY_SUFFIX_LIST[3]@,
        DENY_CONFIG_KEY_SUFFIX_LIST[4]@,
    ]
}

/// A leaf key is sensitive when its ASCII lower-case form ends with a deny-list suffix.
pub open spec fn is_sensitive_key(leaf_key: Seq<char>) -> bool {
    exists|j: int| 0 <= j < 5 && text::ends_with(text::ascii_lowercase(leaf_key), #[trigger] deny_suffixes()[j])
}

/// Does the ASCII lower-case form of `key` end with `suffix`?
fn lowercase_ends_with(key: &Vec<char>, suffix: &Vec<char>) -> (r: bool)
    ensures
        r == text::ends_with(text::ascii_lowercase(key@), suffix@),
{
    let n = key.len();
    let m = suffix.len();
    if m > n {
        return false;
    }
    let ghost lk = text::ascii_lowercase(key@);
    let mut i: usize = 0;
    while i < m
        invariant
            m <= n,
            n == key@.len(),
            m == suffix@.len(),
            lk == text::ascii_lowercase(key@),
            i <= m,
            forall|k: int| 0 <= k < i ==> lk[n - m + k] == suffix@[k],
        decreases m - i,
    {
        let c = key[n - m + i];
        let s = suffix[i];
        let cu = c as u32;
        let lowered = if 65 <= cu && cu <= 90 { cu + 32 } else { cu };
        assert(lowered == text::ascii_lower(c) as u32);
        if lowered != s as u32 {
            assert(lk.subrange(n - m, n as int)[i as int] != suffix@[i as int]);
            return false;
        }
        assert(lk[n - m + i] == text::ascii_lower(c));
        proof {
            vstd::utf8::char_u32_cast(text::ascii_lower(c), lowered);
            vstd::utf8::char_u32_cast(s, lowered);
        }
        i = i + 1;
    }
    assert(lk.subrange(n - m, n as int) =~= suffix@);
    true
}

/// Returns true if a leaf key name should be considered sensitive and blocked
/// from environment variable overrides: its ASCII lower-case form ends with one of
/// [`DENY_CONFIG_KEY_SUFFIX_LIST`].
pub fn is_sensitive_leaf_key(leaf_key: &str) -> (r: bool)
    ensures
        r == is_sensitive_key(leaf_key@),
        r == {
            let l = text::ascii_lowercase(leaf_key@);
            ||| text::ends_with(l, "password"@)
            ||| text::ends_with(l, "secret"@)
            ||| text::ends_with(l, "token"@)
            ||| text::ends_with(l, "cookie"@)
            ||| text::ends_with(l, "private_key"@)
        },
{
    proof {
        law_deny_list_words(leaf_key@);
    }
    let key = str_chars(leaf_key);
    let list = DENY_CONFIG_KEY_SUFFIX_LIST;
    let mut j: usize = 0;
    while j < 5
        invariant
            key@ == leaf_key@,
            list == DENY_CONFIG_KEY_SUFFIX_LIST,
            j <= 5,
            forall|k: int| 0 <= k < j ==> !text::ends_with(text::ascii_lowercase(leaf_key@), #[trigger] deny_suffixes()[k]),
        decreases 5 - j,
    {
        let suffix = str_chars(list[j]);
        if lowercase_ends_with(&key, &suffix) {
            assert(text::ends_with(text::ascii_lowercase(leaf_key@), deny_suffixes()[j as int]));
            return true;
        }
        j = j + 1;
    }
    false
}

/// The deny-list words, spelled out: a key is sensitive exactly when its ASCII lower-case form
/// ends with `password`, `secret`, `token`, `cookie` or `private_key`.
pub proof fn law_deny_list_words(k: Seq<char>)
    ensures
        is_sensitive_key(k) <==> {
            let l = text::ascii_lowercase(k);
            ||| text::ends_with(l, "password"@)
            ||| text::ends_with(l, "secret"@)
            ||| text::ends_with(l, "token"@)
            ||| text::ends_with(l, "cookie"@)
            ||| text::ends_with(l, "private_key"@)
        },
{
    lemma_deny_suffixes_are_the_list();
    let l = text::ascii_lowercase(k);
    if text::ends_with(l, "password"@) { assert(text::ends_with(l, deny_suffixes()[0])); }
    if text::ends_with(l, "secret"@) { assert(text::ends_with(l, deny_suffixes()[1])); }
    if text::ends_with(l, "token"@) { assert(text::ends_with(l, deny_suffixes()[2])); }
    if text::ends_with(l, "cookie"@) { assert(text::ends_with(l, deny_suffixes()[3])); }
    if text::ends_with(l, "private_key"@) { assert(text::ends_with(l, deny_suffixes()[4])); }
}

/// The spec's suffixes are the entries of [`DENY_CONFIG_KEY_SUFFIX_LIST`], which are the five
/// documented words.
pub proof fn lemma_deny_suffixes_are_the_list()
    ensures
        deny_suffixes().len() == 5,
        forall|j: int| 0 <= j < 5 ==> #[trigger] deny_suffixes()[j] == DENY_CONFIG_KEY_SUFFIX_LIST[j]@,
        DENY_CONFIG_KEY_SUFFIX_LIST[0]@ == "password"@,
        DENY_CONFIG_KEY_SUFFIX_LIST[1]@ == "secret"@,
        DENY_CONFIG_KEY_SUFFIX_LIST[2]@ == "token"@,
        DENY_CONFIG_KEY_SUFFIX_LIST[3]@ == "cookie"@,
        DENY_CONFIG_KEY_SUFFIX_LIST[4]@ == "private_key"@,
{
    assert(DENY_CONFIG_KEY_SUFFIX_LIST[0] == "password");
    assert(DENY_CONFIG_KEY_SUFFIX_LIST[1] == "secret");
    assert(DENY_CONFIG_KEY_SUFFIX_LIST[2] == "token");
    assert(DENY_CONFIG_KEY_SUFFIX_LIST[3] == "cookie");
    assert(DENY_CONFIG_KEY_SUFFIX_LIST[4] == "private_key");
}

/// Each deny-list word on its own, in any ASCII case, is a sensitive key.
pub proof fn law_bare_deny_words_are_sensitive(k: Seq<char>, j: int)
    requires
        0 <= j < 5,
        text::ascii_lowercase(k) == DENY_CONFIG_KEY_SUFFIX_LIST[j]@,
    ensures
        is_sensitive_key(k),
{
    lemma_deny_suffixes_are_the_list();
    let l = text::ascii_lowercase(k);
    assert(l.subrange(0, l.len() as int) =~= l);
    assert(text::ends_with(l, deny_suffixes()[j]));
}

/// Case-insensitivity: two keys that differ only in the case of ASCII letters are either
/// both sensitive or both not.
pub proof fn law_sensitivity_ignores_ascii_case(k1: Seq<char>, k2: Seq<char>)
    requires
        text::ascii_lowercase(k1) == text::ascii_lowercase(k2),
    ensures
        is_sensitive_key(k1) == is_sensitive_key(k2),
{
}

/// Suffix-based: a key that ends with a sensitive key is itself sensitive, whatever comes
/// before it (so `rpc_password` is refused like `password`).
pub proof fn law_sensitivity_is_suffix_based(head: Seq<char>, k: Seq<char>)
    requires
        is_sensitive_key(k),
    ensures
        is_sensitive_key(head + k),
{
    let j = choose|j: int| 0 <= j < 5 && text::ends_with(text::ascii_lowercase(k), #[trigger] deny_suffixes()[j]);
    let lh = text::ascii_lowercase(head);
    let lk = text::ascii_lowercase(k);
    let l = text::ascii_lowercase(head + k);
    assert(l =~= lh + lk);
    let m = deny_suffixes()[j].len();
    assert(l.subrange(l.len() - m, l.len() as int) =~= lk.subrange(lk.len() - m, lk.len() as int));
    assert(text::ends_with(l, deny_suffixes()[j]));
}

} // verus!
