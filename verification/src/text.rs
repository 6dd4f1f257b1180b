//! Character-level models of the few `str` operations the configuration logic relies on.

use vstd::prelude::*;

verus! {

/// The ASCII lower-case form of a character: `'A'..='Z'` map to `'a'..='z'`,
/// every other character (including non-ASCII letters) is unchanged.
pub open spec fn ascii_lower(c: char) -> char {
    if 65 <= (c as u32) <= 90 {
        ((c as u32) + 32) as char
    } else {
        c
    }
}

/// The ASCII lower-case form of a whole string, character by character.
pub open spec fn ascii_lowercase(s: Seq<char>) -> Seq<char> {
    s.map_values(|c: char| ascii_lower(c))
}

/// `suffix` is a suffix of `s`.
pub open spec fn ends_with(s: Seq<char>, suffix: Seq<char>) -> bool {
    &&& suffix.len() <= s.len()
    &&& s.subrange(s.len() - suffix.len(), s.len() as int) == suffix
}

/// `prefix` is a prefix of `s`.
pub open spec fn starts_with(s: Seq<char>, prefix: Seq<char>) -> bool {
    &&& prefix.len() <= s.len()
    &&& s.subrange(0, prefix.len() as int) == prefix
}

/// The characters of a string slice, in order.
pub fn str_chars(s: &str) -> (v: Vec<char>)
    ensures
        v@ == s@,
{
    let mut v: Vec<char> = Vec::new();
    for c in it: s.chars()
        invariant
            it.seq() == s@,
            v@ == it.seq().take(it.index() as int),
    {
        v.push(c);
    }
    assert(v@ =~= s@);
    v
}

/// Unicode `White_Space`: the characters `char::is_whitespace` accepts (U+0009..=U+000D,
/// U+0020, U+0085, U+00A0, U+1680, U+2000..=U+200A, U+2028, U+2029, U+202F, U+205F, U+3000).
pub open spec fn is_white_space(c: char) -> bool {
    let u = c as u32;
    ||| 0x9 <= u <= 0xD
    ||| u == 0x20
    ||| u == 0x85
    ||| u == 0xA0
    ||| u == 0x1680
    ||| 0x2000 <= u <= 0x200A
    ||| u == 0x2028
    ||| u == 0x2029
    ||| u == 0x202F
    ||| u == 0x205F
    ||| u == 0x3000
}

/// `s` without its leading white space.
pub open spec fn trim_start(s: Seq<char>) -> Seq<char>
    decreases s.len(),
{
    if s.len() > 0 && is_white_space(s[0]) {
        trim_start(s.drop_first())
    } else {
        s
    }
}

/// `s` without its trailing white space.
pub open spec fn trim_end(s: Seq<char>) -> Seq<char>
    decreases s.len(),
{
    if s.len() > 0 && is_white_space(s.last()) {
        trim_end(s.drop_last())
    } else {
        s
    }
}

/// `s` without its leading and trailing white space.
pub open spec fn trim(s: Seq<char>) -> Seq<char> {
    trim_end(trim_start(s))
}

/// Every character of `s` is white space.
pub open spec fn all_white_space(s: Seq<char>) -> bool {
    forall|i: int| 0 <= i < s.len() ==> is_white_space(#[trigger] s[i])
}

/// Leading white space does not change what `trim_start` leaves.
pub proof fn lemma_trim_start_skips_white_space(lead: Seq<char>, s: Seq<char>)
    requires
        all_white_space(lead),
    ensures
        trim_start(lead + s) == trim_start(s),
    decreases lead.len(),
{
    if lead.len() > 0 {
        assert((lead + s)[0] == lead[0]);
        assert((lead + s).drop_first() =~= lead.drop_first() + s);
        lemma_trim_start_skips_white_space(lead.drop_first(), s);
    } else {
        assert(lead + s =~= s);
    }
}

/// Trailing white space does not change what `trim_end` leaves.
pub proof fn lemma_trim_end_skips_white_space(s: Seq<char>, trail: Seq<char>)
    requires
        all_white_space(trail),
    ensures
        trim_end(s + trail) == trim_end(s),
    decreases trail.len(),
{
    if trail.len() > 0 {
        assert((s + trail).last() == trail.last());
        assert((s + trail).drop_last() =~= s + trail.drop_last());
        lemma_trim_end_skips_white_space(s, trail.drop_last());
    } else {
        assert(s + trail =~= s);
    }
}

/// `trim_start` of a string followed by white space: the trimmed string followed by that
/// white space, or nothing when the string is all white space.
proof fn lemma_trim_start_before_white_space(s: Seq<char>, trail: Seq<char>)
    requires
        all_white_space(trail),
    ensures
        trim_start(s + trail) == (if trim_start(s).len() > 0 { trim_start(s) + trail } else { Seq::<char>::empty() }),
    decreases s.len(),
{
    if s.len() == 0 {
        assert(s + trail =~= trail);
        lemma_trim_start_skips_white_space(trail, Seq::<char>::empty());
        assert(trail + Seq::<char>::empty() =~= trail);
    } else if is_white_space(s[0]) {
        assert((s + trail)[0] == s[0]);
        assert((s + trail).drop_first() =~= s.drop_first() + trail);
        lemma_trim_start_before_white_space(s.drop_first(), trail);
    } else {
        assert((s + trail)[0] == s[0]);
    }
}

/// Surrounding white space does not change what `trim` leaves.
pub proof fn lemma_trim_skips_surrounding_white_space(lead: Seq<char>, s: Seq<char>, trail: Seq<char>)
    requires
        all_white_space(lead),
        all_white_space(trail),
    ensures
        trim(lead + s + trail) == trim(s),
{
    assert(lead + s + trail =~= lead + (s + trail));
    lemma_trim_start_skips_white_space(lead, s + trail);
    lemma_trim_start_before_white_space(s, trail);
    if trim_start(s).len() > 0 {
        lemma_trim_end_skips_white_space(trim_start(s), trail);
    }
}

/// A string that neither starts nor ends with white space is its own trim.
pub proof fn lemma_trim_unpadded(s: Seq<char>)
    requires
        s.len() > 0,
        !is_white_space(s[0]),
        !is_white_space(s.last()),
    ensures
        trim(s) == s,
{
}

/// `str::trim`: the sub-slice of `s` without leading and trailing Unicode `White_Space`.
/// The contract claims that the result is exactly `trim(s@)`.
#[verifier::external_body]
pub(crate) fn str_trim(s: &str) -> (r: &str)
    ensures
        r@ == trim(s@),
{
    s.trim()
}

/// The decimal digit character for `d < 10`.
pub open spec fn decimal_digit(d: nat) -> char {
    (48 + d) as char
}

/// The decimal rendering of `n`, most significant digit first, with no leading zeros.
pub open spec fn decimal(n: nat) -> Seq<char>
    decreases n,
{
    if n < 10 {
        seq![decimal_digit(n)]
    } else {
        decimal(n / 10).push(decimal_digit(n % 10))
    }
}

/// The number a string of decimal digits denotes, most significant digit first.
pub open spec fn digits_number(s: Seq<char>) -> nat
    decreases s.len(),
{
    if s.len() == 0 {
        0
    } else {
        digits_number(s.drop_last()) * 10 + ((s.last() as u32) - 48) as nat
    }
}

/// A decimal digit character is the character whose code is `48 + d`.
proof fn lemma_decimal_digit(d: nat)
    requires
        d < 10,
    ensures
        decimal_digit(d) as u32 == 48 + d,
{
    let c = decimal_digit(d);
    assert(c as u32 == 48 + d);
}

/// The decimal rendering of `n` is made of the digits `0`-`9`, denotes `n`, and has no
/// leading zero.
pub proof fn law_decimal_denotes_the_number(n: nat)
    ensures
        forall|i: int| 0 <= i < decimal(n).len() ==> 48 <= (#[trigger] decimal(n)[i] as u32) <= 57,
        digits_number(decimal(n)) == n,
        decimal(n).len() > 0,
        decimal(n).len() > 1 ==> decimal(n)[0] != '0',
        decimal(n).len() > 1 <==> n >= 10,
    decreases n,
{
    if n < 10 {
        lemma_decimal_digit(n);
        let s = decimal(n);
        assert(s.drop_last() =~= Seq::<char>::empty());
        assert(digits_number(s.drop_last()) == 0);
        assert(s.last() == decimal_digit(n));
        assert(digits_number(s) == n);
    } else {
        law_decimal_denotes_the_number(n / 10);
        lemma_decimal_digit(n % 10);
        if n / 10 < 10 {
            lemma_decimal_digit(n / 10);
        }
        let d = decimal(n / 10);
        let s = decimal(n);
        assert(s == d.push(decimal_digit(n % 10)));
        assert(s.drop_last() =~= d);
        assert(s[0] == d[0]);
        assert forall|i: int| 0 <= i < s.len() implies 48 <= (#[trigger] s[i] as u32) <= 57 by {
            if i < d.len() {
                assert(s[i] == d[i]);
            }
        }
        assert(digits_number(s.drop_last()) == n / 10);
        assert(s.last() == decimal_digit(n % 10));
        assert(digits_number(s) == (n / 10) * 10 + n % 10);
        if d.len() == 1 {
            assert(d[0] == decimal_digit(n / 10));
        }
    }
}

/// Appends the decimal rendering of `n` to `s`, as `{}` formats an unsigned integer.
pub fn push_decimal(s: &mut String, n: usize)
    ensures
        final(s)@ == old(s)@ + decimal(n as nat),
    decreases n,
{
    if n >= 10 {
        push_decimal(s, n / 10);
    }
    let d = n % 10;
    let digits = "0123456789";
    proof {
        reveal_strlit("0123456789");
    }
    let digit = digits.substring_char(d, d + 1);
    assert(digit@ =~= seq![decimal_digit(d as nat)]);
    s.append(digit);
    assert(s@ =~= old(s)@ + decimal(n as nat));
}

} // verus!
