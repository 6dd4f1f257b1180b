//! Environment-variable overrides: which variables apply to a configuration, under which
//! keys, and which are refused because they would set a secret.

use vstd::prelude::*;
use crate::sensitive::{self, is_sensitive_leaf_key};
use crate::text::{self, str_chars};

verus! {

/// A nested-key separator `__` starts at position `p` of `s`.
pub open spec fn is_separator_at(s: Seq<char>, p: int) -> bool {
    0 <= p && p + 1 < s.len() && s[p] == '_' && s[p + 1] == '_'
}

/// `s` holds the nested-key separator `__` somewhere.
pub open spec fn contains_separator(s: Seq<char>) -> bool {
    exists|p: int| #[trigger] is_separator_at(s, p)
}

/// The last piece of `s` split on `__`, matching separators left to right without overlap:
/// the text after the separator that ends the scan (all of `s` when it has no separator).
pub open spec fn last_split_part(s: Seq<char>) -> Seq<char>
    decreases s.len(),
{
    if is_separator_at(s, 0) {
        last_split_part(s.subrange(2, s.len() as int))
    } else if s.len() > 0 && contains_separator(s.drop_first()) {
        last_split_part(s.drop_first())
    } else {
        s
    }
}

/// The prefix a variable name must start with: the caller's prefix and `_`.
pub open spec fn required_prefix(env_prefix: Seq<char>) -> Seq<char> {
    env_prefix.push('_')
}

/// The configuration key a prefixed variable name sets: the name without the prefix.
pub open spec fn strip_prefix(key: Seq<char>, prefix: Seq<char>) -> Seq<char> {
    key.subrange(prefix.len() as int, key.len() as int)
}

/// The leaf key a variable name sets, once the prefix is stripped.
pub open spec fn leaf_key(key: Seq<char>, prefix: Seq<char>) -> Seq<char> {
    last_split_part(strip_prefix(key, prefix))
}

/// The prefix of the variables that belong to the target configuration loaded beside this
/// one (`ZEBRA_TARGET_…` beside `ZEBRA_…`): the caller's prefix and `_TARGET_`.
pub open spec fn target_prefix(env_prefix: Seq<char>) -> Seq<char> {
    env_prefix + "_TARGET_"@
}

/// A variable is prefixed: its name starts with the required prefix `{env_prefix}_`.
pub open spec fn is_prefixed(key: Seq<char>, env_prefix: Seq<char>) -> bool {
    text::starts_with(key, required_prefix(env_prefix))
}

/// A prefixed variable would set a sensitive leaf key (the last `__` piece of its name
/// without `{env_prefix}_`). This holds for target-configuration variables too.
pub open spec fn is_refused(key: Seq<char>, env_prefix: Seq<char>) -> bool {
    is_prefixed(key, env_prefix) && sensitive::is_sensitive_key(leaf_key(key, required_prefix(env_prefix)))
}

/// A variable overrides this configuration: it is prefixed, and does not start with the
/// prefix of the target configuration, whose overrides are kept separate.
pub open spec fn applies(key: Seq<char>, env_prefix: Seq<char>) -> bool {
    is_prefixed(key, env_prefix) && !text::starts_with(key, target_prefix(env_prefix))
}

/// The error for a variable that would set a sensitive leaf key.
pub open spec fn refusal_message(key: Seq<char>, leaf: Seq<char>) -> Seq<char> {
    "Environment variable '"@ + key + "' contains sensitive key '"@ + leaf
        + "' which cannot be overridden via environment variables. Use the configuration file instead to prevent process table exposure."@
}

/// The (name, value) pairs, as character sequences.
pub open spec fn pairs_view(v: Seq<(String, String)>) -> Seq<(Seq<char>, Seq<char>)> {
    v.map_values(|p: (String, String)| (p.0@, p.1@))
}

/// The overrides a list of variables yields, in order: the applying variables under their
/// stripped names, or the refusal of the first prefixed variable (target-configuration
/// variables included) with a sensitive leaf key.
pub open spec fn env_overrides_spec(vars: Seq<(Seq<char>, Seq<char>)>, env_prefix: Seq<char>) -> Result<Seq<(Seq<char>, Seq<char>)>, Seq<char>>
    decreases vars.len(),
{
    if vars.len() == 0 {
        Ok(Seq::empty())
    } else {
        match env_overrides_spec(vars.drop_last(), env_prefix) {
            Err(e) => Err(e),
            Ok(r) => {
                let (k, v) = vars.last();
                let p = required_prefix(env_prefix);
                if !is_prefixed(k, env_prefix) {
                    Ok(r)
                } else if is_refused(k, env_prefix) {
                    Err(refusal_message(k, leaf_key(k, p)))
                } else if !applies(k, env_prefix) {
                    Ok(r)
                } else {
                    Ok(r.push((strip_prefix(k, p), v)))
                }
            },
        }
    }
}

/// A string with no separator is its own last piece.
proof fn lemma_last_split_part_no_separator(s: Seq<char>)
    requires
        !contains_separator(s),
    ensures
        last_split_part(s) == s,
{
    if s.len() > 0 && contains_separator(s.drop_first()) {
        let p = choose|p: int| is_separator_at(s.drop_first(), p);
        assert(is_separator_at(s, p + 1));
    }
    if is_separator_at(s, 0) {
        assert(contains_separator(s));
    }
}

/// The index where the last piece of `s` split on `__` starts.
fn last_split_part_start(s: &Vec<char>) -> (start: usize)
    ensures
        start <= s@.len(),
        s@.subrange(start as int, s@.len() as int) == last_split_part(s@),
{
    let n = s.len();
    let mut i: usize = 0;
    let mut start: usize = 0;
    proof {
        assert(s@.subrange(0, n as int) =~= s@);
        if !contains_separator(s@) {
            lemma_last_split_part_no_separator(s@);
        }
    }
    while n - i >= 2
        invariant
            n == s@.len(),
            start <= i <= n,
            last_split_part(s@) == (if contains_separator(s@.subrange(i as int, n as int)) {
                last_split_part(s@.subrange(i as int, n as int))
            } else {
                s@.subrange(start as int, n as int)
            }),
        decreases n - i,
    {
        let ghost t = s@.subrange(i as int, n as int);
        if s[i] == '_' && s[i + 1] == '_' {
            let ghost t2 = s@.subrange(i + 2, n as int);
            proof {
                assert(is_separator_at(t, 0));
                assert(t.subrange(2, t.len() as int) =~= t2);
                if !contains_separator(t2) {
                    lemma_last_split_part_no_separator(t2);
                }
            }
            i = i + 2;
            start = i;
        } else {
            let ghost t1 = s@.subrange(i + 1, n as int);
            proof {
                assert(!is_separator_at(t, 0));
                assert(t.drop_first() =~= t1);
                if contains_separator(t) {
                    let p = choose|p: int| is_separator_at(t, p);
                    assert(p != 0);
                    assert(is_separator_at(t1, p - 1));
                }
                if contains_separator(t1) {
                    let p = choose|p: int| is_separator_at(t1, p);
                    assert(is_separator_at(t, p + 1));
                }
            }
            i = i + 1;
        }
    }
    proof {
        let t = s@.subrange(i as int, n as int);
        if contains_separator(t) {
            let p = choose|p: int| is_separator_at(t, p);
            assert(false);
        }
    }
    start
}

/// `prefix` is a prefix of `key`.
fn chars_start_with(key: &Vec<char>, prefix: &Vec<char>) -> (r: bool)
    ensures
        r == text::starts_with(key@, prefix@),
{
    if prefix.len() > key.len() {
        return false;
    }
    let mut i: usize = 0;
    while i < prefix.len()
        invariant
            prefix@.len() <= key@.len(),
            i <= prefix@.len(),
            forall|k: int| 0 <= k < i ==> key@[k] == prefix@[k],
        decreases prefix@.len() - i,
    {
        if key[i] != prefix[i] {
            assert(key@.subrange(0, prefix@.len() as int)[i as int] != prefix@[i as int]);
            return false;
        }
        i = i + 1;
    }
    assert(key@.subrange(0, prefix@.len() as int) =~= prefix@);
    true
}

/// The refusal message for a variable and the leaf key it would set.
pub fn refusal_error(key: &str, leaf: &str) -> (msg: String)
    ensures
        msg@ == refusal_message(key@, leaf@),
{
    let mut msg = String::from_str("Environment variable '");
    msg.append(key);
    msg.append("' contains sensitive key '");
    msg.append(leaf);
    msg.append(
        "' which cannot be overridden via environment variables. Use the configuration file instead to prevent process table exposure.",
    );
    msg
}

/// Once a prefix of the variables is refused, the whole list is refused with the same error.
proof fn lemma_refusal_persists(vars: Seq<(Seq<char>, Seq<char>)>, env_prefix: Seq<char>, i: int, e: Seq<char>)
    requires
        0 <= i <= vars.len(),
        env_overrides_spec(vars.take(i), env_prefix) == Err::<Seq<(Seq<char>, Seq<char>)>, Seq<char>>(e),
    ensures
        env_overrides_spec(vars, env_prefix) == Err::<Seq<(Seq<char>, Seq<char>)>, Seq<char>>(e),
    decreases vars.len() - i,
{
    if i < vars.len() {
        assert(vars.take(i + 1).drop_last() =~= vars.take(i));
        lemma_refusal_persists(vars, env_prefix, i + 1, e);
    } else {
        assert(vars.take(i) =~= vars);
    }
}

/// Filters the process environment for configuration overrides: keeps the variables whose
/// names start with `{env_prefix}_` (but not `{env_prefix}_TARGET_`, which belong to the
/// target configuration), under their names without that prefix, and refuses the
/// whole environment at the first such variable whose leaf key (the last `__`-separated
/// piece) is sensitive.
pub fn env_overrides(vars: &Vec<(String, String)>, env_prefix: &str) -> (res: Result<Vec<(String, String)>, String>)
    ensures
        res matches Ok(r) ==> env_overrides_spec(pairs_view(vars@), env_prefix@) == Ok::<Seq<(Seq<char>, Seq<char>)>, Seq<char>>(pairs_view(r@)),
        res matches Err(e) ==> env_overrides_spec(pairs_view(vars@), env_prefix@) == Err::<Seq<(Seq<char>, Seq<char>)>, Seq<char>>(e@),
        res matches Ok(r) ==> pairs_view(r@) == applied_overrides(pairs_view(vars@), env_prefix@),
{
    proof {
        law_accepted_overrides_are_the_applying_variables(pairs_view(vars@), env_prefix@);
    }
    let mut required = String::from_str(env_prefix);
    required.append("_");
    proof {
        reveal_strlit("_");
    }
    let required_chars = str_chars(required.as_str());
    assert(required_chars@ =~= required_prefix(env_prefix@));
    let mut target = String::from_str(env_prefix);
    target.append("_TARGET_");
    let target_chars = str_chars(target.as_str());
    assert(target_chars@ =~= target_prefix(env_prefix@));
    let ghost all = pairs_view(vars@);
    let mut out: Vec<(String, String)> = Vec::new();
    let mut i: usize = 0;
    assert(all.take(0) =~= Seq::<(Seq<char>, Seq<char>)>::empty());
    assert(pairs_view(out@) =~= Seq::<(Seq<char>, Seq<char>)>::empty());
    while i < vars.len()
        invariant
            all == pairs_view(vars@),
            required_chars@ == required_prefix(env_prefix@),
            target_chars@ == target_prefix(env_prefix@),
            i <= vars@.len(),
            env_overrides_spec(all.take(i as int), env_prefix@) == Ok::<Seq<(Seq<char>, Seq<char>)>, Seq<char>>(pairs_view(out@)),
        decreases vars@.len() - i,
    {
        let key = vars[i].0.as_str();
        let value = &vars[i].1;
        let ghost prev = out@;
        assert(all.take(i + 1).drop_last() =~= all.take(i as int));
        assert(all.take(i + 1).last() == (key@, value@));
        let key_chars = str_chars(key);
        if chars_start_with(&key_chars, &required_chars) {
            let plen = required_chars.len();
            let stripped = key.substring_char(plen, key_chars.len());
            let stripped_chars = str_chars(stripped);
            let start = last_split_part_start(&stripped_chars);
            let leaf = stripped.substring_char(start, stripped_chars.len());
            assert(leaf@ == leaf_key(key@, required_prefix(env_prefix@)));
            if is_sensitive_leaf_key(leaf) {
                let e = refusal_error(key, leaf);
                proof {
                    lemma_refusal_persists(all, env_prefix@, i + 1, e@);
                    assert(all.take(all.len() as int) =~= all);
                }
                return Err(e);
            }
            if !chars_start_with(&key_chars, &target_chars) {
                out.push((String::from_str(stripped), value.clone()));
                assert(pairs_view(out@) =~= pairs_view(prev).push((strip_prefix(key@, required_prefix(env_prefix@)), value@)));
            }
        }
        i = i + 1;
    }
    assert(all.take(vars@.len() as int) =~= all);
    Ok(out)
}

/// The overrides the applying variables set, in order: each applying variable, under its name
/// without `{env_prefix}_`, with its value untouched.
pub open spec fn applied_overrides(vars: Seq<(Seq<char>, Seq<char>)>, env_prefix: Seq<char>) -> Seq<(Seq<char>, Seq<char>)> {
    vars.filter(|v: (Seq<char>, Seq<char>)| applies(v.0, env_prefix)).map_values(
        |v: (Seq<char>, Seq<char>)| (strip_prefix(v.0, required_prefix(env_prefix)), v.1),
    )
}

/// When the environment is accepted, the overrides are exactly the applying variables, in
/// order, under their stripped names and with their values as given: none is dropped, none
/// is added, no value is looked at.
pub proof fn law_accepted_overrides_are_the_applying_variables(vars: Seq<(Seq<char>, Seq<char>)>, env_prefix: Seq<char>)
    ensures
        env_overrides_spec(vars, env_prefix) matches Ok(r) ==> r == applied_overrides(vars, env_prefix),
    decreases vars.len(),
{
    reveal_with_fuel(Seq::<_>::filter, 1);
    if vars.len() > 0 {
        let init = vars.drop_last();
        law_accepted_overrides_are_the_applying_variables(init, env_prefix);
        let pred = |v: (Seq<char>, Seq<char>)| applies(v.0, env_prefix);
        let f = |v: (Seq<char>, Seq<char>)| (strip_prefix(v.0, required_prefix(env_prefix)), v.1);
        let fi = init.filter(pred);
        if pred(vars.last()) {
            assert(fi.push(vars.last()).map_values(f) =~= fi.map_values(f).push(f(vars.last())));
        }
    }
}

/// Completeness: when the environment is accepted, every variable that applies (prefixed, not
/// a target-configuration variable) is among the overrides, as (its name without the prefix,
/// its value), whatever that value is.
pub proof fn law_accepted_overrides_are_complete(vars: Seq<(Seq<char>, Seq<char>)>, env_prefix: Seq<char>)
    ensures
        env_overrides_spec(vars, env_prefix) matches Ok(r) ==> forall|i: int|
            0 <= i < vars.len() && #[trigger] applies(vars[i].0, env_prefix) ==> exists|j: int|
                0 <= j < r.len() && r[j] == (strip_prefix(vars[i].0, required_prefix(env_prefix)), vars[i].1),
    decreases vars.len(),
{
    if vars.len() > 0 {
        let init = vars.drop_last();
        law_accepted_overrides_are_complete(init, env_prefix);
        if let Ok(r) = env_overrides_spec(vars, env_prefix) {
            let r0 = env_overrides_spec(init, env_prefix)->Ok_0;
            assert forall|i: int| 0 <= i < vars.len() && #[trigger] applies(vars[i].0, env_prefix) implies exists|j: int|
                0 <= j < r.len() && r[j] == (strip_prefix(vars[i].0, required_prefix(env_prefix)), vars[i].1) by {
                if i < vars.len() - 1 {
                    assert(vars[i] == init[i]);
                    assert(applies(init[i].0, env_prefix));
                    let j = choose|j: int| 0 <= j < r0.len() && r0[j] == (strip_prefix(init[i].0, required_prefix(env_prefix)), init[i].1);
                    assert(r[j] == r0[j]);
                } else {
                    assert(vars[i] == vars.last());
                    assert(r[r.len() - 1] == (strip_prefix(vars[i].0, required_prefix(env_prefix)), vars[i].1));
                }
            }
        }
    }
}

/// Which variables override this configuration: those named `{env_prefix}_…`, except those
/// named `{env_prefix}_TARGET_…`, whatever their values.
pub proof fn law_which_variables_apply(key: Seq<char>, env_prefix: Seq<char>)
    ensures
        applies(key, env_prefix) <==> (text::starts_with(key, env_prefix.push('_'))
            && !text::starts_with(key, env_prefix + "_TARGET_"@)),
        is_prefixed(key, env_prefix) <==> text::starts_with(key, env_prefix.push('_')),
{
}

/// The stripped name is the variable's name with `{env_prefix}_` taken off the front: putting
/// the prefix back gives the name again.
pub proof fn law_stripped_names_restore(key: Seq<char>, env_prefix: Seq<char>)
    requires
        is_prefixed(key, env_prefix),
    ensures
        required_prefix(env_prefix) + strip_prefix(key, required_prefix(env_prefix)) == key,
        required_prefix(env_prefix) == env_prefix.push('_'),
{
    let p = required_prefix(env_prefix);
    assert(p + strip_prefix(key, p) =~= key);
}

/// The leaf key is the last `__` piece of the name: a suffix of it that holds no `__`, and
/// either the whole name or preceded by `__`.
pub proof fn law_leaf_is_the_last_piece(s: Seq<char>)
    ensures
        text::ends_with(s, last_split_part(s)),
        !contains_separator(last_split_part(s)),
        last_split_part(s).len() == s.len() || (last_split_part(s).len() + 2 <= s.len()
            && is_separator_at(s, s.len() - last_split_part(s).len() - 2)),
    decreases s.len(),
{
    let l = last_split_part(s);
    if is_separator_at(s, 0) {
        let t = s.subrange(2, s.len() as int);
        law_leaf_is_the_last_piece(t);
        assert(s.subrange(s.len() - l.len(), s.len() as int) =~= t.subrange(t.len() - l.len(), t.len() as int));
        if l.len() == t.len() {
            assert(is_separator_at(s, s.len() - l.len() - 2));
        } else {
            assert(is_separator_at(t, t.len() - l.len() - 2));
            assert(is_separator_at(s, s.len() - l.len() - 2));
        }
    } else if s.len() > 0 && contains_separator(s.drop_first()) {
        let t = s.drop_first();
        law_leaf_is_the_last_piece(t);
        assert(s.subrange(s.len() - l.len(), s.len() as int) =~= t.subrange(t.len() - l.len(), t.len() as int));
        if l.len() == t.len() {
            assert(l == t);
            assert(false);
        } else {
            assert(is_separator_at(t, t.len() - l.len() - 2));
            assert(is_separator_at(s, s.len() - l.len() - 2));
        }
    } else {
        assert(s.subrange(0, s.len() as int) =~= s);
        if contains_separator(s) {
            let p = choose|p: int| is_separator_at(s, p);
            if p > 0 {
                assert(is_separator_at(s.drop_first(), p - 1));
            }
        }
    }
}

/// A refusal names the first variable that would set a sensitive leaf key, with that key's
/// leaf, in the documented message.
pub proof fn law_refusal_names_the_first_sensitive_variable(vars: Seq<(Seq<char>, Seq<char>)>, env_prefix: Seq<char>)
    ensures
        env_overrides_spec(vars, env_prefix) matches Err(e) ==> exists|i: int| {
            &&& 0 <= i < vars.len()
            &&& #[trigger] is_refused(vars[i].0, env_prefix)
            &&& forall|j: int| 0 <= j < i ==> !is_refused(#[trigger] vars[j].0, env_prefix)
            &&& e == "Environment variable '"@ + vars[i].0 + "' contains sensitive key '"@
                + last_split_part(vars[i].0.subrange(env_prefix.len() + 1int, vars[i].0.len() as int))
                + "' which cannot be overridden via environment variables. Use the configuration file instead to prevent process table exposure."@
        },
    decreases vars.len(),
{
    if vars.len() > 0 {
        let init = vars.drop_last();
        law_refusal_names_the_first_sensitive_variable(init, env_prefix);
        law_refused_iff_sensitive_variable(init, env_prefix);
        if let Err(e) = env_overrides_spec(vars, env_prefix) {
            if env_overrides_spec(init, env_prefix) is Err {
                let i = choose|i: int| {
                    &&& 0 <= i < init.len()
                    &&& #[trigger] is_refused(init[i].0, env_prefix)
                    &&& forall|j: int| 0 <= j < i ==> !is_refused(#[trigger] init[j].0, env_prefix)
                    &&& e == "Environment variable '"@ + init[i].0 + "' contains sensitive key '"@
                        + last_split_part(init[i].0.subrange(env_prefix.len() + 1int, init[i].0.len() as int))
                        + "' which cannot be overridden via environment variables. Use the configuration file instead to prevent process table exposure."@
                };
                assert(vars[i] == init[i]);
                assert forall|j: int| 0 <= j < i implies !is_refused(#[trigger] vars[j].0, env_prefix) by {
                    assert(vars[j] == init[j]);
                }
            } else {
                let i = vars.len() - 1;
                assert(vars[i] == vars.last());
                assert forall|j: int| 0 <= j < i implies !is_refused(#[trigger] vars[j].0, env_prefix) by {
                    assert(vars[j] == init[j]);
                    if is_refused(init[j].0, env_prefix) {
                        assert(false);
                    }
                }
            }
        }
    }
}

/// Refusal: the environment is refused exactly when one of the variables named
/// `{env_prefix}_…` (target-configuration variables included) would set a sensitive leaf key.
pub proof fn law_refused_iff_sensitive_variable(vars: Seq<(Seq<char>, Seq<char>)>, env_prefix: Seq<char>)
    ensures
        (env_overrides_spec(vars, env_prefix) is Err) <==> (exists|i: int|
            0 <= i < vars.len() && #[trigger] is_refused(vars[i].0, env_prefix)),
    decreases vars.len(),
{
    if vars.len() > 0 {
        let init = vars.drop_last();
        law_refused_iff_sensitive_variable(init, env_prefix);
        if exists|i: int| 0 <= i < init.len() && #[trigger] is_refused(init[i].0, env_prefix) {
            let i = choose|i: int| 0 <= i < init.len() && #[trigger] is_refused(init[i].0, env_prefix);
            assert(is_refused(vars[i].0, env_prefix));
        }
        if exists|i: int| 0 <= i < vars.len() && #[trigger] is_refused(vars[i].0, env_prefix) {
            let i = choose|i: int| 0 <= i < vars.len() && #[trigger] is_refused(vars[i].0, env_prefix);
            if i < vars.len() - 1 {
                assert(is_refused(init[i].0, env_prefix));
            }
        }
    }
}

/// Nothing sensitive gets through: every override that is accepted sets a leaf key that is
/// not sensitive, under a name stripped of the prefix, taken from a variable that applies.
pub proof fn law_accepted_overrides_are_not_sensitive(vars: Seq<(Seq<char>, Seq<char>)>, env_prefix: Seq<char>)
    ensures
        env_overrides_spec(vars, env_prefix) matches Ok(r) ==> forall|j: int| 0 <= j < r.len() ==> {
            &&& !sensitive::is_sensitive_key(last_split_part(#[trigger] r[j].0))
            &&& exists|i: int| 0 <= i < vars.len() && applies(vars[i].0, env_prefix)
                && r[j] == (strip_prefix(vars[i].0, required_prefix(env_prefix)), vars[i].1)
        },
    decreases vars.len(),
{
    if vars.len() > 0 {
        let init = vars.drop_last();
        law_accepted_overrides_are_not_sensitive(init, env_prefix);
        if let Ok(r) = env_overrides_spec(vars, env_prefix) {
            let r0 = env_overrides_spec(init, env_prefix)->Ok_0;
            assert forall|j: int| 0 <= j < r.len() implies {
                &&& !sensitive::is_sensitive_key(last_split_part(#[trigger] r[j].0))
                &&& exists|i: int| 0 <= i < vars.len() && applies(vars[i].0, env_prefix)
                    && r[j] == (strip_prefix(vars[i].0, required_prefix(env_prefix)), vars[i].1)
            } by {
                if j < r0.len() {
                    assert(r[j] == r0[j]);
                    assert(!sensitive::is_sensitive_key(last_split_part(r0[j].0)));
                    let i = choose|i: int| 0 <= i < init.len() && applies(init[i].0, env_prefix)
                        && r0[j] == (strip_prefix(init[i].0, required_prefix(env_prefix)), init[i].1);
                    assert(vars[i] == init[i]);
                } else {
                    let last = vars.len() - 1;
                    assert(vars[last] == vars.last());
                }
            }
        }
    }
}

/// The variables that do not start with `{env_prefix}_` never change the result: it is the
/// result for the prefixed variables alone, in their order.
pub proof fn law_only_prefixed_variables_matter(vars: Seq<(Seq<char>, Seq<char>)>, env_prefix: Seq<char>)
    ensures
        env_overrides_spec(vars, env_prefix) == env_overrides_spec(
            vars.filter(|v: (Seq<char>, Seq<char>)| text::starts_with(v.0, required_prefix(env_prefix))),
            env_prefix,
        ),
    decreases vars.len(),
{
    reveal_with_fuel(Seq::<_>::filter, 1);
    let pred = |v: (Seq<char>, Seq<char>)| text::starts_with(v.0, required_prefix(env_prefix));
    if vars.len() > 0 {
        let init = vars.drop_last();
        law_only_prefixed_variables_matter(init, env_prefix);
        let f = init.filter(pred);
        if pred(vars.last()) {
            assert(f.push(vars.last()).drop_last() =~= f);
        }
    }
}

/// Two environments that agree on the variables starting with `{env_prefix}_` (in order)
/// give the same overrides or the same refusal, whatever their other variables.
pub proof fn law_unprefixed_variables_are_ignored(vars1: Seq<(Seq<char>, Seq<char>)>, vars2: Seq<(Seq<char>, Seq<char>)>, env_prefix: Seq<char>)
    requires
        vars1.filter(|v: (Seq<char>, Seq<char>)| text::starts_with(v.0, required_prefix(env_prefix)))
            == vars2.filter(|v: (Seq<char>, Seq<char>)| text::starts_with(v.0, required_prefix(env_prefix))),
    ensures
        env_overrides_spec(vars1, env_prefix) == env_overrides_spec(vars2, env_prefix),
{
    law_only_prefixed_variables_matter(vars1, env_prefix);
    law_only_prefixed_variables_matter(vars2, env_prefix);
}

} // verus!
