//! Parsing an unsigned byte from digits in a given radix, as `u8::from_str_radix` does.

use vstd::prelude::*;

verus! {

/// The value of an ASCII digit byte: `0-9` are 0..=9, `a-z` and `A-Z` are 10..=35;
/// any other byte has no digit value (36, which no radix accepts).
pub open spec fn digit_value(b: u8) -> nat {
    if 48 <= b <= 57 {
        (b - 48) as nat
    } else if 97 <= b <= 122 {
        (b - 87) as nat
    } else if 65 <= b <= 90 {
        (b - 55) as nat
    } else {
        36
    }
}

/// `b` is a digit of the given radix.
pub open spec fn is_radix_digit(b: u8, radix: nat) -> bool {
    digit_value(b) < radix
}

/// The value of a sequence of digits, most significant first.
pub open spec fn digits_value(d: Seq<u8>, radix: nat) -> nat
    decreases d.len(),
{
    if d.len() == 0 {
        0
    } else {
        digits_value(d.drop_last(), radix) * radix + digit_value(d.last())
    }
}

/// The digits of an unsigned number: `src` without one optional leading `+`.
pub open spec fn unsigned_digits(src: Seq<u8>) -> Seq<u8> {
    if src.len() > 0 && src[0] == 43 {
        src.drop_first()
    } else {
        src
    }
}

/// What `u8::from_str_radix` accepts: an optional `+` followed by at least one digit of the
/// radix, whose value fits in a `u8`; `None` for every other input.
pub open spec fn parse_u8_radix(src: Seq<u8>, radix: nat) -> Option<u8> {
    let d = unsigned_digits(src);
    if d.len() > 0 && (forall|i: int| 0 <= i < d.len() ==> is_radix_digit(#[trigger] d[i], radix))
        && digits_value(d, radix) <= 255 {
        Some(digits_value(d, radix) as u8)
    } else {
        None
    }
}

/// Whether `b` is a hex digit (`0-9`, `a-f`, `A-F`).
pub fn is_hex_digit(b: u8) -> (r: bool)
    ensures
        r == is_radix_digit(b, 16),
{
    (48 <= b && b <= 57) || (97 <= b && b <= 102) || (65 <= b && b <= 70)
}

/// Two hex digits parse, in base 16, to the byte they encode, high digit first.
pub proof fn lemma_hex_pair_parses(p: Seq<u8>)
    requires
        p.len() == 2,
        is_radix_digit(p[0], 16),
        is_radix_digit(p[1], 16),
    ensures
        parse_u8_radix(p, 16) == Some((16 * digit_value(p[0]) + digit_value(p[1])) as u8),
{
    assert(unsigned_digits(p) == p);
    assert(p.drop_last().drop_last() =~= Seq::<u8>::empty());
    assert(p.drop_last().last() == p[0]);
    assert(digits_value(p.drop_last().drop_last(), 16) == 0);
    assert(digits_value(p.drop_last(), 16) == digit_value(p[0]));
    assert(digits_value(p, 16) == 16 * digit_value(p[0]) + digit_value(p[1]));
}

/// The text (`Display`) of the error `u8::from_str_radix(src, radix)` returns.
pub uninterp spec fn int_error_text(src: Seq<u8>, radix: nat) -> Seq<char>;

/// `u8::from_str_radix`, with its error rendered by `ToString`. The contract claims what the
/// standard library documents: the input is an optional `+` followed by digits of the radix
/// (`0-9`, `a-z`, `A-Z`), anything else (empty input, signs alone, other characters, a value
/// above 255) is an error; the radix must lie in `2..=36`, else the call panics.
/// The error text is left unstated beyond being a function of the input.
#[verifier::external_body]
pub(crate) fn u8_from_str_radix(src: &str, radix: u32) -> (res: Result<u8, String>)
    requires
        2 <= radix <= 36,
    ensures
        (res is Ok) <==> (parse_u8_radix(vstd::utf8::encode_utf8(src@), radix as nat) is Some),
        res matches Ok(v) ==> parse_u8_radix(vstd::utf8::encode_utf8(src@), radix as nat) == Some(v),
        res matches Err(msg) ==> msg@ == int_error_text(vstd::utf8::encode_utf8(src@), radix as nat),
{
    match u8::from_str_radix(src, radix) {
        Ok(v) => Ok(v),
        Err(e) => Err(e.to_string()),
    }
}

} // verus!
