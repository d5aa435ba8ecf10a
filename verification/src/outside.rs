//! What this crate takes from other crates on trust: their types that pass
//! through it, and the calls whose results Verus believes as stated here.

use vstd::arithmetic::power::pow;
use vstd::prelude::*;

verus! {

/// `http::uri::InvalidUri`, the error of a string that is no URI. Nothing is
/// claimed of what it holds: it passes through as it is.
#[verifier::external_type_specification]
#[verifier::external_body]
pub struct ExInvalidUri(http::uri::InvalidUri);

/// Asks an `http::uri::InvalidUri` for its textual form, through its
/// `Display` impl.
///
/// Trusted, and nothing is claimed of the text: it is whatever the error
/// prints.
#[verifier::external_body]
pub(crate) fn invalid_uri_text(error: &http::uri::InvalidUri) -> (text: String) {
    error.to_string()
}

/// The lower-case hexadecimal digit of a value below sixteen.
pub open spec fn hex_digit(value: int) -> char {
    seq!['0', '1', '2', '3', '4', '5', '6', '7', '8', '9', 'a', 'b', 'c', 'd', 'e', 'f'][value]
}

/// The hexadecimal digit of `id` at `index`, counted from the most significant
/// of its thirty-two.
pub open spec fn digit_at(id: u128, index: int) -> int {
    (id as int / pow(16, (31 - index) as nat)) % 16
}

/// How many hyphens stand before place `place` of the hyphenated form.
pub open spec fn hyphens_before(place: int) -> int {
    if place > 23 {
        4
    } else if place > 18 {
        3
    } else if place > 13 {
        2
    } else if place > 8 {
        1
    } else {
        0
    }
}

/// The hyphenated form of a 128-bit identifier: its thirty-two hexadecimal
/// digits in lower case, most significant first, in groups of 8, 4, 4, 4 and
/// 12 with a hyphen between two groups.
pub open spec fn hyphenated(id: u128) -> Seq<char> {
    Seq::new(
        36,
        |place: int|
            if place == 8 || place == 13 || place == 18 || place == 23 {
                '-'
            } else {
                hex_digit(digit_at(id, place - hyphens_before(place)))
            },
    )
}

/// Formats an identifier with `uuid::Uuid::from_u128` and the `LowerHex` form
/// of `uuid::Uuid::as_hyphenated`.
///
/// Trusted: that the text is the hyphenated form stated by [`hyphenated`].
/// `from_u128` takes the bytes of the value most significant first, and the
/// formatter writes two lower-case digits for each byte, in the five groups.
#[verifier::external_body]
pub(crate) fn hyphenated_lower_hex(id: u128) -> (text: String)
    ensures
        text@ == hyphenated(id),
{
    format!("{:x}", uuid::Uuid::from_u128(id).as_hyphenated())
}

} // verus!
