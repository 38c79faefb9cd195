//! Identifiers: 128-bit values written in the hyphenated lowercase form of
//! the `uuid` crate.
use vstd::prelude::*;
use vstd::arithmetic::power2::pow2;

verus! {

/// Lowercase hexadecimal digit for `d < 16`.
pub open spec fn hex_lower(d: nat) -> char {
    if d < 10 {
        ((d + 48) as u32) as char
    } else {
        ((d + 87) as u32) as char
    }
}

/// The `q`-th hexadecimal digit of `v`, counting from the most significant.
pub open spec fn nibble(v: u128, q: int) -> nat {
    ((v as nat / pow2((4 * (31 - q)) as nat)) % 16) as nat
}

/// How many digits of the 32 come before position `p` of the hyphenated form.
pub open spec fn digits_before(p: int) -> int {
    if p < 8 {
        p
    } else if p < 13 {
        p - 1
    } else if p < 18 {
        p - 2
    } else if p < 23 {
        p - 3
    } else {
        p - 4
    }
}

/// The hyphenated lowercase form of `v`: 32 hexadecimal digits, most
/// significant first, in groups of 8-4-4-4-12 separated by `-`.
pub open spec fn uuid_text(v: u128) -> Seq<char> {
    Seq::new(
        36,
        |p: int|
            if p == 8 || p == 13 || p == 18 || p == 23 {
                '-'
            } else {
                hex_lower(nibble(v, digits_before(p)))
            },
    )
}

/// `text` is the hyphenated lowercase form of some value.
pub open spec fn is_uuid_text(text: Seq<char>) -> bool {
    exists|v: u128| text == uuid_text(v)
}

/// What `uuid::Uuid::parse_str` gives for `text`: the value, or the text of
/// its error.
pub uninterp spec fn uuid_parse(text: Seq<char>) -> Result<u128, Seq<char>>;

/// `uuid::Uuid::from_u128(v).to_string()`; claimed to write `uuid_text(v)`,
/// as the crate's hyphenated lowercase formatter does.
#[verifier::external_body]
pub(crate) fn uuid_to_string(v: u128) -> (r: String)
    ensures
        r@ == uuid_text(v),
{
    uuid::Uuid::from_u128(v).to_string()
}

/// `uuid::Uuid::parse_str`, with the value as a `u128` and the error as its
/// text. Claimed: the result is `uuid_parse(text@)`, and the hyphenated form
/// of a value parses back to that value.
#[verifier::external_body]
pub(crate) fn parse_uuid(text: &str) -> (r: Result<u128, String>)
    ensures
        match r {
            Ok(v) => uuid_parse(text@) == Ok::<u128, Seq<char>>(v) && (is_uuid_text(text@)
                ==> uuid_text(v) == text@),
            Err(e) => uuid_parse(text@) == Err::<u128, Seq<char>>(e@) && !is_uuid_text(text@),
        },
{
    match uuid::Uuid::parse_str(text) {
        Ok(u) => Ok(u.as_u128()),
        Err(e) => Err(e.to_string()),
    }
}

} // verus!
