use vstd::arithmetic::power::pow;
use vstd::prelude::*;

use crate::error::DBError;

verus! {

/// What `uuid::Uuid::parse_str` makes of a text: the identifier it reads, or
/// the message of the error it fails with.
pub uninterp spec fn uuid_parse_of(s: Seq<char>) -> Result<u128, Seq<char>>;

/// The lower-case hexadecimal digits.
pub open spec fn lower_hex_digits() -> Seq<char> {
    seq!['0', '1', '2', '3', '4', '5', '6', '7', '8', '9', 'a', 'b', 'c', 'd', 'e', 'f']
}

/// The `k`-th of the 32 hexadecimal digits of `v`, most significant first.
pub open spec fn hex_digit_at(v: u128, k: int) -> int {
    (v as int / pow(16, (31 - k) as nat)) % 16
}

/// How many hyphens stand before position `p` of the hyphenated text.
pub open spec fn hyphens_before(p: int) -> int {
    if p < 8 {
        0
    } else if p < 13 {
        1
    } else if p < 18 {
        2
    } else if p < 23 {
        3
    } else {
        4
    }
}

/// The canonical text of an identifier: 36 characters, hyphens at positions
/// 8, 13, 18 and 23, and elsewhere the lower-case hexadecimal digits of the
/// value, most significant first.
pub open spec fn uuid_text_of(v: u128) -> Seq<char> {
    Seq::new(
        36,
        |p: int|
            if p == 8 || p == 13 || p == 18 || p == 23 {
                '-'
            } else {
                lower_hex_digits()[hex_digit_at(v, p - hyphens_before(p))]
            },
    )
}

/// `text` is a text from which `uuid::Uuid::parse_str` reads `id`.
pub open spec fn identifies(text: Seq<char>, id: u128) -> bool {
    uuid_parse_of(text) == Ok::<u128, Seq<char>>(id)
}

/// The lengths of the textual forms an identifier may take: simple,
/// hyphenated, braced and URN.
pub open spec fn has_identifier_length(s: Seq<char>) -> bool {
    s.len() == 32 || s.len() == 36 || s.len() == 38 || s.len() == 45
}

/// Relies on `uuid::Uuid::parse_str`: it reads an identifier from a text of
/// ASCII characters of one of the four accepted lengths, or fails with an
/// error whose text is returned.
#[verifier::external_body]
fn parse_uuid_text(s: &str) -> (r: Result<u128, String>)
    ensures
        r is Ok ==> uuid_parse_of(s@) is Ok && uuid_parse_of(s@)->Ok_0 == r->Ok_0,
        r is Ok ==> has_identifier_length(s@),
        r is Err ==> uuid_parse_of(s@) is Err && uuid_parse_of(s@)->Err_0 == r->Err_0@,
{
    uuid::Uuid::parse_str(s).map(|u| u.as_u128()).map_err(|e| e.to_string())
}

/// Relies on `uuid::Uuid::from_u128` and `uuid::Uuid`'s `Display`: the
/// hyphenated lower-case form, which `uuid::Uuid::parse_str` reads back to
/// the same identifier.
#[verifier::external_body]
fn uuid_text(v: u128) -> (r: String)
    ensures
        r@ == uuid_text_of(v),
        uuid_parse_of(r@) is Ok,
        uuid_parse_of(r@)->Ok_0 == v,
{
    uuid::Uuid::from_u128(v).to_string()
}

/// Relies on `uuid::Uuid::new_v4`: a random identifier, of which nothing is
/// known in advance.
#[verifier::external_body]
pub(crate) fn fresh_uuid() -> (r: u128) {
    uuid::Uuid::new_v4().as_u128()
}

/// Reads an identifier from its text; a malformed text is an
/// `InvalidUUID` error carrying the reason.
pub fn parse_identifier(s: &str) -> (r: Result<u128, DBError>)
    ensures
        match uuid_parse_of(s@) {
            Ok(v) => r == Ok::<u128, DBError>(v),
            Err(m) => r matches Err(DBError::InvalidUUID(msg)) && msg@ == m,
        },
        r is Ok ==> has_identifier_length(s@),
{
    match parse_uuid_text(s) {
        Ok(v) => Ok(v),
        Err(msg) => Err(DBError::InvalidUUID(msg)),
    }
}

/// The canonical text of an identifier.
pub fn identifier_text(v: u128) -> (r: String)
    ensures
        r@ == uuid_text_of(v),
        r@.len() == 36,
        identifies(r@, v),
{
    uuid_text(v)
}

} // verus!
