//! Identifiers of accounts, slots, appointments and notifications, held as
//! 128-bit integers and written in the hyphenated hexadecimal form of UUIDs.

use vstd::prelude::*;
use vstd::arithmetic::power::pow;
use crate::errors::AppError;
use crate::text::owned;

verus! {

/// The lowercase hexadecimal digit for `n` in `0..16`.
pub open spec fn hex_digit(n: int) -> char {
    if n < 10 {
        (('0' as int) + n) as char
    } else {
        (('a' as int) + n - 10) as char
    }
}

/// The `i`-th of the 32 hexadecimal digits of `u`, most significant first.
pub open spec fn uuid_nibble(u: u128, i: int) -> int {
    ((u as int) / pow(16, (31 - i) as nat)) % 16
}

/// Which of the 32 digits stands at position `p` of the 36-character text.
pub open spec fn uuid_digit_index(p: int) -> int {
    if p < 8 {
        p
    } else if p < 13 {
        p - 1
    } else if p < 18 {
        p - 2
    } else if p < 23 {
        p - 3
    } else {
        p - 4
    }
}

/// The hyphenated lowercase text of an identifier, as in
/// `67e55044-10b1-426f-9247-bb680e5fe0c8`.
pub open spec fn uuid_text(u: u128) -> Seq<char> {
    Seq::new(
        36,
        |p: int|
            if p == 8 || p == 13 || p == 18 || p == 23 {
                '-'
            } else {
                hex_digit(uuid_nibble(u, uuid_digit_index(p)))
            },
    )
}

/// What `uuid::Uuid::parse_str` makes of a text: the identifier it denotes,
/// or `None` where the text is not a UUID in one of the forms the crate reads.
pub uninterp spec fn uuid_parsed(s: Seq<char>) -> Option<u128>;

/// Calls `uuid::Uuid::parse_str` and keeps the 128-bit value. Trusted: the
/// result is the crate's reading of `s`, whatever it is, and the crate reads
/// back its own hyphenated text (stated at `uuid_to_string`).
#[verifier::external_body]
pub fn parse_uuid(s: &str) -> (r: Option<u128>)
    ensures
        r == uuid_parsed(s@),
{
    match uuid::Uuid::parse_str(s) {
        Ok(u) => Some(u.as_u128()),
        Err(_) => None,
    }
}

/// Calls `Display` of `uuid::Uuid` on the identifier. Trusted: the text is
/// the hyphenated lowercase form of the 128-bit value (most significant digit
/// first), and `uuid::Uuid::parse_str` reads that text back as the same value.
#[verifier::external_body]
pub fn uuid_to_string(u: u128) -> (s: String)
    ensures
        s@ == uuid_text(u),
        uuid_parsed(s@) == Some(u),
{
    uuid::Uuid::from_u128(u).to_string()
}

/// The account a request is about: the id given in its query, or else the
/// `X-User-Id` header the gateway set, where it reads as an id.
pub open spec fn requested_user(query: Option<u128>, header: Option<Seq<char>>) -> Option<u128> {
    match query {
        Some(u) => Some(u),
        None => match header {
            Some(h) => uuid_parsed(h),
            None => None,
        },
    }
}

/// The account a request is about; refused where neither the query nor the
/// identity header names one.
pub fn resolve_user_id(query: Option<u128>, header: Option<String>) -> (r: Result<u128, AppError>)
    ensures
        match requested_user(query, match header { Some(h) => Some(h@), None => None }) {
            Some(u) => r == Ok::<u128, AppError>(u),
            None => r matches Err(AppError::BadRequest(m)) && m@ == "Missing user_id"@,
        },
{
    let from_header = match header {
        Some(h) => parse_uuid(h.as_str()),
        None => None,
    };
    match query {
        Some(u) => Ok(u),
        None => match from_header {
            Some(u) => Ok(u),
            None => Err(AppError::BadRequest(owned("Missing user_id"))),
        },
    }
}

} // verus!
