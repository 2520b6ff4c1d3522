//! User identifiers: 128-bit UUIDs, parsed from and printed as text.
use vstd::prelude::*;
use vstd::arithmetic::power::pow;
use crate::status::{Code, Status, status_is};

verus! {

/// Lower-case hexadecimal digit of a nibble `n` in `0..16`.
pub open spec fn hex_digit(n: int) -> char {
    if n < 10 {
        (48 + n) as char
    } else {
        (87 + n) as char
    }
}

/// The `k`-th hexadecimal nibble of `v`, counted from the most significant.
pub open spec fn nibble(v: u128, k: int) -> int {
    (v as int / pow(16, (31 - k) as nat)) % 16
}

/// How many group separators stand before position `i` of the hyphenated form.
pub open spec fn separators_before(i: int) -> int {
    if i < 9 { 0 } else if i < 14 { 1 } else if i < 19 { 2 } else if i < 24 { 3 } else { 4 }
}

/// The hyphenated lower-case form of a UUID, `xxxxxxxx-xxxx-xxxx-xxxx-xxxxxxxxxxxx`,
/// whose digits are the big-endian nibbles of `v`.
pub open spec fn hyphenated_text(v: u128) -> Seq<char> {
    Seq::new(
        36,
        |i: int|
            if i == 8 || i == 13 || i == 18 || i == 23 {
                '-'
            } else {
                hex_digit(nibble(v, i - separators_before(i)))
            },
    )
}

/// The lengths of the textual UUID forms: simple, hyphenated, braced and URN.
pub open spec fn accepted_length(n: nat) -> bool {
    n == 32 || n == 36 || n == 38 || n == 45
}

/// What `uuid::Uuid::parse_str` yields on a text, as the 128-bit big-endian value,
/// or `None` where it reports an error.
pub uninterp spec fn uuid_parse_text(s: Seq<char>) -> Option<u128>;

/// Calls `uuid::Uuid::parse_str` and converts its result to the 128-bit value.
/// Trusted: the result is the named one; as the crate documents, every
/// hyphenated form it prints parses back to the same value; and only texts of
/// 32 (simple), 36 (hyphenated), 38 (braced) or 45 (URN) ASCII characters parse.
#[verifier::external_body]
pub(crate) fn parse_uuid(s: &str) -> (r: Option<u128>)
    ensures
        r == uuid_parse_text(s@),
        forall|v: u128| s@ == hyphenated_text(v) ==> r == Some(v),
        r is Some ==> accepted_length(s@.len()),
{
    match uuid::Uuid::parse_str(s) {
        Ok(u) => Some(u.as_u128()),
        Err(_) => None,
    }
}

/// Calls `uuid::Uuid::to_string` (its `Display`) on the UUID of value `v`.
/// Trusted: the text is the hyphenated lower-case form of the big-endian value.
#[verifier::external_body]
pub(crate) fn format_user_id(v: u128) -> (s: String)
    ensures
        s@ == hyphenated_text(v),
{
    uuid::Uuid::from_u128(v).to_string()
}

/// Turns the outcome of parsing an id into the id, or the invalid-argument
/// status the RPCs answer with.
pub fn id_from_parsed(parsed: Option<u128>) -> (r: Result<u128, Status>)
    ensures
        match parsed {
            Some(v) => r == Ok::<u128, Status>(v),
            None => r is Err && status_is(r->Err_0, Code::InvalidArgument, "invalid user id"@),
        },
{
    match parsed {
        Some(v) => Ok(v),
        None => Err(Status::new(Code::InvalidArgument, "invalid user id")),
    }
}

/// Parses the user id of an RPC request.
/// Every hyphenated form printed by `format_user_id` parses back to its value;
/// a text of any other length than the UUID forms' is refused.
pub fn parse_id(s: &str) -> (r: Result<u128, Status>)
    ensures
        !accepted_length(s@.len()) ==> r is Err && status_is(r->Err_0, Code::InvalidArgument, "invalid user id"@),
        match uuid_parse_text(s@) {
            Some(v) => r == Ok::<u128, Status>(v),
            None => r is Err && status_is(r->Err_0, Code::InvalidArgument, "invalid user id"@),
        },
        forall|v: u128| s@ == hyphenated_text(v) ==> r == Ok::<u128, Status>(v),
{
    id_from_parsed(parse_uuid(s))
}

} // verus!
