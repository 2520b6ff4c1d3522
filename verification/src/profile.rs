//! Stored profile rows and the profile message the RPCs return.
use vstd::prelude::*;
use crate::ids::{format_user_id, hyphenated_text};

verus! {

/// Earliest instant a UTC timestamp can hold, in microseconds since the Unix epoch
/// (the first microsecond of year -262143).
pub const EARLIEST_TIMESTAMP_MICROS: i64 = -8_334_601_228_800_000_000i64;

/// Latest instant a UTC timestamp can hold, in microseconds since the Unix epoch
/// (the last microsecond of year 262142).
pub const LATEST_TIMESTAMP_MICROS: i64 = 8_210_266_876_799_999_999i64;

/// `micros` denotes a representable UTC instant.
pub open spec fn timestamp_in_range(micros: i64) -> bool {
    EARLIEST_TIMESTAMP_MICROS <= micros <= LATEST_TIMESTAMP_MICROS
}

/// A stored profile. Timestamps are microseconds since the Unix epoch.
#[derive(Debug)]
pub struct ProfileRow {
    pub user_id: u128,
    pub display_name: String,
    pub bio: String,
    pub avatar_url: String,
    pub phone: String,
    pub created_at: i64,
    pub updated_at: i64,
}

impl ProfileRow {
    /// Both timestamps are representable instants.
    pub open spec fn wf(self) -> bool {
        timestamp_in_range(self.created_at) && timestamp_in_range(self.updated_at)
    }
}

/// The profile message returned by the RPCs.
#[derive(Debug)]
pub struct Profile {
    pub user_id: String,
    pub display_name: String,
    pub bio: String,
    pub avatar_url: String,
    pub phone: String,
    pub created_at: String,
    pub updated_at: String,
}

/// What `chrono::DateTime::<Utc>::to_rfc3339` yields for the instant `micros`
/// microseconds after the Unix epoch.
pub uninterp spec fn rfc3339_text(micros: int) -> Seq<char>;

/// Calls `chrono::DateTime::<Utc>::from_timestamp_micros`, then `to_rfc3339` on it.
/// Trusted: for a representable instant the conversion succeeds, and the text is
/// the named one. The text writes out the civil date, the time of day with its
/// exact fraction of a second and the fixed UTC offset, so no other representable
/// instant is printed as the same text.
#[verifier::external_body]
fn format_timestamp(micros: i64) -> (s: String)
    requires
        timestamp_in_range(micros),
    ensures
        s@ == rfc3339_text(micros as int),
        forall|other: i64| timestamp_in_range(other) && rfc3339_text(other as int) == s@ ==> other == micros,
{
    match chrono::DateTime::from_timestamp_micros(micros) {
        Some(t) => t.to_rfc3339(),
        None => String::new(),
    }
}

/// `p` is the message for `row`, with the two timestamp texts given.
pub open spec fn message_with_times(p: Profile, row: ProfileRow, created: Seq<char>, updated: Seq<char>) -> bool {
    &&& p.user_id@ == hyphenated_text(row.user_id)
    &&& p.display_name == row.display_name
    &&& p.bio == row.bio
    &&& p.avatar_url == row.avatar_url
    &&& p.phone == row.phone
    &&& p.created_at@ == created
    &&& p.updated_at@ == updated
}

/// `p` is the message for `row`.
pub open spec fn message_of(p: Profile, row: ProfileRow) -> bool {
    message_with_times(p, row, rfc3339_text(row.created_at as int), rfc3339_text(row.updated_at as int))
}

/// Assembles the message for `row` from its printed timestamps.
pub fn profile_with_times(row: ProfileRow, created_at: String, updated_at: String) -> (p: Profile)
    ensures
        message_with_times(p, row, created_at@, updated_at@),
{
    let user_id = format_user_id(row.user_id);
    Profile {
        user_id,
        display_name: row.display_name,
        bio: row.bio,
        avatar_url: row.avatar_url,
        phone: row.phone,
        created_at,
        updated_at,
    }
}

/// The message for a stored profile: the id in hyphenated form, the text fields
/// as stored, and both timestamps in RFC 3339. Each printed timestamp denotes its
/// stored instant and no other.
pub fn to_proto(row: ProfileRow) -> (p: Profile)
    requires
        row.wf(),
    ensures
        message_of(p, row),
        forall|m: i64| timestamp_in_range(m) && rfc3339_text(m as int) == p.created_at@ ==> m == row.created_at,
        forall|m: i64| timestamp_in_range(m) && rfc3339_text(m as int) == p.updated_at@ ==> m == row.updated_at,
{
    let created = format_timestamp(row.created_at);
    let updated = format_timestamp(row.updated_at);
    profile_with_times(row, created, updated)
}

} // verus!
