use iam_user::ids::{id_from_parsed, parse_id};
use iam_user::profile::{
    profile_with_times, to_proto, ProfileRow, EARLIEST_TIMESTAMP_MICROS, LATEST_TIMESTAMP_MICROS,
};
use iam_user::status::Code;

fn row(created_at: i64, updated_at: i64) -> ProfileRow {
    ProfileRow {
        user_id: 0xa1a2a3a4b1b2c1c2d1d2d3d4d5d6d7d8,
        display_name: "Ada".to_string(),
        bio: "engineer".to_string(),
        avatar_url: "https://example.org/ada.png".to_string(),
        phone: "+15550100".to_string(),
        created_at,
        updated_at,
    }
}

#[test]
fn parse_id_accepts_hyphenated_uuid() {
    let id = parse_id("a1a2a3a4-b1b2-c1c2-d1d2-d3d4d5d6d7d8").unwrap();
    assert_eq!(id, 0xa1a2a3a4b1b2c1c2d1d2d3d4d5d6d7d8);
}

#[test]
fn parse_id_accepts_simple_and_upper_case_forms() {
    assert_eq!(parse_id("A1A2A3A4B1B2C1C2D1D2D3D4D5D6D7D8").unwrap(), 0xa1a2a3a4b1b2c1c2d1d2d3d4d5d6d7d8);
}

#[test]
fn parse_id_rejects_garbage_as_invalid_argument() {
    for text in ["", "not-a-uuid", "a1a2a3a4-b1b2-c1c2-d1d2-d3d4d5d6d7d", "g1a2a3a4-b1b2-c1c2-d1d2-d3d4d5d6d7d8"] {
        let err = parse_id(text).unwrap_err();
        assert_eq!(err.code, Code::InvalidArgument);
        assert_eq!(err.message, "invalid user id");
    }
}

#[test]
fn printed_timestamps_are_distinct_for_distinct_instants() {
    let a = to_proto(row(1662921288000000, 1662921288000001));
    assert_ne!(a.created_at, a.updated_at);
    assert_eq!(a.updated_at, "2022-09-11T18:34:48.000001+00:00");
}

#[test]
fn id_from_parsed_maps_none_to_invalid_argument() {
    assert_eq!(id_from_parsed(Some(7)).unwrap(), 7);
    let err = id_from_parsed(None).unwrap_err();
    assert_eq!(err.code, Code::InvalidArgument);
    assert_eq!(err.message, "invalid user id");
}

fn printed_id(v: u128) -> String {
    let mut r = row(0, 0);
    r.user_id = v;
    to_proto(r).user_id
}

#[test]
fn printed_ids_are_lower_case_hyphenated() {
    assert_eq!(printed_id(0xa1a2a3a4b1b2c1c2d1d2d3d4d5d6d7d8), "a1a2a3a4-b1b2-c1c2-d1d2-d3d4d5d6d7d8");
    assert_eq!(printed_id(0), "00000000-0000-0000-0000-000000000000");
    assert_eq!(printed_id(u128::MAX), "ffffffff-ffff-ffff-ffff-ffffffffffff");
}

#[test]
fn printed_ids_parse_back() {
    for v in [0u128, 1, 0x0123456789abcdef0123456789abcdef, u128::MAX] {
        assert_eq!(parse_id(&printed_id(v)).unwrap(), v);
    }
}

#[test]
fn to_proto_formats_id_and_timestamps() {
    let p = to_proto(row(1662921288000000, 1662921288123456));
    assert_eq!(p.user_id, "a1a2a3a4-b1b2-c1c2-d1d2-d3d4d5d6d7d8");
    assert_eq!(p.display_name, "Ada");
    assert_eq!(p.bio, "engineer");
    assert_eq!(p.avatar_url, "https://example.org/ada.png");
    assert_eq!(p.phone, "+15550100");
    assert_eq!(p.created_at, "2022-09-11T18:34:48+00:00");
    assert_eq!(p.updated_at, "2022-09-11T18:34:48.123456+00:00");
}

#[test]
fn to_proto_handles_epoch_and_earlier_instants() {
    let p = to_proto(row(0, -2208936075000000));
    assert_eq!(p.created_at, "1970-01-01T00:00:00+00:00");
    assert_eq!(p.updated_at, "1900-01-01T14:38:45+00:00");
}

#[test]
fn to_proto_handles_the_extreme_instants() {
    let p = to_proto(row(EARLIEST_TIMESTAMP_MICROS, LATEST_TIMESTAMP_MICROS));
    assert!(p.created_at.starts_with("-262143-01-01T00:00:00"));
    assert!(p.updated_at.starts_with("+262142-12-31T23:59:59.999999"));
}

#[test]
fn profile_with_times_keeps_given_texts() {
    let p = profile_with_times(row(0, 0), "c".to_string(), "u".to_string());
    assert_eq!(p.created_at, "c");
    assert_eq!(p.updated_at, "u");
    assert_eq!(p.user_id, "a1a2a3a4-b1b2-c1c2-d1d2-d3d4d5d6d7d8");
}
