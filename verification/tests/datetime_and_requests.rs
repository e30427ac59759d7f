//! Behavior of the date/time encoders (cross-checked against chrono's
//! rendering of the same instants), the bindings map, and the error type.

use snowflake_bindings::datetime::{SqlDate, SqlTimestamp, SqlTimestampLtz, SqlTimestampTz};
use snowflake_bindings::errors::{BindingError, WrongType};
use snowflake_bindings::requests::{BindingValue, Bindings, ParameterBinding};
use snowflake_bindings::tags::SnowflakeType;

use chrono::TimeZone;

fn assemble<T: snowflake_bindings::bindings::ToSql>(v: T) -> ParameterBinding {
    let Ok(pb) = ParameterBinding::try_from(Box::new(v)) else {
        panic!("assembling failed");
    };
    pb
}

fn single_text(pb: &ParameterBinding) -> &str {
    match &pb.value {
        BindingValue::SingleBind(s) => s.as_str(),
        BindingValue::MultiBind(_) => panic!("expected a single bind"),
    }
}

#[test]
fn calendar_date_renders_iso_text() {
    let date = SqlDate::new(2024, 3, 5).expect("a real calendar day");
    let pb = assemble(date);
    assert_eq!(pb.type_, Some(SnowflakeType::Text));
    assert_eq!(pb.fmt, None);
    assert_eq!(single_text(&pb), "2024-03-05");

    let reference = chrono::NaiveDate::from_ymd_opt(2024, 3, 5)
        .unwrap()
        .format("%Y-%m-%d")
        .to_string();
    assert_eq!(single_text(&pb), reference);
}

#[test]
fn date_validity_follows_the_gregorian_calendar() {
    assert!(SqlDate::new(2024, 2, 29).is_some());
    assert!(SqlDate::new(2023, 2, 29).is_none());
    assert!(SqlDate::new(1900, 2, 29).is_none());
    assert!(SqlDate::new(2000, 2, 29).is_some());
    assert!(SqlDate::new(2024, 4, 31).is_none());
    assert!(SqlDate::new(2024, 13, 1).is_none());
    assert!(SqlDate::new(2024, 1, 0).is_none());
    assert!(SqlDate::new(10000, 1, 1).is_none());
    assert!(SqlDate::new(0, 1, 1).is_some());
}

#[test]
fn naive_timestamp_renders_millisecond_text() {
    let date = SqlDate::new(2024, 3, 5).unwrap();
    let ts = SqlTimestamp::new(date, 13, 1, 2, 3).expect("a real time of day");
    let pb = assemble(ts);
    assert_eq!(pb.type_, Some(SnowflakeType::TimestampNtz));
    assert_eq!(single_text(&pb), "2024-03-05 13:01:02.003");

    let reference = chrono::NaiveDate::from_ymd_opt(2024, 3, 5)
        .unwrap()
        .and_hms_milli_opt(13, 1, 2, 3)
        .unwrap()
        .format("%Y-%m-%d %H:%M:%S%.3f")
        .to_string();
    assert_eq!(single_text(&pb), reference);
}

#[test]
fn local_timestamp_shares_the_wall_clock_text() {
    let date = SqlDate::new(1999, 12, 31).unwrap();
    let ts = SqlTimestamp::new(date, 23, 59, 59, 999).unwrap();
    let pb = assemble(SqlTimestampLtz(ts));
    assert_eq!(pb.type_, Some(SnowflakeType::TimestampLtz));
    assert_eq!(single_text(&pb), "1999-12-31 23:59:59.999");
}

#[test]
fn zoned_timestamp_appends_the_offset() {
    let date = SqlDate::new(2024, 3, 5).unwrap();
    let ts = SqlTimestamp::new(date, 13, 1, 2, 3).unwrap();
    let tz = SqlTimestampTz::new(ts, 330).expect("an offset within a day");
    let pb = assemble(tz);
    assert_eq!(pb.type_, Some(SnowflakeType::TimestampTz));
    assert_eq!(single_text(&pb), "2024-03-05 13:01:02.003 +0530");

    let reference = chrono::FixedOffset::east_opt(330 * 60)
        .unwrap()
        .with_ymd_and_hms(2024, 3, 5, 13, 1, 2)
        .unwrap()
        .checked_add_signed(chrono::Duration::milliseconds(3))
        .unwrap()
        .format("%Y-%m-%d %H:%M:%S%.3f %z")
        .to_string();
    assert_eq!(single_text(&pb), reference);

    let date = SqlDate::new(2024, 3, 5).unwrap();
    let ts = SqlTimestamp::new(date, 0, 0, 0, 0).unwrap();
    let west = SqlTimestampTz::new(ts, -90).unwrap();
    let pb = assemble(west);
    assert_eq!(single_text(&pb), "2024-03-05 00:00:00.000 -0130");
}

#[test]
fn timestamp_rejects_impossible_times() {
    let date = SqlDate::new(2024, 3, 5).unwrap();
    assert!(SqlTimestamp::new(date, 24, 0, 0, 0).is_none());
    let date = SqlDate::new(2024, 3, 5).unwrap();
    assert!(SqlTimestamp::new(date, 0, 60, 0, 0).is_none());
    let date = SqlDate::new(2024, 3, 5).unwrap();
    assert!(SqlTimestamp::new(date, 0, 0, 0, 1000).is_none());
    let date = SqlDate::new(2024, 3, 5).unwrap();
    let ts = SqlTimestamp::new(date, 0, 0, 0, 0).unwrap();
    assert!(SqlTimestampTz::new(ts, 1440).is_none());
}

#[test]
fn bindings_map_inserts_looks_up_and_replaces() {
    let mut bindings = Bindings::new();
    assert_eq!(bindings.len(), 0);

    bindings.insert(String::from("a"), assemble(1i64));
    bindings.insert(String::from("b"), assemble(String::from("x")));
    assert_eq!(bindings.len(), 2);

    let a = bindings.get(&String::from("a")).expect("a is bound");
    assert_eq!(single_text(a), "1");
    assert!(bindings.get(&String::from("c")).is_none());

    bindings.insert(String::from("a"), assemble(2i64));
    assert_eq!(bindings.len(), 2);
    let a = bindings.get(&String::from("a")).expect("a is still bound");
    assert_eq!(single_text(a), "2");

    let entries = bindings.entry_list();
    assert_eq!(entries.len(), 2);
}

#[test]
fn wrong_type_message_names_both_identities() {
    let err = WrongType::new(SnowflakeType::Fixed, "f32");
    assert_eq!(
        err.message(),
        "cannot convert between the Rust type `f32` and the snowflake type `FIXED`"
    );
}

#[test]
fn outside_errors_map_to_their_variants() {
    let json_err = serde_json::from_str::<serde_json::Value>("{").unwrap_err();
    let err = BindingError::from(json_err);
    assert!(matches!(err, BindingError::SerialisationError(_)));

    let utf8_err = String::from_utf8(vec![0xff, 0xfe]).unwrap_err();
    let err = BindingError::from(utf8_err);
    assert!(matches!(err, BindingError::Utf8EncodingError(_)));

    let err = BindingError::from(WrongType::new(SnowflakeType::Text, "u128"));
    assert!(matches!(err, BindingError::WrongType(_)));
}
