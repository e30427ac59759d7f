//! Behavior of the built-in encoders and the composite wrappers, exercised
//! through the public assembler with the real outside crates linked.

use snowflake_bindings::bindings::{Object, ToSql, Variant};
use snowflake_bindings::requests::{BindingValue, ParameterBinding};
use snowflake_bindings::tags::SnowflakeType;

fn assemble<T: ToSql>(v: T) -> ParameterBinding {
    let Ok(pb) = ParameterBinding::try_from(Box::new(v)) else {
        panic!("assembling failed");
    };
    pb
}

fn single_text(pb: &ParameterBinding) -> &str {
    match &pb.value {
        BindingValue::SingleBind(s) => s.as_str(),
        BindingValue::MultiBind(_) => panic!("expected a single bind"),
    }
}

#[test]
fn integer_widths_encode_canonical_decimal() {
    let cases: Vec<(ParameterBinding, &str)> = vec![
        (assemble(0u8), "0"),
        (assemble(-5i8), "-5"),
        (assemble(-300i16), "-300"),
        (assemble(65535u16), "65535"),
        (assemble(i32::MIN), "-2147483648"),
        (assemble(4294967295u32), "4294967295"),
        (assemble(i64::MIN), "-9223372036854775808"),
        (assemble(u64::MAX), "18446744073709551615"),
    ];
    for (pb, expected) in &cases {
        assert_eq!(pb.type_, Some(SnowflakeType::Fixed));
        assert_eq!(pb.fmt, None);
        assert_eq!(single_text(pb), *expected);
    }
}

#[test]
fn integer_text_has_no_leading_zeros_or_spurious_sign() {
    assert_eq!(single_text(&assemble(1000000i64)), "1000000");
    assert_eq!(single_text(&assemble(0i64)), "0");
    assert_eq!(single_text(&assemble(-1i64)), "-1");
    assert_eq!(single_text(&assemble(7u8)), "7");
}

#[test]
fn assemble_text_hello() {
    let pb = assemble(String::from("hello"));
    assert_eq!(pb.type_, Some(SnowflakeType::Text));
    assert_eq!(pb.fmt, None);
    assert_eq!(single_text(&pb), "hello");
}

#[test]
fn str_and_char_encode_as_text() {
    let pb = assemble("wo rld");
    assert_eq!(pb.type_, Some(SnowflakeType::Text));
    assert_eq!(single_text(&pb), "wo rld");

    let pb = assemble('h');
    assert_eq!(pb.type_, Some(SnowflakeType::Text));
    assert_eq!(single_text(&pb), "h");
}

#[test]
fn empty_string_still_counts_as_present_text() {
    let pb = assemble(String::new());
    assert_eq!(pb.type_, Some(SnowflakeType::Text));
    assert_eq!(single_text(&pb), "");
}

#[test]
fn nullable_absent_reports_unknown_null() {
    let pb = assemble(None::<i64>);
    assert_eq!(pb.type_, Some(SnowflakeType::UnknownNull));
    assert_eq!(pb.fmt, None);
    assert_eq!(single_text(&pb), "");
}

#[test]
fn nullable_present_matches_direct_encoding() {
    let direct = 42i32;
    let wrapped = Some(42i32);
    assert_eq!(wrapped.sql_type(), direct.sql_type());
    assert_eq!(wrapped.encode_format(), direct.encode_format());

    let mut direct_buf = bytes::BytesMut::new();
    let mut wrapped_buf = bytes::BytesMut::new();
    assert!(direct.to_sql(&mut direct_buf).is_ok());
    assert!(wrapped.to_sql(&mut wrapped_buf).is_ok());
    assert_eq!(&direct_buf[..], &wrapped_buf[..]);

    let pb = assemble(Some(42i32));
    assert_eq!(pb.type_, Some(SnowflakeType::Fixed));
    assert_eq!(single_text(&pb), "42");
}

#[test]
fn dynamic_reports_variant_and_reproduces_inner_bytes() {
    let inner = "abc";
    let dynamic = Variant(Box::new("abc"));
    assert_eq!(dynamic.sql_type(), SnowflakeType::Variant);
    assert_eq!(dynamic.encode_format(), inner.encode_format());

    let mut direct_buf = bytes::BytesMut::new();
    let mut dynamic_buf = bytes::BytesMut::new();
    assert!(inner.to_sql(&mut direct_buf).is_ok());
    assert!(dynamic.to_sql(&mut dynamic_buf).is_ok());
    assert_eq!(&direct_buf[..], &dynamic_buf[..]);

    let pb = assemble(Variant(Box::new(17u16)));
    assert_eq!(pb.type_, Some(SnowflakeType::Variant));
    assert_eq!(single_text(&pb), "17");
}

#[test]
fn object_reports_tag_and_json_format_and_round_trips() {
    let mut map = serde_json::Map::new();
    map.insert(String::from("a"), serde_json::Value::from(1i64));
    map.insert(
        String::from("b"),
        serde_json::Value::Array(vec![serde_json::Value::Bool(true), serde_json::Value::Null]),
    );
    let doc = serde_json::Value::Object(map);

    let pb = assemble(Object(doc.clone()));
    assert_eq!(pb.type_, Some(SnowflakeType::Object));
    assert_eq!(pb.fmt, Some(String::from("json")));
    let text = single_text(&pb);
    let back: serde_json::Value = serde_json::from_str(text).expect("the payload is JSON");
    assert_eq!(back, doc);
}

#[test]
fn boxed_value_encodes_like_the_value() {
    let pb = assemble(Box::new(-8i64));
    assert_eq!(pb.type_, Some(SnowflakeType::Fixed));
    assert_eq!(single_text(&pb), "-8");
}

#[test]
fn independent_assemblies_do_not_affect_each_other() {
    let first = assemble(String::from("hello"));
    let second = assemble(123456i64);
    assert_eq!(single_text(&first), "hello");
    assert_eq!(single_text(&second), "123456");
    assert_eq!(first.type_, Some(SnowflakeType::Text));
    assert_eq!(second.type_, Some(SnowflakeType::Fixed));
    // Encoding is deterministic: a later identical assembly reproduces the
    // first record exactly.
    let again = assemble(String::from("hello"));
    assert_eq!(single_text(&again), single_text(&first));
    assert_eq!(again.type_, first.type_);
    assert_eq!(again.fmt, first.fmt);
}

#[test]
fn record_assembly_normalizes_empty_hints() {
    let pb = ParameterBinding::assemble_record(
        SnowflakeType::Text,
        String::new(),
        String::from("t"),
    );
    assert_eq!(pb.type_, Some(SnowflakeType::Text));
    assert_eq!(pb.fmt, None);
    assert_eq!(single_text(&pb), "t");

    let pb = ParameterBinding::assemble_record(
        SnowflakeType::Object,
        String::from("json"),
        String::from("{}"),
    );
    assert_eq!(pb.fmt, Some(String::from("json")));
    assert_eq!(single_text(&pb), "{}");
}

#[test]
fn wire_names_match_the_protocol_vocabulary() {
    assert_eq!(SnowflakeType::Text.wire_name(), "TEXT");
    assert_eq!(SnowflakeType::Fixed.wire_name(), "FIXED");
    assert_eq!(SnowflakeType::Real.wire_name(), "REAL");
    assert_eq!(SnowflakeType::Variant.wire_name(), "VARIANT");
    assert_eq!(SnowflakeType::Object.wire_name(), "OBJECT");
    assert_eq!(SnowflakeType::UnknownNull.wire_name(), "ANY");
    assert_eq!(SnowflakeType::TimestampNtz.wire_name(), "TIMESTAMP_NTZ");
    assert_eq!(SnowflakeType::TimestampLtz.wire_name(), "TIMESTAMP_LTZ");
    assert_eq!(SnowflakeType::TimestampTz.wire_name(), "TIMESTAMP_TZ");
}
