//! The type-tag registry: the closed set of wire type identifiers the remote
//! service understands. Every bindable value kind maps onto one of these tags;
//! the tag tells the backend how to reinterpret the accompanying text payload.

use vstd::prelude::*;

verus! {

/// Wire type identifier for a bound parameter.
#[derive(Clone, Copy, Debug, PartialEq, Eq, Structural)]
pub enum SnowflakeType {
    /// Character data; also used for calendar dates rendered as text.
    Text,
    /// Fixed-point numbers: every integer width shares this tag.
    Fixed,
    /// Floating-point numbers.
    Real,
    /// Semi-structured, dynamically typed column value.
    Variant,
    /// Structured object serialized wholesale as JSON text.
    Object,
    /// An absent value bound without a more specific type.
    UnknownNull,
    /// Timestamp without a time zone.
    TimestampNtz,
    /// Timestamp in the session's local time zone.
    TimestampLtz,
    /// Timestamp with an explicit UTC offset.
    TimestampTz,
}

impl SnowflakeType {
    /// The canonical textual name of the tag, used both on the wire and in
    /// type-mismatch error messages.
    pub open spec fn spec_wire_name(self) -> Seq<char> {
        match self {
            SnowflakeType::Text => "TEXT"@,
            SnowflakeType::Fixed => "FIXED"@,
            SnowflakeType::Real => "REAL"@,
            SnowflakeType::Variant => "VARIANT"@,
            SnowflakeType::Object => "OBJECT"@,
            SnowflakeType::UnknownNull => "ANY"@,
            SnowflakeType::TimestampNtz => "TIMESTAMP_NTZ"@,
            SnowflakeType::TimestampLtz => "TIMESTAMP_LTZ"@,
            SnowflakeType::TimestampTz => "TIMESTAMP_TZ"@,
        }
    }

    /// Canonical textual name of the tag.
    pub fn wire_name(&self) -> (r: &'static str)
        ensures
            r@ == self.spec_wire_name(),
    {
        match self {
            SnowflakeType::Text => "TEXT",
            SnowflakeType::Fixed => "FIXED",
            SnowflakeType::Real => "REAL",
            SnowflakeType::Variant => "VARIANT",
            SnowflakeType::Object => "OBJECT",
            SnowflakeType::UnknownNull => "ANY",
            SnowflakeType::TimestampNtz => "TIMESTAMP_NTZ",
            SnowflakeType::TimestampLtz => "TIMESTAMP_LTZ",
            SnowflakeType::TimestampTz => "TIMESTAMP_TZ",
        }
    }
}

} // verus!
