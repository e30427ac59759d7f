//! The error taxonomy of the binding layer. Every failure returns to the
//! immediate caller; nothing is logged, swallowed or retried inside the core.

use crate::tags::SnowflakeType;
use vstd::prelude::*;

verus! {

/// `serde_json::Error`, declared so the serialization-error variant can carry
/// it, as the structured-object serializer reports it.
#[verifier::external_type_specification]
#[verifier::external_body]
pub struct ExJsonError(serde_json::Error);

/// The text of a type-mismatch message, naming both identities.
pub open spec fn spec_mismatch_message(host: Seq<char>, tag: SnowflakeType) -> Seq<char> {
    "cannot convert between the Rust type `"@ + host + "` and the snowflake type `"@
        + tag.spec_wire_name() + "`"@
}

/// A conversion paired an incompatible host value with a wire tag. Carries
/// both identities for diagnostics.
pub struct WrongType {
    snowflake: SnowflakeType,
    rust: &'static str,
}

impl WrongType {
    /// The wire tag of the failed conversion.
    pub closed spec fn spec_tag(&self) -> SnowflakeType {
        self.snowflake
    }

    /// The name of the host type of the failed conversion.
    pub closed spec fn spec_host_type(&self) -> Seq<char> {
        self.rust@
    }

    /// Records a mismatch between the named host type and the wire tag.
    /// Callers typically pass the host type's name as the standard library's
    /// type-name intrinsic in `std::any` reports it.
    pub fn new(snowflake: SnowflakeType, rust: &'static str) -> (r: Self)
        ensures
            r.spec_tag() == snowflake,
            r.spec_host_type() == rust@,
    {
        Self { snowflake, rust }
    }

    /// A human-readable message naming both the host type and the wire tag.
    pub fn message(&self) -> (m: String)
        ensures
            m@ == spec_mismatch_message(self.spec_host_type(), self.spec_tag()),
    {
        let mut m = String::from_str("cannot convert between the Rust type `");
        m.append(self.rust);
        m.append("` and the snowflake type `");
        m.append(self.snowflake.wire_name());
        m.append("`");
        proof {
            assert(m@ =~= spec_mismatch_message(self.spec_host_type(), self.spec_tag()));
        }
        m
    }
}

/// What can go wrong while a value is encoded or a binding assembled.
pub enum BindingError {
    /// An incompatible host value was paired with a wire tag.
    WrongType(WrongType),
    /// A text-encoding step produced bytes that are not valid UTF-8.
    Utf8EncodingError(std::string::FromUtf8Error),
    /// A structured-object serialization was rejected by the serializer.
    SerialisationError(serde_json::Error),
}

impl From<WrongType> for BindingError {
    fn from(e: WrongType) -> (r: BindingError) {
        BindingError::WrongType(e)
    }
}

impl vstd::std_specs::convert::FromSpecImpl<WrongType> for BindingError {
    open spec fn obeys_from_spec() -> bool {
        true
    }

    open spec fn from_spec(e: WrongType) -> BindingError {
        BindingError::WrongType(e)
    }
}

impl From<std::string::FromUtf8Error> for BindingError {
    fn from(e: std::string::FromUtf8Error) -> (r: BindingError) {
        BindingError::Utf8EncodingError(e)
    }
}

impl vstd::std_specs::convert::FromSpecImpl<std::string::FromUtf8Error> for BindingError {
    open spec fn obeys_from_spec() -> bool {
        true
    }

    open spec fn from_spec(e: std::string::FromUtf8Error) -> BindingError {
        BindingError::Utf8EncodingError(e)
    }
}

impl From<serde_json::Error> for BindingError {
    fn from(e: serde_json::Error) -> (r: BindingError) {
        BindingError::SerialisationError(e)
    }
}

impl vstd::std_specs::convert::FromSpecImpl<serde_json::Error> for BindingError {
    open spec fn obeys_from_spec() -> bool {
        true
    }

    open spec fn from_spec(e: serde_json::Error) -> BindingError {
        BindingError::SerialisationError(e)
    }
}

} // verus!
