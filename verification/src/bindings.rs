//! The value-encoder capability and its built-in implementers: every bindable
//! value reports a wire type tag, appends its UTF-8 text to an output buffer
//! (or signals absence), and reports an optional format hint.

use crate::buffer::{text_of, utf8_valid, write_one_char, write_text};
use crate::errors::BindingError;
use crate::json::{json_text_of, json_write};
use crate::numeric::{i64_decimal, spec_decimal, u64_decimal};
use crate::tags::SnowflakeType;
use vstd::prelude::*;

verus! {

/// The capability every bindable value implements.
///
/// The four spec functions are the mathematical model of an implementer: the
/// tag it reports, whether it writes text or signals absence, the text it
/// appends when it runs, and its format hint (empty meaning absent).
/// `spec_encodes` says when encoding is guaranteed to succeed; every built-in
/// implementer guarantees it, and the flag exists for implementers outside
/// this crate whose encoding may fail. Even a failing call leaves the
/// caller's earlier text in place: encoders only append.
pub trait ToSql {
    /// The wire tag this value reports.
    spec fn spec_sql_type(&self) -> SnowflakeType;

    /// Whether this value writes text (present) or signals absence.
    spec fn spec_present(&self) -> bool;

    /// The text this value appends to the buffer; empty when absent.
    spec fn spec_text(&self) -> Seq<char>;

    /// The format hint this value reports; empty means absent.
    spec fn spec_format(&self) -> Seq<char>;

    /// Whether encoding is guaranteed to return `Ok`.
    spec fn spec_encodes(&self) -> bool;

    /// The wire type tag. Pure; never fails.
    fn sql_type(&self) -> (t: SnowflakeType)
        ensures
            t == self.spec_sql_type(),
    ;

    /// Appends the value's UTF-8 text to `out` and reports `Some` when text
    /// was written, `None` when the value is absent.
    fn to_sql(&self, out: &mut bytes::BytesMut) -> (r: Result<Option<()>, BindingError>)
        ensures
            self.spec_encodes() ==> r is Ok,
            r matches Ok(w) ==> {
                &&& (w is Some <==> self.spec_present())
                &&& text_of(*final(out)) == text_of(*old(out)) + self.spec_text()
                &&& (!self.spec_present() ==> self.spec_text() == Seq::<char>::empty())
                &&& (utf8_valid(*old(out)) ==> utf8_valid(*final(out)))
            },
            r is Err ==> text_of(*old(out)).is_prefix_of(text_of(*final(out))),
    ;

    /// The optional format hint; the empty string means "use the tag's
    /// default wire encoding".
    fn encode_format(&self) -> (f: String)
        ensures
            f@ == self.spec_format(),
    ;
}

impl ToSql for String {
    open spec fn spec_sql_type(&self) -> SnowflakeType {
        SnowflakeType::Text
    }

    open spec fn spec_present(&self) -> bool {
        true
    }

    open spec fn spec_text(&self) -> Seq<char> {
        self@
    }

    open spec fn spec_format(&self) -> Seq<char> {
        Seq::empty()
    }

    open spec fn spec_encodes(&self) -> bool {
        true
    }

    fn sql_type(&self) -> SnowflakeType {
        SnowflakeType::Text
    }

    fn to_sql(&self, out: &mut bytes::BytesMut) -> Result<Option<()>, BindingError> {
        write_text(out, self.as_str());
        Ok(Some(()))
    }

    fn encode_format(&self) -> String {
        String::new()
    }
}

impl<'a> ToSql for &'a str {
    open spec fn spec_sql_type(&self) -> SnowflakeType {
        SnowflakeType::Text
    }

    open spec fn spec_present(&self) -> bool {
        true
    }

    open spec fn spec_text(&self) -> Seq<char> {
        self@
    }

    open spec fn spec_format(&self) -> Seq<char> {
        Seq::empty()
    }

    open spec fn spec_encodes(&self) -> bool {
        true
    }

    fn sql_type(&self) -> SnowflakeType {
        SnowflakeType::Text
    }

    fn to_sql(&self, out: &mut bytes::BytesMut) -> Result<Option<()>, BindingError> {
        write_text(out, self);
        Ok(Some(()))
    }

    fn encode_format(&self) -> String {
        String::new()
    }
}

impl ToSql for char {
    open spec fn spec_sql_type(&self) -> SnowflakeType {
        SnowflakeType::Text
    }

    open spec fn spec_present(&self) -> bool {
        true
    }

    open spec fn spec_text(&self) -> Seq<char> {
        seq![*self]
    }

    open spec fn spec_format(&self) -> Seq<char> {
        Seq::empty()
    }

    open spec fn spec_encodes(&self) -> bool {
        true
    }

    fn sql_type(&self) -> SnowflakeType {
        SnowflakeType::Text
    }

    fn to_sql(&self, out: &mut bytes::BytesMut) -> Result<Option<()>, BindingError> {
        write_one_char(out, *self);
        Ok(Some(()))
    }

    fn encode_format(&self) -> String {
        String::new()
    }
}

impl ToSql for i8 {
    open spec fn spec_sql_type(&self) -> SnowflakeType {
        SnowflakeType::Fixed
    }

    open spec fn spec_present(&self) -> bool {
        true
    }

    open spec fn spec_text(&self) -> Seq<char> {
        spec_decimal(*self as int)
    }

    open spec fn spec_format(&self) -> Seq<char> {
        Seq::empty()
    }

    open spec fn spec_encodes(&self) -> bool {
        true
    }

    fn sql_type(&self) -> SnowflakeType {
        SnowflakeType::Fixed
    }

    fn to_sql(&self, out: &mut bytes::BytesMut) -> Result<Option<()>, BindingError> {
        let s = i64_decimal(*self as i64);
        write_text(out, s.as_str());
        Ok(Some(()))
    }

    fn encode_format(&self) -> String {
        String::new()
    }
}

impl ToSql for u8 {
    open spec fn spec_sql_type(&self) -> SnowflakeType {
        SnowflakeType::Fixed
    }

    open spec fn spec_present(&self) -> bool {
        true
    }

    open spec fn spec_text(&self) -> Seq<char> {
        spec_decimal(*self as int)
    }

    open spec fn spec_format(&self) -> Seq<char> {
        Seq::empty()
    }

    open spec fn spec_encodes(&self) -> bool {
        true
    }

    fn sql_type(&self) -> SnowflakeType {
        SnowflakeType::Fixed
    }

    fn to_sql(&self, out: &mut bytes::BytesMut) -> Result<Option<()>, BindingError> {
        let s = u64_decimal(*self as u64);
        write_text(out, s.as_str());
        Ok(Some(()))
    }

    fn encode_format(&self) -> String {
        String::new()
    }
}

impl ToSql for i16 {
    open spec fn spec_sql_type(&self) -> SnowflakeType {
        SnowflakeType::Fixed
    }

    open spec fn spec_present(&self) -> bool {
        true
    }

    open spec fn spec_text(&self) -> Seq<char> {
        spec_decimal(*self as int)
    }

    open spec fn spec_format(&self) -> Seq<char> {
        Seq::empty()
    }

    open spec fn spec_encodes(&self) -> bool {
        true
    }

    fn sql_type(&self) -> SnowflakeType {
        SnowflakeType::Fixed
    }

    fn to_sql(&self, out: &mut bytes::BytesMut) -> Result<Option<()>, BindingError> {
        let s = i64_decimal(*self as i64);
        write_text(out, s.as_str());
        Ok(Some(()))
    }

    fn encode_format(&self) -> String {
        String::new()
    }
}

impl ToSql for u16 {
    open spec fn spec_sql_type(&self) -> SnowflakeType {
        SnowflakeType::Fixed
    }

    open spec fn spec_present(&self) -> bool {
        true
    }

    open spec fn spec_text(&self) -> Seq<char> {
        spec_decimal(*self as int)
    }

    open spec fn spec_format(&self) -> Seq<char> {
        Seq::empty()
    }

    open spec fn spec_encodes(&self) -> bool {
        true
    }

    fn sql_type(&self) -> SnowflakeType {
        SnowflakeType::Fixed
    }

    fn to_sql(&self, out: &mut bytes::BytesMut) -> Result<Option<()>, BindingError> {
        let s = u64_decimal(*self as u64);
        write_text(out, s.as_str());
        Ok(Some(()))
    }

    fn encode_format(&self) -> String {
        String::new()
    }
}

impl ToSql for i32 {
    open spec fn spec_sql_type(&self) -> SnowflakeType {
        SnowflakeType::Fixed
    }

    open spec fn spec_present(&self) -> bool {
        true
    }

    open spec fn spec_text(&self) -> Seq<char> {
        spec_decimal(*self as int)
    }

    open spec fn spec_format(&self) -> Seq<char> {
        Seq::empty()
    }

    open spec fn spec_encodes(&self) -> bool {
        true
    }

    fn sql_type(&self) -> SnowflakeType {
        SnowflakeType::Fixed
    }

    fn to_sql(&self, out: &mut bytes::BytesMut) -> Result<Option<()>, BindingError> {
        let s = i64_decimal(*self as i64);
        write_text(out, s.as_str());
        Ok(Some(()))
    }

    fn encode_format(&self) -> String {
        String::new()
    }
}

impl ToSql for u32 {
    open spec fn spec_sql_type(&self) -> SnowflakeType {
        SnowflakeType::Fixed
    }

    open spec fn spec_present(&self) -> bool {
        true
    }

    open spec fn spec_text(&self) -> Seq<char> {
        spec_decimal(*self as int)
    }

    open spec fn spec_format(&self) -> Seq<char> {
        Seq::empty()
    }

    open spec fn spec_encodes(&self) -> bool {
        true
    }

    fn sql_type(&self) -> SnowflakeType {
        SnowflakeType::Fixed
    }

    fn to_sql(&self, out: &mut bytes::BytesMut) -> Result<Option<()>, BindingError> {
        let s = u64_decimal(*self as u64);
        write_text(out, s.as_str());
        Ok(Some(()))
    }

    fn encode_format(&self) -> String {
        String::new()
    }
}

impl ToSql for i64 {
    open spec fn spec_sql_type(&self) -> SnowflakeType {
        SnowflakeType::Fixed
    }

    open spec fn spec_present(&self) -> bool {
        true
    }

    open spec fn spec_text(&self) -> Seq<char> {
        spec_decimal(*self as int)
    }

    open spec fn spec_format(&self) -> Seq<char> {
        Seq::empty()
    }

    open spec fn spec_encodes(&self) -> bool {
        true
    }

    fn sql_type(&self) -> SnowflakeType {
        SnowflakeType::Fixed
    }

    fn to_sql(&self, out: &mut bytes::BytesMut) -> Result<Option<()>, BindingError> {
        let s = i64_decimal(*self);
        write_text(out, s.as_str());
        Ok(Some(()))
    }

    fn encode_format(&self) -> String {
        String::new()
    }
}

impl ToSql for u64 {
    open spec fn spec_sql_type(&self) -> SnowflakeType {
        SnowflakeType::Fixed
    }

    open spec fn spec_present(&self) -> bool {
        true
    }

    open spec fn spec_text(&self) -> Seq<char> {
        spec_decimal(*self as int)
    }

    open spec fn spec_format(&self) -> Seq<char> {
        Seq::empty()
    }

    open spec fn spec_encodes(&self) -> bool {
        true
    }

    fn sql_type(&self) -> SnowflakeType {
        SnowflakeType::Fixed
    }

    fn to_sql(&self, out: &mut bytes::BytesMut) -> Result<Option<()>, BindingError> {
        let s = u64_decimal(*self);
        write_text(out, s.as_str());
        Ok(Some(()))
    }

    fn encode_format(&self) -> String {
        String::new()
    }
}

impl<'a, T: ToSql> ToSql for &'a T {
    open spec fn spec_sql_type(&self) -> SnowflakeType {
        (**self).spec_sql_type()
    }

    open spec fn spec_present(&self) -> bool {
        (**self).spec_present()
    }

    open spec fn spec_text(&self) -> Seq<char> {
        (**self).spec_text()
    }

    open spec fn spec_format(&self) -> Seq<char> {
        (**self).spec_format()
    }

    open spec fn spec_encodes(&self) -> bool {
        (**self).spec_encodes()
    }

    fn sql_type(&self) -> SnowflakeType {
        (*self).sql_type()
    }

    fn to_sql(&self, out: &mut bytes::BytesMut) -> Result<Option<()>, BindingError> {
        (*self).to_sql(out)
    }

    fn encode_format(&self) -> String {
        (*self).encode_format()
    }
}

impl<T: ToSql> ToSql for Box<T> {
    open spec fn spec_sql_type(&self) -> SnowflakeType {
        (**self).spec_sql_type()
    }

    open spec fn spec_present(&self) -> bool {
        (**self).spec_present()
    }

    open spec fn spec_text(&self) -> Seq<char> {
        (**self).spec_text()
    }

    open spec fn spec_format(&self) -> Seq<char> {
        (**self).spec_format()
    }

    open spec fn spec_encodes(&self) -> bool {
        (**self).spec_encodes()
    }

    fn sql_type(&self) -> SnowflakeType {
        T::sql_type(&*self)
    }

    fn to_sql(&self, out: &mut bytes::BytesMut) -> Result<Option<()>, BindingError> {
        T::to_sql(&*self, out)
    }

    fn encode_format(&self) -> String {
        T::encode_format(&*self)
    }
}

/// Zero-or-one inner value: absence stands for an optional or missing
/// parameter without a distinct null type.
impl<T: ToSql> ToSql for Option<T> {
    open spec fn spec_sql_type(&self) -> SnowflakeType {
        match self {
            Some(v) => v.spec_sql_type(),
            None => SnowflakeType::UnknownNull,
        }
    }

    open spec fn spec_present(&self) -> bool {
        self is Some
    }

    open spec fn spec_text(&self) -> Seq<char> {
        match self {
            Some(v) => v.spec_text(),
            None => Seq::empty(),
        }
    }

    open spec fn spec_format(&self) -> Seq<char> {
        match self {
            Some(v) => v.spec_format(),
            None => Seq::empty(),
        }
    }

    open spec fn spec_encodes(&self) -> bool {
        match self {
            Some(v) => v.spec_encodes(),
            None => true,
        }
    }

    fn sql_type(&self) -> SnowflakeType {
        match self {
            Some(v) => v.sql_type(),
            None => SnowflakeType::UnknownNull,
        }
    }

    fn to_sql(&self, out: &mut bytes::BytesMut) -> Result<Option<()>, BindingError> {
        match self {
            None => Ok(None),
            Some(s) => match s.to_sql(out) {
                Ok(_) => Ok(Some(())),
                Err(e) => Err(e),
            },
        }
    }

    fn encode_format(&self) -> String {
        match self {
            Some(v) => v.encode_format(),
            None => String::new(),
        }
    }
}

/// A dynamically typed value: the exclusive owner of one boxed encodable
/// value of any concrete kind. It advertises the semi-structured tag to the
/// backend whatever the inner kind is, and delegates everything else.
pub struct Variant<T: ToSql>(pub Box<T>);

impl<T: ToSql> ToSql for Variant<T> {
    open spec fn spec_sql_type(&self) -> SnowflakeType {
        SnowflakeType::Variant
    }

    open spec fn spec_present(&self) -> bool {
        self.0.spec_present()
    }

    open spec fn spec_text(&self) -> Seq<char> {
        self.0.spec_text()
    }

    open spec fn spec_format(&self) -> Seq<char> {
        self.0.spec_format()
    }

    open spec fn spec_encodes(&self) -> bool {
        self.0.spec_encodes()
    }

    fn sql_type(&self) -> SnowflakeType {
        SnowflakeType::Variant
    }

    fn to_sql(&self, out: &mut bytes::BytesMut) -> Result<Option<()>, BindingError> {
        self.0.to_sql(out)
    }

    fn encode_format(&self) -> String {
        self.0.encode_format()
    }
}

/// A structured object, serialized wholesale as JSON text in a single pass
/// directly into the output buffer. A JSON document gives the serializer
/// nothing to reject, so its encoding is guaranteed; the serialization-error
/// branch remains for the serializer's own word on it.
pub struct Object(pub serde_json::Value);

impl ToSql for Object {
    open spec fn spec_sql_type(&self) -> SnowflakeType {
        SnowflakeType::Object
    }

    open spec fn spec_present(&self) -> bool {
        true
    }

    open spec fn spec_text(&self) -> Seq<char> {
        json_text_of(self.0)
    }

    open spec fn spec_format(&self) -> Seq<char> {
        "json"@
    }

    open spec fn spec_encodes(&self) -> bool {
        true
    }

    fn sql_type(&self) -> SnowflakeType {
        SnowflakeType::Object
    }

    fn to_sql(&self, out: &mut bytes::BytesMut) -> Result<Option<()>, BindingError> {
        match json_write(out, &self.0) {
            Ok(_) => Ok(Some(())),
            Err(e) => Err(BindingError::SerialisationError(e)),
        }
    }

    fn encode_format(&self) -> String {
        String::from_str("json")
    }
}

} // verus!
