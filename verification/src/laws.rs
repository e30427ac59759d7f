//! The composition laws of the wrappers, stated over the encoder model and
//! proved once for every implementer of the capability.

use crate::bindings::{Object, ToSql, Variant};
use crate::numeric::{lemma_decimal_canonical, spec_decimal};
use crate::tags::SnowflakeType;
use vstd::prelude::*;

verus! {

/// Law: a signed integer encodes to its canonical decimal text under the
/// fixed-point tag with no format hint — never empty, a sign exactly when
/// negative, no leading zeros. Every signed width embeds into this one.
pub proof fn lemma_signed_integer_encoding(v: i64)
    ensures
        v.spec_sql_type() == SnowflakeType::Fixed,
        v.spec_text() == spec_decimal(v as int),
        v.spec_format() == Seq::<char>::empty(),
        v.spec_text().len() >= 1,
        (v.spec_text()[0] == '-') <==> v < 0,
        v > 0 ==> v.spec_text()[0] != '0',
{
    lemma_decimal_canonical(v as int);
}

/// Law: an unsigned integer encodes to its canonical decimal text under the
/// fixed-point tag with no format hint — never empty, never signed, no
/// leading zeros. Every unsigned width embeds into this one.
pub proof fn lemma_unsigned_integer_encoding(v: u64)
    ensures
        v.spec_sql_type() == SnowflakeType::Fixed,
        v.spec_text() == spec_decimal(v as int),
        v.spec_format() == Seq::<char>::empty(),
        v.spec_text().len() >= 1,
        v.spec_text()[0] != '-',
        v > 0 ==> v.spec_text()[0] != '0',
{
    lemma_decimal_canonical(v as int);
}

/// Law: an absent nullable always reports the unknown-null tag, writes no
/// text, and carries no format hint.
pub proof fn lemma_nullable_absent<T: ToSql>(v: Option<T>)
    requires
        v is None,
    ensures
        v.spec_sql_type() == SnowflakeType::UnknownNull,
        !v.spec_present(),
        v.spec_text() == Seq::<char>::empty(),
        v.spec_format() == Seq::<char>::empty(),
{
}

/// Law: a present nullable encodes exactly as its inner value does — the same
/// tag, the same text, the same format hint.
pub proof fn lemma_nullable_present<T: ToSql>(v: Option<T>, inner: T)
    requires
        v == Some(inner),
    ensures
        v.spec_sql_type() == inner.spec_sql_type(),
        v.spec_text() == inner.spec_text(),
        v.spec_format() == inner.spec_format(),
{
}

/// Law: the dynamic wrapper always reports the semi-structured tag, whatever
/// the inner value's own tag is, while reproducing the inner value's exact
/// text, presence and format hint.
pub proof fn lemma_dynamic_reports_variant<T: ToSql>(v: Variant<T>)
    ensures
        v.spec_sql_type() == SnowflakeType::Variant,
        v.spec_text() == v.0.spec_text(),
        v.spec_present() == v.0.spec_present(),
        v.spec_format() == v.0.spec_format(),
{
}

/// Law: a structured object always reports the object tag and the `json`
/// format hint, is always present, and its encoding is guaranteed — a JSON
/// document gives the serializer nothing to reject.
pub proof fn lemma_object_tag_and_format(v: Object)
    ensures
        v.spec_sql_type() == SnowflakeType::Object,
        v.spec_format() == "json"@,
        v.spec_present(),
        v.spec_encodes(),
{
}

} // verus!
