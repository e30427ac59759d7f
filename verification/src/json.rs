//! The trusted boundary around `serde_json`, used by the structured-object
//! wrapper: a JSON document is carried opaquely and serialized wholesale into
//! the output buffer.

use crate::buffer::text_of;
use vstd::prelude::*;

verus! {

/// `serde_json::Value`, declared so a structured object can hold one. Verus
/// sees nothing inside a value of it; [`json_text_of`] names its rendering.
#[verifier::external_type_specification]
#[verifier::external_body]
pub struct ExValue(serde_json::Value);

/// The JSON text `serde_json` renders a document to. The rendering depends on
/// the document alone: object keys are kept in their map's fixed order and
/// numbers are printed by a deterministic shortest-form rule.
pub uninterp spec fn json_text_of(v: serde_json::Value) -> Seq<char>;

/// Relies on `serde_json::to_writer` over `bytes`' `BufMut` writer: it
/// appends exactly the JSON text of `v` to the buffer and succeeds. A JSON
/// document gives the serializer nothing to reject — its maps are keyed by
/// strings and its numbers are finite — and the writer reports no error
/// short of a buffer already at the maximal allocation (`isize::MAX` bytes),
/// the bound at which the standard growable containers abort.
#[verifier::external_body]
pub(crate) fn json_write(out: &mut bytes::BytesMut, v: &serde_json::Value) -> (r: Result<
    (),
    serde_json::Error,
>)
    ensures
        r is Ok,
        text_of(*final(out)) == text_of(*old(out)) + json_text_of(*v),
        crate::buffer::utf8_valid(*old(out)) ==> crate::buffer::utf8_valid(*final(out)),
{
    serde_json::to_writer(bytes::BufMut::writer(out), v)
}

} // verus!
