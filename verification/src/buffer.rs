//! The output buffer every encoder appends its UTF-8 text to. The buffer is
//! `bytes::BytesMut`, kept behind a small trusted boundary: its contents are
//! abstracted as the text whose UTF-8 encoding the buffer holds, and the few
//! operations the encoders need carry contracts over that abstraction.

use vstd::prelude::*;

verus! {

/// `bytes::BytesMut`, declared so it can stand in signatures. Verus sees
/// nothing inside a value of it; [`text_of`] gives its contents a meaning.
#[verifier::external_type_specification]
#[verifier::external_body]
pub struct ExBytesMut(bytes::BytesMut);

/// The text a buffer holds: the character sequence whose UTF-8 encoding is
/// the buffer's bytes. Every buffer the encoders build is reached from the
/// empty buffer by appending text, so its bytes are always such an encoding.
pub uninterp spec fn text_of(b: bytes::BytesMut) -> Seq<char>;

/// Whether the buffer's bytes are well-formed UTF-8. A fresh buffer is, and
/// appending a string's or a character's encoding keeps it so (the appended
/// bytes begin at a character boundary); the decoding step succeeds exactly
/// here.
pub uninterp spec fn utf8_valid(b: bytes::BytesMut) -> bool;

/// `std::string::FromUtf8Error`, declared so the encoding-error variant can
/// carry it, as the decoding step reports it.
#[verifier::external_type_specification]
#[verifier::external_body]
pub struct ExFromUtf8Error(std::string::FromUtf8Error);

/// Relies on `bytes::BytesMut::new`: a freshly created buffer is empty.
#[verifier::external_body]
pub(crate) fn new_buffer() -> (b: bytes::BytesMut)
    ensures
        text_of(b) == Seq::<char>::empty(),
        utf8_valid(b),
{
    bytes::BytesMut::new()
}

/// Relies on `bytes`' `core::fmt::Write` impl for `BytesMut`: `write_str`
/// appends the UTF-8 bytes of `s`. Its error branch is taken only when the
/// buffer and the text together would pass the maximal allocation
/// (`isize::MAX` bytes); there the call stops instead of returning, as the
/// standard library's growable containers do on the same bound, so every
/// return has appended the text.
#[verifier::external_body]
pub(crate) fn write_text(out: &mut bytes::BytesMut, s: &str)
    ensures
        text_of(*final(out)) == text_of(*old(out)) + s@,
        utf8_valid(*old(out)) ==> utf8_valid(*final(out)),
{
    core::fmt::Write::write_str(out, s).expect("the output buffer passed the maximal allocation");
}

/// Relies on `core::fmt::Write::write_char` (which encodes the character and
/// hands it to `bytes`' `write_str`): appends the UTF-8 bytes of one
/// character, stopping at the same allocation bound as [`write_text`].
#[verifier::external_body]
pub(crate) fn write_one_char(out: &mut bytes::BytesMut, c: char)
    ensures
        text_of(*final(out)) == text_of(*old(out)) + seq![c],
        utf8_valid(*old(out)) ==> utf8_valid(*final(out)),
{
    core::fmt::Write::write_char(out, c).expect("the output buffer passed the maximal allocation");
}

/// Relies on `String::from_utf8` (over the buffer's byte slice): it succeeds
/// exactly when the bytes are well-formed UTF-8, returning the text they
/// encode, and otherwise reports the encoding error.
#[verifier::external_body]
pub(crate) fn take_text(b: &bytes::BytesMut) -> (r: Result<String, std::string::FromUtf8Error>)
    ensures
        r is Ok <==> utf8_valid(*b),
        r matches Ok(s) ==> s@ == text_of(*b),
{
    String::from_utf8(b.to_vec())
}

} // verus!
