//! Byte buffers: what this library relies on from `bytes` and `bytestr`.
//!
//! A [`Bytes`] is an immutable, cheaply movable run of bytes. Verus cannot look
//! inside one, so the contracts of this crate speak of its contents through
//! [`bytes_of`]. Every function in this file is a thin call into one of the two
//! crates; its contract is taken from that crate's source and is not proved.

use bytes::buf::Reader;
use bytes::Bytes;
use bytestr::ByteStr;
use std::str::Utf8Error;
use vstd::prelude::*;
use vstd::string::StringSliceAdditionalSpecFns;
use vstd::utf8::{encode_utf8, valid_utf8};

verus! {

#[verifier::external_type_specification]
#[verifier::external_body]
pub struct ExBytes(bytes::Bytes);

#[verifier::external_type_specification]
#[verifier::external_body]
#[verifier::reject_recursive_types(B)]
pub struct ExReader<B>(bytes::buf::Reader<B>);

#[verifier::external_type_specification]
#[verifier::external_body]
pub struct ExByteStr(bytestr::ByteStr);

#[verifier::external_type_specification]
#[verifier::external_body]
pub struct ExUtf8Error(std::str::Utf8Error);

#[verifier::external_type_specification]
#[verifier::external_body]
pub struct ExIoError(std::io::Error);

/// The bytes that a buffer holds, in order.
pub uninterp spec fn bytes_of(buffer: Bytes) -> Seq<u8>;

/// The bytes of a cursor over a buffer that have not been read yet.
pub uninterp spec fn unread(cursor: Reader<Bytes>) -> Seq<u8>;

/// The bytes that encode a checked text.
pub uninterp spec fn text_bytes(text: ByteStr) -> Seq<u8>;

/// `Bytes::new`: a buffer that holds nothing.
#[verifier::external_body]
pub(crate) fn empty_bytes() -> (buffer: Bytes)
    ensures
        bytes_of(buffer) == Seq::<u8>::empty(),
{
    Bytes::new()
}

/// `Bytes::len`: the number of bytes held.
#[verifier::external_body]
pub(crate) fn bytes_len(buffer: &Bytes) -> (len: usize)
    ensures
        len == bytes_of(*buffer).len(),
{
    buffer.len()
}

/// `Bytes::from(Vec<u8>)`: the buffer takes over the vector's bytes.
#[verifier::external_body]
pub(crate) fn bytes_from_vec(data: Vec<u8>) -> (buffer: Bytes)
    ensures
        bytes_of(buffer) == data@,
{
    Bytes::from(data)
}

/// `Bytes::copy_from_slice`: a new buffer with a copy of the slice.
#[verifier::external_body]
pub(crate) fn bytes_copy(data: &[u8]) -> (buffer: Bytes)
    ensures
        bytes_of(buffer) == data@,
{
    Bytes::copy_from_slice(data)
}

/// `Bytes::as_ref`: the held bytes as a slice, without copying.
#[verifier::external_body]
pub(crate) fn bytes_as_slice(buffer: &Bytes) -> (slice: &[u8])
    ensures
        slice@ == bytes_of(*buffer),
{
    buffer.as_ref()
}

/// `Buf::reader`: a cursor that starts at the buffer's first byte.
#[verifier::external_body]
pub(crate) fn cursor_over(buffer: Bytes) -> (cursor: Reader<Bytes>)
    ensures
        unread(cursor) == bytes_of(buffer),
{
    bytes::Buf::reader(buffer)
}

/// `Reader::get_ref`: the buffer under the cursor, which holds exactly the
/// unread bytes.
#[verifier::external_body]
pub(crate) fn cursor_rest(cursor: &Reader<Bytes>) -> (rest: &Bytes)
    ensures
        bytes_of(*rest) == unread(*cursor),
{
    cursor.get_ref()
}

/// `Read::read` on a cursor: copies as many unread bytes as fit to the front
/// of `dst`, moves the cursor past them, and never fails.
#[verifier::external_body]
pub(crate) fn cursor_read(cursor: &mut Reader<Bytes>, dst: &mut [u8]) -> (read: Result<
    usize,
    std::io::Error,
>)
    ensures
        read matches Ok(n) && n == copied_len(unread(*old(cursor)), old(dst)@.len()),
        final(dst)@ == after_copy(unread(*old(cursor)), old(dst)@),
        unread(*final(cursor)) == unread(*old(cursor)).skip(
            copied_len(unread(*old(cursor)), old(dst)@.len()) as int,
        ),
{
    std::io::Read::read(cursor, dst)
}

/// `BufRead::fill_buf` on a cursor: lends all unread bytes, moves nothing and
/// never fails.
#[verifier::external_body]
pub(crate) fn cursor_fill<'a>(cursor: &'a mut Reader<Bytes>) -> (filled: Result<
    &'a [u8],
    std::io::Error,
>)
    ensures
        filled matches Ok(lent) && lent@ == unread(*old(cursor)),
        unread(*final(cursor)) == unread(*old(cursor)),
{
    std::io::BufRead::fill_buf(cursor)
}

/// `BufRead::consume` on a cursor: moves the cursor `amt` bytes on. The call
/// panics past the end of the buffer, so `amt` may not exceed what is unread.
#[verifier::external_body]
pub(crate) fn cursor_consume(cursor: &mut Reader<Bytes>, amt: usize)
    requires
        amt <= unread(*old(cursor)).len(),
    ensures
        unread(*final(cursor)) == unread(*old(cursor)).skip(amt as int),
{
    std::io::BufRead::consume(cursor, amt)
}

/// `ByteStr::from_utf8`: accepts the buffer as text exactly when its bytes are
/// well-formed UTF-8, and then keeps them as they are.
#[verifier::external_body]
pub(crate) fn text_from_utf8(buffer: Bytes) -> (checked: Result<ByteStr, Utf8Error>)
    ensures
        checked is Ok <==> valid_utf8(bytes_of(buffer)),
        checked matches Ok(text) ==> text_bytes(text) == bytes_of(buffer),
{
    ByteStr::from_utf8(buffer)
}

/// `ByteStr::into_bytes`: the buffer that backs a text.
#[verifier::external_body]
pub(crate) fn text_into_bytes(text: ByteStr) -> (buffer: Bytes)
    ensures
        bytes_of(buffer) == text_bytes(text),
{
    text.into_bytes()
}

/// `String::into_bytes`: the bytes that encode a string, as UTF-8.
#[verifier::external_body]
pub(crate) fn string_into_bytes(text: String) -> (bytes: Vec<u8>)
    ensures
        bytes@ == encode_utf8(text@),
{
    text.into_bytes()
}

/// Whether `bytes` spells `text`.
pub fn spells(bytes: &[u8], text: &str) -> (same: bool)
    ensures
        same == (bytes@ == text.spec_bytes()),
{
    let wanted = text.as_bytes();
    if bytes.len() != wanted.len() {
        return false;
    }
    let mut i: usize = 0;
    while i < bytes.len()
        invariant
            i <= bytes.len(),
            bytes.len() == wanted.len(),
            wanted@ == text.spec_bytes(),
            forall|j: int| 0 <= j < i ==> bytes@[j] == wanted@[j],
        decreases bytes.len() - i,
    {
        if bytes[i] != wanted[i] {
            return false;
        }
        i += 1;
    }
    assert(bytes@ =~= wanted@);
    true
}

/// How many bytes a read moves: all that are unread, or as many as the
/// destination takes.
pub open spec fn copied_len(unread: Seq<u8>, room: nat) -> nat {
    if unread.len() <= room {
        unread.len()
    } else {
        room
    }
}

/// A destination after a read: its front overwritten by the bytes moved, its
/// tail untouched.
pub open spec fn after_copy(unread: Seq<u8>, dst: Seq<u8>) -> Seq<u8> {
    unread.take(copied_len(unread, dst.len()) as int) + dst.skip(
        copied_len(unread, dst.len()) as int,
    )
}

} // verus!
