//! What a codec asks of a message before it decodes the body: that the
//! message declares the media type that the codec reads.

use crate::body::{Body, BodyError, BodyState, Materialized, Stage};
use crate::buffer::{bytes_of, spells};
use crate::error::{error_text, message_error, HttpError};
use crate::parts::{
    content_type_name, first_value, header_values, headers_get, is_visible_ascii, status_number,
    unsupported_media_type_status, value_as_bytes, value_bytes,
};
use http::header::HeaderValue;
use http::HeaderMap;
use vstd::prelude::*;
use vstd::string::{StringExecFns, StringSliceAdditionalSpecFns};

verus! {

/// The media type of JSON.
pub const JSON: &'static str = "application/json";

/// The media type of a form.
pub const FORM: &'static str = "application/x-www-form-urlencoded";

/// Why the body of a message was not handed to a codec.
#[derive(Debug)]
pub enum DecodeError {
    /// The message does not declare the media type that the codec reads. The
    /// error carries the status 415.
    ContentTypeMismatch(HttpError),
    /// The body could not be had.
    Body(BodyError),
}

/// The media type that a message declares: the bytes of its first
/// `content-type` header, or no bytes if it has none.
pub open spec fn declared_type(held: Map<Seq<char>, Seq<HeaderValue>>) -> Seq<u8> {
    match first_value(held, "content-type"@) {
        Some(value) => value_bytes(value),
        None => Seq::empty(),
    }
}

/// The message of a mismatch.
pub open spec fn mismatch_text(mime: Seq<char>) -> Seq<char> {
    "Content-type is mismatched, expected `"@ + mime + "`"@
}

/// Checks that a message declares the media type `mime`, byte for byte.
pub fn assert_content_type(mime: &str, headers: &HeaderMap<HeaderValue>) -> (checked: Result<
    (),
    HttpError,
>)
    ensures
        checked is Ok <==> declared_type(header_values(*headers)) == mime.spec_bytes(),
        checked matches Err(error) ==> status_number(error.code()) == 415 && error_text(
            error.cause(),
        ) == mismatch_text(mime@),
{
    let matches = match headers_get(headers, content_type_name()) {
        Some(value) => spells(value_as_bytes(value), mime),
        None => {
            let none: Vec<u8> = Vec::new();
            spells(none.as_slice(), mime)
        },
    };
    if matches {
        Ok(())
    } else {
        let text = String::from_str("Content-type is mismatched, expected `").concat(mime).concat(
            "`",
        );
        Err(HttpError::new(message_error(text), unsupported_media_type_status()))
    }
}

/// What preparing a body for a codec that reads `mime` comes to, in a message
/// that declares the media type `declared`.
///
/// A message that declares another media type is refused with the status 415,
/// and its body is left as it was. A frozen body is refused, and stays frozen.
/// A buffered body lends its bytes. Any other body is taken out to be
/// gathered, and a frozen body stands in its place meanwhile.
pub open spec fn decoded(
    declared: Seq<u8>,
    before: Body,
    mime: &str,
    lent: Result<Materialized<'_>, DecodeError>,
    after: Body,
) -> bool {
    if declared != mime.spec_bytes() {
        &&& lent matches Err(DecodeError::ContentTypeMismatch(error))
        &&& status_number(error.code()) == 415
        &&& error_text(error.cause()) == mismatch_text(mime@)
        &&& after == before
    } else {
        match before@ {
            BodyState::Frozen => lent matches Err(DecodeError::Body(error)) && error is BodyFrozen
                && after == before,
            BodyState::Buffered(bytes) => lent matches Ok(Materialized::Ready(slice)) && slice@
                == bytes_of(bytes) && after == before,
            _ => lent matches Ok(Materialized::Gather(gathering)) && gathering@ == Stage::of(
                before@,
            ) && after == Body::of(BodyState::Frozen),
        }
    }
}

/// Prepares the bytes of a body for a codec that reads `mime`, in place, if
/// the headers declare that media type.
pub fn decode<'a>(
    headers: &HeaderMap<HeaderValue>,
    body: &'a mut Body,
    mime: &str,
) -> (lent: Result<
    Materialized<'a>,
    DecodeError,
>)
    ensures
        decoded(declared_type(header_values(*headers)), *old(body), mime, lent, *final(body)),
{
    match assert_content_type(mime, headers) {
        Err(mismatch) => Err(DecodeError::ContentTypeMismatch(mismatch)),
        Ok(_) => match body.as_bytes() {
            Ok(lent) => Ok(lent),
            Err(_) => Err(DecodeError::Body(BodyError::BodyFrozen)),
        },
    }
}

/// The names of the two media types are made of bytes that a header value
/// may hold.
pub proof fn media_types_are_visible()
    ensures
        forall|i: int|
            0 <= i < JSON.spec_bytes().len() ==> is_visible_ascii(#[trigger] JSON.spec_bytes()[i]),
        forall|i: int|
            0 <= i < FORM.spec_bytes().len() ==> is_visible_ascii(#[trigger] FORM.spec_bytes()[i]),
{
    broadcast use vstd::string::is_ascii_spec_bytes;

    reveal_strlit("application/json");
    reveal_strlit("application/x-www-form-urlencoded");
    assert(vstd::string::is_ascii(JSON));
    assert(vstd::string::is_ascii(FORM));
}

} // verus!
