//! The head of a message: method, address, version, status line, headers and
//! extensions.
//!
//! The values are those of the `http` crate. This library carries them, and
//! asks little of them: the number of a status, the name of a method, the
//! values that a header map holds under a name. The functions in this file
//! are thin calls into `http`; their contracts are taken from its source and
//! are not proved.

use http::header::{HeaderName, HeaderValue, InvalidHeaderValue, MaxSizeReached};
use mime::{FromStrError, Mime};
use http::{Extensions, HeaderMap, Method, StatusCode, Uri, Version};
use vstd::prelude::*;
use vstd::string::StringSliceAdditionalSpecFns;
use vstd::utf8::valid_utf8;

verus! {

#[verifier::external_type_specification]
#[verifier::external_body]
pub struct ExMethod(http::Method);

#[verifier::external_type_specification]
#[verifier::external_body]
pub struct ExUri(http::Uri);

#[verifier::external_type_specification]
#[verifier::external_body]
pub struct ExVersion(http::Version);

#[verifier::external_type_specification]
#[verifier::external_body]
pub struct ExStatusCode(http::StatusCode);

#[verifier::external_type_specification]
#[verifier::external_body]
#[verifier::reject_recursive_types(T)]
pub struct ExHeaderMap<T>(http::HeaderMap<T>);

#[verifier::external_type_specification]
#[verifier::external_body]
pub struct ExHeaderName(http::header::HeaderName);

#[verifier::external_type_specification]
#[verifier::external_body]
pub struct ExHeaderValue(http::header::HeaderValue);

#[verifier::external_type_specification]
#[verifier::external_body]
pub struct ExMaxSizeReached(http::header::MaxSizeReached);

#[verifier::external_type_specification]
#[verifier::external_body]
pub struct ExExtensions(http::Extensions);

#[verifier::external_type_specification]
#[verifier::external_body]
pub struct ExInvalidHeaderValue(http::header::InvalidHeaderValue);

#[verifier::external_type_specification]
#[verifier::external_body]
pub struct ExMime(mime::Mime);

#[verifier::external_type_specification]
#[verifier::external_body]
pub struct ExMimeFromStrError(mime::FromStrError);

/// The number of a status, as it stands in a status line.
pub uninterp spec fn status_number(status: StatusCode) -> u16;

/// The name of a method, as it stands in a request line.
pub uninterp spec fn method_text(method: Method) -> Seq<char>;

/// Whether a version is HTTP/1.1.
pub uninterp spec fn is_http_11(version: Version) -> bool;

/// The name of a header, in lower case.
pub uninterp spec fn name_text(name: HeaderName) -> Seq<char>;

/// The bytes of a header value.
pub uninterp spec fn value_bytes(value: HeaderValue) -> Seq<u8>;

/// What a header map holds: under each name that is present, the values that
/// were added under it, oldest first.
pub uninterp spec fn header_values(headers: HeaderMap<HeaderValue>) -> Map<
    Seq<char>,
    Seq<HeaderValue>,
>;

/// The text of a media type, as it was parsed.
pub uninterp spec fn mime_text(mime: Mime) -> Seq<char>;

/// The media type that a text spells, if it spells one.
pub uninterp spec fn parsed_mime(text: Seq<char>) -> Option<Mime>;

/// How many values a bag of extensions holds. It holds at most one of a type.
pub uninterp spec fn extension_count(extensions: Extensions) -> nat;

/// What an empty header map holds.
pub open spec fn no_values() -> Map<Seq<char>, Seq<HeaderValue>> {
    Map::empty()
}

/// The first value that a header map holds under a name.
pub open spec fn first_value(
    held: Map<Seq<char>, Seq<HeaderValue>>,
    name: Seq<char>,
) -> Option<HeaderValue> {
    if held.contains_key(name) {
        Some(held[name][0])
    } else {
        None
    }
}

/// A header map after a value was added under a name, behind those that the
/// name had.
pub open spec fn appended(
    held: Map<Seq<char>, Seq<HeaderValue>>,
    name: Seq<char>,
    value: HeaderValue,
) -> Map<Seq<char>, Seq<HeaderValue>> {
    if held.contains_key(name) {
        held.insert(name, held[name].push(value))
    } else {
        held.insert(name, seq![value])
    }
}

/// Whether a header map is sure to take one more header.
///
/// `http` keeps the names in a table of at most 32,768 slots, and refuses a
/// header only when that table would have to grow past them. It asks the table
/// to grow when it is three quarters full, or, once it has seen names collide,
/// a fifth full. So a map with fewer than a fifth of 32,768 names never
/// refuses.
pub open spec fn has_room(held: Map<Seq<char>, Seq<HeaderValue>>) -> bool {
    held.dom().finite() && 5 * held.dom().len() < 32768
}

/// A byte that may stand in a header value written as a literal: visible
/// ASCII, a space or a tab.
pub open spec fn is_visible_ascii(byte: u8) -> bool {
    byte >= 32 && byte < 127 || byte == 9
}

/// A byte that may stand in a header value: anything but a control
/// character other than the tab.
pub open spec fn is_value_byte(byte: u8) -> bool {
    byte >= 32 && byte != 127 || byte == 9
}

/// `StatusCode::OK`.
#[verifier::external_body]
pub(crate) fn ok_status() -> (status: StatusCode)
    ensures
        status_number(status) == 200,
{
    StatusCode::OK
}

/// `StatusCode::UNSUPPORTED_MEDIA_TYPE`.
#[verifier::external_body]
pub(crate) fn unsupported_media_type_status() -> (status: StatusCode)
    ensures
        status_number(status) == 415,
{
    StatusCode::UNSUPPORTED_MEDIA_TYPE
}

/// `StatusCode::SERVICE_UNAVAILABLE`.
#[verifier::external_body]
pub(crate) fn service_unavailable_status() -> (status: StatusCode)
    ensures
        status_number(status) == 503,
{
    StatusCode::SERVICE_UNAVAILABLE
}

/// `StatusCode::as_u16`.
#[verifier::external_body]
pub(crate) fn status_as_u16(status: &StatusCode) -> (number: u16)
    ensures
        number == status_number(*status),
{
    status.as_u16()
}

/// `Version::default`, which is HTTP/1.1.
#[verifier::external_body]
pub(crate) fn default_version() -> (version: Version)
    ensures
        is_http_11(version),
{
    Version::default()
}

/// `Method::GET`.
#[verifier::external_body]
pub(crate) fn get_method() -> (method: Method)
    ensures
        method_text(method) == "GET"@,
{
    Method::GET
}

/// `Method::POST`.
#[verifier::external_body]
pub(crate) fn post_method() -> (method: Method)
    ensures
        method_text(method) == "POST"@,
{
    Method::POST
}

/// `Method::PUT`.
#[verifier::external_body]
pub(crate) fn put_method() -> (method: Method)
    ensures
        method_text(method) == "PUT"@,
{
    Method::PUT
}

/// `Method::DELETE`.
#[verifier::external_body]
pub(crate) fn delete_method() -> (method: Method)
    ensures
        method_text(method) == "DELETE"@,
{
    Method::DELETE
}

/// `header::CONTENT_TYPE`.
#[verifier::external_body]
pub(crate) fn content_type_name() -> (name: HeaderName)
    ensures
        name_text(name) == "content-type"@,
{
    http::header::CONTENT_TYPE
}

/// `HeaderValue::from_static`: a value with the bytes of a literal. The call
/// panics on a byte that is not visible ASCII, a space or a tab.
#[verifier::external_body]
pub(crate) fn static_value(text: &'static str) -> (value: HeaderValue)
    requires
        forall|i: int|
            0 <= i < text.spec_bytes().len() ==> is_visible_ascii(#[trigger] text.spec_bytes()[i]),
    ensures
        value_bytes(value) == text.spec_bytes(),
{
    HeaderValue::from_static(text)
}

/// `HeaderValue::from_str`: a value with the bytes of a text, unless one of
/// them is a control character other than the tab.
#[verifier::external_body]
pub(crate) fn value_from_str(text: &str) -> (value: Result<HeaderValue, InvalidHeaderValue>)
    ensures
        value is Ok <==> forall|i: int|
            0 <= i < text.spec_bytes().len() ==> is_value_byte(#[trigger] text.spec_bytes()[i]),
        value matches Ok(made) ==> value_bytes(made) == text.spec_bytes(),
{
    HeaderValue::from_str(text)
}

/// `Mime::as_ref`: the text of a media type.
#[verifier::external_body]
pub(crate) fn mime_as_str(mime: &Mime) -> (text: &str)
    ensures
        text@ == mime_text(*mime),
{
    mime.as_ref()
}

/// `Mime::from_str`: the media type that a text spells.
#[verifier::external_body]
pub(crate) fn parse_mime(text: &str) -> (parsed: Result<Mime, FromStrError>)
    ensures
        match parsed {
            Ok(mime) => parsed_mime(text@) == Some(mime),
            Err(_) => parsed_mime(text@) is None,
        },
{
    text.parse()
}

/// `std::str::from_utf8`: the bytes as text, exactly when they are well-formed
/// UTF-8.
#[verifier::external_body]
pub(crate) fn str_from_utf8(bytes: &[u8]) -> (text: Result<&str, std::str::Utf8Error>)
    ensures
        text is Ok <==> valid_utf8(bytes@),
        text matches Ok(checked) ==> checked.spec_bytes() == bytes@,
{
    std::str::from_utf8(bytes)
}

/// `HeaderValue::as_bytes`.
#[verifier::external_body]
pub(crate) fn value_as_bytes(value: &HeaderValue) -> (bytes: &[u8])
    ensures
        bytes@ == value_bytes(*value),
{
    value.as_bytes()
}

/// `HeaderMap::new`: a map that holds nothing.
#[verifier::external_body]
pub(crate) fn new_headers() -> (headers: HeaderMap<HeaderValue>)
    ensures
        header_values(headers) == no_values(),
{
    HeaderMap::new()
}

/// `HeaderMap::get`: the first value under a name.
#[verifier::external_body]
pub(crate) fn headers_get(headers: &HeaderMap<HeaderValue>, name: HeaderName) -> (found: Option<
    &HeaderValue,
>)
    ensures
        match found {
            Some(value) => first_value(header_values(*headers), name_text(name)) == Some(*value),
            None => first_value(header_values(*headers), name_text(name)) is None,
        },
{
    headers.get(name)
}

/// `HeaderMap::try_append`: adds a value behind those that the name has, and
/// says whether it had any. A map that has grown as large as it may fails,
/// and then holds what it held. A map that has room never fails.
#[verifier::external_body]
pub(crate) fn headers_try_append(
    headers: &mut HeaderMap<HeaderValue>,
    name: HeaderName,
    value: HeaderValue,
) -> (added: Result<bool, MaxSizeReached>)
    ensures
        match added {
            Ok(present) => header_values(*final(headers)) == appended(
                header_values(*old(headers)),
                name_text(name),
                value,
            ) && present == header_values(*old(headers)).contains_key(name_text(name)),
            Err(_) => header_values(*final(headers)) == header_values(*old(headers)),
        },
        has_room(header_values(*old(headers))) ==> added is Ok,
{
    headers.try_append(name, value)
}

/// `HeaderMap::try_insert`: puts a value in the place of all that the name
/// has, and hands back the first of them. A map that has grown as large as it
/// may fails, and then holds what it held. A map that has room never fails.
#[verifier::external_body]
pub(crate) fn headers_try_insert(
    headers: &mut HeaderMap<HeaderValue>,
    name: HeaderName,
    value: HeaderValue,
) -> (replaced: Result<Option<HeaderValue>, MaxSizeReached>)
    ensures
        match replaced {
            Ok(previous) => header_values(*final(headers)) == header_values(*old(headers)).insert(
                name_text(name),
                seq![value],
            ) && previous == first_value(header_values(*old(headers)), name_text(name)),
            Err(_) => header_values(*final(headers)) == header_values(*old(headers)),
        },
        has_room(header_values(*old(headers))) ==> replaced is Ok,
{
    headers.try_insert(name, value)
}

/// `Extensions::new`: a bag that holds nothing.
#[verifier::external_body]
pub(crate) fn new_extensions() -> (extensions: Extensions)
    ensures
        extension_count(extensions) == 0,
{
    Extensions::new()
}

/// `Extensions::get`: the value of type `T`, if the bag holds one.
#[verifier::external_body]
pub(crate) fn extensions_get<T: Send + Sync + 'static>(extensions: &Extensions) -> (found: Option<&T>)
    ensures
        found is Some ==> extension_count(*extensions) > 0,
{
    extensions.get()
}

/// `Extensions::get_mut`: the value of type `T`, if the bag holds one, to be
/// changed in place. The bag holds as many values as before, and where it
/// holds none of the type it is not touched.
#[verifier::external_body]
pub(crate) fn extensions_get_mut<T: Send + Sync + 'static>(extensions: &mut Extensions) -> (found: Option<
    &mut T,
>)
    ensures
        found is Some ==> extension_count(*old(extensions)) > 0,
        found is None ==> *final(extensions) == *old(extensions),
        extension_count(*final(extensions)) == extension_count(*old(extensions)),
{
    extensions.get_mut()
}

/// `Extensions::insert`: puts a value in the bag and hands back the value of
/// its type that the bag held, if any. The bag holds one value more unless it
/// handed one back, and in any case it is not empty afterwards.
#[verifier::external_body]
pub(crate) fn extensions_insert<T: Send + Sync + 'static>(extensions: &mut Extensions, value: T) -> (previous:
    Option<T>)
    ensures
        extension_count(*final(extensions)) == extension_count(*old(extensions)) + (
        if previous is None {
            1nat
        } else {
            0nat
        }),
        previous is Some ==> extension_count(*old(extensions)) > 0,
{
    extensions.insert(value)
}

/// `Extensions::remove`: takes the value of type `T` out of the bag, if it
/// holds one. Where it holds none, the bag is not touched.
#[verifier::external_body]
pub(crate) fn extensions_remove<T: Send + Sync + 'static>(extensions: &mut Extensions) -> (removed: Option<
    T,
>)
    ensures
        extension_count(*old(extensions)) == extension_count(*final(extensions)) + (
        if removed is Some {
            1nat
        } else {
            0nat
        }),
        removed is None ==> *final(extensions) == *old(extensions),
{
    extensions.remove()
}

} // verus!
