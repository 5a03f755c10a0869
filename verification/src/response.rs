//! An HTTP response: a head and a body.

use crate::body::{
    Body, BodyError, BodyFrozen, BodyState, IntoBytes, IntoString, Materialized, Stage,
};
use crate::buffer::text_bytes;
use crate::codec::{declared_type, decode, decoded, media_types_are_visible, DecodeError, FORM, JSON};
use crate::parts::{
    appended, content_type_name, default_version, extension_count, extensions_get,
    extensions_get_mut, extensions_insert, extensions_remove, first_value, has_room, header_values,
    headers_get, headers_try_append, headers_try_insert, is_http_11, name_text, new_extensions,
    new_headers, no_values, ok_status, static_value, status_number,
};
use bytes::Bytes;
use bytestr::ByteStr;
use http::header::{HeaderName, HeaderValue, MaxSizeReached};
use http::{Extensions, HeaderMap, StatusCode, Version};
use vstd::prelude::*;
use vstd::std_specs::convert::FromSpecImpl;
use vstd::string::StringSliceAdditionalSpecFns;
use vstd::utf8::encode_utf8;

verus! {

/// The head of a response.
pub struct ResponseParts {
    /// The response's status.
    pub status: StatusCode,
    /// The response's version.
    pub version: Version,
    /// The response's headers.
    pub headers: HeaderMap<HeaderValue>,
    /// The response's extensions.
    pub extensions: Extensions,
}

/// An HTTP response.
pub struct Response {
    parts: ResponseParts,
    body: Body,
}

impl Response {
    /// The head of this response.
    pub closed spec fn head(&self) -> ResponseParts {
        self.parts
    }

    /// The body of this response.
    pub closed spec fn payload(&self) -> Body {
        self.body
    }

    /// Whether this is the empty response: the status 200, HTTP/1.1, no
    /// headers, no extensions, and a buffered body without bytes.
    pub open spec fn is_blank(&self) -> bool {
        &&& status_number(self.head().status) == 200
        &&& is_http_11(self.head().version)
        &&& header_values(self.head().headers) == no_values()
        &&& extension_count(self.head().extensions) == 0
        &&& self.payload().holds(Seq::empty())
    }

    /// Create a new `Response` with a body: HTTP/1.1, no headers, no
    /// extensions.
    pub fn new(status: StatusCode, body: Body) -> (response: Self)
        ensures
            response.head().status == status,
            is_http_11(response.head().version),
            header_values(response.head().headers) == no_values(),
            extension_count(response.head().extensions) == 0,
            response.payload() == body,
    {
        Self {
            parts: ResponseParts {
                status,
                version: default_version(),
                headers: new_headers(),
                extensions: new_extensions(),
            },
            body,
        }
    }

    /// Create an empty `Response`: the status 200 and an empty body.
    pub fn empty() -> (response: Self)
        ensures
            response.is_blank(),
    {
        Self::new(ok_status(), Body::empty())
    }

    /// Put a response together from its head and its body.
    pub fn from_parts(parts: ResponseParts, body: Body) -> (response: Self)
        ensures
            response.head() == parts,
            response.payload() == body,
    {
        Self { parts, body }
    }

    /// Take a response apart into its head and its body.
    pub fn into_parts(self) -> (parts: (ResponseParts, Body))
        ensures
            parts.0 == self.head(),
            parts.1 == self.payload(),
    {
        (self.parts, self.body)
    }

    /// Return the reference of response parts.
    pub fn parts(&self) -> (parts: &ResponseParts)
        ensures
            *parts == self.head(),
    {
        &self.parts
    }

    /// Return the mutable reference of response parts.
    pub fn parts_mut(&mut self) -> (parts: &mut ResponseParts)
        ensures
            *parts == old(self).head(),
            final(self).head() == *final(parts),
            final(self).payload() == old(self).payload(),
    {
        &mut self.parts
    }

    /// Return the status code.
    pub fn status(&self) -> (status: StatusCode)
        ensures
            status == self.head().status,
    {
        self.parts.status
    }

    /// Return the mutable reference of the status code.
    pub fn status_mut(&mut self) -> (status: &mut StatusCode)
        ensures
            *status == old(self).head().status,
            final(self).head() == (ResponseParts { status: *final(status), ..old(self).head() }),
            final(self).payload() == old(self).payload(),
    {
        &mut self.parts.status
    }

    /// Set the status code.
    pub fn set_status(&mut self, status: StatusCode)
        ensures
            final(self).head() == (ResponseParts { status, ..old(self).head() }),
            final(self).payload() == old(self).payload(),
    {
        self.parts.status = status;
    }

    /// Return the HTTP version.
    pub fn version(&self) -> (version: Version)
        ensures
            version == self.head().version,
    {
        self.parts.version
    }

    /// Return the mutable reference of the HTTP version.
    pub fn version_mut(&mut self) -> (version: &mut Version)
        ensures
            *version == old(self).head().version,
            final(self).head() == (ResponseParts { version: *final(version), ..old(self).head() }),
            final(self).payload() == old(self).payload(),
    {
        &mut self.parts.version
    }

    /// Set the HTTP version.
    pub fn set_version(&mut self, version: Version)
        ensures
            final(self).head() == (ResponseParts { version, ..old(self).head() }),
            final(self).payload() == old(self).payload(),
    {
        self.parts.version = version;
    }

    /// Return the reference of the headers.
    pub fn headers(&self) -> (headers: &HeaderMap<HeaderValue>)
        ensures
            *headers == self.head().headers,
    {
        &self.parts.headers
    }

    /// Return the mutable reference of the headers.
    pub fn headers_mut(&mut self) -> (headers: &mut HeaderMap<HeaderValue>)
        ensures
            *headers == old(self).head().headers,
            final(self).head() == (ResponseParts { headers: *final(headers), ..old(self).head() }),
            final(self).payload() == old(self).payload(),
    {
        &mut self.parts.headers
    }

    /// Return the reference of the extensions.
    pub fn extensions(&self) -> (extensions: &Extensions)
        ensures
            *extensions == self.head().extensions,
    {
        &self.parts.extensions
    }

    /// Return the mutable reference of the extensions.
    pub fn extensions_mut(&mut self) -> (extensions: &mut Extensions)
        ensures
            *extensions == old(self).head().extensions,
            final(self).head() == (ResponseParts {
                extensions: *final(extensions),
                ..old(self).head()
            }),
            final(self).payload() == old(self).payload(),
    {
        &mut self.parts.extensions
    }

    /// Set an HTTP header, in place of all that the name had. A header map
    /// that has grown as large as it may refuses the header and gives the
    /// response back as it was.
    pub fn header(self, name: HeaderName, value: HeaderValue) -> (set: Result<Self, Self>)
        ensures
            match set {
                Ok(response) => header_values(response.head().headers) == header_values(
                    self.head().headers,
                ).insert(name_text(name), seq![value]) && response.payload() == self.payload()
                    && same_status_line(response.head(), self.head()),
                Err(response) => header_values(response.head().headers) == header_values(
                    self.head().headers,
                ) && response.payload() == self.payload() && same_status_line(response.head(), self.head()),
            },
    {
        let mut response = self;
        match response.insert_header(name, value) {
            Ok(_) => Ok(response),
            Err(_) => Err(response),
        }
    }

    /// Acquire the first value of a header by its name.
    pub fn get_header(&self, name: HeaderName) -> (found: Option<&HeaderValue>)
        ensures
            match found {
                Some(value) => first_value(header_values(self.head().headers), name_text(name))
                    == Some(*value),
                None => first_value(header_values(self.head().headers), name_text(name)) is None,
            },
    {
        headers_get(&self.parts.headers, name)
    }

    /// Append a header. The headers that the name already has stay. A header
    /// map that has grown as large as it may refuses the header; one that has
    /// room never does.
    pub fn append_header(&mut self, name: HeaderName, value: HeaderValue) -> (added: Result<
        (),
        MaxSizeReached,
    >)
        ensures
            final(self).payload() == old(self).payload(),
            same_status_line(final(self).head(), old(self).head()),
            final(self).head().extensions == old(self).head().extensions,
            header_values(final(self).head().headers) == if added is Ok {
                appended(header_values(old(self).head().headers), name_text(name), value)
            } else {
                header_values(old(self).head().headers)
            },
            has_room(header_values(old(self).head().headers)) ==> added is Ok,
    {
        match headers_try_append(&mut self.parts.headers, name, value) {
            Ok(_) => Ok(()),
            Err(full) => Err(full),
        }
    }

    /// Insert a header. The headers that the name already has are removed, and
    /// the first of them is returned. A header map that has grown as large as
    /// it may refuses the header; one that has room never does.
    pub fn insert_header(&mut self, name: HeaderName, value: HeaderValue) -> (replaced: Result<
        Option<HeaderValue>,
        MaxSizeReached,
    >)
        ensures
            final(self).payload() == old(self).payload(),
            same_status_line(final(self).head(), old(self).head()),
            match replaced {
                Ok(previous) => header_values(final(self).head().headers) == header_values(
                    old(self).head().headers,
                ).insert(name_text(name), seq![value]) && previous == first_value(
                    header_values(old(self).head().headers),
                    name_text(name),
                ),
                Err(_) => header_values(final(self).head().headers) == header_values(
                    old(self).head().headers,
                ),
            },
            final(self).head().extensions == old(self).head().extensions,
            has_room(header_values(old(self).head().headers)) ==> replaced is Ok,
    {
        headers_try_insert(&mut self.parts.headers, name, value)
    }

    /// Returns a reference to the extension of type `T`, if there is one.
    pub fn get_extension<T: Send + Sync + 'static>(&self) -> (found: Option<&T>)
        ensures
            found is Some ==> extension_count(self.head().extensions) > 0,
    {
        extensions_get(&self.parts.extensions)
    }

    /// Returns a mutable reference to the extension of type `T`, if there is
    /// one. Where there is none, nothing is touched.
    pub fn get_mut_extension<T: Send + Sync + 'static>(&mut self) -> (found: Option<&mut T>)
        ensures
            found is Some ==> extension_count(old(self).head().extensions) > 0,
            found is None ==> *final(self) == *old(self),
            extension_count(final(self).head().extensions) == extension_count(
                old(self).head().extensions,
            ),
            final(self).payload() == old(self).payload(),
            same_status_line(final(self).head(), old(self).head()),
            final(self).head().headers == old(self).head().headers,
    {
        extensions_get_mut(&mut self.parts.extensions)
    }

    /// Remove the extension of type `T`, and return it if there was one.
    /// Where there was none, nothing is touched.
    pub fn remove_extension<T: Send + Sync + 'static>(&mut self) -> (removed: Option<T>)
        ensures
            extension_count(old(self).head().extensions) == extension_count(
                final(self).head().extensions,
            ) + (if removed is Some {
                1nat
            } else {
                0nat
            }),
            removed is None ==> *final(self) == *old(self),
            final(self).payload() == old(self).payload(),
            same_status_line(final(self).head(), old(self).head()),
            final(self).head().headers == old(self).head().headers,
    {
        extensions_remove(&mut self.parts.extensions)
    }

    /// Insert an extension. If there was one of its type, it is replaced and
    /// returned; else there is one extension more. Either way there is at least
    /// one afterwards.
    pub fn insert_extension<T: Send + Sync + 'static>(&mut self, extension: T) -> (previous: Option<
        T,
    >)
        ensures
            extension_count(final(self).head().extensions) == extension_count(
                old(self).head().extensions,
            ) + (if previous is None {
                1nat
            } else {
                0nat
            }),
            previous is Some ==> extension_count(old(self).head().extensions) > 0,
            extension_count(final(self).head().extensions) > 0,
            final(self).payload() == old(self).payload(),
            same_status_line(final(self).head(), old(self).head()),
            final(self).head().headers == old(self).head().headers,
    {
        extensions_insert(&mut self.parts.extensions, extension)
    }

    /// Take the response body, leaving a frozen body.
    pub fn take_body(&mut self) -> (taken: Result<Body, BodyFrozen>)
        ensures
            final(self).head() == old(self).head(),
            final(self).payload() == old(self).payload().taken(),
            old(self).payload()@ is Frozen ==> taken is Err,
            !(old(self).payload()@ is Frozen) ==> taken == Ok::<Body, BodyFrozen>(
                old(self).payload(),
            ),
    {
        self.body.take()
    }

    /// Replace the value of the response body and return the old body.
    pub fn replace_body(&mut self, body: Body) -> (previous: Body)
        ensures
            previous == old(self).payload(),
            final(self).payload() == body,
            final(self).head() == old(self).head(),
    {
        self.body.replace(body)
    }

    /// Swap the value of the response body with another body, if the response
    /// body is not frozen.
    pub fn swap_body(&mut self, body: &mut Body) -> (swapped: Result<(), BodyFrozen>)
        ensures
            final(self).head() == old(self).head(),
            old(self).payload()@ is Frozen ==> swapped is Err && *final(self) == *old(self)
                && *final(body) == *old(body),
            !(old(self).payload()@ is Frozen) ==> swapped is Ok && final(self).payload() == *old(body)
                && *final(body) == old(self).payload(),
    {
        self.body.swap(body)
    }

    /// Map the body to a different value.
    pub fn map_body<F>(self, f: F) -> (mapped: Self) where F: FnOnce(Body) -> Body
        requires
            f.requires((self.payload(),)),
        ensures
            mapped.head() == self.head(),
            f.ensures((self.payload(),), mapped.payload()),
    {
        let Self { parts, body } = self;
        Self { parts, body: f(body) }
    }

    /// Set the body to a JSON text, and declare it in the `content-type`
    /// header. A header map that has grown as large as it may refuses the
    /// header, and the response comes back as it was.
    pub fn json(self, payload: Vec<u8>) -> (set: Result<Self, Self>)
        ensures
            match set {
                Ok(response) => declared_type(header_values(response.head().headers))
                    == JSON.spec_bytes() && response.payload().holds(payload@) && same_status_line(
                    response.head(),
                    self.head(),
                ),
                Err(response) => header_values(response.head().headers) == header_values(
                    self.head().headers,
                ) && response.payload() == self.payload() && same_status_line(response.head(), self.head()),
            },
    {
        proof {
            media_types_are_visible();
        }
        let declared = static_value(JSON);
        match self.header(content_type_name(), declared) {
            Ok(mut response) => {
                assert(seq![declared][0] == declared);
                response.replace_body(Body::from(payload));
                Ok(response)
            },
            Err(response) => Err(response),
        }
    }

    /// Set the body to a form, and declare it in the `content-type` header. A
    /// header map that has grown as large as it may refuses the header, and
    /// the response comes back as it was.
    pub fn form(self, payload: String) -> (set: Result<Self, Self>)
        ensures
            match set {
                Ok(response) => declared_type(header_values(response.head().headers))
                    == FORM.spec_bytes() && response.payload().holds(encode_utf8(payload@))
                    && same_status_line(response.head(), self.head()),
                Err(response) => header_values(response.head().headers) == header_values(
                    self.head().headers,
                ) && response.payload() == self.payload() && same_status_line(response.head(), self.head()),
            },
    {
        proof {
            media_types_are_visible();
        }
        let declared = static_value(FORM);
        match self.header(content_type_name(), declared) {
            Ok(mut response) => {
                assert(seq![declared][0] == declared);
                response.replace_body(Body::from(payload));
                Ok(response)
            },
            Err(response) => Err(response),
        }
    }

    /// Take the response body and read it as a chunk of bytes.
    pub fn into_bytes(&mut self) -> (gathering: Result<IntoBytes, BodyError>)
        ensures
            final(self).head() == old(self).head(),
            final(self).payload() == old(self).payload().taken(),
            old(self).payload()@ is Frozen ==> (gathering matches Err(error) && error is BodyFrozen),
            !(old(self).payload()@ is Frozen) ==> (gathering matches Ok(bytes) && bytes@
                == Stage::of(old(self).payload()@)),
    {
        match self.take_body() {
            Ok(body) => Ok(body.into_bytes()),
            Err(_) => Err(BodyError::BodyFrozen),
        }
    }

    /// Take the response body and read it as UTF-8 text.
    pub fn into_string(&mut self) -> (gathering: Result<IntoString, BodyError>)
        ensures
            final(self).head() == old(self).head(),
            final(self).payload() == old(self).payload().taken(),
            old(self).payload()@ is Frozen ==> (gathering matches Err(error) && error is BodyFrozen),
            !(old(self).payload()@ is Frozen) ==> (gathering matches Ok(text) && text.bytes()@
                == Stage::of(old(self).payload()@)),
    {
        match self.take_body() {
            Ok(body) => Ok(body.into_string()),
            Err(_) => Err(BodyError::BodyFrozen),
        }
    }

    /// Prepare the bytes of the body for a JSON codec, in place.
    ///
    /// A response that does not declare JSON is refused and stays as it was.
    /// Else the bytes are prepared as `Body::as_bytes` does.
    pub fn into_json(&mut self) -> (lent: Result<Materialized<'_>, DecodeError>)
        ensures
            final(self).head() == old(self).head(),
            decoded(
                declared_type(header_values(old(self).head().headers)),
                old(self).payload(),
                JSON,
                lent,
                final(self).payload(),
            ),
    {
        decode(&self.parts.headers, &mut self.body, JSON)
    }

    /// Prepare the bytes of the body for a form codec, in place.
    ///
    /// A response that does not declare a form is refused and stays as it was.
    /// Else the bytes are prepared as `Body::as_bytes` does.
    pub fn into_form(&mut self) -> (lent: Result<Materialized<'_>, DecodeError>)
        ensures
            final(self).head() == old(self).head(),
            decoded(
                declared_type(header_values(old(self).head().headers)),
                old(self).payload(),
                FORM,
                lent,
                final(self).payload(),
            ),
    {
        decode(&self.parts.headers, &mut self.body, FORM)
    }
}

/// Whether two heads differ in nothing but their headers and extensions.
pub open spec fn same_status_line(one: ResponseParts, other: ResponseParts) -> bool {
    one.status == other.status && one.version == other.version
}

impl From<Bytes> for Response {
    fn from(value: Bytes) -> (response: Self)
        ensures
            status_number(response.head().status) == 200,
            response.payload()@ == BodyState::Buffered(value),
    {
        Self::new(ok_status(), Body::from(value))
    }
}

impl FromSpecImpl<Bytes> for Response {
    open spec fn obeys_from_spec() -> bool {
        false
    }

    closed spec fn from_spec(value: Bytes) -> Self {
        arbitrary()
    }
}

impl From<Vec<u8>> for Response {
    fn from(value: Vec<u8>) -> (response: Self)
        ensures
            status_number(response.head().status) == 200,
            response.payload().holds(value@),
    {
        Self::new(ok_status(), Body::from(value))
    }
}

impl FromSpecImpl<Vec<u8>> for Response {
    open spec fn obeys_from_spec() -> bool {
        false
    }

    closed spec fn from_spec(value: Vec<u8>) -> Self {
        arbitrary()
    }
}

impl From<String> for Response {
    fn from(value: String) -> (response: Self)
        ensures
            status_number(response.head().status) == 200,
            response.payload().holds(encode_utf8(value@)),
    {
        Self::new(ok_status(), Body::from(value))
    }
}

impl FromSpecImpl<String> for Response {
    open spec fn obeys_from_spec() -> bool {
        false
    }

    closed spec fn from_spec(value: String) -> Self {
        arbitrary()
    }
}

impl From<ByteStr> for Response {
    fn from(value: ByteStr) -> (response: Self)
        ensures
            status_number(response.head().status) == 200,
            response.payload().holds(text_bytes(value)),
    {
        Self::new(ok_status(), Body::from(value))
    }
}

impl FromSpecImpl<ByteStr> for Response {
    open spec fn obeys_from_spec() -> bool {
        false
    }

    closed spec fn from_spec(value: ByteStr) -> Self {
        arbitrary()
    }
}

} // verus!
