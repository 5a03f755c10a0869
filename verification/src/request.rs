//! An HTTP request: a head and a body.

use crate::body::{Body, BodyError, BodyFrozen, IntoBytes, IntoString, Materialized, Stage};
use crate::codec::{declared_type, decode, decoded, media_types_are_visible, DecodeError, FORM, JSON};
use crate::parts::{
    appended, content_type_name, default_version, delete_method, extension_count, extensions_get,
    extensions_get_mut, extensions_insert, extensions_remove, first_value, has_room, get_method,
    header_values, headers_get, headers_try_append, headers_try_insert, is_http_11, method_text,
    mime_as_str, mime_text, name_text, new_extensions, new_headers, no_values, parse_mime,
    parsed_mime, post_method, put_method, static_value, str_from_utf8, value_as_bytes,
    value_bytes, value_from_str,
};
use http::header::{HeaderName, HeaderValue, MaxSizeReached};
use http::{Extensions, HeaderMap, Method, Uri, Version};
use mime::Mime;
use vstd::prelude::*;
use vstd::string::StringSliceAdditionalSpecFns;
use vstd::utf8::{decode_utf8, encode_utf8, valid_utf8};

verus! {

/// The head of a request.
pub struct RequestParts {
    /// The request's method.
    pub method: Method,
    /// The request's URI.
    pub uri: Uri,
    /// The request's version.
    pub version: Version,
    /// The request's headers.
    pub headers: HeaderMap<HeaderValue>,
    /// The request's extensions.
    pub extensions: Extensions,
}

/// An HTTP request.
pub struct Request {
    parts: RequestParts,
    body: Body,
}

impl Request {
    /// The head of this request.
    pub closed spec fn head(&self) -> RequestParts {
        self.parts
    }

    /// The body of this request.
    pub closed spec fn payload(&self) -> Body {
        self.body
    }

    /// Create a new `Request`: HTTP/1.1, no headers, no extensions, an empty
    /// body.
    pub fn new(method: Method, uri: Uri) -> (request: Self)
        ensures
            request.head().method == method,
            request.head().uri == uri,
            is_http_11(request.head().version),
            header_values(request.head().headers) == no_values(),
            extension_count(request.head().extensions) == 0,
            request.payload().holds(Seq::empty()),
    {
        Self {
            parts: RequestParts {
                method,
                uri,
                version: default_version(),
                headers: new_headers(),
                extensions: new_extensions(),
            },
            body: Body::empty(),
        }
    }

    /// Create a GET `Request`.
    pub fn get(uri: Uri) -> (request: Self)
        ensures
            method_text(request.head().method) == "GET"@,
            request.head().uri == uri,
            is_http_11(request.head().version),
            header_values(request.head().headers) == no_values(),
            extension_count(request.head().extensions) == 0,
            request.payload().holds(Seq::empty()),
    {
        Self::new(get_method(), uri)
    }

    /// Create a POST `Request`.
    pub fn post(uri: Uri) -> (request: Self)
        ensures
            method_text(request.head().method) == "POST"@,
            request.head().uri == uri,
            is_http_11(request.head().version),
            header_values(request.head().headers) == no_values(),
            extension_count(request.head().extensions) == 0,
            request.payload().holds(Seq::empty()),
    {
        Self::new(post_method(), uri)
    }

    /// Create a PUT `Request`.
    pub fn put(uri: Uri) -> (request: Self)
        ensures
            method_text(request.head().method) == "PUT"@,
            request.head().uri == uri,
            is_http_11(request.head().version),
            header_values(request.head().headers) == no_values(),
            extension_count(request.head().extensions) == 0,
            request.payload().holds(Seq::empty()),
    {
        Self::new(put_method(), uri)
    }

    /// Create a DELETE `Request`.
    pub fn delete(uri: Uri) -> (request: Self)
        ensures
            method_text(request.head().method) == "DELETE"@,
            request.head().uri == uri,
            is_http_11(request.head().version),
            header_values(request.head().headers) == no_values(),
            extension_count(request.head().extensions) == 0,
            request.payload().holds(Seq::empty()),
    {
        Self::new(delete_method(), uri)
    }

    /// Put a request together from its head and its body.
    pub fn from_parts(parts: RequestParts, body: Body) -> (request: Self)
        ensures
            request.head() == parts,
            request.payload() == body,
    {
        Self { parts, body }
    }

    /// Take a request apart into its head and its body.
    pub fn into_parts(self) -> (parts: (RequestParts, Body))
        ensures
            parts.0 == self.head(),
            parts.1 == self.payload(),
    {
        (self.parts, self.body)
    }

    /// Return the reference of request parts.
    pub fn parts(&self) -> (parts: &RequestParts)
        ensures
            *parts == self.head(),
    {
        &self.parts
    }

    /// Return the mutable reference of request parts.
    pub fn parts_mut(&mut self) -> (parts: &mut RequestParts)
        ensures
            *parts == old(self).head(),
            final(self).head() == *final(parts),
            final(self).payload() == old(self).payload(),
    {
        &mut self.parts
    }

    /// Return the reference of request method.
    pub fn method(&self) -> (method: &Method)
        ensures
            *method == self.head().method,
    {
        &self.parts.method
    }

    /// Return the mutable reference of request method.
    pub fn method_mut(&mut self) -> (method: &mut Method)
        ensures
            *method == old(self).head().method,
            final(self).head() == (RequestParts { method: *final(method), ..old(self).head() }),
            final(self).payload() == old(self).payload(),
    {
        &mut self.parts.method
    }

    /// Set the request method.
    pub fn set_method(&mut self, method: Method)
        ensures
            final(self).head() == (RequestParts { method, ..old(self).head() }),
            final(self).payload() == old(self).payload(),
    {
        self.parts.method = method;
    }

    /// Return the reference of request URI.
    pub fn uri(&self) -> (uri: &Uri)
        ensures
            *uri == self.head().uri,
    {
        &self.parts.uri
    }

    /// Return the mutable reference of URI.
    pub fn uri_mut(&mut self) -> (uri: &mut Uri)
        ensures
            *uri == old(self).head().uri,
            final(self).head() == (RequestParts { uri: *final(uri), ..old(self).head() }),
            final(self).payload() == old(self).payload(),
    {
        &mut self.parts.uri
    }

    /// Rewrite the request URI.
    pub fn set_uri(&mut self, uri: Uri)
        ensures
            final(self).head() == (RequestParts { uri, ..old(self).head() }),
            final(self).payload() == old(self).payload(),
    {
        self.parts.uri = uri;
    }

    /// Return the HTTP version.
    pub fn version(&self) -> (version: Version)
        ensures
            version == self.head().version,
    {
        self.parts.version
    }

    /// Return the mutable reference of the HTTP version.
    pub fn version_mut(&mut self) -> (version: &mut Version)
        ensures
            *version == old(self).head().version,
            final(self).head() == (RequestParts { version: *final(version), ..old(self).head() }),
            final(self).payload() == old(self).payload(),
    {
        &mut self.parts.version
    }

    /// Set the HTTP version.
    pub fn set_version(&mut self, version: Version)
        ensures
            final(self).head() == (RequestParts { version, ..old(self).head() }),
            final(self).payload() == old(self).payload(),
    {
        self.parts.version = version;
    }

    /// Return the reference of the headers.
    pub fn headers(&self) -> (headers: &HeaderMap<HeaderValue>)
        ensures
            *headers == self.head().headers,
    {
        &self.parts.headers
    }

    /// Return the mutable reference of the headers.
    pub fn headers_mut(&mut self) -> (headers: &mut HeaderMap<HeaderValue>)
        ensures
            *headers == old(self).head().headers,
            final(self).head() == (RequestParts { headers: *final(headers), ..old(self).head() }),
            final(self).payload() == old(self).payload(),
    {
        &mut self.parts.headers
    }

    /// Return the reference of the extensions.
    pub fn extensions(&self) -> (extensions: &Extensions)
        ensures
            *extensions == self.head().extensions,
    {
        &self.parts.extensions
    }

    /// Return the mutable reference of the extensions.
    pub fn extensions_mut(&mut self) -> (extensions: &mut Extensions)
        ensures
            *extensions == old(self).head().extensions,
            final(self).head() == (RequestParts {
                extensions: *final(extensions),
                ..old(self).head()
            }),
            final(self).payload() == old(self).payload(),
    {
        &mut self.parts.extensions
    }

    /// Set an HTTP header, in place of all that the name had. A header map
    /// that has grown as large as it may refuses the header and gives the
    /// request back as it was.
    pub fn header(self, name: HeaderName, value: HeaderValue) -> (set: Result<Self, Self>)
        ensures
            match set {
                Ok(request) => header_values(request.head().headers) == header_values(
                    self.head().headers,
                ).insert(name_text(name), seq![value]) && request.payload() == self.payload()
                    && same_line(request.head(), self.head()),
                Err(request) => header_values(request.head().headers) == header_values(
                    self.head().headers,
                ) && request.payload() == self.payload() && same_line(request.head(), self.head()),
            },
    {
        let mut request = self;
        match request.insert_header(name, value) {
            Ok(_) => Ok(request),
            Err(_) => Err(request),
        }
    }

    /// Acquire the first value of a header by its name.
    pub fn get_header(&self, name: HeaderName) -> (found: Option<&HeaderValue>)
        ensures
            match found {
                Some(value) => first_value(header_values(self.head().headers), name_text(name))
                    == Some(*value),
                None => first_value(header_values(self.head().headers), name_text(name)) is None,
            },
    {
        headers_get(&self.parts.headers, name)
    }

    /// Append a header. The headers that the name already has stay. A header
    /// map that has grown as large as it may refuses the header; one that has
    /// room never does.
    pub fn append_header(&mut self, name: HeaderName, value: HeaderValue) -> (added: Result<
        (),
        MaxSizeReached,
    >)
        ensures
            final(self).payload() == old(self).payload(),
            same_line(final(self).head(), old(self).head()),
            final(self).head().extensions == old(self).head().extensions,
            header_values(final(self).head().headers) == if added is Ok {
                appended(header_values(old(self).head().headers), name_text(name), value)
            } else {
                header_values(old(self).head().headers)
            },
            has_room(header_values(old(self).head().headers)) ==> added is Ok,
    {
        match headers_try_append(&mut self.parts.headers, name, value) {
            Ok(_) => Ok(()),
            Err(full) => Err(full),
        }
    }

    /// Insert a header. The headers that the name already has are removed, and
    /// the first of them is returned. A header map that has grown as large as
    /// it may refuses the header; one that has room never does.
    pub fn insert_header(&mut self, name: HeaderName, value: HeaderValue) -> (replaced: Result<
        Option<HeaderValue>,
        MaxSizeReached,
    >)
        ensures
            final(self).payload() == old(self).payload(),
            same_line(final(self).head(), old(self).head()),
            match replaced {
                Ok(previous) => header_values(final(self).head().headers) == header_values(
                    old(self).head().headers,
                ).insert(name_text(name), seq![value]) && previous == first_value(
                    header_values(old(self).head().headers),
                    name_text(name),
                ),
                Err(_) => header_values(final(self).head().headers) == header_values(
                    old(self).head().headers,
                ),
            },
            final(self).head().extensions == old(self).head().extensions,
            has_room(header_values(old(self).head().headers)) ==> replaced is Ok,
    {
        headers_try_insert(&mut self.parts.headers, name, value)
    }

    /// Returns a reference to the extension of type `T`, if there is one.
    pub fn get_extension<T: Send + Sync + 'static>(&self) -> (found: Option<&T>)
        ensures
            found is Some ==> extension_count(self.head().extensions) > 0,
    {
        extensions_get(&self.parts.extensions)
    }

    /// Returns a mutable reference to the extension of type `T`, if there is
    /// one. Where there is none, nothing is touched.
    pub fn get_mut_extension<T: Send + Sync + 'static>(&mut self) -> (found: Option<&mut T>)
        ensures
            found is Some ==> extension_count(old(self).head().extensions) > 0,
            found is None ==> *final(self) == *old(self),
            extension_count(final(self).head().extensions) == extension_count(
                old(self).head().extensions,
            ),
            final(self).payload() == old(self).payload(),
            same_line(final(self).head(), old(self).head()),
            final(self).head().headers == old(self).head().headers,
    {
        extensions_get_mut(&mut self.parts.extensions)
    }

    /// Remove the extension of type `T`, and return it if there was one.
    /// Where there was none, nothing is touched.
    pub fn remove_extension<T: Send + Sync + 'static>(&mut self) -> (removed: Option<T>)
        ensures
            extension_count(old(self).head().extensions) == extension_count(
                final(self).head().extensions,
            ) + (if removed is Some {
                1nat
            } else {
                0nat
            }),
            removed is None ==> *final(self) == *old(self),
            final(self).payload() == old(self).payload(),
            same_line(final(self).head(), old(self).head()),
            final(self).head().headers == old(self).head().headers,
    {
        extensions_remove(&mut self.parts.extensions)
    }

    /// Insert an extension. If there was one of its type, it is replaced and
    /// returned; else there is one extension more. Either way there is at least
    /// one afterwards.
    pub fn insert_extension<T: Send + Sync + 'static>(&mut self, extension: T) -> (previous: Option<
        T,
    >)
        ensures
            extension_count(final(self).head().extensions) == extension_count(
                old(self).head().extensions,
            ) + (if previous is None {
                1nat
            } else {
                0nat
            }),
            previous is Some ==> extension_count(old(self).head().extensions) > 0,
            extension_count(final(self).head().extensions) > 0,
            final(self).payload() == old(self).payload(),
            same_line(final(self).head(), old(self).head()),
            final(self).head().headers == old(self).head().headers,
    {
        extensions_insert(&mut self.parts.extensions, extension)
    }

    /// Take the request body, leaving a frozen body.
    pub fn take_body(&mut self) -> (taken: Result<Body, BodyFrozen>)
        ensures
            final(self).head() == old(self).head(),
            final(self).payload() == old(self).payload().taken(),
            old(self).payload()@ is Frozen ==> taken is Err,
            !(old(self).payload()@ is Frozen) ==> taken == Ok::<Body, BodyFrozen>(
                old(self).payload(),
            ),
    {
        self.body.take()
    }

    /// Replace the value of the request body and return the old body.
    pub fn replace_body(&mut self, body: Body) -> (previous: Body)
        ensures
            previous == old(self).payload(),
            final(self).payload() == body,
            final(self).head() == old(self).head(),
    {
        self.body.replace(body)
    }

    /// Swap the value of the request body with another body, if the request
    /// body is not frozen.
    pub fn swap_body(&mut self, body: &mut Body) -> (swapped: Result<(), BodyFrozen>)
        ensures
            final(self).head() == old(self).head(),
            old(self).payload()@ is Frozen ==> swapped is Err && *final(self) == *old(self)
                && *final(body) == *old(body),
            !(old(self).payload()@ is Frozen) ==> swapped is Ok && final(self).payload() == *old(body)
                && *final(body) == old(self).payload(),
    {
        self.body.swap(body)
    }

    /// Map the body to a different value.
    pub fn map_body<F>(self, f: F) -> (mapped: Self) where F: FnOnce(Body) -> Body
        requires
            f.requires((self.payload(),)),
        ensures
            mapped.head() == self.head(),
            f.ensures((self.payload(),), mapped.payload()),
    {
        let Self { parts, body } = self;
        Self { parts, body: f(body) }
    }

    /// Set the body to a JSON text, and declare it in the `content-type`
    /// header. A header map that has grown as large as it may refuses the
    /// header, and the request comes back as it was.
    pub fn json(self, payload: Vec<u8>) -> (set: Result<Self, Self>)
        ensures
            match set {
                Ok(request) => declared_type(header_values(request.head().headers))
                    == JSON.spec_bytes() && request.payload().holds(payload@) && same_line(
                    request.head(),
                    self.head(),
                ),
                Err(request) => header_values(request.head().headers) == header_values(
                    self.head().headers,
                ) && request.payload() == self.payload() && same_line(request.head(), self.head()),
            },
    {
        proof {
            media_types_are_visible();
        }
        let declared = static_value(JSON);
        match self.header(content_type_name(), declared) {
            Ok(mut request) => {
                assert(seq![declared][0] == declared);
                request.replace_body(Body::from(payload));
                Ok(request)
            },
            Err(request) => Err(request),
        }
    }

    /// Set the body to a form, and declare it in the `content-type` header. A
    /// header map that has grown as large as it may refuses the header, and
    /// the request comes back as it was.
    pub fn form(self, payload: String) -> (set: Result<Self, Self>)
        ensures
            match set {
                Ok(request) => declared_type(header_values(request.head().headers))
                    == FORM.spec_bytes() && request.payload().holds(encode_utf8(payload@))
                    && same_line(request.head(), self.head()),
                Err(request) => header_values(request.head().headers) == header_values(
                    self.head().headers,
                ) && request.payload() == self.payload() && same_line(request.head(), self.head()),
            },
    {
        proof {
            media_types_are_visible();
        }
        let declared = static_value(FORM);
        match self.header(content_type_name(), declared) {
            Ok(mut request) => {
                assert(seq![declared][0] == declared);
                request.replace_body(Body::from(payload));
                Ok(request)
            },
            Err(request) => Err(request),
        }
    }

    /// Declare a media type in the `content-type` header. A media type whose
    /// text cannot stand in a header, or a header map that has grown as large
    /// as it may, leaves the request as it was.
    pub fn mime(self, mime: Mime) -> (set: Result<Self, Self>)
        ensures
            match set {
                Ok(request) => declared_type(header_values(request.head().headers))
                    == encode_utf8(mime_text(mime)) && request.payload() == self.payload()
                    && same_line(request.head(), self.head()),
                Err(request) => header_values(request.head().headers) == header_values(
                    self.head().headers,
                ) && request.payload() == self.payload() && same_line(request.head(), self.head()),
            },
    {
        match value_from_str(mime_as_str(&mime)) {
            Ok(declared) => {
                assert(seq![declared][0] == declared);
                self.header(content_type_name(), declared)
            },
            Err(_) => Err(self),
        }
    }

    /// Try to parse the `content-type` header as a media type.
    pub fn get_mime(&self) -> (found: Option<Mime>)
        ensures
            found == declared_mime(header_values(self.head().headers)),
    {
        match self.get_header(content_type_name()) {
            None => None,
            Some(value) => match str_from_utf8(value_as_bytes(value)) {
                Err(_) => None,
                Ok(text) => {
                    proof {
                        vstd::utf8::encode_utf8_decode_utf8(text@);
                    }
                    match parse_mime(text) {
                        Ok(mime) => Some(mime),
                        Err(_) => None,
                    }
                },
            },
        }
    }

    /// Take the request body and read it as a chunk of bytes.
    pub fn into_bytes(&mut self) -> (gathering: Result<IntoBytes, BodyError>)
        ensures
            final(self).head() == old(self).head(),
            final(self).payload() == old(self).payload().taken(),
            old(self).payload()@ is Frozen ==> (gathering matches Err(error) && error is BodyFrozen),
            !(old(self).payload()@ is Frozen) ==> (gathering matches Ok(bytes) && bytes@
                == Stage::of(old(self).payload()@)),
    {
        match self.take_body() {
            Ok(body) => Ok(body.into_bytes()),
            Err(_) => Err(BodyError::BodyFrozen),
        }
    }

    /// Take the request body and read it as UTF-8 text.
    pub fn into_string(&mut self) -> (gathering: Result<IntoString, BodyError>)
        ensures
            final(self).head() == old(self).head(),
            final(self).payload() == old(self).payload().taken(),
            old(self).payload()@ is Frozen ==> (gathering matches Err(error) && error is BodyFrozen),
            !(old(self).payload()@ is Frozen) ==> (gathering matches Ok(text) && text.bytes()@
                == Stage::of(old(self).payload()@)),
    {
        match self.take_body() {
            Ok(body) => Ok(body.into_string()),
            Err(_) => Err(BodyError::BodyFrozen),
        }
    }

    /// Prepare the bytes of the body for a JSON codec, in place.
    ///
    /// A request that does not declare JSON is refused and stays as it was.
    /// Else the bytes are prepared as `Body::as_bytes` does.
    pub fn into_json(&mut self) -> (lent: Result<Materialized<'_>, DecodeError>)
        ensures
            final(self).head() == old(self).head(),
            decoded(
                declared_type(header_values(old(self).head().headers)),
                old(self).payload(),
                JSON,
                lent,
                final(self).payload(),
            ),
    {
        decode(&self.parts.headers, &mut self.body, JSON)
    }

    /// Prepare the bytes of the body for a form codec, in place.
    ///
    /// A request that does not declare a form is refused and stays as it was.
    /// Else the bytes are prepared as `Body::as_bytes` does.
    pub fn into_form(&mut self) -> (lent: Result<Materialized<'_>, DecodeError>)
        ensures
            final(self).head() == old(self).head(),
            decoded(
                declared_type(header_values(old(self).head().headers)),
                old(self).payload(),
                FORM,
                lent,
                final(self).payload(),
            ),
    {
        decode(&self.parts.headers, &mut self.body, FORM)
    }
}

/// The media type that the first `content-type` header spells, if there is
/// one, it is text, and it spells a media type.
pub open spec fn declared_mime(held: Map<Seq<char>, Seq<HeaderValue>>) -> Option<Mime> {
    match first_value(held, "content-type"@) {
        Some(value) => if valid_utf8(value_bytes(value)) {
            parsed_mime(decode_utf8(value_bytes(value)))
        } else {
            None
        },
        None => None,
    }
}

/// Whether two heads differ in nothing but their headers and extensions.
pub open spec fn same_line(one: RequestParts, other: RequestParts) -> bool {
    one.method == other.method && one.uri == other.uri && one.version == other.version
}

} // verus!
