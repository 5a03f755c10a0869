//! Bodies from the values that a payload usually comes as.
//!
//! Each of these makes a buffered body. Those that are given a buffer keep it;
//! those that are given borrowed bytes copy them once.

use super::{Body, BodyState};
use crate::buffer::{bytes_copy, bytes_from_vec, bytes_of, string_into_bytes, text_bytes, text_into_bytes};
use crate::source::BoxBufReader;
use bytes::Bytes;
use bytestr::ByteStr;
use std::borrow::Cow;
use vstd::prelude::*;
use vstd::std_specs::convert::FromSpecImpl;
use vstd::utf8::encode_utf8;

verus! {

impl From<Bytes> for Body {
    fn from(data: Bytes) -> (body: Self)
        ensures
            body@ == BodyState::Buffered(data),
    {
        Body::from_bytes(data)
    }
}

impl FromSpecImpl<Bytes> for Body {
    open spec fn obeys_from_spec() -> bool {
        true
    }

    open spec fn from_spec(data: Bytes) -> Self {
        Body::of(BodyState::Buffered(data))
    }
}

impl From<Vec<u8>> for Body {
    fn from(data: Vec<u8>) -> (body: Self)
        ensures
            body@ matches BodyState::Buffered(bytes) && bytes_of(bytes) == data@,
    {
        Body::from_bytes(bytes_from_vec(data))
    }
}

impl FromSpecImpl<Vec<u8>> for Body {
    open spec fn obeys_from_spec() -> bool {
        false
    }

    closed spec fn from_spec(data: Vec<u8>) -> Self {
        arbitrary()
    }
}

impl<'a> From<&'a [u8]> for Body {
    fn from(data: &'a [u8]) -> (body: Self)
        ensures
            body@ matches BodyState::Buffered(bytes) && bytes_of(bytes) == data@,
    {
        Body::from_bytes(bytes_copy(data))
    }
}

impl<'a> FromSpecImpl<&'a [u8]> for Body {
    open spec fn obeys_from_spec() -> bool {
        false
    }

    closed spec fn from_spec(data: &'a [u8]) -> Self {
        arbitrary()
    }
}

impl From<ByteStr> for Body {
    fn from(data: ByteStr) -> (body: Self)
        ensures
            body@ matches BodyState::Buffered(bytes) && bytes_of(bytes) == text_bytes(data),
    {
        Body::from_bytes(text_into_bytes(data))
    }
}

impl FromSpecImpl<ByteStr> for Body {
    open spec fn obeys_from_spec() -> bool {
        false
    }

    closed spec fn from_spec(data: ByteStr) -> Self {
        arbitrary()
    }
}

impl From<String> for Body {
    fn from(data: String) -> (body: Self)
        ensures
            body@ matches BodyState::Buffered(bytes) && bytes_of(bytes) == encode_utf8(data@),
    {
        Body::from_bytes(bytes_from_vec(string_into_bytes(data)))
    }
}

impl FromSpecImpl<String> for Body {
    open spec fn obeys_from_spec() -> bool {
        false
    }

    closed spec fn from_spec(data: String) -> Self {
        arbitrary()
    }
}

impl<'a> From<&'a str> for Body {
    fn from(data: &'a str) -> (body: Self)
        ensures
            body@ matches BodyState::Buffered(bytes) && bytes_of(bytes) == encode_utf8(data@),
    {
        Body::from_bytes(bytes_copy(data.as_bytes()))
    }
}

impl<'a> FromSpecImpl<&'a str> for Body {
    open spec fn obeys_from_spec() -> bool {
        false
    }

    closed spec fn from_spec(data: &'a str) -> Self {
        arbitrary()
    }
}

impl<'a> From<Cow<'a, [u8]>> for Body {
    fn from(data: Cow<'a, [u8]>) -> (body: Self)
        ensures
            body.holds(
                match data {
                    Cow::Borrowed(slice) => slice@,
                    Cow::Owned(vec) => vec@,
                },
            ),
    {
        match data {
            Cow::Borrowed(slice) => Body::from(slice),
            Cow::Owned(vec) => Body::from(vec),
        }
    }
}

impl<'a> FromSpecImpl<Cow<'a, [u8]>> for Body {
    open spec fn obeys_from_spec() -> bool {
        false
    }

    closed spec fn from_spec(data: Cow<'a, [u8]>) -> Self {
        arbitrary()
    }
}

impl<'a> From<Cow<'a, str>> for Body {
    fn from(data: Cow<'a, str>) -> (body: Self)
        ensures
            body.holds(encode_utf8(data@)),
    {
        match data {
            Cow::Borrowed(text) => Body::from(text),
            Cow::Owned(text) => Body::from(text),
        }
    }
}

impl<'a> FromSpecImpl<Cow<'a, str>> for Body {
    open spec fn obeys_from_spec() -> bool {
        false
    }

    closed spec fn from_spec(data: Cow<'a, str>) -> Self {
        arbitrary()
    }
}

impl From<BoxBufReader> for Body {
    fn from(reader: BoxBufReader) -> (body: Self)
        ensures
            body@ == BodyState::Reader(reader, None),
    {
        Body::from_reader(reader, None)
    }
}

impl FromSpecImpl<BoxBufReader> for Body {
    open spec fn obeys_from_spec() -> bool {
        true
    }

    open spec fn from_spec(reader: BoxBufReader) -> Self {
        Body::of(BodyState::Reader(reader, None))
    }
}

} // verus!
