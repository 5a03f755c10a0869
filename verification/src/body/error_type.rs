//! What can go wrong with a body.

use crate::error::{error_text, error_to_string};
use std::str::Utf8Error;
use vstd::prelude::*;
use vstd::std_specs::convert::FromSpecImpl;

verus! {

#[verifier::external_type_specification]
#[verifier::external_body]
pub struct ExJsonError(serde_json::Error);

#[verifier::external_type_specification]
#[verifier::external_body]
pub struct ExFormSerError(serde_urlencoded::ser::Error);

#[verifier::external_type_specification]
#[verifier::external_body]
pub struct ExFormDeError(serde::de::value::Error);

/// The body was frozen: it may have been consumed by `take()`.
#[derive(Debug)]
pub struct BodyFrozen {
    _priv: (),
}

impl BodyFrozen {
    pub(crate) fn new() -> Self {
        Self { _priv: () }
    }

    /// The message of this error.
    pub fn to_string(&self) -> (message: String)
        ensures
            message@ == "Body was frozen,it may have been consumed by `take()`"@,
    {
        "Body was frozen,it may have been consumed by `take()`".to_owned()
    }
}

/// Error type around `Body`.
#[derive(Debug)]
#[non_exhaustive]
pub enum BodyError {
    /// An error caused by an inner I/O error.
    Io(std::io::Error),
    /// The inner object provided an illegal UTF-8 chunk.
    Utf8(Utf8Error),
    /// The body has been consumed and can not provide data anymore. It is
    /// distinguished from a normal empty body.
    BodyFrozen,
    /// Failed to serialize or deserialize an object as JSON.
    JsonError(serde_json::Error),
    /// Failed to serialize an object to a form.
    SerializeForm(serde_urlencoded::ser::Error),
    /// Failed to deserialize a form to an object.
    DeserializeForm(serde::de::value::Error),
    /// Another inner error, kept as it came.
    Other(anyhow::Error),
}

impl BodyError {
    /// The message of this error: that of the error it wraps, or that of
    /// `BodyFrozen`.
    pub fn to_string(&self) -> (message: String)
        ensures
            self is BodyFrozen ==> message@
                == "Body was frozen,it may have been consumed by `take()`"@,
            self matches BodyError::Other(error) ==> message@ == error_text(*error),
    {
        match self {
            BodyError::Io(error) => error.to_string(),
            BodyError::Utf8(error) => error.to_string(),
            BodyError::BodyFrozen => BodyFrozen::new().to_string(),
            BodyError::JsonError(error) => error.to_string(),
            BodyError::SerializeForm(error) => error.to_string(),
            BodyError::DeserializeForm(error) => error.to_string(),
            BodyError::Other(error) => error_to_string(error),
        }
    }
}

impl From<std::io::Error> for BodyError {
    fn from(error: std::io::Error) -> (converted: Self) {
        Self::Io(error)
    }
}

impl FromSpecImpl<std::io::Error> for BodyError {
    open spec fn obeys_from_spec() -> bool {
        true
    }

    open spec fn from_spec(error: std::io::Error) -> Self {
        Self::Io(error)
    }
}

impl From<Utf8Error> for BodyError {
    fn from(error: Utf8Error) -> (converted: Self) {
        Self::Utf8(error)
    }
}

impl FromSpecImpl<Utf8Error> for BodyError {
    open spec fn obeys_from_spec() -> bool {
        true
    }

    open spec fn from_spec(error: Utf8Error) -> Self {
        Self::Utf8(error)
    }
}

impl From<anyhow::Error> for BodyError {
    fn from(error: anyhow::Error) -> (converted: Self) {
        Self::Other(error)
    }
}

impl FromSpecImpl<anyhow::Error> for BodyError {
    open spec fn obeys_from_spec() -> bool {
        true
    }

    open spec fn from_spec(error: anyhow::Error) -> Self {
        Self::Other(error)
    }
}

impl From<serde_json::Error> for BodyError {
    fn from(error: serde_json::Error) -> (converted: Self) {
        Self::JsonError(error)
    }
}

impl FromSpecImpl<serde_json::Error> for BodyError {
    open spec fn obeys_from_spec() -> bool {
        true
    }

    open spec fn from_spec(error: serde_json::Error) -> Self {
        Self::JsonError(error)
    }
}

impl From<serde_urlencoded::ser::Error> for BodyError {
    fn from(error: serde_urlencoded::ser::Error) -> (converted: Self) {
        Self::SerializeForm(error)
    }
}

impl FromSpecImpl<serde_urlencoded::ser::Error> for BodyError {
    open spec fn obeys_from_spec() -> bool {
        true
    }

    open spec fn from_spec(error: serde_urlencoded::ser::Error) -> Self {
        Self::SerializeForm(error)
    }
}

impl From<serde::de::value::Error> for BodyError {
    fn from(error: serde::de::value::Error) -> (converted: Self) {
        Self::DeserializeForm(error)
    }
}

impl FromSpecImpl<serde::de::value::Error> for BodyError {
    open spec fn obeys_from_spec() -> bool {
        true
    }

    open spec fn from_spec(error: serde::de::value::Error) -> Self {
        Self::DeserializeForm(error)
    }
}

impl From<BodyFrozen> for BodyError {
    fn from(_error: BodyFrozen) -> (converted: Self) {
        Self::BodyFrozen
    }
}

impl FromSpecImpl<BodyFrozen> for BodyError {
    open spec fn obeys_from_spec() -> bool {
        true
    }

    open spec fn from_spec(_error: BodyFrozen) -> Self {
        Self::BodyFrozen
    }
}

} // verus!
