//! The error of an HTTP operation: a cause, and the status to answer with.

use crate::parts::{service_unavailable_status, status_as_u16, status_number};
use http::StatusCode;
use std::error::Error as StdError;
use vstd::prelude::*;
use vstd::std_specs::convert::FromSpecImpl;

verus! {

/// The text of an error, as it is shown.
pub uninterp spec fn error_text(error: anyhow::Error) -> Seq<char>;

/// `anyhow::Error::msg`: an error that is nothing but a message.
#[verifier::external_body]
pub(crate) fn message_error(message: String) -> (error: anyhow::Error)
    ensures
        error_text(error) == message@,
{
    anyhow::Error::msg(message)
}

/// `anyhow::Error::downcast`: the error as an `E`, if that is what it wraps;
/// else the error as it was.
#[verifier::external_body]
pub(crate) fn downcast_error<E>(error: anyhow::Error) -> (cast: Result<E, anyhow::Error>) where
    E: StdError + Send + Sync + 'static,

    ensures
        cast matches Err(same) ==> same == error,
{
    error.downcast()
}

/// `anyhow::Error::downcast_ref`: the wrapped error as an `E`, if it is one.
#[verifier::external_body]
pub(crate) fn downcast_error_ref<E>(error: &anyhow::Error) -> (cast: Option<&E>) where
    E: StdError + Send + Sync + 'static,
 {
    error.downcast_ref()
}

/// `anyhow::Error::downcast_mut`: the wrapped error as an `E`, if it is one,
/// to be changed in place. An error that wraps no `E` is not touched.
#[verifier::external_body]
pub(crate) fn downcast_error_mut<E>(error: &mut anyhow::Error) -> (cast: Option<&mut E>) where
    E: StdError + Send + Sync + 'static,

    ensures
        cast is None ==> *final(error) == *old(error),
{
    error.downcast_mut()
}

/// `ToString::to_string` on an `anyhow::Error`: the text of the error.
#[verifier::external_body]
pub(crate) fn error_to_string(error: &anyhow::Error) -> (text: String)
    ensures
        text@ == error_text(*error),
{
    error.to_string()
}

/// The error type for HTTP operations.
#[derive(Debug)]
pub struct HttpError {
    error: anyhow::Error,
    status: StatusCode,
}

impl HttpError {
    /// What went wrong.
    pub closed spec fn cause(&self) -> anyhow::Error {
        self.error
    }

    /// The status to answer with.
    pub closed spec fn code(&self) -> StatusCode {
        self.status
    }

    /// Whether a status tells of an error: one of the numbers 400 to 599.
    pub open spec fn is_error_status(status: StatusCode) -> bool {
        400 <= status_number(status) <= 599
    }

    /// Create an error from a cause and the status code.
    pub fn new(error: anyhow::Error, status: StatusCode) -> (made: Self)
        ensures
            made.cause() == error,
            made.code() == status,
    {
        Self { error, status }
    }

    /// Create an error from a message. Its status is 503.
    pub fn msg(msg: String) -> (made: Self)
        ensures
            error_text(made.cause()) == msg@,
            status_number(made.code()) == 503,
    {
        Self::new(message_error(msg), service_unavailable_status())
    }

    /// Set the status code of the error. Only an error status can be set.
    pub fn set_status(self, status: StatusCode) -> (changed: Self)
        requires
            Self::is_error_status(status),
        ensures
            changed.cause() == self.cause(),
            changed.code() == status,
    {
        let mut changed = self;
        changed.status = status;
        changed
    }

    /// Set the status code of the error if it is an error status. Any other
    /// status is not set, and the error comes back as it was.
    pub fn try_set_status(self, status: StatusCode) -> (changed: Self)
        ensures
            changed.cause() == self.cause(),
            changed.code() == if Self::is_error_status(status) {
                status
            } else {
                self.code()
            },
    {
        let number = status_as_u16(&status);
        if 400 <= number && number <= 599 {
            self.set_status(status)
        } else {
            self
        }
    }

    /// Return the status code of the error.
    pub fn status(&self) -> (status: StatusCode)
        ensures
            status == self.code(),
    {
        self.status
    }

    /// What a downcast of the cause comes to: the cause in a box where it was
    /// an `E`, else the error again, with the cause that came back and the
    /// status it had.
    pub fn after_downcast<E>(status: StatusCode, cast: Result<E, anyhow::Error>) -> (out: Result<
        Box<E>,
        Self,
    >)
        ensures
            match cast {
                Ok(cause) => out matches Ok(boxed) && *boxed == cause,
                Err(error) => out matches Err(kept) && kept.cause() == error && kept.code()
                    == status,
            },
    {
        match cast {
            Ok(cause) => Ok(Box::new(cause)),
            Err(error) => Err(Self { status, error }),
        }
    }

    /// Try to downcast the cause to an `E`. Where the cause is no `E`, the
    /// error comes back as it was.
    pub fn downcast<E>(self) -> (cast: Result<Box<E>, Self>) where
        E: StdError + Send + Sync + 'static,

        ensures
            cast matches Err(same) ==> same == self,
    {
        let Self { status, error } = self;
        Self::after_downcast(status, downcast_error::<E>(error))
    }

    /// Try to see the cause as an `E`.
    pub fn downcast_ref<E>(&self) -> (cast: Option<&E>) where E: StdError + Send + Sync + 'static {
        downcast_error_ref::<E>(&self.error)
    }

    /// Try to see the cause as an `E`, to change it in place. The status
    /// stays, and where the cause is no `E` the whole error does.
    pub fn downcast_mut<E>(&mut self) -> (cast: Option<&mut E>) where
        E: StdError + Send + Sync + 'static,

        ensures
            final(self).code() == old(self).code(),
            cast is None ==> *final(self) == *old(self),
    {
        downcast_error_mut::<E>(&mut self.error)
    }

    /// The text of the cause.
    pub fn to_string(&self) -> (text: String)
        ensures
            text@ == error_text(self.cause()),
    {
        error_to_string(&self.error)
    }

    /// The cause of this error.
    pub fn as_inner(&self) -> (cause: &anyhow::Error)
        ensures
            *cause == self.cause(),
    {
        &self.error
    }

    /// The cause of this error, to be changed in place. The status stays.
    pub fn as_inner_mut(&mut self) -> (cause: &mut anyhow::Error)
        ensures
            *cause == old(self).cause(),
            final(self).cause() == *final(cause),
            final(self).code() == old(self).code(),
    {
        &mut self.error
    }

    /// Throw the status code away and return the cause.
    pub fn into_inner(self) -> (cause: anyhow::Error)
        ensures
            cause == self.cause(),
    {
        self.error
    }
}

impl From<anyhow::Error> for HttpError {
    fn from(error: anyhow::Error) -> (made: Self)
        ensures
            made.cause() == error,
            status_number(made.code()) == 503,
    {
        Self::new(error, service_unavailable_status())
    }
}

impl FromSpecImpl<anyhow::Error> for HttpError {
    open spec fn obeys_from_spec() -> bool {
        false
    }

    closed spec fn from_spec(error: anyhow::Error) -> Self {
        arbitrary()
    }
}

/// Provide a `status` method for `Result` and `Option`.
pub trait ResultExt<T>: Sized {
    /// What `status` makes of this value, as far as the value decides it.
    spec fn with_status(self, status: StatusCode, out: Result<T, HttpError>) -> bool;

    /// Wrap the error, or the absence of a value, with a status code.
    fn status(self, status: StatusCode) -> (out: Result<T, HttpError>)
        ensures
            self.with_status(status, out),
    ;
}

impl<T> ResultExt<T> for Result<T, anyhow::Error> {
    open spec fn with_status(self, status: StatusCode, out: Result<T, HttpError>) -> bool {
        match self {
            Ok(value) => out == Ok::<T, HttpError>(value),
            Err(cause) => out matches Err(error) && error.code() == status && error.cause()
                == cause,
        }
    }

    fn status(self, status: StatusCode) -> (out: Result<T, HttpError>) {
        match self {
            Ok(value) => Ok(value),
            Err(cause) => Err(HttpError::new(cause, status)),
        }
    }
}

impl<T> ResultExt<T> for Option<T> {
    open spec fn with_status(self, status: StatusCode, out: Result<T, HttpError>) -> bool {
        match self {
            Some(value) => out == Ok::<T, HttpError>(value),
            None => out matches Err(error) && error.code() == status && error_text(error.cause())
                == "None Error"@,
        }
    }

    fn status(self, status: StatusCode) -> (out: Result<T, HttpError>) {
        match self {
            Some(value) => Ok(value),
            None => Err(HttpError::new(message_error("None Error".to_owned()), status)),
        }
    }
}

} // verus!
