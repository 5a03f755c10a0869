//! The body of an HTTP message.
//!
//! A [`Body`] owns its payload in exactly one of four forms: bytes in memory,
//! a reader to pull them from, a sequence of chunks, or nothing at all because
//! the payload has been taken. The operations are the same whatever the form.

pub mod collect;
pub mod convert;
pub mod error_type;
pub mod utils;

pub use collect::{Absorbed, Chunks, Filled, Gathering, IntoBytes, IntoString, Materialized, Stage};
pub use error_type::{BodyError, BodyFrozen};
pub use utils::{IntoAsyncRead, ReadState};

use crate::buffer::{bytes_as_slice, bytes_copy, bytes_len, bytes_of, empty_bytes};
use crate::source::{lent_bytes, BoxBufReader, BoxStream, Polled, Pulled};
use bytes::Bytes;
use std::task::Context;
use vstd::prelude::*;

verus! {

/// The form in which a body holds its payload.
pub enum BodyState {
    /// All bytes are in memory; the length is known exactly.
    Buffered(Bytes),
    /// The bytes are pulled from a reader. The length, if any, is what the
    /// body was told to expect, less what has been handed out: an estimate.
    Reader(BoxBufReader, Option<usize>),
    /// The bytes come as a sequence of chunks, or a failure.
    ChunkSequence(BoxStream),
    /// The payload has been consumed. This is not an empty body.
    Frozen,
}

/// How a body is laid out. A frozen body remembers whether its iteration has
/// said so.
enum BodyInner {
    Once(Bytes),
    Reader { reader: BoxBufReader, length: Option<usize> },
    Stream(BoxStream),
    Freeze { reported: bool },
}

/// Flexible HTTP body.
pub struct Body {
    inner: BodyInner,
}

impl View for Body {
    type V = BodyState;

    closed spec fn view(&self) -> BodyState {
        match self.inner {
            BodyInner::Once(bytes) => BodyState::Buffered(bytes),
            BodyInner::Reader { reader, length } => BodyState::Reader(reader, length),
            BodyInner::Stream(stream) => BodyState::ChunkSequence(stream),
            BodyInner::Freeze { .. } => BodyState::Frozen,
        }
    }
}

/// An estimate of a length after `by` more bytes were handed out. It stops at
/// zero: a reader may hold more than the body was told.
pub open spec fn shortened(length: Option<usize>, by: nat) -> Option<usize> {
    match length {
        Some(left) => Some(
            if by <= left {
                (left - by) as usize
            } else {
                0usize
            },
        ),
        None => None,
    }
}

/// What a chunk sequence's answer to a pull is as an item of the body's own
/// iteration: chunks and the end pass as they are, a failure is kept whole.
pub open spec fn forwarded(pulled: Pulled) -> Polled<Option<Result<Bytes, BodyError>>> {
    match pulled {
        Pulled::Pending => Polled::Pending,
        Pulled::Chunk(chunk) => Polled::Ready(Some(Ok(chunk))),
        Pulled::Failed(failure) => Polled::Ready(Some(Err(BodyError::Other(failure)))),
        Pulled::End => Polled::Ready(None),
    }
}

/// Turns the answer of a chunk sequence into an item of the body's iteration.
pub fn forward(pulled: Pulled) -> (item: Polled<Option<Result<Bytes, BodyError>>>)
    ensures
        item == forwarded(pulled),
{
    match pulled {
        Pulled::Pending => Polled::Pending,
        Pulled::Chunk(chunk) => Polled::Ready(Some(Ok(chunk))),
        Pulled::Failed(failure) => Polled::Ready(Some(Err(BodyError::Other(failure)))),
        Pulled::End => Polled::Ready(None),
    }
}

/// What the body's iteration makes of the answer of its reader to one fill:
/// the item, the estimate of the length from then on, and the reader as it is
/// left.
///
/// Not ready: nothing is handed out. Bytes: they are a chunk of their own, the
/// estimate goes down by as many, and the reader has been told to drop them
/// all. An empty loan: the end. A failure: an item, as it came.
pub open spec fn handed_out(
    length: Option<usize>,
    filled: Polled<Result<&[u8], std::io::Error>>,
    item: Polled<Option<Result<Bytes, BodyError>>>,
    left: Option<usize>,
    after: BoxBufReader,
) -> bool {
    match filled {
        Polled::Pending => item is Pending && left == length,
        Polled::Ready(Err(error)) => item == Polled::Ready(
            Some(Err::<Bytes, BodyError>(BodyError::Io(error))),
        ) && left == length,
        Polled::Ready(Ok(lent)) => lent_bytes(after).len() == 0 && if lent@.len() == 0 {
            item == Polled::Ready(None::<Result<Bytes, BodyError>>) && left == length
        } else {
            (item matches Polled::Ready(Some(Ok(chunk))) && bytes_of(chunk) == lent@) && left
                == shortened(length, lent@.len())
        },
    }
}

/// Turns the answer of a reader to one fill into an item of the body's
/// iteration: the item, the estimate of the length from then on, and how many
/// bytes the reader is to be told to drop.
///
/// Bytes that the reader lent become a chunk of their own, and the estimate
/// goes down by as many. An empty loan is the end. A failure is an item.
pub fn hand_out(length: Option<usize>, filled: Polled<Result<&[u8], std::io::Error>>) -> (out: (
    Polled<Option<Result<Bytes, BodyError>>>,
    Option<usize>,
    usize,
))
    ensures
        match filled {
            Polled::Pending => out == (
                Polled::<Option<Result<Bytes, BodyError>>>::Pending,
                length,
                0usize,
            ),
            Polled::Ready(Err(error)) => out == (
                Polled::Ready(Some(Err::<Bytes, BodyError>(BodyError::Io(error)))),
                length,
                0usize,
            ),
            Polled::Ready(Ok(lent)) => if lent@.len() == 0 {
                out == (Polled::Ready(None::<Result<Bytes, BodyError>>), length, 0usize)
            } else {
                (out.0 matches Polled::Ready(Some(Ok(chunk))) && bytes_of(chunk) == lent@)
                    && out.1 == shortened(length, lent@.len()) && out.2 == lent@.len()
            },
        },
{
    match filled {
        Polled::Pending => (Polled::Pending, length, 0),
        Polled::Ready(Err(error)) => (Polled::Ready(Some(Err(BodyError::Io(error)))), length, 0),
        Polled::Ready(Ok(lent)) => {
            if lent.len() == 0 {
                (Polled::Ready(None), length, 0)
            } else {
                (Polled::Ready(Some(Ok(bytes_copy(lent)))), shorten(length, lent.len()), lent.len())
            }
        },
    }
}

/// Advances an estimate of a length past a chunk of `by` bytes.
pub fn shorten(length: Option<usize>, by: usize) -> (left: Option<usize>)
    ensures
        left == shortened(length, by as nat),
{
    match length {
        Some(left) => Some(left.saturating_sub(by)),
        None => None,
    }
}

impl Body {
    /// Whether this body is frozen and its iteration has already said so.
    pub closed spec fn reported(&self) -> bool {
        self.inner matches BodyInner::Freeze { reported } && reported
    }

    /// The body that holds its payload in this form and, if it is frozen,
    /// has not said so yet.
    pub closed spec fn of(state: BodyState) -> Body {
        Body {
            inner: match state {
                BodyState::Buffered(bytes) => BodyInner::Once(bytes),
                BodyState::Reader(reader, length) => BodyInner::Reader { reader, length },
                BodyState::ChunkSequence(stream) => BodyInner::Stream(stream),
                BodyState::Frozen => BodyInner::Freeze { reported: false },
            },
        }
    }

    /// Whether this body is buffered and holds exactly these bytes.
    pub open spec fn holds(&self, bytes: Seq<u8>) -> bool {
        self@ matches BodyState::Buffered(held) && bytes_of(held) == bytes
    }

    /// What `take` leaves behind: a frozen body.
    pub open spec fn taken(&self) -> Body {
        if self@ is Frozen {
            *self
        } else {
            Body::of(BodyState::Frozen)
        }
    }

    /// The exact length of the payload, which only a buffered body knows.
    pub open spec fn known_len(&self) -> Option<usize> {
        match self@ {
            BodyState::Buffered(bytes) => Some(bytes_of(bytes).len() as usize),
            _ => None,
        }
    }

    /// The body made of a form has that form, and has not said that it is
    /// frozen.
    pub proof fn of_state(state: BodyState)
        ensures
            Body::of(state)@ == state,
            !Body::of(state).reported(),
    {
    }

    /// What a body has been taken from is frozen, and stays as it is when it
    /// is taken from again: a body gives its payload once.
    pub proof fn taken_is_frozen(self)
        ensures
            self.taken()@ is Frozen,
            self.taken().taken() == self.taken(),
    {
    }

    /// A body is what its form is, and for a frozen one whether it has said
    /// so: two bodies that agree on both are the same body.
    pub proof fn same_body(self, other: Body)
        requires
            self@ == other@,
            self.reported() == other.reported(),
        ensures
            self == other,
    {
    }

    /// Create a new empty body.
    pub fn empty() -> (body: Body)
        ensures
            body.holds(Seq::empty()),
    {
        Self { inner: BodyInner::Once(empty_bytes()) }
    }

    /// Create a new frozen body.
    pub fn frozen() -> (body: Body)
        ensures
            body@ == BodyState::Frozen,
            !body.reported(),
            body == Body::of(BodyState::Frozen),
    {
        Self { inner: BodyInner::Freeze { reported: false } }
    }

    /// Create a body that pulls its bytes from a reader. The length is a hint
    /// for whoever sizes a buffer; nothing relies on it.
    pub fn from_reader(reader: BoxBufReader, length: Option<usize>) -> (body: Body)
        ensures
            body@ == BodyState::Reader(reader, length),
            body == Body::of(BodyState::Reader(reader, length)),
    {
        Self { inner: BodyInner::Reader { reader, length } }
    }

    /// Create a body from a sequence of chunks.
    pub fn from_stream(stream: BoxStream) -> (body: Body)
        ensures
            body@ == BodyState::ChunkSequence(stream),
            body == Body::of(BodyState::ChunkSequence(stream)),
    {
        Self { inner: BodyInner::Stream(stream) }
    }

    /// Create a body from a chunk of bytes, which it keeps as it is.
    pub fn from_bytes(data: Bytes) -> (body: Body)
        ensures
            body@ == BodyState::Buffered(data),
            body == Body::of(BodyState::Buffered(data)),
    {
        Self { inner: BodyInner::Once(data) }
    }

    /// Try to get the length of the body. Only a buffered body knows it.
    pub fn len(&self) -> (len: Option<usize>)
        ensures
            len == self.known_len(),
    {
        match &self.inner {
            BodyInner::Once(bytes) => Some(bytes_len(bytes)),
            _ => None,
        }
    }

    /// Gives up the body for the form it holds its payload in.
    pub(crate) fn into_state(self) -> (state: BodyState)
        ensures
            state == self@,
    {
        match self.inner {
            BodyInner::Once(bytes) => BodyState::Buffered(bytes),
            BodyInner::Reader { reader, length } => BodyState::Reader(reader, length),
            BodyInner::Stream(stream) => BodyState::ChunkSequence(stream),
            BodyInner::Freeze { .. } => BodyState::Frozen,
        }
    }

    /// Prepare the bytes of the body in place, and lend them.
    ///
    /// A buffered body lends its bytes as they are. A reader or a chunk
    /// sequence has to be gathered first: it is taken out, as by `take`, and
    /// its gathering is handed back; when that is done, `replace` puts the
    /// bytes back as a buffered body, which then lends them. A frozen body has
    /// nothing to lend, and stays as it is.
    pub fn as_bytes(&mut self) -> (lent: Result<Materialized<'_>, BodyFrozen>)
        ensures
            match old(self)@ {
                BodyState::Frozen => lent is Err && *final(self) == *old(self),
                BodyState::Buffered(bytes) => lent matches Ok(Materialized::Ready(slice))
                    && slice@ == bytes_of(bytes) && *final(self) == *old(self),
                _ => lent matches Ok(Materialized::Gather(gathering)) && gathering@ == Stage::of(
                    old(self)@,
                ) && *final(self) == Body::of(BodyState::Frozen),
            },
    {
        if self.len().is_none() && !self.is_frozen() {
            let mut taken = Self::frozen();
            std::mem::swap(self, &mut taken);
            return Ok(Materialized::Gather(taken.into_bytes()));
        }
        match &self.inner {
            BodyInner::Once(bytes) => Ok(Materialized::Ready(bytes_as_slice(bytes))),
            _ => Err(BodyFrozen::new()),
        }
    }

    /// Replace the value of the body and return the old body. This always
    /// succeeds, also on a frozen body.
    pub fn replace(&mut self, body: Body) -> (previous: Body)
        ensures
            previous == *old(self),
            *final(self) == body,
    {
        let mut held = body;
        std::mem::swap(self, &mut held);
        held
    }

    /// Swap the value of the body with another body if this body is not frozen.
    pub fn swap(&mut self, body: &mut Body) -> (swapped: Result<(), BodyFrozen>)
        ensures
            old(self)@ is Frozen ==> swapped is Err && *final(self) == *old(self) && *final(body)
                == *old(body),
            !(old(self)@ is Frozen) ==> swapped is Ok && *final(self) == *old(body) && *final(body)
                == *old(self),
    {
        if self.is_frozen() {
            Err(BodyFrozen::new())
        } else {
            std::mem::swap(self, body);
            Ok(())
        }
    }

    /// Take the value of the body, leaving a frozen body behind.
    pub fn take(&mut self) -> (taken: Result<Self, BodyFrozen>)
        ensures
            *final(self) == old(self).taken(),
            old(self)@ is Frozen ==> taken is Err,
            !(old(self)@ is Frozen) ==> taken == Ok::<Body, BodyFrozen>(*old(self)),
    {
        if self.is_frozen() {
            Err(BodyFrozen::new())
        } else {
            Ok(self.replace(Self::frozen()))
        }
    }

    /// Return `true` if the body is frozen, and `false` otherwise.
    pub fn is_frozen(&self) -> (frozen: bool)
        ensures
            frozen == (self@ is Frozen),
    {
        match &self.inner {
            BodyInner::Freeze { .. } => true,
            _ => false,
        }
    }

    /// Freeze the body, so that it can not be consumed anymore. The value it
    /// held is dropped.
    pub fn freeze(&mut self)
        ensures
            *final(self) == Body::of(BodyState::Frozen),
    {
        self.replace(Self::frozen());
    }

    /// The body's own estimate of how many bytes are still to come, as a lower
    /// and an upper bound.
    pub fn size_hint(&self) -> (bounds: (usize, Option<usize>))
        ensures
            match self@ {
                BodyState::Buffered(bytes) => bounds == (
                    bytes_of(bytes).len() as usize,
                    Some(bytes_of(bytes).len() as usize),
                ),
                BodyState::Reader(_, length) => bounds == (0usize, length),
                BodyState::ChunkSequence(_) => true,
                BodyState::Frozen => bounds == (0usize, None::<usize>),
            },
    {
        match &self.inner {
            BodyInner::Once(bytes) => {
                let len = bytes_len(bytes);
                (len, Some(len))
            },
            BodyInner::Reader { length, .. } => (0, *length),
            BodyInner::Stream(stream) => stream.size_hint(),
            BodyInner::Freeze { .. } => (0, None),
        }
    }

    /// Asks the body for its next chunk.
    ///
    /// A buffered body gives all it holds as one chunk and is empty from then
    /// on; an empty one is at its end. A reader gives what it has ready, and
    /// the expected length goes down by that much. A chunk sequence answers
    /// for itself; when it reports its end, the body lets go of it and is an
    /// empty buffered body from then on. A frozen body fails once, and is then
    /// at its end.
    pub fn poll_next(&mut self, cx: &mut Context<'_>) -> (item: Polled<
        Option<Result<Bytes, BodyError>>,
    >)
        ensures
            old(self)@ matches BodyState::Buffered(bytes) ==> if bytes_of(bytes).len() == 0 {
                item == Polled::Ready(None::<Result<Bytes, BodyError>>) && *final(self) == *old(self)
            } else {
                item == Polled::Ready(Some(Ok::<Bytes, BodyError>(bytes))) && final(self).holds(
                    Seq::empty(),
                )
            },
            old(self)@ matches BodyState::Reader(_, length) ==> final(self)@ matches BodyState::Reader(
                after,
                left,
            ) && exists|filled: Polled<Result<&[u8], std::io::Error>>|
                #[trigger] handed_out(length, filled, item, left, after),
            old(self)@ is ChunkSequence ==> (exists|pulled: Pulled| item == forwarded(pulled)) && if item
                == Polled::Ready(None::<Result<Bytes, BodyError>>) {
                final(self).holds(Seq::empty())
            } else {
                final(self)@ is ChunkSequence
            },
            old(self)@ is Frozen ==> final(self)@ == BodyState::Frozen && final(self).reported()
                && if old(self).reported() {
                item == Polled::Ready(None::<Result<Bytes, BodyError>>)
            } else {
                item == Polled::Ready(Some(Err::<Bytes, BodyError>(BodyError::BodyFrozen)))
            },
    {
        let mut inner = BodyInner::Freeze { reported: true };
        std::mem::swap(&mut self.inner, &mut inner);
        match inner {
            BodyInner::Once(bytes) => {
                if bytes_len(&bytes) == 0 {
                    self.inner = BodyInner::Once(bytes);
                    Polled::Ready(None)
                } else {
                    self.inner = BodyInner::Once(empty_bytes());
                    Polled::Ready(Some(Ok(bytes)))
                }
            },
            BodyInner::Reader { mut reader, length } => {
                let filled = reader.poll_fill_buf(cx);
                let ghost answer = filled;
                let (item, left, taken) = hand_out(length, filled);
                if taken > 0 {
                    reader.consume(taken);
                }
                self.inner = BodyInner::Reader { reader, length: left };
                assert(self@ matches BodyState::Reader(after, now) && now == left
                    && handed_out(length, answer, item, now, after));
                item
            },
            BodyInner::Stream(stream) => {
                let (pulled, rest) = stream.poll_next(cx).split();
                self.inner = match rest {
                    Some(stream) => BodyInner::Stream(stream),
                    None => BodyInner::Once(empty_bytes()),
                };
                forward(pulled)
            },
            BodyInner::Freeze { reported } => {
                self.inner = BodyInner::Freeze { reported: true };
                if reported {
                    Polled::Ready(None)
                } else {
                    Polled::Ready(Some(Err(BodyError::BodyFrozen)))
                }
            },
        }
    }
}

impl Default for Body {
    fn default() -> (body: Self)
        ensures
            body.holds(Seq::empty()),
    {
        Self::empty()
    }
}

} // verus!
