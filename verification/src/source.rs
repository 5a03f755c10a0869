//! Handles to the two kinds of source a body can be fed from: a buffered
//! asynchronous reader, and an asynchronous sequence of chunks.
//!
//! Both are trait objects of `futures-lite`. The library never awaits them: it
//! polls them, one call at a time, through the functions in this file, and
//! leaves it to its caller to come back when a source was not ready. What a
//! poll returns depends on the outside world, so these contracts promise
//! nothing about it. They keep to the protocols of the two traits all the
//! same. A reader is only told to drop bytes that it lent out. A sequence that
//! has reported its end is never pulled again: the pull takes the handle, and
//! gives it back only if the sequence goes on.

use bytes::Bytes;
use futures_lite::{AsyncBufRead, AsyncRead, Stream};
use std::pin::Pin;
use std::task::{Context, Poll};
use vstd::prelude::*;

verus! {

#[verifier::external_type_specification]
#[verifier::external_body]
pub struct ExContext<'a>(std::task::Context<'a>);

#[verifier::external_type_specification]
#[verifier::external_body]
pub struct ExAnyhowError(anyhow::Error);

/// The answer of a source to one poll.
#[derive(Debug)]
pub enum Polled<T> {
    /// The source is not ready; the task will be woken when it may be.
    Pending,
    /// The source answered.
    Ready(T),
}

/// How far one step took an operation that may have to wait for its source.
#[derive(Debug)]
pub enum Progress<T> {
    /// The source is not ready; the task will be woken when it may be.
    Pending,
    /// The step moved on but did not finish: take the next one right away.
    Again,
    /// The operation is over, with this result.
    Done(T),
}

/// The answer of a chunk sequence to one pull.
#[derive(Debug)]
pub enum Pulled {
    /// No chunk is ready; the task will be woken when one may be.
    Pending,
    /// The next chunk.
    Chunk(Bytes),
    /// The sequence failed at this place.
    Failed(anyhow::Error),
    /// The sequence is over.
    End,
}

impl Pulled {
    /// Whether the answer is a chunk.
    pub fn is_chunk(&self) -> (chunk: bool)
        ensures
            chunk == (self is Chunk),
    {
        match self {
            Pulled::Chunk(_) => true,
            _ => false,
        }
    }
}

/// The answer of a chunk sequence to one pull, together with the sequence
/// itself as long as it goes on.
pub enum Pull {
    /// No chunk is ready.
    Pending(BoxStream),
    /// The next chunk.
    Chunk(Bytes, BoxStream),
    /// The sequence failed at this place.
    Failed(anyhow::Error, BoxStream),
    /// The sequence is over, and gone.
    End,
}

impl Pull {
    /// The answer by itself, and the sequence if it goes on.
    pub open spec fn parts(self) -> (Pulled, Option<BoxStream>) {
        match self {
            Pull::Pending(stream) => (Pulled::Pending, Some(stream)),
            Pull::Chunk(chunk, stream) => (Pulled::Chunk(chunk), Some(stream)),
            Pull::Failed(failure, stream) => (Pulled::Failed(failure), Some(stream)),
            Pull::End => (Pulled::End, None),
        }
    }

    /// Parts the answer from the sequence. The sequence is there unless the
    /// answer is the end.
    pub fn split(self) -> (parts: (Pulled, Option<BoxStream>))
        ensures
            parts == self.parts(),
            parts.1 is None <==> parts.0 is End,
    {
        match self {
            Pull::Pending(stream) => (Pulled::Pending, Some(stream)),
            Pull::Chunk(chunk, stream) => (Pulled::Chunk(chunk), Some(stream)),
            Pull::Failed(failure, stream) => (Pulled::Failed(failure), Some(stream)),
            Pull::End => (Pulled::End, None),
        }
    }
}

/// A boxed reader: any `AsyncBufRead` that can be sent between threads.
#[verifier::external_body]
pub struct BoxBufReader {
    inner: Pin<Box<dyn AsyncBufRead + Send + Sync + 'static>>,
}

/// A boxed sequence of chunks: any `Stream` of buffers or failures that can be
/// sent between threads.
#[verifier::external_body]
pub struct BoxStream {
    inner: Pin<Box<dyn Stream<Item = Result<Bytes, anyhow::Error>> + Send + Sync + 'static>>,
}

/// The bytes that a reader lent out at its last fill and has not been told to
/// drop since.
pub uninterp spec fn lent_bytes(reader: BoxBufReader) -> Seq<u8>;

impl BoxBufReader {
    /// `Box::pin` on a reader.
    #[verifier::external_body]
    pub fn new<R>(reader: R) -> (boxed: BoxBufReader) where
        R: AsyncBufRead + Send + Sync + 'static,
     {
        BoxBufReader { inner: Box::pin(reader) }
    }

    /// `AsyncBufRead::poll_fill_buf`: the reader lends the contents of its
    /// buffer, after filling it if it was empty. An empty loan means that the
    /// reader is at its end. What is lent stays lent until `consume`.
    #[verifier::external_body]
    pub(crate) fn poll_fill_buf<'a>(&'a mut self, cx: &mut Context<'_>) -> (polled: Polled<
        Result<&'a [u8], std::io::Error>,
    >)
        ensures
            polled matches Polled::Ready(Ok(lent)) ==> lent@ == lent_bytes(*final(self)),
    {
        match self.inner.as_mut().poll_fill_buf(cx) {
            Poll::Pending => Polled::Pending,
            Poll::Ready(filled) => Polled::Ready(filled),
        }
    }

    /// `AsyncBufRead::consume`: tells the reader to drop the first `amt` bytes
    /// of what it lent, so that they are not lent or read again. The trait
    /// asks that `amt` is no more than was lent.
    #[verifier::external_body]
    pub(crate) fn consume(&mut self, amt: usize)
        requires
            amt <= lent_bytes(*old(self)).len(),
        ensures
            lent_bytes(*final(self)) == lent_bytes(*old(self)).skip(amt as int),
    {
        self.inner.as_mut().consume(amt)
    }

    /// `AsyncRead::poll_read`: the reader writes into `buf` and says how many
    /// bytes it wrote. A slice cannot grow or shrink.
    #[verifier::external_body]
    pub(crate) fn poll_read(&mut self, cx: &mut Context<'_>, buf: &mut [u8]) -> (polled: Polled<
        Result<usize, std::io::Error>,
    >)
        ensures
            final(buf)@.len() == old(buf)@.len(),
    {
        match self.inner.as_mut().poll_read(cx, buf) {
            Poll::Pending => Polled::Pending,
            Poll::Ready(read) => Polled::Ready(read),
        }
    }
}

impl BoxStream {
    /// `Box::pin` on a sequence. A sequence that its owner has already run to
    /// the end must not be boxed: it may panic or never answer when pulled.
    #[verifier::external_body]
    pub fn new<S>(stream: S) -> (boxed: BoxStream) where
        S: Stream<Item = Result<Bytes, anyhow::Error>> + Send + Sync + 'static,
     {
        BoxStream { inner: Box::pin(stream) }
    }

    /// `Stream::poll_next`: one pull. The handle comes back with the answer,
    /// unless the answer is the end: then it is dropped.
    #[verifier::external_body]
    pub(crate) fn poll_next(self, cx: &mut Context<'_>) -> (answer: Pull) {
        let mut stream = self;
        match stream.inner.as_mut().poll_next(cx) {
            Poll::Pending => Pull::Pending(stream),
            Poll::Ready(Some(Ok(chunk))) => Pull::Chunk(chunk, stream),
            Poll::Ready(Some(Err(failure))) => Pull::Failed(failure, stream),
            Poll::Ready(None) => Pull::End,
        }
    }

    /// `Stream::size_hint`: the sequence's own estimate of how many chunks
    /// are to come, as a lower and an upper bound. Nothing holds it to them.
    #[verifier::external_body]
    pub(crate) fn size_hint(&self) -> (bounds: (usize, Option<usize>)) {
        self.inner.size_hint()
    }
}

} // verus!
