//! Reading a body as one run of bytes, whatever form it has.
//!
//! [`IntoAsyncRead`] is a cursor over a body. Over a buffered body it walks
//! the buffer; over a reader it hands every call on; over a chunk sequence it
//! walks the chunk it pulled last and pulls the next one when that is used up,
//! passing over empty chunks. When the sequence reports its end, it is gone:
//! the cursor holds nothing that it could pull from again.

use super::{Body, BodyError, BodyState};
use crate::buffer::{
    after_copy, bytes_len, bytes_of, copied_len, cursor_consume, cursor_fill, cursor_over,
    cursor_read, cursor_rest, empty_bytes, unread,
};
use crate::source::{lent_bytes, BoxBufReader, BoxStream, Polled, Progress, Pulled};
use bytes::buf::Reader;
use bytes::Bytes;
use std::task::Context;
use vstd::prelude::*;

verus! {

/// What a cursor over a body holds.
pub enum ReadState {
    /// A buffered body; these bytes of it are unread.
    Once(Seq<u8>),
    /// A reader.
    Reader(BoxBufReader),
    /// A chunk sequence, unless it has ended, and the unread bytes of the
    /// chunk that was pulled last.
    Stream(Option<BoxStream>, Seq<u8>),
    /// A frozen body.
    Frozen,
}

impl ReadState {
    /// The bytes that are at hand: those that a fill lends and a read would
    /// take first.
    pub open spec fn available(self) -> Seq<u8> {
        match self {
            ReadState::Once(rest) => rest,
            ReadState::Reader(reader) => lent_bytes(reader),
            ReadState::Stream(_, rest) => rest,
            ReadState::Frozen => Seq::empty(),
        }
    }

    /// Whether a read or a fill is answered from what is at hand, without
    /// asking any source.
    pub open spec fn settled(self) -> bool {
        match self {
            ReadState::Once(_) => true,
            ReadState::Reader(_) => false,
            ReadState::Stream(stream, rest) => stream is None || rest.len() > 0,
            ReadState::Frozen => false,
        }
    }

    /// Whether this is a cursor over a chunk sequence that goes on, with
    /// nothing at hand: the next read or fill pulls.
    pub open spec fn pulls(self) -> bool {
        self matches ReadState::Stream(Some(_), rest) && rest.len() == 0
    }

    /// Whether this is a cursor over a chunk sequence that has ended.
    pub open spec fn ended(self) -> bool {
        self matches ReadState::Stream(None, _)
    }

    /// The state after `amt` bytes of what is at hand were taken.
    pub open spec fn advanced(self, amt: nat) -> ReadState {
        match self {
            ReadState::Once(rest) => ReadState::Once(rest.skip(amt as int)),
            ReadState::Stream(stream, rest) => ReadState::Stream(stream, rest.skip(amt as int)),
            other => other,
        }
    }
}

/// Once its sequence has ended, a cursor asks no source again: every read and
/// every fill is answered from what is at hand, and however far the cursor
/// moves, the sequence stays gone.
pub proof fn ended_sequence_stays_gone(rest: Seq<u8>, amt: nat)
    ensures
        ReadState::Stream(None, rest).settled(),
        ReadState::Stream(None, rest).advanced(amt) == ReadState::Stream(
            None,
            rest.skip(amt as int),
        ),
        ReadState::Stream(None, rest).advanced(amt).settled(),
{
}

/// How a cursor is laid out.
enum Reading {
    Once(Reader<Bytes>),
    Reader(BoxBufReader),
    Stream { stream: Option<BoxStream>, buf: Reader<Bytes> },
    Freeze,
}

/// A cursor over a body, with the read operations of a buffered reader.
pub struct IntoAsyncRead {
    state: Reading,
}

impl View for IntoAsyncRead {
    type V = ReadState;

    closed spec fn view(&self) -> ReadState {
        match self.state {
            Reading::Once(cursor) => ReadState::Once(unread(cursor)),
            Reading::Reader(reader) => ReadState::Reader(reader),
            Reading::Stream { stream, buf } => ReadState::Stream(stream, unread(buf)),
            Reading::Freeze => ReadState::Frozen,
        }
    }
}

/// What the answer of a chunk sequence to a pull does to an empty cursor.
pub open spec fn refilled(before: Reader<Bytes>, pulled: Pulled, after: Reader<Bytes>) -> bool {
    match pulled {
        Pulled::Chunk(chunk) if bytes_of(chunk).len() > 0 => unread(after) == bytes_of(chunk),
        _ => after == before,
    }
}

/// Takes in the answer of a chunk sequence to the pull that an empty cursor
/// asked for.
///
/// A chunk with bytes in it becomes the chunk under the cursor. An empty chunk
/// is passed over: the next pull is due. At the end there is nothing more to
/// read. A failure is handed on.
pub fn refill(buf: &mut Reader<Bytes>, pulled: Pulled) -> (step: Progress<Result<(), BodyError>>)
    ensures
        refilled(*old(buf), pulled, *final(buf)),
        step == match pulled {
            Pulled::Pending => Progress::<Result<(), BodyError>>::Pending,
            Pulled::Chunk(chunk) => if bytes_of(chunk).len() == 0 {
                Progress::<Result<(), BodyError>>::Again
            } else {
                Progress::Done(Ok::<(), BodyError>(()))
            },
            Pulled::Failed(failure) => Progress::Done(
                Err::<(), BodyError>(BodyError::Other(failure)),
            ),
            Pulled::End => Progress::Done(Ok::<(), BodyError>(())),
        },
{
    match pulled {
        Pulled::Pending => Progress::Pending,
        Pulled::Chunk(chunk) => {
            if bytes_len(&chunk) == 0 {
                Progress::Again
            } else {
                *buf = cursor_over(chunk);
                Progress::Done(Ok(()))
            }
        },
        Pulled::Failed(failure) => Progress::Done(Err(BodyError::Other(failure))),
        Pulled::End => Progress::Done(Ok(())),
    }
}

/// Makes sure that the cursor over a chunk sequence has bytes under it, or
/// that the sequence has ended.
///
/// Nothing is pulled while bytes are unread, nor once the sequence is gone.
/// Otherwise the sequence is pulled once; if it answers with its end, it is
/// gone from then on.
pub fn poll_data(
    stream: &mut Option<BoxStream>,
    buf: &mut Reader<Bytes>,
    cx: &mut Context<'_>,
) -> (step:
    Progress<Result<(), BodyError>>)
    ensures
        *old(stream) is None || unread(*old(buf)).len() > 0 ==> step == Progress::Done(
            Ok::<(), BodyError>(()),
        ) && *final(stream) == *old(stream) && *final(buf) == *old(buf),
        *old(stream) is Some && unread(*old(buf)).len() == 0 ==> match step {
            Progress::Pending => *final(stream) is Some && *final(buf) == *old(buf),
            Progress::Again => *final(stream) is Some && *final(buf) == *old(buf),
            Progress::Done(Ok(_)) => if *final(stream) is None {
                *final(buf) == *old(buf)
            } else {
                unread(*final(buf)).len() > 0
            },
            Progress::Done(Err(error)) => error is Other && *final(stream) is Some && *final(buf)
                == *old(buf),
        },
{
    if bytes_len(cursor_rest(buf)) != 0 {
        return Progress::Done(Ok(()));
    }
    let mut held: Option<BoxStream> = None;
    std::mem::swap(stream, &mut held);
    match held {
        None => Progress::Done(Ok(())),
        Some(sequence) => {
            let (pulled, rest) = sequence.poll_next(cx).split();
            *stream = rest;
            refill(buf, pulled)
        },
    }
}

impl IntoAsyncRead {
    /// A cursor at the start of a body.
    pub fn new(body: Body) -> (cursor: IntoAsyncRead)
        ensures
            cursor@ == match body@ {
                BodyState::Buffered(bytes) => ReadState::Once(bytes_of(bytes)),
                BodyState::Reader(reader, _) => ReadState::Reader(reader),
                BodyState::ChunkSequence(stream) => ReadState::Stream(Some(stream), Seq::empty()),
                BodyState::Frozen => ReadState::Frozen,
            },
    {
        let state = match body.into_state() {
            BodyState::Buffered(bytes) => Reading::Once(cursor_over(bytes)),
            BodyState::Reader(reader, _) => Reading::Reader(reader),
            BodyState::ChunkSequence(stream) => Reading::Stream {
                stream: Some(stream),
                buf: cursor_over(empty_bytes()),
            },
            BodyState::Frozen => Reading::Freeze,
        };
        IntoAsyncRead { state }
    }

    /// Reads into `read_buf` and says how many bytes were written.
    ///
    /// What is at hand is copied to the front of `read_buf`, as much as fits,
    /// and the cursor moves past it. A cursor over a reader hands the call on.
    /// A cursor over a chunk sequence with nothing at hand pulls first; zero
    /// bytes read then means that the sequence is over. A frozen body fails.
    pub fn poll_read(&mut self, cx: &mut Context<'_>, read_buf: &mut [u8]) -> (step: Progress<
        Result<usize, BodyError>,
    >)
        ensures
            final(read_buf)@.len() == old(read_buf)@.len(),
            old(self)@.settled() ==> step == Progress::Done(
                Ok::<usize, BodyError>(
                    copied_len(old(self)@.available(), old(read_buf)@.len()) as usize,
                ),
            ) && final(read_buf)@ == after_copy(old(self)@.available(), old(read_buf)@)
                && final(self)@ == old(self)@.advanced(
                copied_len(old(self)@.available(), old(read_buf)@.len()),
            ),
            old(self)@ is Reader ==> final(self)@ is Reader && !(step is Again) && (
            step matches Progress::Done(Err(error)) ==> error is Io),
            old(self)@ is Frozen ==> step == Progress::Done(
                Err::<usize, BodyError>(BodyError::BodyFrozen),
            ) && final(self)@ == old(self)@ && final(read_buf)@ == old(read_buf)@,
            old(self)@.pulls() ==> match step {
                Progress::Done(Ok(n)) => exists|fresh: Seq<u8>|
                    #![trigger after_copy(fresh, old(read_buf)@)]
                    {
                        &&& n == copied_len(fresh, old(read_buf)@.len())
                        &&& final(read_buf)@ == after_copy(fresh, old(read_buf)@)
                        &&& final(self)@ is Stream
                        &&& final(self)@.available() == fresh.skip(n as int)
                        &&& final(self)@.ended() <==> fresh.len() == 0
                    },
                Progress::Done(Err(error)) => error is Other && final(self)@.pulls()
                    && final(read_buf)@ == old(read_buf)@,
                _ => final(self)@.pulls() && final(read_buf)@ == old(read_buf)@,
            },
    {
        match &mut self.state {
            Reading::Once(cursor) => done_read(cursor_read(cursor, read_buf)),
            Reading::Reader(reader) => match reader.poll_read(cx, read_buf) {
                Polled::Pending => Progress::Pending,
                Polled::Ready(read) => done_read(read),
            },
            Reading::Stream { stream, buf } => match poll_data(stream, buf, cx) {
                Progress::Pending => Progress::Pending,
                Progress::Again => Progress::Again,
                Progress::Done(Err(error)) => Progress::Done(Err(error)),
                Progress::Done(Ok(_)) => done_read(cursor_read(buf, read_buf)),
            },
            Reading::Freeze => Progress::Done(Err(BodyError::BodyFrozen)),
        }
    }

    /// Lends the bytes that are at hand, without moving the cursor.
    ///
    /// A cursor over a reader hands the call on. A cursor over a chunk
    /// sequence with nothing at hand pulls first; an empty loan then means
    /// that the sequence is over. A frozen body fails.
    pub fn poll_fill_buf(&mut self, cx: &mut Context<'_>) -> (step: Progress<
        Result<&[u8], BodyError>,
    >)
        ensures
            step matches Progress::Done(Ok(lent)) ==> lent@ == final(self)@.available(),
            old(self)@.settled() ==> step is Done && step->Done_0 is Ok && final(self)@ == old(self)@,
            old(self)@ is Reader ==> final(self)@ is Reader && !(step is Again) && (
            step matches Progress::Done(Err(error)) ==> error is Io),
            old(self)@ is Frozen ==> step == Progress::Done(
                Err::<&[u8], BodyError>(BodyError::BodyFrozen),
            ) && final(self)@ == old(self)@,
            old(self)@.pulls() ==> match step {
                Progress::Done(Ok(lent)) => final(self)@ is Stream && (final(self)@.ended()
                    <==> lent@.len() == 0),
                Progress::Done(Err(error)) => error is Other && final(self)@.pulls(),
                _ => final(self)@.pulls(),
            },
    {
        match &mut self.state {
            Reading::Once(cursor) => done_fill(cursor_fill(cursor)),
            Reading::Reader(reader) => match reader.poll_fill_buf(cx) {
                Polled::Pending => Progress::Pending,
                Polled::Ready(filled) => done_fill(filled),
            },
            Reading::Stream { stream, buf } => match poll_data(stream, buf, cx) {
                Progress::Pending => Progress::Pending,
                Progress::Again => Progress::Again,
                Progress::Done(Err(error)) => Progress::Done(Err(error)),
                Progress::Done(Ok(_)) => done_fill(cursor_fill(buf)),
            },
            Reading::Freeze => Progress::Done(Err(BodyError::BodyFrozen)),
        }
    }

    /// How many bytes are at hand, where the cursor itself holds them. Over a
    /// reader only the reader knows.
    pub fn at_hand(&self) -> (len: Option<usize>)
        ensures
            match self@ {
                ReadState::Reader(_) => len is None,
                _ => len == Some(self@.available().len() as usize),
            },
    {
        match &self.state {
            Reading::Once(cursor) => Some(bytes_len(cursor_rest(cursor))),
            Reading::Reader(_) => None,
            Reading::Stream { buf, .. } => Some(bytes_len(cursor_rest(buf))),
            Reading::Freeze => Some(0),
        }
    }

    /// Whether this is a cursor over a frozen body.
    pub fn is_frozen(&self) -> (frozen: bool)
        ensures
            frozen == (self@ is Frozen),
    {
        match &self.state {
            Reading::Freeze => true,
            _ => false,
        }
    }

    /// Moves the cursor `amt` bytes on, past bytes that a fill lent. `amt`
    /// may not be more than is at hand. Over a frozen body there is nothing
    /// to move past, and nothing happens, whatever `amt` is.
    pub fn consume(&mut self, amt: usize)
        requires
            old(self)@ is Frozen || amt <= old(self)@.available().len(),
        ensures
            old(self)@ is Frozen ==> final(self)@ == old(self)@,
            !(old(self)@ is Frozen) ==> final(self)@.available() == old(self)@.available().skip(
                amt as int,
            ),
            old(self)@ is Reader ==> final(self)@ is Reader,
            !(old(self)@ is Reader) ==> final(self)@ == old(self)@.advanced(amt as nat),
    {
        match &mut self.state {
            Reading::Once(cursor) => cursor_consume(cursor, amt),
            Reading::Reader(reader) => reader.consume(amt),
            Reading::Stream { buf, .. } => cursor_consume(buf, amt),
            Reading::Freeze => {},
        }
    }
}

/// The end of a read: what the source said, with a failure as the body's own
/// error.
pub fn done_read(read: Result<usize, std::io::Error>) -> (step: Progress<Result<usize, BodyError>>)
    ensures
        step == Progress::Done(
            match read {
                Ok(n) => Ok::<usize, BodyError>(n),
                Err(error) => Err(BodyError::Io(error)),
            },
        ),
{
    match read {
        Ok(n) => Progress::Done(Ok(n)),
        Err(error) => Progress::Done(Err(BodyError::Io(error))),
    }
}

/// The end of a fill: what the source lent, with a failure as the body's own
/// error.
pub fn done_fill<'a>(filled: Result<&'a [u8], std::io::Error>) -> (step: Progress<
    Result<&'a [u8], BodyError>,
>)
    ensures
        step == Progress::Done(
            match filled {
                Ok(lent) => Ok::<&[u8], BodyError>(lent),
                Err(error) => Err(BodyError::Io(error)),
            },
        ),
{
    match filled {
        Ok(lent) => Progress::Done(Ok(lent)),
        Err(error) => Progress::Done(Err(BodyError::Io(error))),
    }
}

impl Body {
    /// Return a cursor over the body with the read operations of a buffered
    /// reader. The body is used up.
    pub fn into_reader(self) -> (cursor: IntoAsyncRead)
        ensures
            cursor@ == match self@ {
                BodyState::Buffered(bytes) => ReadState::Once(bytes_of(bytes)),
                BodyState::Reader(reader, _) => ReadState::Reader(reader),
                BodyState::ChunkSequence(stream) => ReadState::Stream(Some(stream), Seq::empty()),
                BodyState::Frozen => ReadState::Frozen,
            },
    {
        IntoAsyncRead::new(self)
    }
}

} // verus!
