//! Gathering a body into one buffer.
//!
//! A buffered body is its own result. A reader is emptied into a growing
//! buffer. A chunk sequence is pulled until it ends: if it held one chunk, that
//! chunk is the result as it came; if it held more, they are copied into one
//! buffer in the order they came. A frozen body has nothing to give.
//!
//! None of this waits. [`IntoBytes::poll`] takes one step and says whether the
//! source was ready; whoever drives it comes back when it was not.

use super::{Body, BodyError, BodyState};
use crate::buffer::{
    bytes_as_slice, bytes_from_vec, bytes_len, bytes_of, empty_bytes, text_bytes, text_from_utf8,
};
use crate::source::{lent_bytes, BoxBufReader, BoxStream, Polled, Progress, Pulled};
use bytes::Bytes;
use bytestr::ByteStr;
use std::task::Context;
use vstd::prelude::*;
use vstd::utf8::valid_utf8;

verus! {

/// Chunks of a sequence on their way into one buffer.
pub enum Chunks {
    /// No chunk has come yet.
    First,
    /// One chunk has come. It is kept as it is: if no other follows, it is the
    /// result, and nothing was copied.
    Second(Bytes),
    /// Two chunks or more have come, and were copied into this buffer.
    Rest(Vec<u8>),
}

/// What [`Chunks`] stands for.
pub enum Gathering {
    /// No chunk has come yet.
    First,
    /// One chunk has come.
    Second(Bytes),
    /// Two chunks or more have come; these are their bytes, in order.
    Rest(Seq<u8>),
}

impl Gathering {
    /// The bytes of all chunks that have come, in the order they came.
    pub open spec fn gathered(self) -> Seq<u8> {
        match self {
            Gathering::First => Seq::empty(),
            Gathering::Second(first) => bytes_of(first),
            Gathering::Rest(bytes) => bytes,
        }
    }

    /// The state after one more chunk has come.
    pub open spec fn with_chunk(self, chunk: Bytes) -> Gathering {
        match self {
            Gathering::First => Gathering::Second(chunk),
            Gathering::Second(first) => Gathering::Rest(bytes_of(first) + bytes_of(chunk)),
            Gathering::Rest(bytes) => Gathering::Rest(bytes + bytes_of(chunk)),
        }
    }

    /// The state after a run of chunks has come, one after the other.
    pub open spec fn with_chunks(self, chunks: Seq<Bytes>) -> Gathering
        decreases chunks.len(),
    {
        if chunks.len() == 0 {
            self
        } else {
            self.with_chunk(chunks.first()).with_chunks(chunks.drop_first())
        }
    }
}

/// The bytes of a run of chunks, one after the other.
pub open spec fn joined(chunks: Seq<Bytes>) -> Seq<u8>
    decreases chunks.len(),
{
    if chunks.len() == 0 {
        Seq::empty()
    } else {
        bytes_of(chunks.first()) + joined(chunks.drop_first())
    }
}

impl View for Chunks {
    type V = Gathering;

    open spec fn view(&self) -> Gathering {
        match *self {
            Chunks::First => Gathering::First,
            Chunks::Second(first) => Gathering::Second(first),
            Chunks::Rest(bytes) => Gathering::Rest(bytes@),
        }
    }
}

/// What became of [`Chunks`] when the sequence answered a pull.
pub enum Absorbed {
    /// The sequence was not ready. Nothing changed.
    Pending(Chunks),
    /// A chunk came and was taken in.
    More(Chunks),
    /// The sequence ended or failed.
    Done(Result<Bytes, BodyError>),
}

/// The estimate of a sequence of what is to come: its upper bound if it names
/// one, else its lower bound.
pub fn estimate(bounds: (usize, Option<usize>)) -> (hint: usize)
    ensures
        hint == match bounds.1 {
            Some(upper) => upper,
            None => bounds.0,
        },
{
    match bounds.1 {
        Some(upper) => upper,
        None => bounds.0,
    }
}

impl Chunks {
    /// Takes in one more chunk.
    ///
    /// The first chunk is kept as it is. The second opens a buffer with room
    /// for both and for `hint` bytes more, and from then on every chunk is
    /// copied behind those that came before it.
    pub fn push(self, chunk: Bytes, hint: usize) -> (next: Chunks)
        ensures
            next@ == self@.with_chunk(chunk),
    {
        match self {
            Chunks::First => Chunks::Second(chunk),
            Chunks::Second(first) => {
                let room = bytes_len(&first).saturating_add(bytes_len(&chunk)).saturating_add(hint);
                let mut bytes: Vec<u8> = Vec::new();
                let _ = bytes.try_reserve(room);
                append(&mut bytes, bytes_as_slice(&first));
                append(&mut bytes, bytes_as_slice(&chunk));
                Chunks::Rest(bytes)
            },
            Chunks::Rest(mut bytes) => {
                append(&mut bytes, bytes_as_slice(&chunk));
                Chunks::Rest(bytes)
            },
        }
    }

    /// The result at the end of the sequence: no bytes if no chunk came, the
    /// one chunk itself if one came, else the buffer with all of them.
    pub fn finish(self) -> (whole: Bytes)
        ensures
            bytes_of(whole) == self@.gathered(),
            self@ matches Gathering::Second(first) ==> whole == first,
    {
        match self {
            Chunks::First => empty_bytes(),
            Chunks::Second(first) => first,
            Chunks::Rest(bytes) => bytes_from_vec(bytes),
        }
    }

    /// Takes in the answer of the sequence to one pull.
    ///
    /// A chunk is kept. At the end, the result is what has come: no bytes if
    /// nothing came, the one chunk itself if one came, else all bytes in one
    /// new buffer. A failure ends the gathering and is handed on. `hint` is
    /// the sequence's estimate of what is still to come; it sizes the buffer
    /// that the second chunk opens, and changes nothing else.
    pub fn absorb(self, pulled: Pulled, hint: usize) -> (step: Absorbed)
        ensures
            match pulled {
                Pulled::Pending => step == Absorbed::Pending(self),
                Pulled::Chunk(chunk) => step matches Absorbed::More(next) && next@
                    == self@.with_chunk(chunk),
                Pulled::Failed(failure) => step == Absorbed::Done(
                    Err(BodyError::Other(failure)),
                ),
                Pulled::End => step matches Absorbed::Done(Ok(whole)) && bytes_of(whole)
                    == self@.gathered() && (self@ matches Gathering::Second(first) ==> whole
                    == first),
            },
    {
        match pulled {
            Pulled::Pending => Absorbed::Pending(self),
            Pulled::Chunk(chunk) => Absorbed::More(self.push(chunk, hint)),
            Pulled::Failed(failure) => Absorbed::Done(Err(BodyError::Other(failure))),
            Pulled::End => Absorbed::Done(Ok(self.finish())),
        }
    }

    /// Whether exactly one chunk has come: the next one opens the buffer.
    pub fn holds_one(&self) -> (one: bool)
        ensures
            one == (self@ is Second),
    {
        match self {
            Chunks::Second(_) => true,
            _ => false,
        }
    }
}

/// What became of the bytes read from a reader when it answered a fill.
pub enum Filled {
    /// The reader was not ready. Nothing changed.
    Pending(Vec<u8>),
    /// The reader lent bytes. They were taken in, and the reader is to be told
    /// to drop this many.
    More(Vec<u8>, usize),
    /// The reader is at its end, or failed.
    Done(Result<Bytes, BodyError>),
}

/// Takes in the answer of a reader to one fill.
///
/// Bytes that the reader lent are copied behind those read before. An empty
/// loan is the end: the result is what was read. A failure ends the reading
/// and is handed on.
pub fn take_in(gathered: Vec<u8>, filled: Polled<Result<&[u8], std::io::Error>>) -> (step: Filled)
    ensures
        match filled {
            Polled::Pending => step matches Filled::Pending(same) && same@ == gathered@,
            Polled::Ready(Err(error)) => step matches Filled::Done(Err(BodyError::Io(same)))
                && same == error,
            Polled::Ready(Ok(lent)) => if lent@.len() == 0 {
                step matches Filled::Done(Ok(whole)) && bytes_of(whole) == gathered@
            } else {
                step matches Filled::More(longer, taken) && longer@ == gathered@ + lent@ && taken
                    == lent@.len()
            },
        },
{
    match filled {
        Polled::Pending => Filled::Pending(gathered),
        Polled::Ready(Err(error)) => Filled::Done(Err(BodyError::Io(error))),
        Polled::Ready(Ok(lent)) => {
            if lent.len() == 0 {
                Filled::Done(Ok(bytes_from_vec(gathered)))
            } else {
                let mut longer = gathered;
                append(&mut longer, lent);
                Filled::More(longer, lent.len())
            }
        },
    }
}

/// Appends a copy of `more` to `bytes`.
pub fn append(bytes: &mut Vec<u8>, more: &[u8])
    ensures
        final(bytes)@ == old(bytes)@ + more@,
{
    bytes.extend_from_slice(more);
    assert(bytes@ =~= old(bytes)@ + more@);
}

/// How far the gathering of a body has come.
pub enum Stage {
    /// The body was buffered: these bytes are the result.
    Whole(Bytes),
    /// The body is a reader: the reader, and the bytes that have been read
    /// from it.
    Reading(BoxBufReader, Seq<u8>),
    /// The body is a chunk sequence: the sequence, and what has come of it.
    Pulling(BoxStream, Gathering),
    /// There is nothing to give: the body was frozen, or the result has been
    /// handed out, or the source failed.
    Spent,
}

impl Stage {
    /// The result, where it is at hand and no source has to be asked: a
    /// buffered body gives its buffer as it is, and where nothing is left
    /// there is nothing to give.
    pub open spec fn ready(self) -> Option<Result<Bytes, BodyError>> {
        match self {
            Stage::Whole(bytes) => Some(Ok(bytes)),
            Stage::Spent => Some(Err(BodyError::BodyFrozen)),
            _ => None,
        }
    }

    /// What a step makes of the answer of a reader to one fill, after these
    /// bytes were read from it.
    ///
    /// Not ready: nothing is read. Bytes: they stand behind those read before,
    /// and the reader has been told to drop them all, so that the next fill
    /// lends new ones. An empty loan: the result is what was read. A failure:
    /// it is the result, as it came.
    pub open spec fn read_in(
        gathered: Seq<u8>,
        filled: Polled<Result<&[u8], std::io::Error>>,
        step: Progress<Result<Bytes, BodyError>>,
        after: Stage,
    ) -> bool {
        match filled {
            Polled::Pending => step is Pending && (after matches Stage::Reading(_, same) && same
                == gathered),
            Polled::Ready(Err(error)) => step == Progress::Done(
                Err::<Bytes, BodyError>(BodyError::Io(error)),
            ) && after == Stage::Spent,
            Polled::Ready(Ok(lent)) => if lent@.len() == 0 {
                (step matches Progress::Done(Ok(whole)) && bytes_of(whole) == gathered) && after
                    == Stage::Spent
            } else {
                step is Again && (after matches Stage::Reading(reader, longer) && longer
                    == gathered + lent@ && lent_bytes(reader).len() == 0)
            },
        }
    }

    /// What a step makes of the answer of a chunk sequence to one pull, after
    /// these chunks came of it.
    ///
    /// Not ready: nothing changes. A chunk: it is taken in. The end: the
    /// result is what has come, and for exactly one chunk it is that chunk
    /// itself. A failure: it is the result, as it came, and the sequence is
    /// let go of.
    pub open spec fn pulled_in(
        chunks: Gathering,
        pulled: Pulled,
        step: Progress<Result<Bytes, BodyError>>,
        after: Stage,
    ) -> bool {
        match pulled {
            Pulled::Pending => step is Pending && (after matches Stage::Pulling(_, same) && same
                == chunks),
            Pulled::Chunk(chunk) => step is Again && (after matches Stage::Pulling(_, next) && next
                == chunks.with_chunk(chunk)),
            Pulled::Failed(failure) => step == Progress::Done(
                Err::<Bytes, BodyError>(BodyError::Other(failure)),
            ) && after == Stage::Spent,
            Pulled::End => (step matches Progress::Done(Ok(whole)) && bytes_of(whole)
                == chunks.gathered() && (chunks matches Gathering::Second(first) ==> whole
                == first)) && after == Stage::Spent,
        }
    }

    /// What one step may make of a gathering: how far it got, and where the
    /// gathering stands after it.
    ///
    /// A result that is at hand is handed out, and nothing is left. Else the
    /// source was asked once, and the step is what its answer comes to.
    pub open spec fn steps(self, step: Progress<Result<Bytes, BodyError>>, after: Stage) -> bool {
        match self {
            Stage::Whole(_) | Stage::Spent => step is Done && self.ready() == Some(step->Done_0)
                && after == Stage::Spent,
            Stage::Reading(_, gathered) => exists|filled: Polled<Result<&[u8], std::io::Error>>|
                #[trigger] Stage::read_in(gathered, filled, step, after),
            Stage::Pulling(_, chunks) => exists|pulled: Pulled|
                #[trigger] Stage::pulled_in(chunks, pulled, step, after),
        }
    }

    /// Where the gathering of a body starts: at the body's own buffer, reader
    /// or sequence, with nothing gathered.
    pub open spec fn of(state: BodyState) -> Stage {
        match state {
            BodyState::Buffered(bytes) => Stage::Whole(bytes),
            BodyState::Reader(reader, _) => Stage::Reading(reader, Seq::empty()),
            BodyState::ChunkSequence(stream) => Stage::Pulling(stream, Gathering::First),
            BodyState::Frozen => Stage::Spent,
        }
    }
}

/// How a gathering is laid out.
enum Collecting {
    Whole(Bytes),
    Reading { reader: BoxBufReader, gathered: Vec<u8> },
    Pulling { stream: BoxStream, chunks: Chunks },
    Spent,
}

/// A body on its way into one buffer.
pub struct IntoBytes {
    state: Collecting,
}

impl View for IntoBytes {
    type V = Stage;

    closed spec fn view(&self) -> Stage {
        match self.state {
            Collecting::Whole(bytes) => Stage::Whole(bytes),
            Collecting::Reading { reader, gathered } => Stage::Reading(reader, gathered@),
            Collecting::Pulling { stream, chunks } => Stage::Pulling(stream, chunks@),
            Collecting::Spent => Stage::Spent,
        }
    }
}

impl IntoBytes {
    /// Takes one step.
    ///
    /// A buffered body is done at once, with the very buffer it held. A
    /// frozen one fails at once, and so does every step after the last. For a
    /// reader or a chunk sequence the step polls the source once. What comes
    /// back decides: not ready, nothing changes; data, it is added behind what
    /// was gathered, and the next step is due; the end, the result is what was
    /// gathered; a failure, it is the result.
    pub fn poll(&mut self, cx: &mut Context<'_>) -> (step: Progress<Result<Bytes, BodyError>>)
        ensures
            old(self)@.steps(step, final(self)@),
    {
        let mut state = Collecting::Spent;
        std::mem::swap(&mut self.state, &mut state);
        match state {
            Collecting::Whole(bytes) => Progress::Done(Ok(bytes)),
            Collecting::Spent => Progress::Done(Err(BodyError::BodyFrozen)),
            Collecting::Reading { mut reader, gathered } => {
                let ghost before = gathered@;
                let filled = reader.poll_fill_buf(cx);
                let ghost answer = filled;
                let step = match take_in(gathered, filled) {
                    Filled::Pending(gathered) => {
                        self.state = Collecting::Reading { reader, gathered };
                        Progress::Pending
                    },
                    Filled::More(gathered, taken) => {
                        reader.consume(taken);
                        self.state = Collecting::Reading { reader, gathered };
                        Progress::Again
                    },
                    Filled::Done(result) => Progress::Done(result),
                };
                assert(Stage::read_in(before, answer, step, self@));
                assert(old(self)@ matches Stage::Reading(_, read) && read == before);
                step
            },
            Collecting::Pulling { stream, chunks } => {
                let ghost before = chunks@;
                let (pulled, rest) = stream.poll_next(cx).split();
                let ghost answer = pulled;
                let hint = match &rest {
                    Some(stream) if chunks.holds_one() && pulled.is_chunk() => estimate(
                        stream.size_hint(),
                    ),
                    _ => 0,
                };
                let step = match chunks.absorb(pulled, hint) {
                    Absorbed::Pending(chunks) => {
                        if let Some(stream) = rest {
                            self.state = Collecting::Pulling { stream, chunks };
                        }
                        Progress::Pending
                    },
                    Absorbed::More(chunks) => {
                        if let Some(stream) = rest {
                            self.state = Collecting::Pulling { stream, chunks };
                        }
                        Progress::Again
                    },
                    Absorbed::Done(result) => Progress::Done(result),
                };
                assert(Stage::pulled_in(before, answer, step, self@));
                assert(old(self)@ matches Stage::Pulling(_, come) && come == before);
                step
            },
        }
    }
}

/// A buffered body is gathered into the very buffer it was made of, without
/// asking any source and without a copy.
pub proof fn buffered_round_trip(data: Bytes)
    ensures
        Stage::of(Body::of(BodyState::Buffered(data))@).ready() == Some(
            Ok::<Bytes, BodyError>(data),
        ),
{
    Body::of_state(BodyState::Buffered(data));
}

/// A frozen body cannot be gathered: the attempt fails with `BodyFrozen`.
pub proof fn frozen_gives_nothing()
    ensures
        Stage::of(Body::of(BodyState::Frozen)@).ready() == Some(
            Err::<Bytes, BodyError>(BodyError::BodyFrozen),
        ),
{
    Body::of_state(BodyState::Frozen);
}

/// Chunks are gathered behind what was gathered before them, in the order in
/// which they come.
pub proof fn chunks_follow(start: Gathering, chunks: Seq<Bytes>)
    ensures
        start.with_chunks(chunks).gathered() == start.gathered() + joined(chunks),
    decreases chunks.len(),
{
    if chunks.len() == 0 {
        assert(start.gathered() + joined(chunks) =~= start.gathered());
    } else {
        chunks_follow(start.with_chunk(chunks.first()), chunks.drop_first());
        assert(start.with_chunk(chunks.first()).gathered() =~= start.gathered() + bytes_of(
            chunks.first(),
        ));
        assert(start.gathered() + bytes_of(chunks.first()) + joined(chunks.drop_first())
            =~= start.gathered() + joined(chunks));
    }
}

/// A sequence of chunks is gathered into the bytes of its chunks, one after
/// the other. And a sequence of exactly one chunk leaves that chunk as it
/// came, to be the result itself.
pub proof fn chunks_join_in_order(chunks: Seq<Bytes>)
    ensures
        Gathering::First.with_chunks(chunks).gathered() == joined(chunks),
        chunks.len() == 1 ==> Gathering::First.with_chunks(chunks) == Gathering::Second(chunks[0]),
{
    chunks_follow(Gathering::First, chunks);
    assert(Gathering::First.gathered() + joined(chunks) =~= joined(chunks));
    if chunks.len() == 1 {
        assert(chunks.drop_first().len() == 0);
        assert(Gathering::Second(chunks[0]).with_chunks(chunks.drop_first()) == Gathering::Second(
            chunks[0],
        ));
    }
}

/// When a sequence ends after these chunks, the result of the gathering is
/// their bytes, one after the other; and if there was exactly one chunk, the
/// result is that chunk itself.
pub proof fn sequence_gathers_to_its_chunks(stream: BoxStream, chunks: Seq<Bytes>, whole: Bytes)
    requires
        Stage::Pulling(stream, Gathering::First.with_chunks(chunks)).steps(
            Progress::Done(Ok(whole)),
            Stage::Spent,
        ),
    ensures
        bytes_of(whole) == joined(chunks),
        chunks.len() == 1 ==> whole == chunks[0],
{
    chunks_join_in_order(chunks);
}

/// What the check for text makes of what was gathered: bytes that are
/// well-formed UTF-8 are the text, others are refused with a `Utf8` error,
/// and a failure stays what it is.
pub open spec fn checked_text(
    gathered: Result<Bytes, BodyError>,
    checked: Result<ByteStr, BodyError>,
) -> bool {
    match gathered {
        Ok(bytes) => if valid_utf8(bytes_of(bytes)) {
            checked matches Ok(text) && text_bytes(text) == bytes_of(bytes)
        } else {
            checked matches Err(error) && error is Utf8
        },
        Err(error) => checked == Err::<ByteStr, BodyError>(error),
    }
}

/// Checks that what was gathered is text: well-formed UTF-8.
pub fn check_text(gathered: Result<Bytes, BodyError>) -> (checked: Result<ByteStr, BodyError>)
    ensures
        checked_text(gathered, checked),
{
    match gathered {
        Ok(bytes) => match text_from_utf8(bytes) {
            Ok(text) => Ok(text),
            Err(error) => Err(BodyError::Utf8(error)),
        },
        Err(error) => Err(error),
    }
}

/// A body on its way into one text.
pub struct IntoString {
    bytes: IntoBytes,
}

impl IntoString {
    /// The gathering of the bytes that this text will be checked from.
    pub closed spec fn bytes(&self) -> IntoBytes {
        self.bytes
    }

    /// Takes one step: a step of the gathering, and at its end the check that
    /// the bytes are text.
    pub fn poll(&mut self, cx: &mut Context<'_>) -> (step: Progress<Result<ByteStr, BodyError>>)
        ensures
            exists|gathered: Progress<Result<Bytes, BodyError>>|
                #![trigger old(self).bytes()@.steps(gathered, final(self).bytes()@)]
                old(self).bytes()@.steps(gathered, final(self).bytes()@) && match gathered {
                    Progress::Pending => step is Pending,
                    Progress::Again => step is Again,
                    Progress::Done(result) => step matches Progress::Done(checked) && checked_text(
                        result,
                        checked,
                    ),
                },
    {
        match self.bytes.poll(cx) {
            Progress::Pending => Progress::Pending,
            Progress::Again => Progress::Again,
            Progress::Done(gathered) => Progress::Done(check_text(gathered)),
        }
    }
}

/// What `as_bytes` could do at once.
pub enum Materialized<'a> {
    /// The body is buffered: these are its bytes, lent without a copy.
    Ready(&'a [u8]),
    /// The body was a reader or a chunk sequence. It has been taken out, and
    /// this is its gathering. Once that is done, the bytes are to be put back
    /// with `replace`.
    Gather(IntoBytes),
}

impl Body {
    /// Try to read the body and return its bytes. The body is used up.
    pub fn into_bytes(self) -> (gathering: IntoBytes)
        ensures
            gathering@ == Stage::of(self@),
    {
        let state = match self.into_state() {
            BodyState::Buffered(bytes) => Collecting::Whole(bytes),
            BodyState::Reader(reader, length) => {
                let mut gathered: Vec<u8> = Vec::new();
                let room = match length {
                    Some(expected) => expected,
                    None => 0,
                };
                let _ = gathered.try_reserve(room);
                Collecting::Reading { reader, gathered }
            },
            BodyState::ChunkSequence(stream) => Collecting::Pulling {
                stream,
                chunks: Chunks::First,
            },
            BodyState::Frozen => Collecting::Spent,
        };
        IntoBytes { state }
    }

    /// Try to read the body as UTF-8 text. The body is used up.
    pub fn into_string(self) -> (gathering: IntoString)
        ensures
            gathering.bytes()@ == Stage::of(self@),
    {
        IntoString { bytes: self.into_bytes() }
    }
}

} // verus!
