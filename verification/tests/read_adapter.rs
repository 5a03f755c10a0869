use bytes::{Buf, Bytes};
use futures_lite::Stream;
use http_kit::body::utils::{poll_data, refill};
use http_kit::body::{Body, BodyError, IntoAsyncRead};
use http_kit::source::{BoxBufReader, BoxStream, Progress, Pulled};
use std::collections::VecDeque;
use std::pin::Pin;
use std::sync::atomic::{AtomicUsize, Ordering};
use std::sync::Arc;
use std::task::{Context, Poll, Waker};

/// A sequence that counts its pulls and cannot bear one after its end.
struct Strict {
    chunks: VecDeque<Result<Bytes, anyhow::Error>>,
    ended: bool,
    pulls: Arc<AtomicUsize>,
}

impl Stream for Strict {
    type Item = Result<Bytes, anyhow::Error>;

    fn poll_next(mut self: Pin<&mut Self>, _cx: &mut Context<'_>) -> Poll<Option<Self::Item>> {
        if self.ended {
            panic!("pulled after the end");
        }
        self.pulls.fetch_add(1, Ordering::SeqCst);
        match self.chunks.pop_front() {
            Some(item) => Poll::Ready(Some(item)),
            None => {
                self.ended = true;
                Poll::Ready(None)
            }
        }
    }
}

fn strict(chunks: Vec<Result<Bytes, anyhow::Error>>) -> (BoxStream, Arc<AtomicUsize>) {
    let pulls = Arc::new(AtomicUsize::new(0));
    let stream = Strict {
        chunks: chunks.into(),
        ended: false,
        pulls: pulls.clone(),
    };
    (BoxStream::new(stream), pulls)
}

fn read(cursor: &mut IntoAsyncRead, buf: &mut [u8]) -> Result<usize, BodyError> {
    let mut cx = Context::from_waker(Waker::noop());
    loop {
        match cursor.poll_read(&mut cx, buf) {
            Progress::Pending => panic!("a source in memory is always ready"),
            Progress::Again => {}
            Progress::Done(read) => return read,
        }
    }
}

fn read_to_end(cursor: &mut IntoAsyncRead, room: usize) -> Vec<u8> {
    let mut all = Vec::new();
    let mut buf = vec![0u8; room];
    loop {
        let n = read(cursor, &mut buf).unwrap();
        if n == 0 {
            return all;
        }
        all.extend_from_slice(&buf[..n]);
    }
}

#[test]
fn never_pulls_after_the_end() {
    let (stream, pulls) = strict(vec![
        Ok(Bytes::from_static(b"ab")),
        Ok(Bytes::from_static(b"cde")),
    ]);
    let mut cursor = Body::from_stream(stream).into_reader();
    assert_eq!(read_to_end(&mut cursor, 2), b"abcde");
    assert_eq!(pulls.load(Ordering::SeqCst), 3);
    let mut buf = [0u8; 4];
    for _ in 0..5 {
        assert_eq!(read(&mut cursor, &mut buf).unwrap(), 0);
    }
    let mut cx = Context::from_waker(Waker::noop());
    for _ in 0..5 {
        match cursor.poll_fill_buf(&mut cx) {
            Progress::Done(Ok(lent)) => assert!(lent.is_empty()),
            other => panic!("unexpected step: {:?}", other),
        }
    }
    assert_eq!(pulls.load(Ordering::SeqCst), 3);
}

#[test]
fn body_never_pulls_after_the_end() {
    let mut cx = Context::from_waker(Waker::noop());
    let (stream, pulls) = strict(vec![Ok(Bytes::from_static(b"ab"))]);
    let mut body = Body::from_stream(stream);
    while let http_kit::source::Polled::Ready(Some(_)) = body.poll_next(&mut cx) {}
    for _ in 0..3 {
        assert!(matches!(
            body.poll_next(&mut cx),
            http_kit::source::Polled::Ready(None)
        ));
    }
    assert_eq!(pulls.load(Ordering::SeqCst), 2);
}

#[test]
fn gathering_never_pulls_after_the_end() {
    let mut cx = Context::from_waker(Waker::noop());
    let (stream, pulls) = strict(vec![]);
    let mut gathering = Body::from_stream(stream).into_bytes();
    assert!(matches!(gathering.poll(&mut cx), Progress::Done(Ok(b)) if b.is_empty()));
    assert!(matches!(gathering.poll(&mut cx), Progress::Done(Err(_))));
    assert_eq!(pulls.load(Ordering::SeqCst), 1);
}

#[test]
fn empty_chunks_are_passed_over() {
    let mut cx = Context::from_waker(Waker::noop());
    let (stream, pulls) = strict(vec![
        Ok(Bytes::new()),
        Ok(Bytes::new()),
        Ok(Bytes::from_static(b"data")),
        Ok(Bytes::new()),
    ]);
    let mut cursor = Body::from_stream(stream).into_reader();
    assert!(matches!(cursor.poll_fill_buf(&mut cx), Progress::Again));
    assert!(matches!(cursor.poll_fill_buf(&mut cx), Progress::Again));
    match cursor.poll_fill_buf(&mut cx) {
        Progress::Done(Ok(lent)) => assert_eq!(lent, b"data"),
        other => panic!("unexpected step: {:?}", other),
    }
    assert_eq!(pulls.load(Ordering::SeqCst), 3);
    match cursor.poll_fill_buf(&mut cx) {
        Progress::Done(Ok(lent)) => assert_eq!(lent, b"data"),
        other => panic!("unexpected step: {:?}", other),
    }
    assert_eq!(pulls.load(Ordering::SeqCst), 3);
    cursor.consume(3);
    match cursor.poll_fill_buf(&mut cx) {
        Progress::Done(Ok(lent)) => assert_eq!(lent, b"a"),
        other => panic!("unexpected step: {:?}", other),
    }
    cursor.consume(1);
    assert_eq!(read_to_end(&mut cursor, 8), b"");
    assert_eq!(pulls.load(Ordering::SeqCst), 5);
}

#[test]
fn failure_is_handed_on_and_the_sequence_kept() {
    let (stream, _) = strict(vec![
        Err(anyhow::Error::msg("hiccup")),
        Ok(Bytes::from_static(b"after")),
    ]);
    let mut cursor = Body::from_stream(stream).into_reader();
    let mut buf = [0u8; 8];
    match read(&mut cursor, &mut buf) {
        Err(BodyError::Other(failure)) => assert_eq!(failure.to_string(), "hiccup"),
        other => panic!("unexpected result: {:?}", other),
    }
    assert_eq!(read(&mut cursor, &mut buf).unwrap(), 5);
    assert_eq!(&buf[..5], b"after");
}

#[test]
fn buffered_body_is_read_in_pieces() {
    let mut cursor = IntoAsyncRead::new(Body::from_bytes(Bytes::from_static(b"hello world")));
    let mut buf = [0u8; 4];
    assert_eq!(read(&mut cursor, &mut buf).unwrap(), 4);
    assert_eq!(&buf, b"hell");
    assert_eq!(read(&mut cursor, &mut buf).unwrap(), 4);
    assert_eq!(&buf, b"o wo");
    assert_eq!(read(&mut cursor, &mut buf).unwrap(), 3);
    assert_eq!(&buf, b"rldo");
    assert_eq!(read(&mut cursor, &mut buf).unwrap(), 0);
}

#[test]
fn buffered_body_fill_and_consume() {
    let mut cx = Context::from_waker(Waker::noop());
    let mut cursor = Body::from_bytes(Bytes::from_static(b"hello")).into_reader();
    match cursor.poll_fill_buf(&mut cx) {
        Progress::Done(Ok(lent)) => assert_eq!(lent, b"hello"),
        other => panic!("unexpected step: {:?}", other),
    }
    cursor.consume(2);
    match cursor.poll_fill_buf(&mut cx) {
        Progress::Done(Ok(lent)) => assert_eq!(lent, b"llo"),
        other => panic!("unexpected step: {:?}", other),
    }
    cursor.consume(3);
    match cursor.poll_fill_buf(&mut cx) {
        Progress::Done(Ok(lent)) => assert!(lent.is_empty()),
        other => panic!("unexpected step: {:?}", other),
    }
    cursor.consume(0);
}

#[test]
fn reader_body_hands_the_calls_on() {
    let mut cx = Context::from_waker(Waker::noop());
    let reader = BoxBufReader::new(futures_lite::io::Cursor::new(b"abcdef".to_vec()));
    let mut cursor = Body::from_reader(reader, None).into_reader();
    let mut buf = [0u8; 4];
    assert_eq!(read(&mut cursor, &mut buf).unwrap(), 4);
    assert_eq!(&buf, b"abcd");
    match cursor.poll_fill_buf(&mut cx) {
        Progress::Done(Ok(lent)) => assert_eq!(lent, b"ef"),
        other => panic!("unexpected step: {:?}", other),
    }
    cursor.consume(2);
    assert_eq!(read(&mut cursor, &mut buf).unwrap(), 0);
}

#[test]
fn frozen_body_cannot_be_read() {
    let mut cx = Context::from_waker(Waker::noop());
    let mut cursor = Body::frozen().into_reader();
    let mut buf = [0u8; 4];
    assert!(matches!(
        read(&mut cursor, &mut buf),
        Err(BodyError::BodyFrozen)
    ));
    assert!(matches!(
        cursor.poll_fill_buf(&mut cx),
        Progress::Done(Err(BodyError::BodyFrozen))
    ));
    cursor.consume(0);
    assert!(cursor.is_frozen());
}

#[test]
fn consume_over_a_frozen_body_does_nothing() {
    let mut cx = Context::from_waker(Waker::noop());
    let mut cursor = Body::frozen().into_reader();
    cursor.consume(5);
    cursor.consume(usize::MAX);
    assert!(cursor.is_frozen());
    assert_eq!(cursor.at_hand(), Some(0));
    assert!(matches!(
        cursor.poll_fill_buf(&mut cx),
        Progress::Done(Err(BodyError::BodyFrozen))
    ));
    assert!(!Body::empty().into_reader().is_frozen());
}

#[test]
fn refill_on_each_answer() {
    let mut buf = Bytes::new().reader();
    assert!(matches!(refill(&mut buf, Pulled::Pending), Progress::Pending));
    assert!(matches!(
        refill(&mut buf, Pulled::Chunk(Bytes::new())),
        Progress::Again
    ));
    assert!(buf.get_ref().is_empty());
    assert!(matches!(
        refill(&mut buf, Pulled::Chunk(Bytes::from_static(b"xy"))),
        Progress::Done(Ok(()))
    ));
    assert_eq!(&buf.get_ref()[..], b"xy");
    assert!(matches!(
        refill(&mut buf, Pulled::Failed(anyhow::Error::msg("no"))),
        Progress::Done(Err(BodyError::Other(_)))
    ));
    assert!(matches!(
        refill(&mut buf, Pulled::End),
        Progress::Done(Ok(()))
    ));
    assert_eq!(&buf.get_ref()[..], b"xy");
}

#[test]
fn poll_data_lets_go_of_the_sequence_at_its_end() {
    let mut cx = Context::from_waker(Waker::noop());
    let (stream, pulls) = strict(vec![Ok(Bytes::from_static(b"xy"))]);
    let mut stream = Some(stream);
    let mut buf = Bytes::new().reader();
    assert!(matches!(
        poll_data(&mut stream, &mut buf, &mut cx),
        Progress::Done(Ok(()))
    ));
    assert!(stream.is_some());
    assert_eq!(&buf.get_ref()[..], b"xy");
    assert!(matches!(
        poll_data(&mut stream, &mut buf, &mut cx),
        Progress::Done(Ok(()))
    ));
    assert_eq!(pulls.load(Ordering::SeqCst), 1);
    buf.get_mut().clear();
    assert!(matches!(
        poll_data(&mut stream, &mut buf, &mut cx),
        Progress::Done(Ok(()))
    ));
    assert!(stream.is_none());
    assert_eq!(pulls.load(Ordering::SeqCst), 2);
    assert!(matches!(
        poll_data(&mut stream, &mut buf, &mut cx),
        Progress::Done(Ok(()))
    ));
    assert!(stream.is_none());
    assert_eq!(pulls.load(Ordering::SeqCst), 2);
}
