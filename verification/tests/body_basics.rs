use bytes::Bytes;
use http_kit::body::{Body, BodyError};
use http_kit::source::Progress;
use std::task::{Context, Waker};

fn gather(body: Body) -> Result<Bytes, BodyError> {
    let mut cx = Context::from_waker(Waker::noop());
    let mut gathering = body.into_bytes();
    loop {
        match gathering.poll(&mut cx) {
            Progress::Pending => panic!("a source in memory is always ready"),
            Progress::Again => {}
            Progress::Done(result) => return result,
        }
    }
}

#[test]
fn buffered_body_gives_back_its_buffer() {
    let data = Bytes::from(vec![1u8, 2, 3, 4, 5]);
    let start = data.as_ptr();
    let got = gather(Body::from_bytes(data)).unwrap();
    assert_eq!(&got[..], &[1u8, 2, 3, 4, 5]);
    assert_eq!(got.as_ptr(), start);
}

#[test]
fn empty_body_is_not_frozen() {
    let body = Body::empty();
    assert!(!body.is_frozen());
    assert_eq!(body.len(), Some(0));
    assert_eq!(gather(body).unwrap().len(), 0);
}

#[test]
fn take_succeeds_exactly_once() {
    let mut body = Body::from_bytes(Bytes::from_static(b"payload"));
    let taken = body.take().unwrap();
    assert_eq!(taken.len(), Some(7));
    assert!(body.is_frozen());
    assert!(body.take().is_err());
    let mut other = Body::empty();
    assert!(body.swap(&mut other).is_err());
    assert!(body.is_frozen());
    assert_eq!(other.len(), Some(0));
}

#[test]
fn freeze_then_into_bytes_fails() {
    let mut body = Body::from_bytes(Bytes::from_static(b"payload"));
    body.freeze();
    assert!(body.is_frozen());
    assert!(matches!(gather(body), Err(BodyError::BodyFrozen)));
}

#[test]
fn freeze_twice_is_idempotent() {
    let mut body = Body::from_bytes(Bytes::from_static(b"payload"));
    body.freeze();
    body.freeze();
    assert!(body.is_frozen());
    assert_eq!(body.len(), None);
}

#[test]
fn replace_unfreezes() {
    let mut body = Body::frozen();
    let previous = body.replace(Body::from_bytes(Bytes::from_static(b"new")));
    assert!(previous.is_frozen());
    assert!(!body.is_frozen());
    assert_eq!(&gather(body).unwrap()[..], b"new");
}

#[test]
fn swap_exchanges_the_values() {
    let mut one = Body::from_bytes(Bytes::from_static(b"one"));
    let mut other = Body::from_bytes(Bytes::from_static(b"other"));
    assert!(one.swap(&mut other).is_ok());
    assert_eq!(&gather(one).unwrap()[..], b"other");
    assert_eq!(&gather(other).unwrap()[..], b"one");
}

#[test]
fn swap_takes_a_frozen_body_from_the_other_side() {
    let mut one = Body::from_bytes(Bytes::from_static(b"one"));
    let mut other = Body::frozen();
    assert!(one.swap(&mut other).is_ok());
    assert!(one.is_frozen());
    assert_eq!(other.len(), Some(3));
}

#[test]
fn len_is_known_only_when_buffered() {
    assert_eq!(Body::from_bytes(Bytes::from_static(b"abc")).len(), Some(3));
    assert_eq!(Body::frozen().len(), None);
    let reader = http_kit::source::BoxBufReader::new(futures_lite::io::Cursor::new(vec![1u8, 2]));
    assert_eq!(Body::from_reader(reader, Some(2)).len(), None);
}

#[test]
fn frozen_message() {
    let mut body = Body::frozen();
    let error = body.take().err().unwrap();
    assert_eq!(
        error.to_string(),
        "Body was frozen,it may have been consumed by `take()`"
    );
}

#[test]
fn default_body_is_empty() {
    let body = Body::default();
    assert_eq!(body.len(), Some(0));
}
