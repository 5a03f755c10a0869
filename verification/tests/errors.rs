use http::StatusCode;
use http_kit::body::BodyError;
use http_kit::{guess, Hook, HttpError, ResultExt};
use std::io;

#[test]
fn guess_known_extensions() {
    assert_eq!(guess(b"aac"), Some("audio/aac"));
    assert_eq!(guess(b"avi"), Some("video/x-msvideo"));
    assert_eq!(guess(b"css"), Some("text/css"));
    assert_eq!(guess(b"gif"), Some("image/gif"));
    assert_eq!(guess(b"jpeg"), Some("image/jpeg"));
    assert_eq!(guess(b"jpg"), Some("image/jpeg"));
    assert_eq!(guess(b"js"), Some("text/javascript"));
    assert_eq!(guess(b"json"), Some("application/json"));
    assert_eq!(guess(b"mp3"), Some("audio/mpeg"));
    assert_eq!(guess(b"mp4"), Some("video/mp4"));
    assert_eq!(guess(b"png"), Some("image/png"));
    assert_eq!(guess(b"svg"), Some("image/svg+xml"));
    assert_eq!(guess(b"ttf"), Some("font/ttf"));
    assert_eq!(guess(b"txt"), Some("text/plain"));
    assert_eq!(guess(b"wav"), Some("audio/wav"));
    assert_eq!(guess(b"webp"), Some("image/webp"));
}

#[test]
fn guess_unknown_extensions() {
    assert_eq!(guess(b""), None);
    assert_eq!(guess(b"JPG"), None);
    assert_eq!(guess(b"jp"), None);
    assert_eq!(guess(b"jpgg"), None);
    assert_eq!(guess(b".png"), None);
    assert_eq!(guess(&[0xff, 0x00]), None);
}

#[test]
fn spells_compares_bytes() {
    assert!(http_kit::buffer::spells(b"abc", "abc"));
    assert!(!http_kit::buffer::spells(b"abc", "abd"));
    assert!(!http_kit::buffer::spells(b"abc", "ab"));
    assert!(http_kit::buffer::spells(b"", ""));
    assert!(http_kit::buffer::spells("é".as_bytes(), "é"));
}

#[test]
fn error_from_a_message() {
    let error = HttpError::msg("went wrong".to_string());
    assert_eq!(error.status(), StatusCode::SERVICE_UNAVAILABLE);
    assert_eq!(error.to_string(), "went wrong");
}

#[test]
fn error_with_a_status() {
    let cause = anyhow::Error::new(io::Error::new(io::ErrorKind::NotFound, "no such file"));
    let error = HttpError::new(cause, StatusCode::NOT_FOUND);
    assert_eq!(error.status().as_u16(), 404);
    let error = error.set_status(StatusCode::GONE);
    assert_eq!(error.status().as_u16(), 410);
    assert_eq!(error.to_string(), "no such file");
}

#[test]
fn error_from_a_cause_is_503() {
    let error = HttpError::from(anyhow::Error::msg("cause"));
    assert_eq!(error.status().as_u16(), 503);
    assert_eq!(error.into_inner().to_string(), "cause");
}

#[test]
fn downcast_gives_the_cause_back() {
    let cause = anyhow::Error::new(io::Error::new(io::ErrorKind::NotFound, "no such file"));
    let mut error = HttpError::new(cause, StatusCode::NOT_FOUND);
    assert!(error.downcast_ref::<std::fmt::Error>().is_none());
    assert_eq!(
        error.downcast_ref::<io::Error>().unwrap().kind(),
        io::ErrorKind::NotFound
    );
    assert!(error.downcast_mut::<io::Error>().is_some());
    let error = match error.downcast::<std::fmt::Error>() {
        Ok(_) => panic!("the cause is no formatting error"),
        Err(error) => error,
    };
    assert_eq!(error.status().as_u16(), 404);
    let cause = error.downcast::<io::Error>().unwrap();
    assert_eq!(cause.kind(), io::ErrorKind::NotFound);
}

#[test]
fn status_on_results_and_options() {
    let fine: Result<u8, anyhow::Error> = Ok(1);
    assert_eq!(fine.status(StatusCode::BAD_REQUEST).unwrap(), 1);
    let failed: Result<u8, anyhow::Error> = Err(anyhow::Error::msg("bad"));
    let error = failed.status(StatusCode::BAD_REQUEST).err().unwrap();
    assert_eq!(error.status().as_u16(), 400);
    assert_eq!(error.to_string(), "bad");
    assert_eq!(Some(2u8).status(StatusCode::NOT_FOUND).unwrap(), 2);
    let error = None::<u8>.status(StatusCode::NOT_FOUND).err().unwrap();
    assert_eq!(error.status().as_u16(), 404);
    assert_eq!(error.to_string(), "None Error");
    let error = None::<u8>.status(StatusCode::OK).err().unwrap();
    assert_eq!(error.status().as_u16(), 200);
}

#[test]
fn body_errors_from_their_causes() {
    assert!(matches!(
        BodyError::from(io::Error::new(io::ErrorKind::Other, "io")),
        BodyError::Io(_)
    ));
    let invalid = std::str::from_utf8(&[0xff]).err().unwrap();
    assert!(matches!(BodyError::from(invalid), BodyError::Utf8(_)));
    assert!(matches!(
        BodyError::from(anyhow::Error::msg("other")),
        BodyError::Other(_)
    ));
    let json = serde_json::from_slice::<u8>(b"x").err().unwrap();
    assert!(matches!(BodyError::from(json), BodyError::JsonError(_)));
    let form = serde_urlencoded::from_bytes::<Vec<(u8, u8)>>(b"a=b")
        .err()
        .unwrap();
    assert!(matches!(
        BodyError::from(form),
        BodyError::DeserializeForm(_)
    ));
    let form = serde_urlencoded::to_string(5u8).err().unwrap();
    assert!(matches!(BodyError::from(form), BodyError::SerializeForm(_)));
}

#[test]
fn body_error_messages() {
    assert_eq!(
        BodyError::BodyFrozen.to_string(),
        "Body was frozen,it may have been consumed by `take()`"
    );
    assert_eq!(
        BodyError::Other(anyhow::Error::msg("other")).to_string(),
        "other"
    );
    assert_eq!(
        BodyError::Io(io::Error::new(io::ErrorKind::Other, "io")).to_string(),
        "io"
    );
}

#[test]
fn only_an_error_status_is_set() {
    let error = HttpError::msg("m".to_string()).try_set_status(StatusCode::NOT_FOUND);
    assert_eq!(error.status().as_u16(), 404);
    let error = error.try_set_status(StatusCode::OK);
    assert_eq!(error.status().as_u16(), 404);
    let error = error.try_set_status(StatusCode::from_u16(600).unwrap());
    assert_eq!(error.status().as_u16(), 404);
    let error = error.try_set_status(StatusCode::from_u16(599).unwrap());
    assert_eq!(error.status().as_u16(), 599);
    let error = error.try_set_status(StatusCode::from_u16(399).unwrap());
    assert_eq!(error.status().as_u16(), 599);
    let error = error.try_set_status(StatusCode::BAD_REQUEST);
    assert_eq!(error.status().as_u16(), 400);
}

/// Refuses odd events.
struct EvenOnly;

impl Hook<u32> for EvenOnly {
    fn call_hook(event: u32) -> Result<(), anyhow::Error> {
        if event % 2 == 0 {
            Ok(())
        } else {
            Err(anyhow::Error::msg("odd"))
        }
    }
}

#[test]
fn hook_is_called_with_its_event() {
    assert!(<EvenOnly as Hook<u32>>::call_hook(4).is_ok());
    assert_eq!(
        <EvenOnly as Hook<u32>>::call_hook(5).err().unwrap().to_string(),
        "odd"
    );
}

#[test]
fn failed_downcast_mut_leaves_the_error_alone() {
    let cause = anyhow::Error::new(io::Error::new(io::ErrorKind::NotFound, "no such file"));
    let mut error = HttpError::new(cause, StatusCode::NOT_FOUND);
    assert!(error.downcast_mut::<std::fmt::Error>().is_none());
    assert_eq!(error.status().as_u16(), 404);
    assert_eq!(error.to_string(), "no such file");
    *error.downcast_mut::<io::Error>().unwrap() = io::Error::new(io::ErrorKind::Other, "changed");
    assert_eq!(error.status().as_u16(), 404);
    assert_eq!(error.to_string(), "changed");
}

#[test]
fn after_downcast_on_each_outcome() {
    let cast: Result<io::Error, anyhow::Error> =
        Ok(io::Error::new(io::ErrorKind::NotFound, "no such file"));
    let boxed = HttpError::after_downcast(StatusCode::NOT_FOUND, cast).unwrap();
    assert_eq!(boxed.kind(), io::ErrorKind::NotFound);
    let cast: Result<io::Error, anyhow::Error> = Err(anyhow::Error::msg("not an io error"));
    let kept = HttpError::after_downcast(StatusCode::GONE, cast)
        .err()
        .unwrap();
    assert_eq!(kept.status().as_u16(), 410);
    assert_eq!(kept.to_string(), "not an io error");
}
