use bytes::Bytes;
use bytestr::ByteStr;
use http::header::{HeaderName, HeaderValue, ACCEPT, CONTENT_TYPE, HOST};
use http::{Method, StatusCode, Uri, Version};
use http_kit::body::{Body, BodyError};
use http_kit::source::Progress;
use http_kit::{Request, Response};
use std::borrow::Cow;
use std::task::{Context, Waker};

fn uri(text: &str) -> Uri {
    text.parse().unwrap()
}

fn gather(body: Body) -> Result<Bytes, BodyError> {
    let mut cx = Context::from_waker(Waker::noop());
    let mut gathering = body.into_bytes();
    loop {
        match gathering.poll(&mut cx) {
            Progress::Pending => panic!("a source in memory is always ready"),
            Progress::Again => {}
            Progress::Done(result) => return result,
        }
    }
}

#[test]
fn new_request_is_plain() {
    let mut request = Request::new(Method::PATCH, uri("/a"));
    assert_eq!(request.method(), &Method::PATCH);
    assert_eq!(request.uri(), &uri("/a"));
    assert_eq!(request.version(), Version::HTTP_11);
    assert!(request.headers().is_empty());
    assert!(request.extensions().is_empty());
    assert_eq!(gather(request.take_body().unwrap()).unwrap().len(), 0);
}

#[test]
fn request_methods() {
    assert_eq!(Request::get(uri("/")).method(), &Method::GET);
    assert_eq!(Request::post(uri("/")).method(), &Method::POST);
    assert_eq!(Request::put(uri("/")).method(), &Method::PUT);
    assert_eq!(Request::delete(uri("/")).method(), &Method::DELETE);
}

#[test]
fn request_line_can_be_changed() {
    let mut request = Request::get(uri("/a"));
    request.set_method(Method::HEAD);
    request.set_uri(uri("/b"));
    request.set_version(Version::HTTP_2);
    assert_eq!(request.method(), &Method::HEAD);
    assert_eq!(request.uri(), &uri("/b"));
    assert_eq!(request.version(), Version::HTTP_2);
    *request.method_mut() = Method::OPTIONS;
    *request.uri_mut() = uri("/c");
    *request.version_mut() = Version::HTTP_10;
    assert_eq!(request.parts().method, Method::OPTIONS);
    assert_eq!(request.parts().uri, uri("/c"));
    assert_eq!(request.parts().version, Version::HTTP_10);
    request.parts_mut().method = Method::GET;
    assert_eq!(request.method(), &Method::GET);
}

#[test]
fn append_keeps_and_insert_replaces() {
    let mut request = Request::get(uri("/"));
    assert!(request.get_header(ACCEPT).is_none());
    request
        .append_header(ACCEPT, HeaderValue::from_static("text/html"))
        .unwrap();
    request
        .append_header(ACCEPT, HeaderValue::from_static("text/plain"))
        .unwrap();
    assert_eq!(request.get_header(ACCEPT).unwrap(), "text/html");
    assert_eq!(request.headers().get_all(ACCEPT).iter().count(), 2);
    let previous = request
        .insert_header(ACCEPT, HeaderValue::from_static("*/*"))
        .unwrap();
    assert_eq!(previous.unwrap(), "text/html");
    assert_eq!(request.get_header(ACCEPT).unwrap(), "*/*");
    assert_eq!(request.headers().get_all(ACCEPT).iter().count(), 1);
    let previous = request
        .insert_header(HOST, HeaderValue::from_static("example.org"))
        .unwrap();
    assert!(previous.is_none());
}

#[test]
fn header_names_ignore_case() {
    let mut request = Request::get(uri("/"));
    request
        .insert_header(
            HeaderName::from_bytes(b"X-Trace").unwrap(),
            HeaderValue::from_static("1"),
        )
        .unwrap();
    assert_eq!(
        request
            .get_header(HeaderName::from_static("x-trace"))
            .unwrap(),
        "1"
    );
    request.headers_mut().clear();
    assert!(request.headers().is_empty());
}

#[test]
fn header_builder() {
    let request = Request::get(uri("/")).header(HOST, HeaderValue::from_static("a"));
    let request = match request {
        Ok(request) => request,
        Err(_) => panic!("an empty header map has room"),
    };
    let request = match request.header(HOST, HeaderValue::from_static("b")) {
        Ok(request) => request,
        Err(_) => panic!("a small header map has room"),
    };
    assert_eq!(request.get_header(HOST).unwrap(), "b");
    assert_eq!(request.headers().len(), 1);
}

#[test]
fn full_header_map_refuses() {
    let mut request = Request::get(uri("/"));
    let mut refused = false;
    for i in 0..40000 {
        let name = HeaderName::from_bytes(format!("x-{}", i).as_bytes()).unwrap();
        if request
            .append_header(name, HeaderValue::from_static("v"))
            .is_err()
        {
            refused = true;
            break;
        }
    }
    assert!(refused);
    let held = request.headers().len();
    let name = HeaderName::from_static("x-one-more");
    assert!(request
        .insert_header(name.clone(), HeaderValue::from_static("v"))
        .is_err());
    assert_eq!(request.headers().len(), held);
    assert!(request.get_header(name.clone()).is_none());
    assert!(request.header(name, HeaderValue::from_static("v")).is_err());
}

#[test]
fn extensions_hold_one_value_of_a_type() {
    let mut request = Request::get(uri("/"));
    assert!(request.get_extension::<u32>().is_none());
    assert!(request.insert_extension(5u32).is_none());
    assert_eq!(request.insert_extension(7u32), Some(5));
    assert!(request.insert_extension("text").is_none());
    assert_eq!(request.extensions().len(), 2);
    assert_eq!(request.get_extension::<u32>(), Some(&7));
    *request.get_mut_extension::<u32>().unwrap() += 1;
    assert_eq!(request.remove_extension::<u32>(), Some(8));
    assert!(request.remove_extension::<u32>().is_none());
    assert_eq!(request.extensions().len(), 1);
    request.extensions_mut().clear();
    assert!(request.get_extension::<&str>().is_none());
}

#[test]
fn request_body_is_exchanged_by_value() {
    let mut request = Request::post(uri("/"));
    let previous = request.replace_body(Body::from("first"));
    assert_eq!(previous.len(), Some(0));
    let mut other = Body::from("second");
    assert!(request.swap_body(&mut other).is_ok());
    assert_eq!(&gather(other).unwrap()[..], b"first");
    let taken = request.take_body().unwrap();
    assert_eq!(&gather(taken).unwrap()[..], b"second");
    assert!(request.take_body().is_err());
    let mut other = Body::empty();
    assert!(request.swap_body(&mut other).is_err());
    let request = request.map_body(|body| {
        assert!(body.is_frozen());
        Body::from("mapped")
    });
    let mut request = request;
    assert_eq!(
        &gather(request.take_body().unwrap()).unwrap()[..],
        b"mapped"
    );
}

#[test]
fn request_into_bytes_takes_the_body() {
    let mut cx = Context::from_waker(Waker::noop());
    let mut request = Request::post(uri("/"));
    request.replace_body(Body::from("payload"));
    let mut gathering = request.into_bytes().unwrap();
    assert!(matches!(gathering.poll(&mut cx), Progress::Done(Ok(b)) if &b[..] == b"payload"));
    assert!(matches!(
        request.into_bytes(),
        Err(BodyError::BodyFrozen)
    ));
    assert!(matches!(
        request.into_string(),
        Err(BodyError::BodyFrozen)
    ));
    request.replace_body(Body::from("text"));
    let mut text = request.into_string().unwrap();
    assert!(matches!(text.poll(&mut cx), Progress::Done(Ok(t)) if t.as_str() == "text"));
}

#[test]
fn json_and_form_declare_themselves() {
    let request = match Request::post(uri("/")).json(b"{}".to_vec()) {
        Ok(request) => request,
        Err(_) => panic!("an empty header map has room"),
    };
    assert_eq!(request.get_header(CONTENT_TYPE).unwrap(), "application/json");
    let mut request = request;
    assert_eq!(&gather(request.take_body().unwrap()).unwrap()[..], b"{}");
    let response = match Response::empty().form("a=1".to_string()) {
        Ok(response) => response,
        Err(_) => panic!("an empty header map has room"),
    };
    assert_eq!(
        response.get_header(CONTENT_TYPE).unwrap(),
        "application/x-www-form-urlencoded"
    );
    let mut response = response;
    assert_eq!(&gather(response.take_body().unwrap()).unwrap()[..], b"a=1");
}

#[test]
fn mime_round_trip() {
    let request = match Request::get(uri("/")).mime(mime::TEXT_HTML_UTF_8) {
        Ok(request) => request,
        Err(_) => panic!("a media type can stand in a header"),
    };
    assert_eq!(
        request.get_header(CONTENT_TYPE).unwrap(),
        "text/html; charset=utf-8"
    );
    assert_eq!(request.get_mime(), Some(mime::TEXT_HTML_UTF_8));
}

#[test]
fn get_mime_needs_a_media_type() {
    let mut request = Request::get(uri("/"));
    assert_eq!(request.get_mime(), None);
    request
        .insert_header(CONTENT_TYPE, HeaderValue::from_static("not a media type"))
        .unwrap();
    assert_eq!(request.get_mime(), None);
    request
        .insert_header(CONTENT_TYPE, HeaderValue::from_bytes(&[0xff, 0xfe]).unwrap())
        .unwrap();
    assert_eq!(request.get_mime(), None);
    request
        .insert_header(CONTENT_TYPE, HeaderValue::from_static("image/png"))
        .unwrap();
    assert_eq!(request.get_mime(), Some(mime::IMAGE_PNG));
}

#[test]
fn new_response_is_plain() {
    let mut response = Response::new(StatusCode::NOT_FOUND, Body::from("gone"));
    assert_eq!(response.status(), StatusCode::NOT_FOUND);
    assert_eq!(response.version(), Version::HTTP_11);
    assert!(response.headers().is_empty());
    assert!(response.extensions().is_empty());
    assert_eq!(
        &gather(response.take_body().unwrap()).unwrap()[..],
        b"gone"
    );
}

#[test]
fn empty_response_is_200_without_bytes() {
    let mut response = Response::empty();
    assert_eq!(response.status().as_u16(), 200);
    assert_eq!(response.version(), Version::HTTP_11);
    assert!(response.headers().is_empty());
    assert!(response.extensions().is_empty());
    let body = response.take_body().unwrap();
    assert_eq!(body.len(), Some(0));
}

#[test]
fn status_line_can_be_changed() {
    let mut response = Response::empty();
    response.set_status(StatusCode::CREATED);
    response.set_version(Version::HTTP_2);
    assert_eq!(response.status(), StatusCode::CREATED);
    assert_eq!(response.version(), Version::HTTP_2);
    *response.status_mut() = StatusCode::ACCEPTED;
    *response.version_mut() = Version::HTTP_10;
    assert_eq!(response.parts().status, StatusCode::ACCEPTED);
    assert_eq!(response.parts().version, Version::HTTP_10);
    response.parts_mut().status = StatusCode::OK;
    assert_eq!(response.status(), StatusCode::OK);
}

#[test]
fn response_headers_and_extensions() {
    let mut response = Response::empty();
    response
        .append_header(ACCEPT, HeaderValue::from_static("a"))
        .unwrap();
    response
        .append_header(ACCEPT, HeaderValue::from_static("b"))
        .unwrap();
    assert_eq!(response.get_header(ACCEPT).unwrap(), "a");
    assert_eq!(
        response
            .insert_header(ACCEPT, HeaderValue::from_static("c"))
            .unwrap()
            .unwrap(),
        "a"
    );
    assert_eq!(response.headers().len(), 1);
    response.headers_mut().clear();
    assert!(response.insert_extension(1u8).is_none());
    assert_eq!(response.get_extension::<u8>(), Some(&1));
    *response.get_mut_extension::<u8>().unwrap() = 2;
    assert_eq!(response.remove_extension::<u8>(), Some(2));
    response.extensions_mut().insert(3u8);
    assert_eq!(response.extensions().len(), 1);
    let response = match response.header(HOST, HeaderValue::from_static("h")) {
        Ok(response) => response,
        Err(_) => panic!("an empty header map has room"),
    };
    assert_eq!(response.get_header(HOST).unwrap(), "h");
}

#[test]
fn response_body_is_exchanged_by_value() {
    let mut cx = Context::from_waker(Waker::noop());
    let mut response = Response::empty();
    response.replace_body(Body::from("first"));
    let mut other = Body::from("second");
    assert!(response.swap_body(&mut other).is_ok());
    assert_eq!(&gather(other).unwrap()[..], b"first");
    let mut gathering = response.into_bytes().unwrap();
    assert!(matches!(gathering.poll(&mut cx), Progress::Done(Ok(b)) if &b[..] == b"second"));
    assert!(response.take_body().is_err());
    assert!(matches!(response.into_bytes(), Err(BodyError::BodyFrozen)));
    assert!(matches!(response.into_string(), Err(BodyError::BodyFrozen)));
    let mut response = response.map_body(|_| Body::from("mapped"));
    let mut text = response.into_string().unwrap();
    assert!(matches!(text.poll(&mut cx), Progress::Done(Ok(t)) if t.as_str() == "mapped"));
}

#[test]
fn responses_from_payloads() {
    let mut response = Response::from(Bytes::from_static(b"bytes"));
    assert_eq!(response.status().as_u16(), 200);
    assert_eq!(
        &gather(response.take_body().unwrap()).unwrap()[..],
        b"bytes"
    );
    let mut response = Response::from(vec![1u8, 2]);
    assert_eq!(&gather(response.take_body().unwrap()).unwrap()[..], &[1u8, 2]);
    let mut response = Response::from("string".to_string());
    assert_eq!(
        &gather(response.take_body().unwrap()).unwrap()[..],
        b"string"
    );
    let mut response = Response::from(ByteStr::from_static("text"));
    assert_eq!(
        &gather(response.take_body().unwrap()).unwrap()[..],
        b"text"
    );
}

#[test]
fn bodies_from_payloads() {
    let data = Bytes::from_static(b"bytes");
    let start = data.as_ptr();
    let got = gather(Body::from(data)).unwrap();
    assert_eq!(got.as_ptr(), start);
    assert_eq!(&gather(Body::from(vec![1u8, 2, 3])).unwrap()[..], &[1u8, 2, 3]);
    let slice: &[u8] = &[4u8, 5];
    assert_eq!(&gather(Body::from(slice)).unwrap()[..], &[4u8, 5]);
    assert_eq!(
        &gather(Body::from("héllo".to_string())).unwrap()[..],
        "héllo".as_bytes()
    );
    assert_eq!(&gather(Body::from("str")).unwrap()[..], b"str");
    assert_eq!(
        &gather(Body::from(ByteStr::from_static("text"))).unwrap()[..],
        b"text"
    );
    let reader = http_kit::source::BoxBufReader::new(futures_lite::io::Cursor::new(vec![6u8, 7]));
    let body = Body::from(reader);
    assert_eq!(body.size_hint(), (0, None));
    assert_eq!(&gather(body).unwrap()[..], &[6u8, 7]);
}

#[test]
fn requests_come_apart_and_together() {
    let request = Request::post(uri("/a"));
    let request = match request.header(HOST, HeaderValue::from_static("h")) {
        Ok(request) => request,
        Err(_) => panic!("an empty header map has room"),
    };
    let (mut parts, body) = request.into_parts();
    assert_eq!(parts.method, Method::POST);
    assert_eq!(parts.headers.get(HOST).unwrap(), "h");
    assert_eq!(body.len(), Some(0));
    parts.method = Method::PUT;
    let mut request = Request::from_parts(parts, Body::from("x"));
    assert_eq!(request.method(), &Method::PUT);
    assert_eq!(request.get_header(HOST).unwrap(), "h");
    assert_eq!(&gather(request.take_body().unwrap()).unwrap()[..], b"x");
}

#[test]
fn responses_come_apart_and_together() {
    let (mut parts, body) = Response::empty().into_parts();
    assert_eq!(parts.status, StatusCode::OK);
    assert_eq!(body.len(), Some(0));
    parts.status = StatusCode::IM_A_TEAPOT;
    let mut response = Response::from_parts(parts, Body::from("tea"));
    assert_eq!(response.status().as_u16(), 418);
    assert_eq!(&gather(response.take_body().unwrap()).unwrap()[..], b"tea");
}

#[test]
fn header_map_with_room_takes_one_more() {
    let mut request = Request::get(uri("/"));
    for i in 0..6553 {
        let name = HeaderName::from_bytes(format!("x-{}", i).as_bytes()).unwrap();
        assert!(request
            .append_header(name, HeaderValue::from_static("v"))
            .is_ok());
    }
    assert_eq!(request.headers().keys_len(), 6553);
    assert!(request
        .append_header(HeaderName::from_static("x-more"), HeaderValue::from_static("v"))
        .is_ok());
    let mut request = Request::get(uri("/"));
    for i in 0..6553 {
        let name = HeaderName::from_bytes(format!("x-{}", i).as_bytes()).unwrap();
        assert!(request
            .insert_header(name, HeaderValue::from_static("v"))
            .is_ok());
    }
    let previous = request.insert_header(HeaderName::from_static("x-more"), HeaderValue::from_static("v"));
    assert!(previous.unwrap().is_none());
}

#[test]
fn header_map_with_room_takes_one_more_at_its_largest_table() {
    let (mut parts, body) = Response::empty().into_parts();
    parts.headers = http::HeaderMap::with_capacity(24576);
    let mut response = Response::from_parts(parts, body);
    for i in 0..6553 {
        let name = HeaderName::from_bytes(format!("x-{}", i).as_bytes()).unwrap();
        assert!(response
            .append_header(name, HeaderValue::from_static("v"))
            .is_ok());
    }
    assert!(response
        .insert_header(HeaderName::from_static("x-more"), HeaderValue::from_static("v"))
        .is_ok());
    assert!(response
        .append_header(HeaderName::from_static("x-more"), HeaderValue::from_static("w"))
        .is_ok());
    assert_eq!(response.headers().keys_len(), 6554);
    assert_eq!(response.extensions().len(), 0);
}

#[test]
fn headers_leave_the_extensions_alone() {
    let mut request = Request::get(uri("/"));
    request.insert_extension(1u8);
    request
        .append_header(HOST, HeaderValue::from_static("h"))
        .unwrap();
    request
        .insert_header(HOST, HeaderValue::from_static("i"))
        .unwrap();
    assert_eq!(request.get_extension::<u8>(), Some(&1));
    assert_eq!(request.extensions().len(), 1);
}

#[test]
fn missing_extension_leaves_the_bag_alone() {
    let mut request = Request::get(uri("/"));
    assert!(request.get_mut_extension::<u8>().is_none());
    assert!(request.remove_extension::<u8>().is_none());
    assert_eq!(request.extensions().len(), 0);
    assert!(request.insert_extension(1u8).is_none());
    assert!(request.insert_extension("text").is_none());
    assert!(request.get_mut_extension::<u16>().is_none());
    assert!(request.remove_extension::<u16>().is_none());
    assert_eq!(request.extensions().len(), 2);
    assert_eq!(request.get_extension::<u8>(), Some(&1));
    assert_eq!(request.get_extension::<&str>(), Some(&"text"));
    assert_eq!(request.insert_extension(2u8), Some(1));
    assert_eq!(request.extensions().len(), 2);
    let mut response = Response::empty();
    assert!(response.get_mut_extension::<u8>().is_none());
    assert!(response.remove_extension::<u8>().is_none());
    assert!(response.insert_extension(1u8).is_none());
    assert_eq!(response.insert_extension(2u8), Some(1));
    assert!(response.remove_extension::<u16>().is_none());
    assert_eq!(response.extensions().len(), 1);
    assert_eq!(response.get_extension::<u8>(), Some(&2));
}

#[test]
fn bodies_from_borrowed_or_owned_payloads() {
    let borrowed: Cow<'_, [u8]> = Cow::Borrowed(&[1u8, 2]);
    assert_eq!(&gather(Body::from(borrowed)).unwrap()[..], &[1u8, 2]);
    let owned: Cow<'_, [u8]> = Cow::Owned(vec![3u8, 4]);
    assert_eq!(&gather(Body::from(owned)).unwrap()[..], &[3u8, 4]);
    let borrowed: Cow<'_, str> = Cow::Borrowed("héllo");
    assert_eq!(
        &gather(Body::from(borrowed)).unwrap()[..],
        "héllo".as_bytes()
    );
    let owned: Cow<'_, str> = Cow::Owned("wörld".to_string());
    assert_eq!(&gather(Body::from(owned)).unwrap()[..], "wörld".as_bytes());
}
