use http_client_error::Cause;
use http_client_error::Error;
use http_client_error::IoError;
use http_client_error::Kind;
use http_client_error::StatusCode;
use http_client_error::Url;
use http_client_error::body;
use http_client_error::builder;
use http_client_error::decode_io;
use http_client_error::loop_detected;
use http_client_error::request;
use http_client_error::status_code;
use http_client_error::too_many_redirects;
use http_client_error::url_bad_scheme;
use std::mem::size_of;

fn assert_send<T: Send>() {}
fn assert_sync<T: Sync>() {}

#[test]
fn test_source_chain() {
    let root = status_code(Url(String::from("https://x.test")), StatusCode(500));
    assert!(root.source().is_none());

    let link = body(Cause::Wrapped(Box::new(root)));
    assert!(link.source().is_some());
    assert_send::<Error>();
    assert_sync::<Error>();
}

#[test]
fn mem_size_of() {
    assert_eq!(size_of::<Error>(), size_of::<usize>());
}

#[test]
fn roundtrip_io_error() {
    let orig = request(Cause::Message(String::from("orig")));
    let io = orig.into_io();
    let err = decode_io(io);
    match err.kind() {
        Kind::Request => (),
        _ => panic!("{:?}", err),
    }
}

#[test]
fn from_unknown_io_error() {
    let orig = IoError::Other(String::from("orly"));
    let err = decode_io(orig);
    match err.kind() {
        Kind::Decode => (),
        _ => panic!("{:?}", err),
    }
}

#[test]
fn roundtrip_preserves_cause_and_url() {
    let orig = request(Cause::Message(String::from("orig")));
    let err = decode_io(orig.into_io());
    assert!(matches!(err.source(), Some(Cause::Message(m)) if m == "orig"));
    assert!(err.url().is_none());
    assert_eq!(err.render(), "error sending request: orig");

    let with_url = status_code(Url(String::from("https://y.test")), StatusCode(503));
    let back = decode_io(with_url.into_io());
    assert!(back.is_status());
    assert_eq!(back.status(), Some(StatusCode(503)));
    assert_eq!(back.url().unwrap().as_str(), "https://y.test");
    assert!(back.source().is_none());
}

#[test]
fn unknown_io_error_kept_as_cause() {
    let err = decode_io(IoError::Other(String::from("orly")));
    assert!(matches!(err.source(), Some(Cause::Io(io)) if matches!(&**io, IoError::Other(m) if m == "orly")));
    assert_eq!(err.render(), "error decoding response body: orly");
}

#[test]
fn status_rendering_client_error() {
    let err = status_code(Url(String::from("https://x.test")), StatusCode(404));
    assert_eq!(
        err.render(),
        "HTTP status client error (404) for url (https://x.test)"
    );
}

#[test]
fn status_rendering_server_error() {
    let err = status_code(Url(String::from("https://x.test")), StatusCode(500));
    assert_eq!(
        err.render(),
        "HTTP status server error (500) for url (https://x.test)"
    );
}

#[test]
fn status_rendering_bounds() {
    let low = status_code(Url(String::from("https://b.test")), StatusCode(400));
    assert_eq!(
        low.render(),
        "HTTP status client error (400) for url (https://b.test)"
    );
    let high = status_code(Url(String::from("https://b.test")), StatusCode(599));
    assert_eq!(
        high.render(),
        "HTTP status server error (599) for url (https://b.test)"
    );
}

#[test]
fn timeout_detection_is_shallow() {
    let direct = request(Cause::TimedOut);
    assert!(direct.is_timeout());

    let nested = body(Cause::Wrapped(Box::new(request(Cause::TimedOut))));
    assert!(!nested.is_timeout());
}

#[test]
fn kind_predicates() {
    let b = builder(Cause::Message(String::from("bad config")));
    assert!(b.is_builder());
    assert!(!b.is_redirect());
    assert!(!b.is_status());
    assert!(b.status().is_none());

    let s = status_code(Url(String::from("https://x.test")), StatusCode(418));
    assert!(s.is_status());
    assert!(!s.is_builder());
    assert_eq!(s.status(), Some(StatusCode(418)));
    assert_eq!(s.status().unwrap().as_u16(), 418);
    assert!(StatusCode(418).is_client_error());
    assert!(!StatusCode(418).is_server_error());
    assert!(StatusCode(503).is_server_error());
    assert!(!StatusCode(503).is_client_error());
}

#[test]
fn redirect_constructors_render() {
    let looped = loop_detected(Url(String::from("https://a.test")));
    assert!(looped.is_redirect());
    assert_eq!(
        looped.render(),
        "error following redirect for url (https://a.test): infinite redirect loop detected"
    );

    let many = too_many_redirects(Url(String::from("https://a.test")));
    assert!(many.is_redirect());
    assert_eq!(
        many.render(),
        "error following redirect for url (https://a.test): too many redirects"
    );
}

#[test]
fn bad_scheme_renders_as_builder_error() {
    let err = url_bad_scheme(Url(String::from("ftp://a.test")));
    assert!(err.is_builder());
    assert_eq!(err.url().unwrap().as_str(), "ftp://a.test");
    assert_eq!(
        err.render(),
        "builder error for url (ftp://a.test): URL scheme is not allowed"
    );
}

#[test]
fn marker_causes_render() {
    let timed = request(Cause::TimedOut);
    assert_eq!(timed.render(), "error sending request: operation timed out");

    let blocked = request(Cause::BlockingClientInAsyncContext);
    assert_eq!(
        blocked.render(),
        "error sending request: blocking Client used inside a Future context"
    );
}

#[test]
fn chain_renders_recursively() {
    let root = request(Cause::TimedOut);
    let outer = body(Cause::Wrapped(Box::new(root)));
    assert_eq!(
        outer.render(),
        "request or response body error: error sending request: operation timed out"
    );
}
