use doh::request::{BootTime, Header, Request, Stream};
use tokio::sync::oneshot;
use tokio::sync::oneshot::error::TryRecvError;

fn request(expiry: Option<u128>) -> (Request, oneshot::Receiver<Stream>) {
    let (response_tx, response_rx) = oneshot::channel();
    let request = Request {
        headers: vec![Header::new(b":method", b"POST"), Header::new(b":path", b"/dns-query")],
        expiry: expiry.map(|nanos| BootTime { nanos }),
        response_tx,
    };
    (request, response_rx)
}

#[test]
fn header_new_copies_name_and_value() {
    let header = Header::new(b"content-type", b"application/dns-message");
    assert_eq!(header.name, b"content-type".to_vec());
    assert_eq!(header.value, b"application/dns-message".to_vec());
    let empty = Header::new(b"", b"");
    assert!(empty.name.is_empty());
    assert!(empty.value.is_empty());
}

#[test]
fn stream_new_has_headers_only() {
    let headers = vec![Header::new(b":status", b"200")];
    let stream = Stream::new(headers.clone());
    assert_eq!(stream.headers, headers);
    assert!(stream.data.is_empty());
    assert_eq!(stream.error, None);
}

#[test]
fn boot_time_is_after_is_strict() {
    let early = BootTime { nanos: 10 };
    let late = BootTime { nanos: 11 };
    assert!(late.is_after(early));
    assert!(!early.is_after(late));
    assert!(!early.is_after(early));
    assert!(BootTime { nanos: u128::MAX }.is_after(BootTime { nanos: 0 }));
}

#[test]
fn request_without_deadline_never_expires() {
    let (request, _rx) = request(None);
    assert!(!request.is_expired(BootTime { nanos: 0 }));
    assert!(!request.is_expired(BootTime { nanos: u128::MAX }));
}

#[test]
fn request_expires_once_the_deadline_is_passed() {
    let (request, _rx) = request(Some(5_000));
    assert!(!request.is_expired(BootTime { nanos: 4_999 }));
    assert!(!request.is_expired(BootTime { nanos: 5_000 }));
    assert!(request.is_expired(BootTime { nanos: 5_001 }));
}

#[test]
fn expired_request_is_dropped_without_a_reply() {
    let (request, mut response_rx) = request(Some(5_000));
    let live = request.unless_expired(BootTime { nanos: 5_001 });
    assert!(live.is_none());
    assert_eq!(response_rx.try_recv(), Err(TryRecvError::Closed));
}

#[test]
fn live_request_is_handed_back_untouched() {
    let (request, mut response_rx) = request(Some(5_000));
    let live = request.unless_expired(BootTime { nanos: 5_000 }).expect("not expired yet");
    assert_eq!(live.headers.len(), 2);
    assert_eq!(live.headers[1], Header::new(b":path", b"/dns-query"));
    assert_eq!(live.expiry, Some(BootTime { nanos: 5_000 }));
    assert_eq!(response_rx.try_recv(), Err(TryRecvError::Empty));
    assert!(live.response_tx.send(Stream::new(Vec::new())).is_ok());
    assert!(response_rx.try_recv().is_ok());
}

#[test]
fn request_without_deadline_is_handed_back() {
    let (request, mut response_rx) = request(None);
    let live = request.unless_expired(BootTime { nanos: u128::MAX });
    assert!(live.is_some());
    assert_eq!(response_rx.try_recv(), Err(TryRecvError::Empty));
}
