use doh::driver::Driver;
use doh::error::Error;
use doh::handshake::{Cause, HandshakeInfo};
use doh::request::{Header, Request, Stream};
use doh::status::Status;
use tokio::sync::mpsc;
use tokio::sync::oneshot;
use tokio::sync::oneshot::error::TryRecvError;
use tokio::sync::watch;

fn info() -> HandshakeInfo {
    HandshakeInfo {
        cause: Cause::Reconnect,
        sent_bytes: 1,
        recv_bytes: 2,
        elapsed: 3,
        quic_version: 4,
        network_type: 5,
        private_dns_mode: 6,
        session_hit_checker: false,
    }
}

fn request() -> (Request, oneshot::Receiver<Stream>) {
    let (response_tx, response_rx) = oneshot::channel();
    let request = Request {
        headers: vec![Header::new(b":method", b"GET")],
        expiry: None,
        response_tx,
    };
    (request, response_rx)
}

fn driver(capacity: usize) -> (Driver, mpsc::Sender<Request>, watch::Receiver<Status>) {
    let (request_tx, request_rx) = mpsc::channel(capacity);
    let (status_tx, status_rx) = watch::channel(Status::QUIC);
    (Driver::new(request_rx, status_tx, 42, info()), request_tx, status_rx)
}

#[test]
fn new_driver_is_open_and_keeps_what_it_was_given() {
    let (driver, request_tx, status_rx) = driver(4);
    assert!(!driver.closing);
    assert_eq!(driver.net_id, 42);
    assert_eq!(driver.handshake_info, info());
    assert!(!request_tx.is_closed());
    assert!(!status_rx.has_changed().unwrap());
}

#[test]
fn publish_reaches_the_status_feed() {
    let (driver, _request_tx, mut status_rx) = driver(4);
    driver.publish(Status::H3);
    assert!(status_rx.has_changed().unwrap());
    assert_eq!(*status_rx.borrow_and_update(), Status::H3);
}

#[test]
fn publish_without_listener_is_no_error() {
    let (driver, _request_tx, status_rx) = driver(4);
    drop(status_rx);
    driver.publish(Status::Dead { session: None });
    assert!(!driver.closing);
}

#[test]
fn handshake_is_not_complete_while_the_transport_is_not_usable() {
    let (mut driver, _request_tx, _status_rx) = driver(4);
    assert_eq!(driver.handshake_complete(false, false, 900, 10, 20, 1), None);
    assert_eq!(driver.handshake_info, info());
}

#[test]
fn handshake_complete_fills_in_the_record() {
    let (mut driver, _request_tx, _status_rx) = driver(4);
    let report = driver.handshake_complete(true, false, 900, 10, 20, 1);
    let expected = HandshakeInfo {
        cause: Cause::Reconnect,
        sent_bytes: 10,
        recv_bytes: 20,
        elapsed: 900,
        quic_version: 1,
        network_type: 5,
        private_dns_mode: 6,
        session_hit_checker: false,
    };
    assert_eq!(report, Some(expected));
    assert_eq!(driver.handshake_info, expected);
    assert!(!driver.closing);
}

#[test]
fn early_data_counts_as_usable() {
    let (mut driver, _request_tx, _status_rx) = driver(4);
    let report = driver.handshake_complete(false, true, 7, 8, 9, 10);
    assert_eq!(report.map(|r| (r.elapsed, r.sent_bytes, r.recv_bytes, r.quic_version)), Some((7, 8, 9, 10)));
}

#[test]
fn timer_that_closes_an_unestablished_connection_is_a_timeout() {
    let (mut driver, _request_tx, _status_rx) = driver(4);
    let report = driver.timer_expired(false, true, 30_000_000);
    let expected = HandshakeInfo { elapsed: 30_000_000, ..info() };
    assert_eq!(report, Some(expected));
    assert_eq!(driver.handshake_info, expected);
}

#[test]
fn other_timer_expiries_report_nothing() {
    let (mut driver, _request_tx, _status_rx) = driver(4);
    assert_eq!(driver.timer_expired(false, false, 9), None);
    assert_eq!(driver.timer_expired(true, false, 9), None);
    assert_eq!(driver.timer_expired(true, true, 9), None);
    assert_eq!(driver.handshake_info, info());
}

#[test]
fn draining_is_announced_once_over_several_steps() {
    let (mut driver, request_tx, mut status_rx) = driver(4);
    assert!(!driver.handle_draining(false, None));
    assert!(!driver.closing);
    assert!(!status_rx.has_changed().unwrap());
    assert!(!request_tx.is_closed());

    assert!(driver.handle_draining(true, Some(vec![1, 2, 3])));
    assert!(driver.closing);
    assert!(status_rx.has_changed().unwrap());
    assert_eq!(*status_rx.borrow_and_update(), Status::Dead { session: Some(vec![1, 2, 3]) });
    assert!(request_tx.is_closed());

    assert!(!driver.handle_draining(true, Some(vec![9])));
    assert!(!driver.handle_draining(true, None));
    assert!(driver.closing);
    assert!(!status_rx.has_changed().unwrap());
    assert_eq!(*status_rx.borrow(), Status::Dead { session: Some(vec![1, 2, 3]) });

    assert!(matches!(driver.handle_closed(true, Some(vec![1, 2, 3])), Err(Error::Closed)));
}

#[test]
fn draining_drops_what_is_queued() {
    let (mut driver, request_tx, _status_rx) = driver(4);
    let mut replies = Vec::new();
    for _ in 0..4 {
        let (request, response_rx) = request();
        assert!(request_tx.try_send(request).is_ok());
        replies.push(response_rx);
    }
    assert!(driver.handle_draining(true, None));
    for response_rx in replies.iter_mut() {
        assert_eq!(response_rx.try_recv(), Err(TryRecvError::Closed));
    }
    let (late, _late_rx) = request();
    assert!(request_tx.try_send(late).is_err());
    assert!(driver.request_rx.try_recv().is_err());
}

#[test]
fn draining_when_already_closing_touches_nothing() {
    let (mut driver, request_tx, mut status_rx) = driver(4);
    driver.closing = true;
    let (request, mut response_rx) = request();
    assert!(request_tx.try_send(request).is_ok());
    assert!(!driver.handle_draining(true, Some(vec![5])));
    assert!(!status_rx.has_changed().unwrap());
    assert!(!request_tx.is_closed());
    assert_eq!(response_rx.try_recv(), Err(TryRecvError::Empty));
    assert_eq!(*status_rx.borrow_and_update(), Status::QUIC);
}

#[test]
fn draining_empties_a_full_queue() {
    let (mut driver, request_tx, _status_rx) = driver(2);
    let (first, mut first_rx) = request();
    let (second, mut second_rx) = request();
    assert!(request_tx.try_send(first).is_ok());
    assert!(request_tx.try_send(second).is_ok());
    let (third, _third_rx) = request();
    assert!(request_tx.try_send(third).is_err());
    assert!(driver.handle_draining(true, None));
    assert_eq!(first_rx.try_recv(), Err(TryRecvError::Closed));
    assert_eq!(second_rx.try_recv(), Err(TryRecvError::Closed));
    assert!(driver.request_rx.try_recv().is_err());
}

#[test]
fn open_transport_goes_on() {
    let (driver, _request_tx, mut status_rx) = driver(4);
    assert!(driver.handle_closed(false, Some(vec![1])).is_ok());
    assert!(!status_rx.has_changed().unwrap());
    assert_eq!(*status_rx.borrow_and_update(), Status::QUIC);
}

#[test]
fn closed_transport_ends_the_driver_and_publishes_dead() {
    let (driver, _request_tx, mut status_rx) = driver(4);
    let end = driver.handle_closed(true, Some(vec![7, 7]));
    assert!(matches!(end, Err(Error::Closed)));
    assert_eq!(*status_rx.borrow_and_update(), Status::Dead { session: Some(vec![7, 7]) });
    let end = driver.handle_closed(true, None);
    assert!(matches!(end, Err(Error::Closed)));
    assert!(status_rx.has_changed().unwrap());
    assert_eq!(*status_rx.borrow_and_update(), Status::Dead { session: None });
}
