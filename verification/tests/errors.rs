use doh::error::{settle_h3, settle_quic, Error, H3Error, QuicError};

#[test]
fn settle_quic_passes_a_value_on() {
    let step = settle_quic(Ok::<(usize, u8), QuicError>((1350, 7)));
    assert!(matches!(step, Ok(Some((1350, 7)))));
}

#[test]
fn settle_quic_reads_done_as_nothing_more() {
    let step = settle_quic(Err::<usize, QuicError>(QuicError::Done));
    assert!(matches!(step, Ok(None)));
}

#[test]
fn settle_quic_makes_any_other_error_fatal() {
    let step = settle_quic(Err::<usize, QuicError>(QuicError::TlsFail));
    assert!(matches!(step, Err(Error::Quic(QuicError::TlsFail))));
    let step = settle_quic(Err::<usize, QuicError>(QuicError::InvalidStreamState(8)));
    assert!(matches!(step, Err(Error::Quic(QuicError::InvalidStreamState(8)))));
    let step = settle_quic(Err::<usize, QuicError>(QuicError::StreamLimit));
    assert!(matches!(step, Err(Error::Quic(QuicError::StreamLimit))));
}

#[test]
fn settle_h3_passes_a_value_on() {
    let step = settle_h3(Ok::<u64, H3Error>(4));
    assert!(matches!(step, Ok(Some(4))));
}

#[test]
fn settle_h3_reads_done_as_nothing_more() {
    let step = settle_h3(Err::<u64, H3Error>(H3Error::Done));
    assert!(matches!(step, Ok(None)));
}

#[test]
fn settle_h3_makes_any_other_error_fatal() {
    let step = settle_h3(Err::<u64, H3Error>(H3Error::FrameError));
    assert!(matches!(step, Err(Error::H3(H3Error::FrameError))));
    let step = settle_h3(Err::<u64, H3Error>(H3Error::StreamBlocked));
    assert!(matches!(step, Err(Error::H3(H3Error::StreamBlocked))));
    let step = settle_h3(Err::<u64, H3Error>(H3Error::TransportError(QuicError::Done)));
    assert!(matches!(step, Err(Error::H3(H3Error::TransportError(QuicError::Done)))));
}

#[test]
fn only_two_errors_speak_of_capacity() {
    assert!(H3Error::StreamBlocked.is_capacity());
    assert!(H3Error::TransportError(QuicError::StreamLimit).is_capacity());
    assert!(!H3Error::TransportError(QuicError::FlowControl).is_capacity());
    assert!(!H3Error::TransportError(QuicError::Done).is_capacity());
    assert!(!H3Error::Done.is_capacity());
    assert!(!H3Error::ExcessiveLoad.is_capacity());
    assert!(!H3Error::RequestRejected.is_capacity());
}

#[test]
fn errors_carry_what_stopped_the_driver() {
    let network = Error::Network(std::io::Error::new(std::io::ErrorKind::ConnectionRefused, "refused"));
    match network {
        Error::Network(e) => assert_eq!(e.kind(), std::io::ErrorKind::ConnectionRefused),
        other => panic!("unexpected: {:?}", other),
    }
    let undelivered = doh::Stream { headers: Vec::new(), data: vec![1, 2], error: Some(3) };
    let send = Error::StreamSend(tokio::sync::mpsc::error::SendError(undelivered));
    match send {
        Error::StreamSend(e) => assert_eq!(e.0.data, vec![1, 2]),
        other => panic!("unexpected: {:?}", other),
    }
    assert!(matches!(Error::Closed, Error::Closed));
    assert!(matches!(Error::Quic(QuicError::StreamReset(9)), Error::Quic(QuicError::StreamReset(9))));
}
