//! The channel handles that the driver is given, and what is taken on trust
//! about them. Nothing here is proved: each item states what the channel
//! library documents.

use vstd::prelude::*;
use crate::request::Request;

verus! {

/// `tokio::sync::oneshot::Sender`, carried as an opaque value.
#[verifier::external_type_specification]
#[verifier::external_body]
#[verifier::reject_recursive_types(T)]
pub struct ExOneshotSender<T>(tokio::sync::oneshot::Sender<T>);

/// `tokio::sync::mpsc::Receiver`, carried as an opaque value.
#[verifier::external_type_specification]
#[verifier::external_body]
#[verifier::reject_recursive_types(T)]
pub struct ExQueueReceiver<T>(tokio::sync::mpsc::Receiver<T>);

/// `tokio::sync::mpsc::error::SendError`, carried as an opaque value.
#[verifier::external_type_specification]
#[verifier::external_body]
#[verifier::reject_recursive_types(T)]
pub struct ExQueueSendError<T>(tokio::sync::mpsc::error::SendError<T>);

/// `tokio::sync::watch::Sender`, carried as an opaque value.
#[verifier::external_type_specification]
#[verifier::external_body]
#[verifier::reject_recursive_types(T)]
pub struct ExWatchSender<T>(tokio::sync::watch::Sender<T>);

/// `tokio::sync::watch::error::SendError`, carried as an opaque value.
#[verifier::external_type_specification]
#[verifier::external_body]
#[verifier::reject_recursive_types(T)]
pub struct ExWatchSendError<T>(tokio::sync::watch::error::SendError<T>);

/// `std::io::Error`, carried as an opaque value.
#[verifier::external_type_specification]
#[verifier::external_body]
pub struct ExIoError(std::io::Error);

/// `oneshot::Sender::send` consumes the sender. When the receiving end is
/// gone it fails and hands the value back as it was given.
pub assume_specification<T>[ tokio::sync::oneshot::Sender::<T>::send ](
    tx: tokio::sync::oneshot::Sender<T>,
    t: T,
) -> (r: Result<(), T>)
    ensures
        r matches Err(back) ==> back == t,
;

/// Whether the receiver has been closed by a call of `mpsc::Receiver::close`:
/// the flag that `close` sets on the receiver and that nothing clears.
/// Senders cannot touch it; that every sender is gone does not set it.
pub uninterp spec fn queue_closed(rx: tokio::sync::mpsc::Receiver<Request>) -> bool;

/// `mpsc::Receiver::close` marks the receiver as closed, so that further
/// sends are refused, and leaves what is queued to be taken. It never fails.
#[verifier::external_body]
pub(crate) fn close_queue(rx: &mut tokio::sync::mpsc::Receiver<Request>)
    ensures
        queue_closed(*final(rx)),
{
    rx.close()
}

/// `mpsc::Receiver::max_capacity` returns the bound the channel was made
/// with. Nothing is claimed of the number.
pub assume_specification<T>[ tokio::sync::mpsc::Receiver::<T>::max_capacity ](
    rx: &tokio::sync::mpsc::Receiver<T>,
) -> (bound: usize)
;

/// `watch::Sender::send` publishes a value to the receivers, or fails when
/// there is none. Nothing is claimed of which.
pub assume_specification<T>[ tokio::sync::watch::Sender::<T>::send ](
    tx: &tokio::sync::watch::Sender<T>,
    value: T,
) -> (r: Result<(), tokio::sync::watch::error::SendError<T>>)
;

/// `mpsc::Receiver::try_recv`, with both of its errors (empty for now,
/// disconnected) read as "nothing to take". Nothing is claimed of which
/// comes back. The call reads the receiver's closed flag and does not write
/// it.
#[verifier::external_body]
pub(crate) fn try_next(rx: &mut tokio::sync::mpsc::Receiver<Request>) -> (next: Option<Request>)
    ensures
        queue_closed(*final(rx)) == queue_closed(*old(rx)),
{
    rx.try_recv().ok()
}

} // verus!
