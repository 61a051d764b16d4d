//! The transport driver: what is decided while the connection is handshaking,
//! and how any phase of it is given up.

use vstd::prelude::*;
use crate::channel::{close_queue, queue_closed, try_next};
use crate::error::Error;
use crate::handshake::HandshakeInfo;
use crate::request::Request;
use crate::status::Status;

verus! {

/// The transport driver's own state, next to the two channel handles it was
/// given.
pub struct Driver {
    /// Where requests come from.
    pub request_rx: tokio::sync::mpsc::Receiver<Request>,
    /// Where the connection's status goes.
    pub status_tx: tokio::sync::watch::Sender<Status>,
    pub net_id: u32,
    /// Set once the request queue has been closed. No request is taken from
    /// the queue after that.
    pub closing: bool,
    pub handshake_info: HandshakeInfo,
}

/// What the transport driver knows, without the channel handles.
pub struct DriverView {
    pub net_id: u32,
    pub closing: bool,
    pub handshake_info: HandshakeInfo,
}

impl DriverView {
    /// Whether an observation of the transport's draining flag makes the
    /// driver publish `Dead`: only the first time it is seen set.
    pub open spec fn announces(self, draining: bool) -> bool {
        draining && !self.closing
    }

    /// The state after an observation of the transport's draining flag.
    pub open spec fn observe(self, draining: bool) -> DriverView {
        DriverView { closing: self.closing || draining, ..self }
    }

    /// How often `Dead` is published over a run of observations of the
    /// draining flag.
    pub open spec fn announcements(self, seen: Seq<bool>) -> nat
        decreases seen.len(),
    {
        if seen.len() == 0 {
            0
        } else {
            let first: nat = if self.announces(seen[0]) { 1 } else { 0 };
            first + self.observe(seen[0]).announcements(seen.skip(1))
        }
    }
}

impl View for Driver {
    type V = DriverView;

    open spec fn view(&self) -> DriverView {
        DriverView {
            net_id: self.net_id,
            closing: self.closing,
            handshake_info: self.handshake_info,
        }
    }
}

impl Driver {
    /// The flag and the queue agree: a driver that is closing has closed its
    /// queue. Every function here keeps it so; only a write to the public
    /// field `closing` can break it.
    pub open spec fn queue_follows(&self) -> bool {
        self.closing ==> queue_closed(self.request_rx)
    }

    /// A driver for a connection that is still handshaking: the queue is
    /// open.
    pub fn new(
        request_rx: tokio::sync::mpsc::Receiver<Request>,
        status_tx: tokio::sync::watch::Sender<Status>,
        net_id: u32,
        handshake_info: HandshakeInfo,
    ) -> (driver: Driver)
        ensures
            driver@ == (DriverView { net_id, closing: false, handshake_info }),
            driver.request_rx == request_rx,
            driver.status_tx == status_tx,
            driver.queue_follows(),
    {
        Driver { request_rx, status_tx, net_id, closing: false, handshake_info }
    }

    /// Publishes `status`. That nobody listens is no error.
    pub fn publish(&self, status: Status) {
        let _ = self.status_tx.send(status);
    }

    /// Called at the start of a step with what the transport reports of
    /// itself. Once it is established, or usable with early data, the
    /// handshake record is completed and returned: it is to be reported as a
    /// success, and the application layer is to be started. Until then
    /// nothing changes.
    pub fn handshake_complete(
        &mut self,
        established: bool,
        in_early_data: bool,
        elapsed: u128,
        sent_bytes: u64,
        recv_bytes: u64,
        quic_version: u32,
    ) -> (report: Option<HandshakeInfo>)
        ensures
            report == if established || in_early_data {
                Some(old(self).handshake_info.completed(elapsed, sent_bytes, recv_bytes, quic_version))
            } else {
                None
            },
            final(self)@ == (DriverView {
                handshake_info: if established || in_early_data {
                    old(self).handshake_info.completed(elapsed, sent_bytes, recv_bytes, quic_version)
                } else {
                    old(self).handshake_info
                },
                ..old(self)@
            }),
            final(self).request_rx == old(self).request_rx,
            final(self).status_tx == old(self).status_tx,
    {
        if established || in_early_data {
            self.handshake_info.elapsed = elapsed;
            self.handshake_info.sent_bytes = sent_bytes;
            self.handshake_info.recv_bytes = recv_bytes;
            self.handshake_info.quic_version = quic_version;
            Some(self.handshake_info)
        } else {
            None
        }
    }

    /// Called after the transport's timer fired and the transport was told
    /// so. If that closed a connection that never was established, the
    /// elapsed time is recorded and the record returned: it is to be
    /// reported as a timeout. Otherwise nothing changes.
    pub fn timer_expired(&mut self, established: bool, closed: bool, elapsed: u128) -> (report:
        Option<HandshakeInfo>)
        ensures
            report == if !established && closed {
                Some(old(self).handshake_info.expired(elapsed))
            } else {
                None
            },
            final(self)@ == (DriverView {
                handshake_info: if !established && closed {
                    old(self).handshake_info.expired(elapsed)
                } else {
                    old(self).handshake_info
                },
                ..old(self)@
            }),
            final(self).request_rx == old(self).request_rx,
            final(self).status_tx == old(self).status_tx,
    {
        if !established && closed {
            self.handshake_info.elapsed = elapsed;
            Some(self.handshake_info)
        } else {
            None
        }
    }

    /// Takes what is queued and drops it, so that each requester learns at
    /// once that no response will come.
    ///
    /// Meant for a queue that has been closed: a closed queue gives out no
    /// more than its capacity, which bounds the loop.
    ///
    /// What the queue holds is up to its senders, so nothing is claimed of
    /// what is left in it; it is closed afterwards if it was before, and
    /// the driver's own state is as it was.
    pub(crate) fn discard_queued(&mut self)
        ensures
            final(self)@ == old(self)@,
            final(self).status_tx == old(self).status_tx,
            queue_closed(final(self).request_rx) == queue_closed(old(self).request_rx),
    {
        let mut budget: usize = self.request_rx.max_capacity();
        while budget > 0
            invariant
                self@ == old(self)@,
                self.status_tx == old(self).status_tx,
                queue_closed(self.request_rx) == queue_closed(old(self).request_rx),
            decreases budget,
        {
            match try_next(&mut self.request_rx) {
                Some(_request) => {},
                None => {
                    return;
                },
            }
            budget = budget - 1;
        }
    }

    /// Called with the transport's draining flag after each step. The first
    /// time the flag is seen set, `Dead` is published with `session`, the
    /// queue is closed and what it holds is dropped, and the driver is
    /// closing from then on. Returns whether this was that first time.
    ///
    /// Whenever the flag is seen set, the queue is closed on return: closed
    /// here the first time, and closed before on every later one, as long as
    /// `closing` was written by the driver's own functions only.
    ///
    /// Requests that were sent before are not touched: whether to issue
    /// them again is for the owner of the connection to decide.
    pub fn handle_draining(&mut self, draining: bool, session: Option<Vec<u8>>) -> (announced: bool)
        ensures
            announced == old(self)@.announces(draining),
            final(self)@ == old(self)@.observe(draining),
            final(self).status_tx == old(self).status_tx,
            !announced ==> final(self).request_rx == old(self).request_rx,
            announced ==> queue_closed(final(self).request_rx),
            draining && old(self).queue_follows() ==> queue_closed(final(self).request_rx),
            old(self).queue_follows() ==> final(self).queue_follows(),
    {
        if draining && !self.closing {
            self.publish(Status::Dead { session });
            close_queue(&mut self.request_rx);
            self.discard_queued();
            self.closing = true;
            true
        } else {
            false
        }
    }

    /// Called with the transport's closed flag after each step. A closed
    /// transport ends the driver: `Dead` is published with `session`,
    /// whether or not it was published before, and the error is
    /// `Error::Closed`.
    pub fn handle_closed(&self, closed: bool, session: Option<Vec<u8>>) -> (end: Result<(), Error>)
        ensures
            closed ==> end == Err::<(), Error>(Error::Closed),
            !closed ==> end == Ok::<(), Error>(()),
    {
        if closed {
            self.publish(Status::Dead { session });
            Err(Error::Closed)
        } else {
            Ok(())
        }
    }
}

} // verus!
