//! The application driver: requests in flight, responses under way, and what
//! each report from the framing layer does to them.

use std::collections::HashMap;
use vstd::prelude::*;
use crate::channel::{close_queue, queue_closed};
use crate::driver::{Driver, DriverView};
use crate::error::{h3_step, settle_h3, Error, H3Error};
use crate::request::{fields, Header, Request, Stream, StreamView};

verus! {

/// How many bytes of a response body are asked for at a time.
pub const STREAM_READ_CHUNK: usize = 4096;

/// What the framing layer reports of one stream.
#[derive(Clone, Debug, PartialEq, Eq)]
pub enum Event {
    /// Response headers arrived. `has_body` says whether a body follows.
    Headers { list: Vec<Header>, has_body: bool },
    /// Body bytes can be read.
    Data,
    /// The stream is complete.
    Finished,
    /// The peer reset the stream, with this code.
    Reset(u64),
    /// A datagram arrived. The driver has no use for them.
    Datagram,
    /// The peer changed a priority. The driver takes no notice.
    PriorityUpdate,
    /// The peer will accept no further requests.
    GoAway,
}

/// How an attempt to hand over a response ended.
#[derive(Copy, Clone, Debug, PartialEq, Eq)]
pub enum Delivery {
    /// Response and request were both there: the response was handed over.
    Delivered,
    /// There was no response under the stream id. Nothing was handed over.
    UntrackedStream,
    /// There was a response, but no request waiting for it. Nothing was
    /// handed over.
    UntrackedRequest,
}

/// Why the connection is shut down.
#[derive(Copy, Clone, Debug, PartialEq, Eq)]
pub enum ShutdownCause {
    /// Every sender of the request queue is gone.
    QueueClosed,
    /// The peer announced that it is going away.
    GoAway,
}

/// What is left to do on the connection after `H3Driver::shutdown`: wait
/// until the closed queue reports its end, dropping what still arrives from
/// senders that had reserved room, then announce `goaway` to the peer if it
/// is set, then close the transport with `code` and `reason`.
#[derive(Clone, Debug, PartialEq, Eq)]
pub struct Shutdown {
    /// The stream id to announce in a go-away, or `None` to send none.
    pub goaway: Option<u64>,
    /// Whether the close is the application's, not the transport's.
    pub app: bool,
    pub code: u64,
    pub reason: Vec<u8>,
}

/// What a shutdown plan holds.
pub struct ShutdownView {
    pub goaway: Option<u64>,
    pub app: bool,
    pub code: u64,
    pub reason: Seq<u8>,
}

impl View for Shutdown {
    type V = ShutdownView;

    open spec fn view(&self) -> ShutdownView {
        ShutdownView { goaway: self.goaway, app: self.app, code: self.code, reason: self.reason@ }
    }
}

impl ShutdownCause {
    /// The bytes `DONE`.
    pub open spec fn done() -> Seq<u8> {
        seq![0x44u8, 0x4fu8, 0x4eu8, 0x45u8]
    }

    /// The bytes `SERVER GOAWAY`.
    pub open spec fn server_goaway() -> Seq<u8> {
        seq![
            0x53u8, 0x45u8, 0x52u8, 0x56u8, 0x45u8, 0x52u8, 0x20u8, 0x47u8, 0x4fu8, 0x41u8, 0x57u8,
            0x41u8, 0x59u8,
        ]
    }

    /// The plan that goes with the cause. A peer that is going away is sent
    /// no go-away in return.
    pub open spec fn plan(self) -> ShutdownView {
        match self {
            ShutdownCause::QueueClosed => ShutdownView {
                goaway: Some(0u64),
                app: true,
                code: 0,
                reason: Self::done(),
            },
            ShutdownCause::GoAway => ShutdownView {
                goaway: None,
                app: true,
                code: 0,
                reason: Self::server_goaway(),
            },
        }
    }
}

/// What the embedding program has to do after an event was processed.
#[derive(Clone, Debug, PartialEq, Eq)]
pub enum Todo {
    Nothing,
    /// Read the stream's body: `reserve_chunk`, read into the reserved
    /// bytes, `commit_chunk`, until the latter says to stop.
    ReadBody,
    /// Take the pending datagrams from the framing layer and drop them,
    /// whatever comes of it.
    DiscardDatagrams,
    /// Carry out the shutdown plan.
    Close(Shutdown),
}

/// What processing an event came to.
#[derive(Clone, Debug, PartialEq, Eq)]
pub struct EventReport {
    /// Whether a request was waiting under the stream id when the event
    /// arrived. An event without one is worth a warning.
    pub requested: bool,
    /// Whether the headers took the place of a response that was still under
    /// way: the stream id was used again too early.
    pub replaced: bool,
    /// How the delivery ended, if the event called for one.
    pub delivery: Option<Delivery>,
    pub todo: Todo,
}

/// The responses under way, each as what it holds.
pub open spec fn stream_views(streams: Map<u64, Stream>) -> Map<u64, StreamView> {
    Map::new(|id: u64| streams.contains_key(id), |id: u64| streams[id]@)
}

/// The byte sequence of `n` zeros.
pub open spec fn zeros(n: nat) -> Seq<u8> {
    Seq::new(n, |i: int| 0u8)
}

/// What the application driver knows, without the channel handles.
pub struct H3State {
    pub link: DriverView,
    /// The request that could not be sent for want of capacity, if any.
    pub buffered: Option<Request>,
    /// The requests that were sent, by stream id.
    pub requests: Map<u64, Request>,
    /// The responses under way, by stream id.
    pub streams: Map<u64, StreamView>,
}

impl H3State {
    /// Whether a request may be taken from the queue: the queue is open and
    /// no request waits in the buffer.
    pub open spec fn can_admit(self) -> bool {
        !self.link.closing && self.buffered is None
    }

    /// The state with `stream` under `id`.
    pub open spec fn track(self, id: u64, stream: StreamView) -> H3State {
        H3State { streams: self.streams.insert(id, stream), ..self }
    }

    /// The response under `id`, or an empty one if there is none.
    pub open spec fn response(self, id: u64) -> StreamView {
        if self.streams.contains_key(id) {
            self.streams[id]
        } else {
            StreamView::fresh(Seq::empty())
        }
    }

    /// How an attempt to deliver the response under `id` ends.
    pub open spec fn outcome(self, id: u64) -> Delivery {
        if !self.streams.contains_key(id) {
            Delivery::UntrackedStream
        } else if !self.requests.contains_key(id) {
            Delivery::UntrackedRequest
        } else {
            Delivery::Delivered
        }
    }

    /// The request and the response that an attempt to deliver under `id`
    /// brings together, if both are there.
    pub open spec fn exchange(self, id: u64) -> Option<(Request, StreamView)> {
        if self.outcome(id) == Delivery::Delivered {
            Some((self.requests[id], self.streams[id]))
        } else {
            None
        }
    }

    /// The state after an attempt to deliver under `id`: request and
    /// response are gone if they were delivered, and nothing has changed if
    /// they were not.
    pub open spec fn settle(self, id: u64) -> H3State {
        if self.outcome(id) == Delivery::Delivered {
            H3State { requests: self.requests.remove(id), streams: self.streams.remove(id), ..self }
        } else {
            self
        }
    }

    /// The state once the queue has been closed.
    pub open spec fn shut(self) -> H3State {
        H3State { link: DriverView { closing: true, ..self.link }, ..self }
    }

    /// The state after the framing layer answered an attempt to send
    /// `request`. `retry` says that the request came out of the buffer.
    pub open spec fn sent(self, request: Request, retry: bool, answer: Result<u64, H3Error>) -> H3State {
        match answer {
            Ok(id) => H3State { requests: self.requests.insert(id, request), ..self },
            Err(e) => if e.spec_is_capacity() && !retry {
                H3State { buffered: Some(request), ..self }
            } else {
                self
            },
        }
    }

    /// Whether the driver goes on after the framing layer answered an attempt
    /// to send a request, and the error if it does not.
    pub open spec fn sent_result(retry: bool, answer: Result<u64, H3Error>) -> Result<(), Error> {
        match answer {
            Ok(_) => Ok(()),
            Err(e) => if e.spec_is_capacity() && !retry {
                Ok(())
            } else {
                Err(Error::H3(e))
            },
        }
    }

    /// The state in which the delivery that `event` calls for is attempted,
    /// if it calls for one.
    pub open spec fn before_delivery(self, id: u64, event: Event) -> Option<H3State> {
        match event {
            Event::Headers { list, has_body } => if has_body {
                None
            } else {
                Some(self.track(id, StreamView::fresh(fields(list@))))
            },
            Event::Finished => Some(self),
            Event::Reset(code) => Some(self.track(id, self.response(id).reset(code))),
            _ => None,
        }
    }

    /// The state after `event` on stream `id`.
    pub open spec fn after_event(self, id: u64, event: Event) -> H3State {
        match event {
            Event::Headers { list, has_body } => if has_body {
                self.track(id, StreamView::fresh(fields(list@)))
            } else {
                self.track(id, StreamView::fresh(fields(list@))).settle(id)
            },
            Event::Finished => self.settle(id),
            Event::Reset(code) => self.track(id, self.response(id).reset(code)).settle(id),
            Event::GoAway => self.shut(),
            _ => self,
        }
    }

    /// What is left to the embedding program after `event` on stream `id`.
    pub open spec fn todo(self, id: u64, event: Event, todo: Todo) -> bool {
        match event {
            Event::Data => if self.streams.contains_key(id) {
                todo == Todo::ReadBody
            } else {
                todo == Todo::Nothing
            },
            Event::Datagram => todo == Todo::DiscardDatagrams,
            Event::GoAway => todo matches Todo::Close(plan) && plan@ == ShutdownCause::GoAway.plan(),
            _ => todo == Todo::Nothing,
        }
    }

    /// The state after `STREAM_READ_CHUNK` zero bytes were put behind the
    /// body of the response under `id`.
    pub open spec fn reserved(self, id: u64) -> H3State {
        if self.streams.contains_key(id) {
            let stream = self.streams[id];
            self.track(
                id,
                StreamView { data: stream.data + zeros(STREAM_READ_CHUNK as nat), ..stream },
            )
        } else {
            self
        }
    }

    /// The state after the body of the response under `id` was cut to its
    /// first `len` bytes. A body that is no longer stays as it is.
    pub open spec fn cut(self, id: u64, len: int) -> H3State {
        if self.streams.contains_key(id) && 0 <= len <= self.streams[id].data.len() {
            let stream = self.streams[id];
            self.track(id, StreamView { data: stream.data.take(len), ..stream })
        } else {
            self
        }
    }

    /// The state after the framing layer answered a read into the bytes
    /// that were reserved behind the first `base` bytes of the body under
    /// `id`: what was read stays, the rest of the reservation goes.
    pub open spec fn committed(self, id: u64, base: usize, answer: Result<usize, H3Error>) -> H3State {
        match answer {
            Ok(n) => self.cut(id, base + n),
            Err(_) => self.cut(id, base as int),
        }
    }
}

/// The application driver's own state. It holds the transport driver for as
/// long as the application layer runs.
pub struct H3Driver {
    pub driver: Driver,
    /// The framing layer cannot always fit a request in. The one that did
    /// not fit waits here until it can be sent.
    pub buffered_request: Option<Request>,
    pub requests: HashMap<u64, Request>,
    pub streams: HashMap<u64, Stream>,
}

impl View for H3Driver {
    type V = H3State;

    open spec fn view(&self) -> H3State {
        H3State {
            link: self.driver@,
            buffered: self.buffered_request,
            requests: self.requests@,
            streams: stream_views(self.streams@),
        }
    }
}

proof fn lemma_views_insert(streams: Map<u64, Stream>, id: u64, stream: Stream)
    ensures
        stream_views(streams.insert(id, stream)) == stream_views(streams).insert(id, stream@),
{
    assert(stream_views(streams.insert(id, stream)) =~= stream_views(streams).insert(id, stream@));
}

/// Taking the response under `id` out and putting `stream` in its place
/// comes to the same as putting `stream` under `id`.
proof fn lemma_views_put_back(streams: Map<u64, Stream>, id: u64, stream: Stream)
    ensures
        stream_views(streams.remove(id).insert(id, stream)) == stream_views(streams).insert(
            id,
            stream@,
        ),
{
    assert(stream_views(streams.remove(id).insert(id, stream)) =~= stream_views(streams).insert(
        id,
        stream@,
    ));
}

proof fn lemma_views_remove(streams: Map<u64, Stream>, id: u64)
    ensures
        stream_views(streams.remove(id)) == stream_views(streams).remove(id),
{
    assert(stream_views(streams.remove(id)) =~= stream_views(streams).remove(id));
}

impl H3Driver {
    /// Whether the channel handles of `self` are those of `before`.
    pub open spec fn same_channels(&self, before: &H3Driver) -> bool {
        self.driver.request_rx == before.driver.request_rx && self.driver.status_tx
            == before.driver.status_tx
    }

    /// An application driver on top of `driver`, with nothing buffered, sent
    /// or received yet.
    pub fn new(driver: Driver) -> (h3: H3Driver)
        ensures
            h3.driver == driver,
            h3@ == (H3State {
                link: driver@,
                buffered: None,
                requests: Map::empty(),
                streams: Map::empty(),
            }),
    {
        let h3 = H3Driver {
            driver,
            buffered_request: None,
            requests: HashMap::new(),
            streams: HashMap::new(),
        };
        assert(stream_views(h3.streams@) =~= Map::empty());
        h3
    }

    /// Gives the transport driver back once the application layer has
    /// ended. What was buffered, sent or received is dropped.
    pub fn into_driver(self) -> (driver: Driver)
        ensures
            driver == self.driver,
    {
        self.driver
    }

    /// Whether a request may be taken from the queue now: only while the
    /// queue is open and no request waits in the buffer.
    pub fn can_admit(&self) -> (yes: bool)
        ensures
            yes == self@.can_admit(),
    {
        !self.driver.closing && self.buffered_request.is_none()
    }

    /// Takes the buffered request out, to try it again before anything new
    /// is taken from the queue.
    pub fn take_buffered(&mut self) -> (request: Option<Request>)
        ensures
            request == old(self)@.buffered,
            final(self)@ == (H3State { buffered: None, ..old(self)@ }),
            final(self).same_channels(old(self)),
    {
        self.buffered_request.take()
    }

    /// Records the framing layer's answer to the attempt to send `request`
    /// and ask for a response. `retry` says that the request came out of the
    /// buffer.
    ///
    /// With a stream id the request waits under it for its response. An
    /// answer that only says the layers below are full puts a request from
    /// the queue into the buffer, which is no error. A request from the
    /// buffer is not put back: for it that answer ends the driver like any
    /// other error, and the request is dropped.
    ///
    /// The buffer holds one request. To send one while another waits there
    /// is a mistake of the caller.
    pub fn request_sent(&mut self, request: Request, retry: bool, answer: Result<u64, H3Error>) -> (end:
        Result<(), Error>)
        requires
            old(self)@.buffered is None,
        ensures
            final(self)@ == old(self)@.sent(request, retry, answer),
            end == H3State::sent_result(retry, answer),
            final(self).same_channels(old(self)),
    {
        match answer {
            Ok(stream_id) => {
                self.requests.insert(stream_id, request);
                Ok(())
            },
            Err(e) => {
                if e.is_capacity() && !retry {
                    self.buffered_request = Some(request);
                    Ok(())
                } else {
                    Err(Error::H3(e))
                }
            },
        }
    }

    /// Takes request and response out from under `stream_id` if both are
    /// there. If either is missing, nothing is taken and nothing changes.
    pub fn take_exchange(&mut self, stream_id: u64) -> (pair: Option<(Request, Stream)>)
        ensures
            final(self)@ == old(self)@.settle(stream_id),
            final(self).same_channels(old(self)),
            match pair {
                Some((request, stream)) => old(self)@.exchange(stream_id) == Some((request, stream@)),
                None => old(self)@.exchange(stream_id) is None,
            },
    {
        if !self.streams.contains_key(&stream_id) || !self.requests.contains_key(&stream_id) {
            assert(self.streams@ =~= old(self).streams@);
            return None;
        }
        proof {
            lemma_views_remove(self.streams@, stream_id);
        }
        let stream = self.streams.remove(&stream_id);
        let request = self.requests.remove(&stream_id);
        match (stream, request) {
            (Some(stream), Some(request)) => Some((request, stream)),
            _ => None,
        }
    }

    /// Attempts to deliver the response under `stream_id` to the request
    /// under the same id. If both are there, both are taken out and the
    /// response goes into the request's reply channel; that the requester no
    /// longer listens is no error. If either is missing, nothing is
    /// delivered and nothing changes: the outcome says which one it was, the
    /// response first.
    pub fn respond(&mut self, stream_id: u64) -> (outcome: Delivery)
        ensures
            outcome == old(self)@.outcome(stream_id),
            final(self)@ == old(self)@.settle(stream_id),
            final(self).same_channels(old(self)),
    {
        let known = self.streams.contains_key(&stream_id);
        match self.take_exchange(stream_id) {
            Some((request, stream)) => {
                let _ = request.response_tx.send(stream);
                Delivery::Delivered
            },
            None => {
                if known {
                    Delivery::UntrackedRequest
                } else {
                    Delivery::UntrackedStream
                }
            },
        }
    }

    /// Puts `STREAM_READ_CHUNK` zero bytes behind the body of the response
    /// under `stream_id`, for the framing layer to read into, and returns
    /// the length the body had. Without a response under that id there is
    /// nothing to read into, and nothing changes.
    pub fn reserve_chunk(&mut self, stream_id: u64) -> (base: Option<usize>)
        requires
            old(self)@.streams.contains_key(stream_id) ==> old(self)@.streams[stream_id].data.len()
                + STREAM_READ_CHUNK <= usize::MAX,
        ensures
            final(self)@ == old(self)@.reserved(stream_id),
            final(self).same_channels(old(self)),
            match base {
                Some(len) => old(self)@.streams.contains_key(stream_id) && len == old(
                    self,
                )@.streams[stream_id].data.len(),
                None => !old(self)@.streams.contains_key(stream_id),
            },
    {
        match self.streams.remove(&stream_id) {
            Some(stream) => {
                let mut stream = stream;
                let ghost before = stream@;
                let base = stream.data.len();
                stream.data.resize(base + STREAM_READ_CHUNK, 0);
                proof {
                    assert(stream.data@ =~= before.data + zeros(STREAM_READ_CHUNK as nat));
                    lemma_views_put_back(old(self).streams@, stream_id, stream);
                }
                self.streams.insert(stream_id, stream);
                Some(base)
            },
            None => {
                assert(self.streams@ =~= old(self).streams@);
                None
            },
        }
    }

    /// Records the framing layer's answer to a read into the bytes that
    /// `reserve_chunk` put behind the first `base` bytes of the body. The
    /// bytes that were read stay; the rest of the reservation is cut off, all
    /// of it when nothing was read. `Ok(true)` says to reserve and read
    /// again, `Ok(false)` that the layer has no more for now; any other
    /// error ends the driver.
    pub fn commit_chunk(&mut self, stream_id: u64, base: usize, answer: Result<usize, H3Error>) -> (more:
        Result<bool, Error>)
        ensures
            final(self)@ == old(self)@.committed(stream_id, base, answer),
            final(self).same_channels(old(self)),
            more == match h3_step(answer) {
                Ok(Some(_)) => Ok::<bool, Error>(true),
                Ok(None) => Ok::<bool, Error>(false),
                Err(e) => Err::<bool, Error>(e),
            },
    {
        let read: usize = match answer {
            Ok(n) => n,
            Err(_) => 0,
        };
        match self.streams.remove(&stream_id) {
            Some(stream) => {
                let mut stream = stream;
                let ghost before = stream@;
                let len = stream.data.len();
                if read <= len && base <= len - read {
                    stream.data.truncate(base + read);
                }
                proof {
                    if base + read <= before.data.len() {
                        assert(stream.data@ =~= before.data.take(base + read));
                    } else {
                        assert(stream.data@ == before.data);
                    }
                    lemma_views_put_back(old(self).streams@, stream_id, stream);
                    if !(base + read <= before.data.len()) {
                        assert(old(self)@.streams.insert(stream_id, stream@) =~= old(self)@.streams);
                    }
                }
                self.streams.insert(stream_id, stream);
            },
            None => {
                assert(self.streams@ =~= old(self).streams@);
            },
        }
        match settle_h3(answer) {
            Ok(Some(_)) => Ok(true),
            Ok(None) => Ok(false),
            Err(e) => Err(e),
        }
    }

    /// Begins the shutdown of the connection: closes the queue, drops what
    /// it holds, so that no request is taken from it again, and returns what
    /// is left to do. The queue is closed on return, whether or not it was
    /// closed before, and whatever comes of the plan afterwards.
    pub fn shutdown(&mut self, cause: ShutdownCause) -> (plan: Shutdown)
        ensures
            final(self)@ == old(self)@.shut(),
            final(self).driver.status_tx == old(self).driver.status_tx,
            queue_closed(final(self).driver.request_rx),
            plan@ == cause.plan(),
    {
        close_queue(&mut self.driver.request_rx);
        self.driver.discard_queued();
        self.driver.closing = true;
        match cause {
            ShutdownCause::QueueClosed => {
                let reason: Vec<u8> = vec![0x44u8, 0x4fu8, 0x4eu8, 0x45u8];
                assert(reason@ =~= ShutdownCause::done());
                Shutdown { goaway: Some(0), app: true, code: 0, reason }
            },
            ShutdownCause::GoAway => {
                let reason: Vec<u8> = vec![
                    0x53u8, 0x45u8, 0x52u8, 0x56u8, 0x45u8, 0x52u8, 0x20u8, 0x47u8, 0x4fu8, 0x41u8,
                    0x57u8, 0x41u8, 0x59u8,
                ];
                assert(reason@ =~= ShutdownCause::server_goaway());
                Shutdown { goaway: None, app: true, code: 0, reason }
            },
        }
    }

    /// Processes one event that the framing layer reported for `stream_id`.
    ///
    /// Headers start a response, in place of any that was under way under
    /// the same id; without a body to follow it is delivered at once. The
    /// end of a stream delivers its response. A reset is recorded in the
    /// response, or in an empty one if none was under way, and that is
    /// delivered. A body to read, datagrams to drop and the peer's going
    /// away are left to the embedding program, as the report says; for the
    /// last the queue is closed here and what it holds is dropped. A change
    /// of priority does nothing.
    pub fn process_h3_event(&mut self, stream_id: u64, event: Event) -> (report: EventReport)
        ensures
            final(self)@ == old(self)@.after_event(stream_id, event),
            final(self).driver.status_tx == old(self).driver.status_tx,
            !(event is GoAway) ==> final(self).same_channels(old(self)),
            event is GoAway ==> queue_closed(final(self).driver.request_rx),
            report.requested == old(self)@.requests.contains_key(stream_id),
            report.replaced == (event is Headers && old(self)@.streams.contains_key(stream_id)),
            report.delivery == match old(self)@.before_delivery(stream_id, event) {
                Some(state) => Some(state.outcome(stream_id)),
                None => None,
            },
            old(self)@.todo(stream_id, event, report.todo),
    {
        let requested = self.requests.contains_key(&stream_id);
        let known = self.streams.contains_key(&stream_id);
        match event {
            Event::Headers { list, has_body } => {
                let stream = Stream::new(list);
                proof {
                    lemma_views_insert(self.streams@, stream_id, stream);
                }
                let replaced = self.streams.insert(stream_id, stream).is_some();
                let delivery = if has_body {
                    None
                } else {
                    Some(self.respond(stream_id))
                };
                EventReport { requested, replaced, delivery, todo: Todo::Nothing }
            },
            Event::Data => {
                let todo = if known {
                    Todo::ReadBody
                } else {
                    Todo::Nothing
                };
                EventReport { requested, replaced: false, delivery: None, todo }
            },
            Event::Finished => {
                let outcome = self.respond(stream_id);
                EventReport { requested, replaced: false, delivery: Some(outcome), todo: Todo::Nothing }
            },
            Event::Reset(code) => {
                let mut stream = match self.streams.remove(&stream_id) {
                    Some(stream) => stream,
                    None => Stream::new(Vec::new()),
                };
                stream.error = Some(code);
                proof {
                    assert(fields(Seq::<Header>::empty()) =~= Seq::empty());
                    assert(stream@ == old(self)@.response(stream_id).reset(code));
                    lemma_views_put_back(old(self).streams@, stream_id, stream);
                }
                self.streams.insert(stream_id, stream);
                let outcome = self.respond(stream_id);
                EventReport { requested, replaced: false, delivery: Some(outcome), todo: Todo::Nothing }
            },
            Event::Datagram => {
                EventReport {
                    requested,
                    replaced: false,
                    delivery: None,
                    todo: Todo::DiscardDatagrams,
                }
            },
            Event::PriorityUpdate => {
                EventReport { requested, replaced: false, delivery: None, todo: Todo::Nothing }
            },
            Event::GoAway => {
                let plan = self.shutdown(ShutdownCause::GoAway);
                EventReport { requested, replaced: false, delivery: None, todo: Todo::Close(plan) }
            },
        }
    }
}

} // verus!
