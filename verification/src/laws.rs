//! What holds of the drivers over whole runs, proved from the transitions
//! that the functions of `h3` and `driver` are specified by.

use vstd::prelude::*;
use crate::driver::DriverView;
use crate::error::H3Error;
use crate::h3::{Delivery, Event, H3State};
use crate::request::{fields, BootTime, Request, StreamView};

verus! {

/// One thing that happens to the application driver.
#[allow(inconsistent_fields)]
pub enum Input {
    /// A request from the queue was sent, with this answer
    /// (`H3Driver::request_sent` without `retry`).
    Admit { request: Request, answer: Result<u64, H3Error> },
    /// The buffered request was taken out and sent again, with this answer
    /// (`H3Driver::take_buffered`, then `H3Driver::request_sent` with
    /// `retry`).
    Retry { answer: Result<u64, H3Error> },
    /// The framing layer reported an event (`H3Driver::process_h3_event`).
    Event { id: u64, event: Event },
    /// Room for body bytes was made (`H3Driver::reserve_chunk`).
    Reserve { id: u64 },
    /// A read of body bytes was answered (`H3Driver::commit_chunk`).
    Commit { id: u64, base: usize, answer: Result<usize, H3Error> },
    /// The transport's draining flag was looked at
    /// (`Driver::handle_draining`).
    Draining { seen: bool },
    /// The queue's senders are gone (`H3Driver::shutdown`).
    Shutdown,
}

impl H3State {
    /// The state after `input`.
    pub open spec fn step(self, input: Input) -> H3State {
        match input {
            Input::Admit { request, answer } => self.sent(request, false, answer),
            Input::Retry { answer } => match self.buffered {
                Some(request) => (H3State { buffered: None, ..self }).sent(request, true, answer),
                None => self,
            },
            Input::Event { id, event } => self.after_event(id, event),
            Input::Reserve { id } => self.reserved(id),
            Input::Commit { id, base, answer } => self.committed(id, base, answer),
            Input::Draining { seen } => H3State { link: self.link.observe(seen), ..self },
            Input::Shutdown => self.shut(),
        }
    }

    /// The state after all of `inputs`, in order.
    pub open spec fn run(self, inputs: Seq<Input>) -> H3State
        decreases inputs.len(),
    {
        if inputs.len() == 0 {
            self
        } else {
            self.step(inputs[0]).run(inputs.skip(1))
        }
    }

    /// The request and the response that `input` brings together, if it
    /// delivers.
    pub open spec fn handed_over(self, input: Input) -> Option<(Request, StreamView)> {
        match input {
            Input::Event { id, event } => match self.before_delivery(id, event) {
                Some(state) => state.exchange(id),
                None => None,
            },
            _ => None,
        }
    }

    /// Whether `input` delivers a response to `request`.
    pub open spec fn delivers(self, input: Input, request: Request) -> bool {
        self.handed_over(input) matches Some(pair) && pair.0 == request
    }

    /// How often a response is delivered to `request` over `inputs`.
    pub open spec fn times_delivered(self, inputs: Seq<Input>, request: Request) -> nat
        decreases inputs.len(),
    {
        if inputs.len() == 0 {
            0
        } else {
            let now: nat = if self.delivers(inputs[0], request) { 1 } else { 0 };
            now + self.step(inputs[0]).times_delivered(inputs.skip(1), request)
        }
    }

    /// Whether `input` keeps to the rule of the buffer: a request from the
    /// queue is sent only while the buffer is empty, which is what
    /// `H3Driver::request_sent` requires.
    pub open spec fn permits(self, input: Input) -> bool {
        input is Admit ==> self.buffered is None
    }

    /// Whether each of `inputs` keeps to the rule of the buffer in the state
    /// that it meets.
    pub open spec fn permits_all(self, inputs: Seq<Input>) -> bool
        decreases inputs.len(),
    {
        inputs.len() == 0 || (self.permits(inputs[0]) && self.step(inputs[0]).permits_all(
            inputs.skip(1),
        ))
    }

    /// The driver does not hold `request`.
    pub open spec fn lacks(self, request: Request) -> bool {
        &&& self.buffered != Some(request)
        &&& forall|id: u64| self.requests.contains_key(id) ==> #[trigger] self.requests[id] != request
    }

    /// The driver holds `request` in one place at most: in the buffer, or
    /// under one stream id.
    pub open spec fn holds_once(self, request: Request) -> bool {
        &&& self.buffered == Some(request) ==> forall|id: u64|
            self.requests.contains_key(id) ==> #[trigger] self.requests[id] != request
        &&& forall|i: u64, j: u64|
            self.requests.contains_key(i) && self.requests.contains_key(j) && #[trigger] self.requests[i]
                == request && #[trigger] self.requests[j] == request ==> i == j
    }
}

/// Whether `input` hands `request` to the driver as a new one.
pub open spec fn admits(input: Input, request: Request) -> bool {
    input matches Input::Admit { request: r, .. } && r == request
}

/// A delivery takes place exactly when a response and a request are both
/// held under the stream id; it then brings those two together. Otherwise
/// nothing is delivered.
pub proof fn law_delivery_needs_both(state: H3State, id: u64)
    ensures
        state.outcome(id) == Delivery::Delivered <==> state.requests.contains_key(id)
            && state.streams.contains_key(id),
        state.outcome(id) == Delivery::Delivered <==> state.exchange(id) == Some(
            (state.requests[id], state.streams[id]),
        ),
        state.outcome(id) != Delivery::Delivered <==> state.exchange(id) is None,
{
}

/// A response goes to the request of its own stream: what an event on a
/// stream delivers is the request that was recorded under that stream's id,
/// together with the response that the event completes under the same id.
pub proof fn law_delivery_goes_to_its_stream(state: H3State, id: u64, event: Event)
    requires
        state.handed_over(Input::Event { id, event }) is Some,
    ensures
        state.requests.contains_key(id),
        state.handed_over(Input::Event { id, event })->Some_0.0 == state.requests[id],
        event is Finished ==> state.streams.contains_key(id) && state.handed_over(
            Input::Event { id, event },
        )->Some_0.1 == state.streams[id],
        event matches Event::Headers { list, .. } ==> state.handed_over(
            Input::Event { id, event },
        )->Some_0.1 == StreamView::fresh(fields(list@)),
        event matches Event::Reset(code) ==> state.handed_over(Input::Event { id, event })->Some_0.1
            == state.response(id).reset(code),
        !state.step(Input::Event { id, event }).requests.contains_key(id),
        !state.step(Input::Event { id, event }).streams.contains_key(id),
{
}

/// An event on one stream leaves the request and the response of every
/// other stream as they were.
pub proof fn law_event_touches_one_stream(state: H3State, id: u64, event: Event, other: u64)
    requires
        other != id,
    ensures
        state.after_event(id, event).requests.contains_key(other) == state.requests.contains_key(
            other,
        ),
        state.requests.contains_key(other) ==> state.after_event(id, event).requests[other]
            == state.requests[other],
        state.after_event(id, event).streams.contains_key(other) == state.streams.contains_key(other),
        state.streams.contains_key(other) ==> state.after_event(id, event).streams[other]
            == state.streams[other],
        state.after_event(id, event).buffered == state.buffered,
{
}

/// An attempt to deliver that finds either half missing changes nothing. One
/// that delivers takes both halves out, so that a second attempt under the
/// same id finds no response, delivers nothing and changes nothing.
pub proof fn law_second_attempt_is_idle(state: H3State, id: u64)
    ensures
        state.outcome(id) != Delivery::Delivered ==> state.settle(id) == state,
        state.outcome(id) == Delivery::Delivered ==> state.settle(id).outcome(id)
            == Delivery::UntrackedStream,
        state.settle(id).outcome(id) != Delivery::Delivered,
        state.settle(id).exchange(id) is None,
        state.settle(id).settle(id) == state.settle(id),
{
}

/// An expired request is dropped before it is sent, and only an expired one:
/// a request without a deadline, or with one that `now` has not passed, is
/// handed back to be sent.
pub proof fn law_expiry(request: Request, now: BootTime)
    ensures
        request.spec_is_expired(now) <==> (request.expiry matches Some(deadline) && now.nanos
            > deadline.nanos),
        request.expiry is None ==> !request.spec_is_expired(now),
{
}

/// A request from the queue that finds the layers below full occupies the
/// buffer, and while it waits there no request may be taken from the queue.
/// Sent again with success, it leaves the buffer for the table of requests in
/// flight, and the queue may be served again unless it was closed.
pub proof fn law_buffer_holds_one(state: H3State, request: Request, full: H3Error, id: u64)
    requires
        state.buffered is None,
        full.spec_is_capacity(),
    ensures
        state.sent(request, false, Err(full)).buffered == Some(request),
        !state.sent(request, false, Err(full)).can_admit(),
        state.sent(request, false, Err(full)).requests == state.requests,
        state.sent(request, false, Err(full)).step(Input::Retry { answer: Ok(id) }).buffered is None,
        state.sent(request, false, Err(full)).step(Input::Retry { answer: Ok(id) }).requests
            == state.requests.insert(id, request),
        state.sent(request, false, Err(full)).step(Input::Retry { answer: Ok(id) }).can_admit()
            == !state.link.closing,
{
}

/// The buffer is occupied from empty only: in a run that keeps to the rule of
/// the buffer, an input that changes what the buffer holds either finds it
/// empty and fills it with the request from the queue that the layers below
/// had no room for, or is the retry that empties it. No input puts a second
/// request where one waits.
pub proof fn law_buffer_is_filled_from_empty(state: H3State, input: Input)
    requires
        state.permits(input),
        state.step(input).buffered != state.buffered,
    ensures
        state.step(input).buffered is Some ==> state.buffered is None,
        state.step(input).buffered is Some ==> (input matches Input::Admit { request, answer }
            && answer matches Err(full) && full.spec_is_capacity() && state.step(input).buffered
            == Some(request)),
        state.step(input).buffered is None ==> input is Retry,
{
}

/// A request that waits in the buffer is neither overwritten nor dropped in
/// silence: every input that keeps to the rule of the buffer leaves it there,
/// but for the retry. The retry moves it into the table of requests in
/// flight, or ends the driver with the error.
pub proof fn law_buffered_request_waits(state: H3State, input: Input, request: Request)
    requires
        state.buffered == Some(request),
        state.permits(input),
    ensures
        !(input is Retry) ==> state.step(input).buffered == Some(request),
        input matches Input::Retry { answer } ==> {
            &&& state.step(input).buffered is None
            &&& answer matches Ok(id) ==> state.step(input).requests.contains_key(id)
                && state.step(input).requests[id] == request
            &&& answer is Err ==> H3State::sent_result(true, answer) is Err
        },
{
}

/// Over a run that keeps to the rule of the buffer and holds no retry, the
/// request that waits in the buffer is still there at the end, and no
/// request may be taken from the queue at any point of it.
pub proof fn law_buffer_kept_until_retry(state: H3State, inputs: Seq<Input>, request: Request)
    requires
        state.buffered == Some(request),
        state.permits_all(inputs),
        forall|i: int| 0 <= i < inputs.len() ==> !(#[trigger] inputs[i] is Retry),
    ensures
        state.run(inputs).buffered == Some(request),
        !state.run(inputs).can_admit(),
        forall|i: int| 0 <= i < inputs.len() ==> !(#[trigger] inputs[i] is Admit),
    decreases inputs.len(),
{
    if inputs.len() > 0 {
        let rest = inputs.skip(1);
        law_buffered_request_waits(state, inputs[0], request);
        assert forall|i: int| 0 <= i < rest.len() implies !(#[trigger] rest[i] is Retry) by {
            assert(rest[i] == inputs[i + 1]);
        }
        law_buffer_kept_until_retry(state.step(inputs[0]), rest, request);
        assert forall|i: int| 0 <= i < inputs.len() implies !(#[trigger] inputs[i] is Admit) by {
            if i > 0 {
                assert(rest[i - 1] == inputs[i]);
            }
        }
    }
}

/// A request that leaves the buffer never returns to it: whatever the answer
/// to sending it again, the buffer is empty afterwards, and every answer but
/// a stream id ends the driver.
pub proof fn law_retry_empties_buffer(state: H3State, answer: Result<u64, H3Error>)
    ensures
        state.step(Input::Retry { answer }).buffered is None,
        answer is Err ==> H3State::sent_result(true, answer) is Err,
        answer is Ok ==> H3State::sent_result(true, answer) is Ok,
{
}

/// No input opens a closed queue again.
pub proof fn law_step_keeps_closing(state: H3State, input: Input)
    requires
        state.link.closing,
    ensures
        state.step(input).link.closing,
{
}

/// Once the queue is closed, whatever happens afterwards, no request may be
/// taken from it.
pub proof fn law_closed_queue_admits_nothing(state: H3State, inputs: Seq<Input>)
    requires
        state.link.closing,
    ensures
        state.run(inputs).link.closing,
        !state.run(inputs).can_admit(),
    decreases inputs.len(),
{
    if inputs.len() > 0 {
        law_step_keeps_closing(state, inputs[0]);
        law_closed_queue_admits_nothing(state.step(inputs[0]), inputs.skip(1));
    }
}

/// A shutdown, the peer's going away and the sight of a draining transport
/// each leave the driver closing. That the queue itself is then closed is
/// stated by the functions that close it.
pub proof fn law_shutdown_sets_closing(state: H3State)
    ensures
        state.step(Input::Shutdown).link.closing,
        state.step(Input::Draining { seen: true }).link.closing,
        state.step(Input::Event { id: 0, event: Event::GoAway }).link.closing,
{
}

/// Over any run of looks at the draining flag, `Dead` is published once if
/// the flag is ever seen set while the queue was open at the start, and
/// never otherwise.
pub proof fn law_dead_announced_once(link: DriverView, seen: Seq<bool>)
    ensures
        link.announcements(seen) == if !link.closing && seen.contains(true) {
            1nat
        } else {
            0nat
        },
    decreases seen.len(),
{
    if seen.len() > 0 {
        let rest = seen.skip(1);
        law_dead_announced_once(link.observe(seen[0]), rest);
        if seen.contains(true) {
            let i = choose|i: int| 0 <= i < seen.len() && seen[i] == true;
            if i > 0 {
                assert(rest[i - 1] == true);
            }
        }
        if rest.contains(true) {
            let j = choose|j: int| 0 <= j < rest.len() && rest[j] == true;
            assert(seen[j + 1] == true);
        }
    }
}

proof fn lemma_step_keeps_lacking(state: H3State, input: Input, request: Request)
    requires
        state.lacks(request),
        !admits(input, request),
    ensures
        state.step(input).lacks(request),
        !state.delivers(input, request),
{
    let next = state.step(input);
    match input {
        Input::Event { id, event } => {
            match state.before_delivery(id, event) {
                Some(before) => {
                    assert(before.requests == state.requests);
                },
                None => {},
            }
        },
        _ => {},
    }
    assert forall|id: u64| next.requests.contains_key(id) implies #[trigger] next.requests[id]
        != request by {
        if state.requests.contains_key(id) {
            assert(state.requests[id] != request);
        }
    }
}

proof fn lemma_never_delivered(state: H3State, inputs: Seq<Input>, request: Request)
    requires
        state.lacks(request),
        forall|i: int| 0 <= i < inputs.len() ==> !admits(#[trigger] inputs[i], request),
    ensures
        state.times_delivered(inputs, request) == 0,
    decreases inputs.len(),
{
    if inputs.len() > 0 {
        lemma_step_keeps_lacking(state, inputs[0], request);
        let rest = inputs.skip(1);
        assert forall|i: int| 0 <= i < rest.len() implies !admits(#[trigger] rest[i], request) by {
            assert(rest[i] == inputs[i + 1]);
        }
        lemma_never_delivered(state.step(inputs[0]), rest, request);
    }
}

proof fn lemma_step_keeps_holding_once(state: H3State, input: Input, request: Request)
    requires
        state.holds_once(request),
        !admits(input, request),
    ensures
        state.step(input).holds_once(request),
        state.delivers(input, request) ==> state.step(input).lacks(request),
{
    let next = state.step(input);
    match input {
        Input::Event { id, event } => {
            match state.before_delivery(id, event) {
                Some(before) => {
                    assert(before.requests == state.requests);
                },
                None => {},
            }
            if state.delivers(input, request) {
                assert(state.requests.contains_key(id) && state.requests[id] == request);
                assert(next.requests =~= state.requests.remove(id));
                assert forall|k: u64| next.requests.contains_key(k) implies #[trigger] next.requests[k]
                    != request by {
                    assert(state.requests.contains_key(k) && k != id);
                }
            }
        },
        _ => {},
    }
    assert forall|i: u64, j: u64|
        next.requests.contains_key(i) && next.requests.contains_key(j) && #[trigger] next.requests[i]
            == request && #[trigger] next.requests[j] == request implies i == j by {
        if state.requests.contains_key(i) && state.requests[i] == request && state.requests.contains_key(
            j,
        ) && state.requests[j] == request {
        }
    }
    if next.buffered == Some(request) {
        assert forall|id: u64| next.requests.contains_key(id) implies #[trigger] next.requests[id]
            != request by {
            if state.requests.contains_key(id) {
                assert(state.requests[id] != request);
            }
        }
    }
}

/// A request that the driver holds in one place is delivered a response once
/// at most, whatever happens, as long as the same request is not handed to
/// the driver a second time.
pub proof fn law_delivered_at_most_once(state: H3State, inputs: Seq<Input>, request: Request)
    requires
        state.holds_once(request),
        forall|i: int| 0 <= i < inputs.len() ==> !admits(#[trigger] inputs[i], request),
    ensures
        state.times_delivered(inputs, request) <= 1,
    decreases inputs.len(),
{
    if inputs.len() > 0 {
        let rest = inputs.skip(1);
        assert forall|i: int| 0 <= i < rest.len() implies !admits(#[trigger] rest[i], request) by {
            assert(rest[i] == inputs[i + 1]);
        }
        lemma_step_keeps_holding_once(state, inputs[0], request);
        if state.delivers(inputs[0], request) {
            lemma_never_delivered(state.step(inputs[0]), rest, request);
        } else {
            law_delivered_at_most_once(state.step(inputs[0]), rest, request);
        }
    }
}

/// A request that is new to the driver when it is taken from the queue is
/// delivered a response once at most over all that follows, and never
/// before it was sent.
pub proof fn law_new_request_delivered_at_most_once(
    state: H3State,
    request: Request,
    answer: Result<u64, H3Error>,
    inputs: Seq<Input>,
)
    requires
        state.lacks(request),
        forall|i: int| 0 <= i < inputs.len() ==> !admits(#[trigger] inputs[i], request),
    ensures
        state.times_delivered(seq![Input::Admit { request, answer }] + inputs, request) <= 1,
{
    let first = Input::Admit { request, answer };
    let all = seq![first] + inputs;
    assert(all[0] == first);
    assert(all.skip(1) =~= inputs);
    let next = state.step(first);
    assert(next.holds_once(request)) by {
        assert forall|i: u64, j: u64|
            next.requests.contains_key(i) && next.requests.contains_key(j) && #[trigger] next.requests[i]
                == request && #[trigger] next.requests[j] == request implies i == j by {
            if state.requests.contains_key(i) {
                assert(state.requests[i] != request);
            }
            if state.requests.contains_key(j) {
                assert(state.requests[j] != request);
            }
        }
        if next.buffered == Some(request) {
            assert(next.requests == state.requests);
        }
    }
    law_delivered_at_most_once(next, inputs, request);
}

} // verus!
