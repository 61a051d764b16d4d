//! Requests, responses and the header fields they carry.

use vstd::prelude::*;
use vstd::slice::slice_to_vec;

verus! {

/// A reading of the boot-time clock: nanoseconds since the machine started,
/// time spent suspended included.
#[derive(Copy, Clone, Debug, PartialEq, Eq, PartialOrd, Ord)]
pub struct BootTime {
    pub nanos: u128,
}

impl BootTime {
    pub open spec fn spec_is_after(self, other: BootTime) -> bool {
        self.nanos > other.nanos
    }

    /// Whether this reading is strictly later than `other`.
    #[verifier::when_used_as_spec(spec_is_after)]
    pub fn is_after(self, other: BootTime) -> (later: bool)
        ensures
            later == (self.nanos > other.nanos),
    {
        self.nanos > other.nanos
    }
}

/// One header field, as raw bytes.
#[derive(Clone, Debug, PartialEq, Eq)]
pub struct Header {
    pub name: Vec<u8>,
    pub value: Vec<u8>,
}

impl View for Header {
    type V = (Seq<u8>, Seq<u8>);

    open spec fn view(&self) -> (Seq<u8>, Seq<u8>) {
        (self.name@, self.value@)
    }
}

impl Header {
    /// A header field with copies of `name` and `value`.
    pub fn new(name: &[u8], value: &[u8]) -> (header: Header)
        ensures
            header@ == (name@, value@),
    {
        Header { name: slice_to_vec(name), value: slice_to_vec(value) }
    }
}

/// A list of header fields as name and value pairs, in order.
pub open spec fn fields(list: Seq<Header>) -> Seq<(Seq<u8>, Seq<u8>)> {
    list.map_values(|h: Header| h@)
}

/// A response as it is accumulated for one exchange.
#[derive(Debug, PartialEq, Eq)]
pub struct Stream {
    /// Response headers, set once.
    pub headers: Vec<Header>,
    /// Response body, as far as it has arrived.
    pub data: Vec<u8>,
    /// The peer's error code, if it reset the stream.
    pub error: Option<u64>,
}

/// What a response holds.
pub struct StreamView {
    pub headers: Seq<(Seq<u8>, Seq<u8>)>,
    pub data: Seq<u8>,
    pub error: Option<u64>,
}

impl StreamView {
    /// A response of which only the headers have arrived.
    pub open spec fn fresh(headers: Seq<(Seq<u8>, Seq<u8>)>) -> StreamView {
        StreamView { headers, data: Seq::empty(), error: None }
    }

    /// The response with the peer's reset code recorded.
    pub open spec fn reset(self, code: u64) -> StreamView {
        StreamView { error: Some(code), ..self }
    }
}

impl View for Stream {
    type V = StreamView;

    open spec fn view(&self) -> StreamView {
        StreamView { headers: fields(self.headers@), data: self.data@, error: self.error }
    }
}

impl Stream {
    /// A response with these headers, no body yet and no error.
    pub fn new(headers: Vec<Header>) -> (stream: Stream)
        ensures
            stream@ == StreamView::fresh(fields(headers@)),
            stream.headers == headers,
    {
        Stream { headers, data: Vec::new(), error: None }
    }
}

/// A request to send on the connection.
#[derive(Debug)]
pub struct Request {
    /// Request headers.
    pub headers: Vec<Header>,
    /// After this reading of the boot-time clock the request is not worth
    /// sending any more.
    pub expiry: Option<BootTime>,
    /// Where the response goes. Dropping it tells the requester that none
    /// will come.
    pub response_tx: tokio::sync::oneshot::Sender<Stream>,
}

impl Request {
    pub open spec fn spec_is_expired(&self, now: BootTime) -> bool {
        match self.expiry {
            Some(expiry) => now.nanos > expiry.nanos,
            None => false,
        }
    }

    /// Whether the request's deadline lies before `now`. A request without a
    /// deadline never expires.
    #[verifier::when_used_as_spec(spec_is_expired)]
    pub fn is_expired(&self, now: BootTime) -> (expired: bool)
        ensures
            expired == self.spec_is_expired(now),
    {
        match self.expiry {
            Some(expiry) => now.is_after(expiry),
            None => false,
        }
    }

    /// Drops the request if its deadline lies before `now`, so that it is
    /// never sent and its requester learns that no response will come; hands
    /// it back otherwise.
    pub fn unless_expired(self, now: BootTime) -> (live: Option<Request>)
        ensures
            live == if self.spec_is_expired(now) {
                None
            } else {
                Some(self)
            },
    {
        if self.is_expired(now) {
            None
        } else {
            Some(self)
        }
    }
}

} // verus!
