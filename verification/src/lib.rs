//! The decisions of a task that keeps one DNS-over-HTTP/3 connection running.
//!
//! The transport engine and the socket stay with the embedding program. It
//! reports what they did, and the two drivers here decide what follows:
//! which requests to send, buffer or drop, which responses are complete and
//! whose they are, and when the connection is to be given up.

pub mod channel;
pub mod driver;
pub mod error;
pub mod h3;
pub mod handshake;
pub mod laws;
pub mod request;
pub mod status;

pub use driver::Driver;
pub use error::{Error, H3Error, QuicError};
pub use h3::{Delivery, Event, EventReport, H3Driver, Shutdown, ShutdownCause, Todo, STREAM_READ_CHUNK};
pub use handshake::{Cause, HandshakeInfo, HandshakeResult};
pub use request::{BootTime, Header, Request, Stream};
pub use status::Status;
