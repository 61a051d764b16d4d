//! What the driver tells the connection pool about itself.

use vstd::prelude::*;

verus! {

/// A stage in the life of a connection. A new connection is handshaking and
/// publishes nothing until the transport is usable.
#[derive(Clone, Debug, PartialEq, Eq)]
pub enum Status {
    /// The transport is established, the application layer is not running.
    QUIC,
    /// The application layer is running: requests are served.
    H3,
    /// The connection is of no further use. `session` is the blob with which
    /// a later connection may resume this one, if the transport offered one.
    Dead { session: Option<Vec<u8>> },
}

} // verus!
