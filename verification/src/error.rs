//! What can go wrong while a reply is read.

use vstd::prelude::*;

verus! {

/// Failure of one probe. Each is final for that probe; nothing is retried.
#[derive(Clone, Copy, Debug, PartialEq, Eq, Structural)]
pub enum Error {
    /// The datagram is shorter than the IPv4 header that its first byte
    /// declares, declares a header shorter than twenty bytes, or holds nothing
    /// behind the header.
    TruncatedHeader,
    /// The control message is too short to hold a type and a code.
    Truncated,
    /// The datagram filled the receive buffer, so part of it may be lost.
    BufferOverflow,
    /// The clock could not measure the time that passed.
    ClockError,
}

} // verus!
