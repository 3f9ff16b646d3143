//! One probe, as far as it is decided here: what is sent, and what the bytes
//! that came back mean. Sending, receiving and timing happen between the two.

use vstd::prelude::*;
use vstd::slice::slice_subrange;
use crate::checksum::{end_around_carry, internet_checksum, word_sum};
use crate::classify::{classified, classify, PingOutcome};
use crate::error::Error;
use crate::ipv4::{strip, stripped};
use crate::packet::{build_echo_request, echo_request, echo_request_header, with_checksum_field};

verus! {

/// Identifier of the single-shot probe.
pub const PROBE_IDENTIFIER: u16 = 0;

/// Sequence number of the single-shot probe.
pub const PROBE_SEQUENCE: u16 = 1;

/// Length of the buffer that the reply is received into.
pub const RECEIVE_BUFFER_LEN: usize = 256;

/// The request of the single-shot probe on the wire.
pub open spec fn probe_request_bytes() -> Seq<u8> {
    seq![0x08u8, 0x00u8, 0xf7u8, 0xfeu8, 0x00u8, 0x00u8, 0x00u8, 0x01u8]
}

/// The request of the single-shot probe is the eight bytes
/// `08 00 f7 fe 00 00 00 01`.
proof fn lemma_probe_request_bytes()
    ensures
        echo_request(PROBE_IDENTIFIER, PROBE_SEQUENCE, Seq::<u8>::empty()) == probe_request_bytes(),
{
    let header = echo_request_header(PROBE_IDENTIFIER, PROBE_SEQUENCE);
    let unsealed = header + Seq::<u8>::empty();
    assert(unsealed =~= seq![0x08u8, 0x00u8, 0x00u8, 0x00u8, 0x00u8, 0x00u8, 0x00u8, 0x01u8]);
    let cleared = with_checksum_field(unsealed, 0);
    assert(cleared =~= unsealed);
    assert(word_sum(cleared) == 0x0801) by {
        reveal_with_fuel(word_sum, 5);
        assert(cleared.skip(2).skip(2).skip(2).skip(2).len() == 0);
    }
    assert(end_around_carry(0x0801) == 0x0801);
    assert(internet_checksum(cleared) == 0xf7fe);
    assert(with_checksum_field(cleared, 0xf7fe) =~= probe_request_bytes());
}

/// Builds the request of the single-shot probe: identifier 0, sequence number
/// 1, no payload.
pub fn probe_request() -> (packet: Vec<u8>)
    ensures
        packet@ == echo_request(PROBE_IDENTIFIER, PROBE_SEQUENCE, Seq::<u8>::empty()),
        packet@ == probe_request_bytes(),
{
    let payload: [u8; 0] = [];
    proof {
        lemma_probe_request_bytes();
        assert(payload@ =~= Seq::<u8>::empty());
    }
    build_echo_request(PROBE_IDENTIFIER, PROBE_SEQUENCE, payload.as_slice())
}

/// What `interpret_response` makes of a receive buffer of which the first
/// `received` bytes were filled.
pub open spec fn interpreted(buffer: Seq<u8>, received: int, probe_target_is_loopback: bool)
    -> Result<PingOutcome, Error> {
    if received >= buffer.len() {
        Err(Error::BufferOverflow)
    } else {
        match stripped(buffer.take(received)) {
            Ok(message) => classified(message, probe_target_is_loopback),
            Err(error) => Err(error),
        }
    }
}

/// Reads the outcome of a probe from the receive buffer.
///
/// `received` is the number of bytes that the transport wrote into `buffer`.
/// A datagram that fills the buffer may have been cut short and is refused
/// with `BufferOverflow`. Otherwise the IPv4 header is stripped from the bytes
/// received and the control message behind it is classified; no byte beyond
/// `received` is read.
pub fn interpret_response(buffer: &[u8], received: usize, probe_target_is_loopback: bool) -> (outcome:
    Result<PingOutcome, Error>)
    ensures
        outcome == interpreted(buffer@, received as int, probe_target_is_loopback),
{
    if received >= buffer.len() {
        return Err(Error::BufferOverflow);
    }
    let datagram = slice_subrange(buffer, 0, received);
    assert(datagram@ =~= buffer@.take(received as int));
    match strip(datagram) {
        Ok(message) => classify(message, probe_target_is_loopback),
        Err(error) => Err(error),
    }
}

} // verus!
