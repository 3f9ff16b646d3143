//! Layout of the echo request and of the checksum field that seals it.
//!
//! An echo request is `type (1) = 8, code (1) = 0, checksum (2), identifier (2),
//! sequence number (2)`, all big-endian, followed by the payload.

use vstd::prelude::*;
use vstd::arithmetic::div_mod::lemma_mod_multiples_vanish;
use crate::checksum::{
    checksum_valid, compute, end_around_carry, internet_checksum,
    lemma_end_around_carry_closed_form, word_sum,
};

verus! {

/// Message type of an echo request.
pub const ECHO_REQUEST: u8 = 8;

/// Length of the fixed part of an echo request, in bytes.
pub const HEADER_LEN: usize = 8;

/// High byte of a 16-bit value.
pub open spec fn high_byte(value: int) -> u8 {
    (value / 256) as u8
}

/// Low byte of a 16-bit value.
pub open spec fn low_byte(value: int) -> u8 {
    (value % 256) as u8
}

/// `message` with `value` written big-endian into its checksum field, bytes 2
/// and 3.
pub open spec fn with_checksum_field(message: Seq<u8>, value: int) -> Seq<u8> {
    message.update(2, high_byte(value)).update(3, low_byte(value))
}

/// `message` sealed: its checksum field is cleared, the checksum of the cleared
/// message is computed, and the result is written into the field.
pub open spec fn sealed(message: Seq<u8>) -> Seq<u8> {
    let cleared = with_checksum_field(message, 0);
    with_checksum_field(cleared, internet_checksum(cleared))
}

/// The eight header bytes of an echo request with a cleared checksum field.
pub open spec fn echo_request_header(identifier: u16, sequence: u16) -> Seq<u8> {
    seq![
        ECHO_REQUEST,
        0u8,
        0u8,
        0u8,
        high_byte(identifier as int),
        low_byte(identifier as int),
        high_byte(sequence as int),
        low_byte(sequence as int),
    ]
}

/// The echo request for `identifier`, `sequence` and `payload`, as it goes on
/// the wire.
pub open spec fn echo_request(identifier: u16, sequence: u16, payload: Seq<u8>) -> Seq<u8> {
    sealed(echo_request_header(identifier, sequence) + payload)
}

/// Writing a 16-bit value into the checksum field of a message whose field is
/// clear adds exactly that value to the word sum.
pub proof fn lemma_word_sum_with_checksum_field(message: Seq<u8>, value: int)
    requires
        message.len() >= 4,
        message[2] == 0,
        message[3] == 0,
        0 <= value <= 0xFFFF,
    ensures
        word_sum(with_checksum_field(message, value)) == word_sum(message) + value,
{
    let written = with_checksum_field(message, value);
    assert(written.skip(2).skip(2) =~= message.skip(2).skip(2));
    assert(word_sum(written) == (written[0] as nat * 256 + written[1] as nat) + word_sum(
        written.skip(2),
    ));
    assert(word_sum(message) == (message[0] as nat * 256 + message[1] as nat) + word_sum(
        message.skip(2),
    ));
    assert(word_sum(written.skip(2)) == (written[2] as nat * 256 + written[3] as nat) + word_sum(
        written.skip(2).skip(2),
    ));
    assert(word_sum(message.skip(2)) == (message[2] as nat * 256 + message[3] as nat) + word_sum(
        message.skip(2).skip(2),
    ));
}

/// Round trip: whatever the bytes and whatever the length, even or odd, a
/// message that has room for the checksum field verifies once it is sealed.
pub proof fn lemma_sealed_verifies(message: Seq<u8>)
    requires
        message.len() >= 4,
    ensures
        checksum_valid(sealed(message)),
{
    let cleared = with_checksum_field(message, 0);
    let sum: nat = word_sum(cleared);
    let folded: nat = end_around_carry(sum);
    lemma_end_around_carry_closed_form(sum);
    lemma_word_sum_with_checksum_field(cleared, 0xFFFF - folded);
    let total: nat = (sum + (0xFFFF - folded)) as nat;
    assert(word_sum(sealed(message)) == total);
    lemma_end_around_carry_closed_form(total);
    if sum > 0 {
        let k: int = (sum - 1) / 0xFFFF;
        assert(sum - 1 == 0xFFFF * k + (folded - 1));
        assert((total - 1) % 0xFFFF == 0xFFFE) by {
            lemma_mod_multiples_vanish(k, 0xFFFE, 0xFFFF);
            assert(0xFFFF * k + 0xFFFE == total - 1);
        }
    }
}

/// Sealing is idempotent: sealing a sealed message changes nothing.
pub proof fn lemma_sealed_idempotent(message: Seq<u8>)
    requires
        message.len() >= 4,
    ensures
        sealed(sealed(message)) == sealed(message),
{
    assert(with_checksum_field(sealed(message), 0) =~= with_checksum_field(message, 0));
}

/// Builds the echo request for `identifier`, `sequence` and `payload`.
///
/// The header is laid out with a cleared checksum field and the payload is
/// appended; the checksum of the whole is then computed and written into the
/// field. The result is at least eight bytes long and verifies.
pub fn build_echo_request(identifier: u16, sequence: u16, payload: &[u8]) -> (packet: Vec<u8>)
    ensures
        packet@ == echo_request(identifier, sequence, payload@),
        packet@.len() == HEADER_LEN + payload@.len(),
        checksum_valid(packet@),
{
    let mut packet: Vec<u8> = Vec::new();
    packet.push(ECHO_REQUEST);
    packet.push(0);
    packet.push(0);
    packet.push(0);
    packet.push((identifier / 256) as u8);
    packet.push((identifier % 256) as u8);
    packet.push((sequence / 256) as u8);
    packet.push((sequence % 256) as u8);
    assert(packet@ =~= echo_request_header(identifier, sequence));
    let mut copied: usize = 0;
    while copied < payload.len()
        invariant
            copied <= payload.len(),
            packet@ == echo_request_header(identifier, sequence) + payload@.take(copied as int),
        decreases payload.len() - copied,
    {
        packet.push(payload[copied]);
        copied = copied + 1;
        assert(payload@.take(copied as int) =~= payload@.take(copied - 1).push(
            payload@[copied - 1],
        ));
    }
    assert(payload@.take(copied as int) =~= payload@);
    let ghost unsealed = packet@;
    assert(with_checksum_field(unsealed, 0) =~= unsealed);
    let checksum: u16 = compute(packet.as_slice());
    packet[2] = (checksum / 256) as u8;
    packet[3] = (checksum % 256) as u8;
    proof {
        lemma_sealed_verifies(unsealed);
    }
    packet
}

} // verus!
