use std::time::Duration;

use ping::classify::{PingOutcome, UnreachableReason};
use ping::error::Error;
use ping::probe::{
    interpret_response, probe_request, PROBE_IDENTIFIER, PROBE_SEQUENCE, RECEIVE_BUFFER_LEN,
};
use ping::timer::{elapsed, measure, start, Timestamp};

/// A receive buffer that holds a twenty-byte IPv4 header followed by `message`.
fn received_behind_plain_header(message: &[u8]) -> (Vec<u8>, usize) {
    let mut buffer: Vec<u8> = vec![0; RECEIVE_BUFFER_LEN];
    buffer[0] = 0x45;
    buffer[20..20 + message.len()].copy_from_slice(message);
    (buffer, 20 + message.len())
}

#[test]
fn end_to_end_echo() {
    let request: Vec<u8> = probe_request();
    assert_eq!(request, vec![0x08, 0x00, 0xf7, 0xfe, 0x00, 0x00, 0x00, 0x01]);
    let sent: Timestamp = start();
    let (buffer, received) = received_behind_plain_header(&[0x00; 8]);
    assert_eq!(received, 28);
    let took: Duration = elapsed(&sent).unwrap();
    assert_eq!(interpret_response(&buffer, received, false), Ok(PingOutcome::EchoReply));
    assert!(took >= Duration::ZERO);
}

#[test]
fn probe_constants() {
    assert_eq!(PROBE_IDENTIFIER, 0);
    assert_eq!(PROBE_SEQUENCE, 1);
    assert_eq!(RECEIVE_BUFFER_LEN, 256);
}

#[test]
fn reply_with_the_real_checksum_is_an_echo_reply() {
    let (buffer, received) =
        received_behind_plain_header(&[0x00, 0x00, 0xff, 0xfe, 0x00, 0x00, 0x00, 0x01]);
    assert_eq!(interpret_response(&buffer, received, false), Ok(PingOutcome::EchoReply));
}

#[test]
fn own_request_seen_on_loopback_counts_as_the_reply() {
    let request: Vec<u8> = probe_request();
    let (buffer, received) = received_behind_plain_header(&request);
    assert_eq!(interpret_response(&buffer, received, true), Ok(PingOutcome::EchoReply));
    assert_eq!(
        interpret_response(&buffer, received, false),
        Ok(PingOutcome::Unexpected { message_type: 8, code: 0 })
    );
}

#[test]
fn unreachable_behind_a_long_header() {
    let mut buffer: Vec<u8> = vec![0; RECEIVE_BUFFER_LEN];
    buffer[0] = 0x4f;
    buffer[60] = 3;
    buffer[61] = 1;
    assert_eq!(
        interpret_response(&buffer, 68, false),
        Ok(PingOutcome::Unreachable { reason: UnreachableReason::HostUnreachable })
    );
}

#[test]
fn full_buffer_is_an_overflow() {
    let (buffer, _) = received_behind_plain_header(&[0x00; 8]);
    assert_eq!(interpret_response(&buffer, 256, false), Err(Error::BufferOverflow));
    assert_eq!(interpret_response(&buffer, 257, false), Err(Error::BufferOverflow));
    assert_eq!(interpret_response(&buffer, usize::MAX, true), Err(Error::BufferOverflow));
    assert_eq!(interpret_response(&buffer, 255, false), Ok(PingOutcome::EchoReply));
    assert_eq!(interpret_response(&[], 0, false), Err(Error::BufferOverflow));
}

#[test]
fn bytes_beyond_what_was_received_are_not_read() {
    let mut buffer: Vec<u8> = vec![0xFF; RECEIVE_BUFFER_LEN];
    buffer[0] = 0x45;
    buffer[20] = 3;
    buffer[21] = 3;
    assert_eq!(interpret_response(&buffer, 0, false), Err(Error::TruncatedHeader));
    assert_eq!(interpret_response(&buffer, 19, false), Err(Error::TruncatedHeader));
    assert_eq!(interpret_response(&buffer, 20, false), Err(Error::TruncatedHeader));
    assert_eq!(interpret_response(&buffer, 21, false), Err(Error::Truncated));
    assert_eq!(
        interpret_response(&buffer, 22, false),
        Ok(PingOutcome::Unreachable { reason: UnreachableReason::PortUnreachable })
    );
}

#[test]
fn header_that_declares_no_length_is_refused() {
    let mut buffer: Vec<u8> = vec![0; RECEIVE_BUFFER_LEN];
    buffer[0] = 0x40;
    assert_eq!(interpret_response(&buffer, 28, false), Err(Error::TruncatedHeader));
}

#[test]
fn missing_reading_is_a_clock_error() {
    assert_eq!(measure(None), Err(Error::ClockError));
}

#[test]
fn reading_is_passed_on_unchanged() {
    assert_eq!(measure(Some(Duration::from_micros(1_234))), Ok(Duration::from_micros(1_234)));
    assert_eq!(measure(Some(Duration::ZERO)), Ok(Duration::ZERO));
}

#[test]
fn elapsed_time_does_not_run_backwards() {
    let begun: Timestamp = start();
    let first: Duration = elapsed(&begun).unwrap();
    let second: Duration = elapsed(&begun).unwrap();
    assert!(first >= Duration::ZERO);
    assert!(second >= first);
}
