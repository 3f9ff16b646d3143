//! Reading a control message: what the responder said.

use vstd::prelude::*;
use crate::error::Error;
use crate::packet::ECHO_REQUEST;

verus! {

/// Message type of an echo reply.
pub const ECHO_REPLY: u8 = 0;

/// Message type of the destination-unreachable family.
pub const DESTINATION_UNREACHABLE: u8 = 3;

/// Why a destination could not be reached: the sixteen codes, 0 to 15, of a
/// destination-unreachable message, in the order of their codes.
#[derive(Clone, Copy, Debug, PartialEq, Eq, Structural)]
pub enum UnreachableReason {
    NetworkUnreachable,
    HostUnreachable,
    ProtocolUnreachable,
    PortUnreachable,
    FragmentationRequired,
    SourceRouteFailed,
    NetworkUnknown,
    HostUnknown,
    SourceHostIsolated,
    NetworkProhibited,
    HostProhibited,
    NetworkUnreachableForTos,
    HostUnreachableForTos,
    CommunicationProhibited,
    HostPrecedenceViolation,
    PrecedenceCutoff,
}

impl UnreachableReason {
    /// The reason that stands at `code` in the table, if there is one.
    pub open spec fn at(code: u8) -> Option<UnreachableReason> {
        match code {
            0 => Some(UnreachableReason::NetworkUnreachable),
            1 => Some(UnreachableReason::HostUnreachable),
            2 => Some(UnreachableReason::ProtocolUnreachable),
            3 => Some(UnreachableReason::PortUnreachable),
            4 => Some(UnreachableReason::FragmentationRequired),
            5 => Some(UnreachableReason::SourceRouteFailed),
            6 => Some(UnreachableReason::NetworkUnknown),
            7 => Some(UnreachableReason::HostUnknown),
            8 => Some(UnreachableReason::SourceHostIsolated),
            9 => Some(UnreachableReason::NetworkProhibited),
            10 => Some(UnreachableReason::HostProhibited),
            11 => Some(UnreachableReason::NetworkUnreachableForTos),
            12 => Some(UnreachableReason::HostUnreachableForTos),
            13 => Some(UnreachableReason::CommunicationProhibited),
            14 => Some(UnreachableReason::HostPrecedenceViolation),
            15 => Some(UnreachableReason::PrecedenceCutoff),
            _ => None,
        }
    }

    /// The code under which this reason travels.
    pub open spec fn spec_code(self) -> u8 {
        match self {
            UnreachableReason::NetworkUnreachable => 0,
            UnreachableReason::HostUnreachable => 1,
            UnreachableReason::ProtocolUnreachable => 2,
            UnreachableReason::PortUnreachable => 3,
            UnreachableReason::FragmentationRequired => 4,
            UnreachableReason::SourceRouteFailed => 5,
            UnreachableReason::NetworkUnknown => 6,
            UnreachableReason::HostUnknown => 7,
            UnreachableReason::SourceHostIsolated => 8,
            UnreachableReason::NetworkProhibited => 9,
            UnreachableReason::HostProhibited => 10,
            UnreachableReason::NetworkUnreachableForTos => 11,
            UnreachableReason::HostUnreachableForTos => 12,
            UnreachableReason::CommunicationProhibited => 13,
            UnreachableReason::HostPrecedenceViolation => 14,
            UnreachableReason::PrecedenceCutoff => 15,
        }
    }

    /// The wording of this reason.
    pub open spec fn text(self) -> Seq<char> {
        match self {
            UnreachableReason::NetworkUnreachable => "Destination network unreachable"@,
            UnreachableReason::HostUnreachable => "Destination host unreachable"@,
            UnreachableReason::ProtocolUnreachable => "Destination protocol unreachable"@,
            UnreachableReason::PortUnreachable => "Destination port unreachable"@,
            UnreachableReason::FragmentationRequired => "Fragmentation required, and DF flag set"@,
            UnreachableReason::SourceRouteFailed => "Source route failed"@,
            UnreachableReason::NetworkUnknown => "Destination network unknown"@,
            UnreachableReason::HostUnknown => "Destination host unknown"@,
            UnreachableReason::SourceHostIsolated => "Source host isolated"@,
            UnreachableReason::NetworkProhibited => "Network administratively prohibited"@,
            UnreachableReason::HostProhibited => "Host administratively prohibited"@,
            UnreachableReason::NetworkUnreachableForTos => "Network unreachable for ToS"@,
            UnreachableReason::HostUnreachableForTos => "Host unreachable for ToS"@,
            UnreachableReason::CommunicationProhibited => "Communication administratively prohibited"@,
            UnreachableReason::HostPrecedenceViolation => "Host Precedence Violation"@,
            UnreachableReason::PrecedenceCutoff => "Precedence cutoff in effect"@,
        }
    }

    /// Looks `code` up in the table: a reason for each code from 0 to 15, none
    /// for any other.
    pub fn from_code(code: u8) -> (reason: Option<UnreachableReason>)
        ensures
            reason == UnreachableReason::at(code),
            reason is Some <==> code < 16,
    {
        match code {
            0 => Some(UnreachableReason::NetworkUnreachable),
            1 => Some(UnreachableReason::HostUnreachable),
            2 => Some(UnreachableReason::ProtocolUnreachable),
            3 => Some(UnreachableReason::PortUnreachable),
            4 => Some(UnreachableReason::FragmentationRequired),
            5 => Some(UnreachableReason::SourceRouteFailed),
            6 => Some(UnreachableReason::NetworkUnknown),
            7 => Some(UnreachableReason::HostUnknown),
            8 => Some(UnreachableReason::SourceHostIsolated),
            9 => Some(UnreachableReason::NetworkProhibited),
            10 => Some(UnreachableReason::HostProhibited),
            11 => Some(UnreachableReason::NetworkUnreachableForTos),
            12 => Some(UnreachableReason::HostUnreachableForTos),
            13 => Some(UnreachableReason::CommunicationProhibited),
            14 => Some(UnreachableReason::HostPrecedenceViolation),
            15 => Some(UnreachableReason::PrecedenceCutoff),
            _ => None,
        }
    }

    /// The code under which this reason travels, from 0 to 15.
    pub fn code(self) -> (code: u8)
        ensures
            code == self.spec_code(),
            code < 16,
            UnreachableReason::at(code) == Some(self),
    {
        match self {
            UnreachableReason::NetworkUnreachable => 0,
            UnreachableReason::HostUnreachable => 1,
            UnreachableReason::ProtocolUnreachable => 2,
            UnreachableReason::PortUnreachable => 3,
            UnreachableReason::FragmentationRequired => 4,
            UnreachableReason::SourceRouteFailed => 5,
            UnreachableReason::NetworkUnknown => 6,
            UnreachableReason::HostUnknown => 7,
            UnreachableReason::SourceHostIsolated => 8,
            UnreachableReason::NetworkProhibited => 9,
            UnreachableReason::HostProhibited => 10,
            UnreachableReason::NetworkUnreachableForTos => 11,
            UnreachableReason::HostUnreachableForTos => 12,
            UnreachableReason::CommunicationProhibited => 13,
            UnreachableReason::HostPrecedenceViolation => 14,
            UnreachableReason::PrecedenceCutoff => 15,
        }
    }

    /// The wording of this reason, as it is shown to a person.
    pub fn message(self) -> (text: &'static str)
        ensures
            text@ == self.text(),
    {
        match self {
            UnreachableReason::NetworkUnreachable => "Destination network unreachable",
            UnreachableReason::HostUnreachable => "Destination host unreachable",
            UnreachableReason::ProtocolUnreachable => "Destination protocol unreachable",
            UnreachableReason::PortUnreachable => "Destination port unreachable",
            UnreachableReason::FragmentationRequired => "Fragmentation required, and DF flag set",
            UnreachableReason::SourceRouteFailed => "Source route failed",
            UnreachableReason::NetworkUnknown => "Destination network unknown",
            UnreachableReason::HostUnknown => "Destination host unknown",
            UnreachableReason::SourceHostIsolated => "Source host isolated",
            UnreachableReason::NetworkProhibited => "Network administratively prohibited",
            UnreachableReason::HostProhibited => "Host administratively prohibited",
            UnreachableReason::NetworkUnreachableForTos => "Network unreachable for ToS",
            UnreachableReason::HostUnreachableForTos => "Host unreachable for ToS",
            UnreachableReason::CommunicationProhibited => "Communication administratively prohibited",
            UnreachableReason::HostPrecedenceViolation => "Host Precedence Violation",
            UnreachableReason::PrecedenceCutoff => "Precedence cutoff in effect",
        }
    }
}

/// What one probe came to.
#[derive(Clone, Copy, Debug, PartialEq, Eq, Structural)]
pub enum PingOutcome {
    /// The target answered the echo.
    EchoReply,
    /// A router or the target reported that the destination cannot be reached.
    Unreachable { reason: UnreachableReason },
    /// Some other message arrived. It is no failure of the probe, but it gives
    /// no latency.
    Unexpected { message_type: u8, code: u8 },
}

/// The outcome that `classify` reads from `message`, or the reason why it
/// reads none. The rows are tried in order.
pub open spec fn classified(message: Seq<u8>, probe_target_is_loopback: bool) -> Result<
    PingOutcome,
    Error,
> {
    if message.len() < 2 {
        Err(Error::Truncated)
    } else if message[0] == ECHO_REPLY {
        Ok(PingOutcome::EchoReply)
    } else if message[0] == ECHO_REQUEST && probe_target_is_loopback {
        Ok(PingOutcome::EchoReply)
    } else if message[0] == DESTINATION_UNREACHABLE && message[1] < 16 {
        Ok(PingOutcome::Unreachable { reason: UnreachableReason::at(message[1]).unwrap() })
    } else {
        Ok(PingOutcome::Unexpected { message_type: message[0], code: message[1] })
    }
}

/// Classifies a control message by its type and code, its first two bytes.
///
/// A loopback interface may hand the request itself back to its sender; when
/// the probe went to a loopback address such a type-8 message counts as the
/// reply. Fails with `Truncated` when fewer than two bytes are present; nothing
/// is read behind the second byte.
pub fn classify(message: &[u8], probe_target_is_loopback: bool) -> (outcome: Result<
    PingOutcome,
    Error,
>)
    ensures
        outcome == classified(message@, probe_target_is_loopback),
{
    if message.len() < 2 {
        return Err(Error::Truncated);
    }
    let message_type: u8 = message[0];
    let code: u8 = message[1];
    if message_type == ECHO_REPLY || (message_type == ECHO_REQUEST && probe_target_is_loopback) {
        return Ok(PingOutcome::EchoReply);
    }
    if message_type == DESTINATION_UNREACHABLE {
        match UnreachableReason::from_code(code) {
            Some(reason) => {
                return Ok(PingOutcome::Unreachable { reason });
            },
            None => {},
        }
    }
    Ok(PingOutcome::Unexpected { message_type, code })
}

} // verus!
