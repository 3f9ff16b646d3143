use ping::classify::{classify, PingOutcome, UnreachableReason};
use ping::error::Error;

#[test]
fn type_zero_is_an_echo_reply_whatever_the_flag() {
    assert_eq!(classify(&[0, 0], false), Ok(PingOutcome::EchoReply));
    assert_eq!(classify(&[0, 0], true), Ok(PingOutcome::EchoReply));
    assert_eq!(classify(&[0, 7], false), Ok(PingOutcome::EchoReply));
    assert_eq!(classify(&[0, 0, 0xf7, 0xfe, 0, 0, 0, 1], false), Ok(PingOutcome::EchoReply));
}

#[test]
fn type_eight_to_loopback_is_an_echo_reply() {
    assert_eq!(classify(&[8, 0], true), Ok(PingOutcome::EchoReply));
}

#[test]
fn type_eight_elsewhere_is_unexpected() {
    assert_eq!(
        classify(&[8, 0], false),
        Ok(PingOutcome::Unexpected { message_type: 8, code: 0 })
    );
}

#[test]
fn type_three_code_three_is_port_unreachable() {
    let outcome: Result<PingOutcome, Error> = classify(&[3, 3], false);
    assert_eq!(outcome, Ok(PingOutcome::Unreachable { reason: UnreachableReason::PortUnreachable }));
    match outcome {
        Ok(PingOutcome::Unreachable { reason }) => {
            assert_eq!(reason.message(), "Destination port unreachable")
        }
        _ => panic!("not unreachable"),
    }
}

#[test]
fn type_three_code_sixteen_is_unexpected() {
    assert_eq!(
        classify(&[3, 16], false),
        Ok(PingOutcome::Unexpected { message_type: 3, code: 16 })
    );
    assert_eq!(
        classify(&[3, 255], true),
        Ok(PingOutcome::Unexpected { message_type: 3, code: 255 })
    );
}

#[test]
fn unreachable_does_not_depend_on_the_flag() {
    assert_eq!(
        classify(&[3, 1], true),
        Ok(PingOutcome::Unreachable { reason: UnreachableReason::HostUnreachable })
    );
    assert_eq!(
        classify(&[3, 15], false),
        Ok(PingOutcome::Unreachable { reason: UnreachableReason::PrecedenceCutoff })
    );
}

#[test]
fn other_types_are_unexpected() {
    assert_eq!(
        classify(&[11, 0], false),
        Ok(PingOutcome::Unexpected { message_type: 11, code: 0 })
    );
    assert_eq!(
        classify(&[5, 1, 9, 9], true),
        Ok(PingOutcome::Unexpected { message_type: 5, code: 1 })
    );
    assert_eq!(
        classify(&[255, 255], false),
        Ok(PingOutcome::Unexpected { message_type: 255, code: 255 })
    );
}

#[test]
fn one_byte_is_truncated() {
    assert_eq!(classify(&[0], false), Err(Error::Truncated));
    assert_eq!(classify(&[3], true), Err(Error::Truncated));
    assert_eq!(classify(&[8], true), Err(Error::Truncated));
}

#[test]
fn no_byte_is_truncated() {
    assert_eq!(classify(&[], false), Err(Error::Truncated));
}

#[test]
fn table_of_reasons_in_code_order() {
    let wording: [&str; 16] = [
        "Destination network unreachable",
        "Destination host unreachable",
        "Destination protocol unreachable",
        "Destination port unreachable",
        "Fragmentation required, and DF flag set",
        "Source route failed",
        "Destination network unknown",
        "Destination host unknown",
        "Source host isolated",
        "Network administratively prohibited",
        "Host administratively prohibited",
        "Network unreachable for ToS",
        "Host unreachable for ToS",
        "Communication administratively prohibited",
        "Host Precedence Violation",
        "Precedence cutoff in effect",
    ];
    let mut code: u8 = 0;
    while code < 16 {
        let reason: UnreachableReason = UnreachableReason::from_code(code).unwrap();
        assert_eq!(reason.message(), wording[usize::from(code)]);
        assert_eq!(reason.code(), code);
        assert_eq!(classify(&[3, code], false), Ok(PingOutcome::Unreachable { reason }));
        code += 1;
    }
}

#[test]
fn codes_from_sixteen_on_have_no_reason() {
    let mut code: u8 = 16;
    loop {
        assert_eq!(UnreachableReason::from_code(code), None);
        if code == 255 {
            break;
        }
        code += 1;
    }
}
