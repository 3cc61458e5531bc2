use telnet::{SubnegotiationType, TelnetError};

#[test]
fn error_message_of_unexpected_byte() {
    assert_eq!(
        TelnetError::UnexpectedByte(7).message(),
        "Unexpected byte after IAC inside SB: 7"
    );
    assert_eq!(
        TelnetError::UnexpectedByte(0).message(),
        "Unexpected byte after IAC inside SB: 0"
    );
    assert_eq!(
        TelnetError::UnexpectedByte(10).message(),
        "Unexpected byte after IAC inside SB: 10"
    );
    assert_eq!(
        TelnetError::UnexpectedByte(99).message(),
        "Unexpected byte after IAC inside SB: 99"
    );
    assert_eq!(
        TelnetError::UnexpectedByte(100).message(),
        "Unexpected byte after IAC inside SB: 100"
    );
    assert_eq!(
        TelnetError::UnexpectedByte(205).message(),
        "Unexpected byte after IAC inside SB: 205"
    );
    assert_eq!(
        TelnetError::UnexpectedByte(255).message(),
        "Unexpected byte after IAC inside SB: 255"
    );
}

#[test]
fn error_message_of_every_byte_is_its_decimal() {
    for byte in 0..=255u8 {
        assert_eq!(
            TelnetError::UnexpectedByte(byte).message(),
            format!("Unexpected byte after IAC inside SB: {}", byte)
        );
    }
}

#[test]
fn error_message_of_the_other_kinds() {
    assert_eq!(TelnetError::InternalQueueErr.message(), "Internal Queue Error");
    assert_eq!(TelnetError::NegotiationErr.message(), "Negotiation failed");
    assert_eq!(
        TelnetError::SubnegotiationErr(SubnegotiationType::Start).message(),
        "Subnegotiation failed (START)"
    );
    assert_eq!(
        TelnetError::SubnegotiationErr(SubnegotiationType::Data).message(),
        "Subnegotiation failed (DATA)"
    );
    assert_eq!(
        TelnetError::SubnegotiationErr(SubnegotiationType::End).message(),
        "Subnegotiation failed (END)"
    );
}
