use telnet::format::{data, negotiation, sub_negotiation};
use telnet::{Action, Parser, TelnetError, TelnetEvent, TelnetOption};

fn data_event(bytes: &[u8]) -> TelnetEvent {
    TelnetEvent::Data(bytes.to_vec().into_boxed_slice())
}

fn parse_test(buffer: &[u8], result: Vec<TelnetEvent>) {
    let mut parser = Parser::new();
    for i in 0..buffer.len() {
        let mut events: Vec<TelnetEvent> = parser.parse(&buffer[..i]);
        events.extend(parser.parse(&buffer[i..]));
        assert_eq!(events, result);
    }
}

fn parse_whole(buffer: &[u8]) -> Vec<TelnetEvent> {
    Parser::new().parse(buffer)
}

fn data_bytes(events: &[TelnetEvent]) -> Vec<u8> {
    let mut bytes = Vec::new();
    for event in events {
        match event {
            TelnetEvent::Data(data) => bytes.extend_from_slice(data),
            other => panic!("not a data event: {:?}", other),
        }
    }
    bytes
}

#[test]
fn parse_double_iac() {
    let buffer = [1, 0xFF, 0xFF, 0xFF, 0xFF];
    parse_test(
        &buffer,
        vec![data_event(&[1]), data_event(&[0xFF]), data_event(&[0xFF])],
    );
}

#[test]
fn parse_iac_only() {
    let buffer = [0xFF, 0xFF];
    parse_test(&buffer, vec![data_event(&[0xFF])]);
}

#[test]
fn parse_negotiation() {
    let buffer = [1, 0xFF, 0xFB, 0x01, 2];
    parse_test(
        &buffer,
        vec![
            data_event(&[1]),
            TelnetEvent::Negotiation(Action::Will, TelnetOption::Echo),
            data_event(&[2]),
        ],
    );
}

#[test]
fn parse_sub_negotiation() {
    let buffer = [1, 0xFF, 0xFA, 24, 1, 2, 3, 0xFF, 0xF0, 2];
    parse_test(
        &buffer,
        vec![
            data_event(&[1]),
            TelnetEvent::Subnegotiation(TelnetOption::TTYPE, vec![1, 2, 3].into()),
            data_event(&[2]),
        ],
    );
}

#[test]
fn parse_iac_sub_negotiation() {
    let buffer = [0xFF, 0xFA, 24, 1, 0xFF, 0xFF, 3, 0xFF, 0xF0];
    parse_test(
        &buffer,
        vec![TelnetEvent::Subnegotiation(
            TelnetOption::TTYPE,
            vec![1, 0xFF, 3].into(),
        )],
    );
}

#[test]
fn parse_example_of_the_parser() {
    let buffer = [1, 2, 0xFF, 0xFF, 3, 4];
    let mut parser = Parser::new();
    let events = parser.parse(&buffer);
    assert_eq!(events, vec![data_event(&[1, 2]), data_event(&[0xFF, 3, 4])]);
}

#[test]
fn scenario_double_iac_in_data() {
    let events = parse_whole(&[0x40, 0x5A, 0xFF, 0xFF, 0x31, 0x34]);
    assert_eq!(
        events,
        vec![data_event(&[0x40, 0x5A]), data_event(&[0xFF, 0x31, 0x34])]
    );
    assert_eq!(data_bytes(&events), vec![0x40, 0x5A, 0xFF, 0x31, 0x34]);
}

#[test]
fn scenario_negotiation_amid_data() {
    assert_eq!(
        parse_whole(&[0x01, 0xFF, 0xFB, 0x01, 0x02]),
        vec![
            data_event(&[0x01]),
            TelnetEvent::Negotiation(Action::Will, TelnetOption::Echo),
            data_event(&[0x02]),
        ]
    );
}

#[test]
fn scenario_sub_negotiation_with_escaped_iac() {
    assert_eq!(
        parse_whole(&[0xFF, 0xFA, 24, 0x01, 0xFF, 0xFF, 0x03, 0xFF, 0xF0]),
        vec![TelnetEvent::Subnegotiation(
            TelnetOption::TTYPE,
            vec![0x01, 0xFF, 0x03].into_boxed_slice()
        )]
    );
}

#[test]
fn scenario_unknown_iac() {
    assert_eq!(
        parse_whole(&[0xFF, 0x01, 0x41]),
        vec![TelnetEvent::UnknownIAC(0x01), data_event(&[0x41])]
    );
}

#[test]
fn parse_empty_buffer() {
    let mut parser = Parser::new();
    assert_eq!(parser.parse(&[]), Vec::new());
    assert_eq!(parser.parse(&[5]), vec![data_event(&[5])]);
}

#[test]
fn parse_every_action() {
    assert_eq!(
        parse_whole(&[0xFF, 0xFC, 31, 0xFF, 0xFD, 24, 0xFF, 0xFE, 200]),
        vec![
            TelnetEvent::Negotiation(Action::Wont, TelnetOption::NAWS),
            TelnetEvent::Negotiation(Action::Do, TelnetOption::TTYPE),
            TelnetEvent::Negotiation(Action::Dont, TelnetOption::UnknownOption(200)),
        ]
    );
}

#[test]
fn parse_unexpected_byte_in_sub_negotiation() {
    assert_eq!(
        parse_whole(&[0xFF, 0xFA, 24, 1, 0xFF, 7, 2, 0xFF, 0xF0]),
        vec![
            TelnetEvent::Error(TelnetError::UnexpectedByte(7)),
            TelnetEvent::Subnegotiation(TelnetOption::TTYPE, vec![1, 7, 2].into_boxed_slice()),
        ]
    );
}

#[test]
fn parse_keeps_a_partial_command() {
    let mut parser = Parser::new();
    assert_eq!(parser.parse(&[9, 0xFF]), vec![data_event(&[9])]);
    assert_eq!(parser.parse(&[0xFB]), Vec::new());
    assert_eq!(
        parser.parse(&[3, 8]),
        vec![
            TelnetEvent::Negotiation(Action::Will, TelnetOption::SuppressGoAhead),
            data_event(&[8]),
        ]
    );
}

#[test]
fn parse_sub_negotiation_over_many_buffers() {
    let mut parser = Parser::new();
    let frame = [0xFF, 0xFA, 86, 10, 0xFF, 0xFF, 11, 0xFF, 0xF0];
    let mut events = Vec::new();
    for byte in frame {
        events.extend(parser.parse(&[byte]));
    }
    assert_eq!(
        events,
        vec![TelnetEvent::Subnegotiation(
            TelnetOption::Compress2,
            vec![10, 0xFF, 11].into_boxed_slice()
        )]
    );
}

#[test]
fn parse_iac_as_last_byte_of_data_run() {
    assert_eq!(
        parse_whole(&[1, 2, 0xFF, 0xFF]),
        vec![data_event(&[1, 2]), data_event(&[0xFF])]
    );
}

#[test]
fn parse_data_events_are_never_empty() {
    let buffer = [0xFF, 0xFF, 0xFF, 0xFB, 1, 0xFF, 0xF1, 0xFF, 0xFF];
    for cut in 0..=buffer.len() {
        let mut parser = Parser::new();
        let mut events = parser.parse(&buffer[..cut]);
        events.extend(parser.parse(&buffer[cut..]));
        for event in &events {
            if let TelnetEvent::Data(data) = event {
                assert!(!data.is_empty());
                assert!(data.iter().skip(1).all(|byte| *byte != 0xFF));
            }
        }
    }
}

#[test]
fn round_trip_of_escaped_data() {
    let input = [0u8, 0xFF, 0xFF, 65, 0xFA, 0xFF, 0xF0, 1];
    let wire = data(&input).to_owned();
    assert_eq!(data_bytes(&parse_whole(&wire)), input.to_vec());
}

#[test]
fn round_trip_of_negotiation() {
    let wire = negotiation(Action::Do, TelnetOption::Linemode);
    assert_eq!(
        parse_whole(&wire),
        vec![TelnetEvent::Negotiation(Action::Do, TelnetOption::Linemode)]
    );
}

#[test]
fn round_trip_of_sub_negotiation() {
    let payload = [0xFF, 1, 0xF0, 0xFF, 0xFF];
    let wire = sub_negotiation(TelnetOption::MSSP, &payload);
    assert_eq!(
        parse_whole(&wire),
        vec![TelnetEvent::Subnegotiation(
            TelnetOption::MSSP,
            payload.to_vec().into_boxed_slice()
        )]
    );
}

#[test]
fn round_trip_reads_an_unregistered_code_back() {
    let wire = sub_negotiation(TelnetOption::UnknownOption(1), &[]);
    assert_eq!(
        parse_whole(&wire),
        vec![TelnetEvent::Subnegotiation(
            TelnetOption::Echo,
            Vec::new().into_boxed_slice()
        )]
    );
}

#[test]
fn resumable_at_every_cut() {
    let buffer = [
        7, 0xFF, 0xFF, 8, 0xFF, 0xFB, 1, 0xFF, 0xFA, 24, 0xFF, 0xFF, 0xFF, 0xF0, 0xFF, 0xF9, 9,
    ];
    let whole = parse_whole(&buffer);
    let flat = |events: &[TelnetEvent]| -> Vec<Result<u8, String>> {
        let mut items = Vec::new();
        for event in events {
            match event {
                TelnetEvent::Data(data) => items.extend(data.iter().map(|byte| Ok(*byte))),
                other => items.push(Err(format!("{:?}", other))),
            }
        }
        items
    };
    for cut in 0..=buffer.len() {
        let mut parser = Parser::new();
        let mut events = parser.parse(&buffer[..cut]);
        events.extend(parser.parse(&buffer[cut..]));
        assert_eq!(flat(&events), flat(&whole));
        assert_eq!(parser.parse(&[1]), vec![data_event(&[1])]);
    }
}
