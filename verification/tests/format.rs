use telnet::format::{data, negotiation, sub_negotiation, FormattedData};
use telnet::{Action, TelnetOption};

fn escape_test(buffer: &[u8], result: Box<[u8]>) {
    let buffer = data(buffer).to_owned();
    assert_eq!(buffer, result);
}

#[test]
fn escape_double_iac() {
    escape_test(
        &[1, 2, 0xFF, 0xFF, 3, 4],
        vec![1, 2, 0xFF, 0xFF, 0xFF, 0xFF, 3, 4].into(),
    );
}

#[test]
fn escape_no_iac() {
    escape_test(&[1, 2, 3, 4], vec![1, 2, 3, 4].into());
}

#[test]
fn escape_iac_only() {
    escape_test(&[0xFF], vec![0xFF, 0xFF].into());
}

#[test]
fn escape_iac_sub_negotiation() {
    let parameters = [1, 0xFF, 3];
    let buffer = sub_negotiation(TelnetOption::TTYPE, &parameters);
    assert_eq!(
        buffer,
        vec![0xFF, 0xFA, 24, 1, 0xFF, 0xFF, 3, 0xFF, 0xF0].into()
    );
}

#[test]
fn escape_empty() {
    escape_test(&[], Vec::new().into());
    assert!(data(&[]).into_slices().is_empty());
}

#[test]
fn escape_iac_at_both_ends() {
    escape_test(&[0xFF, 7, 0xFF], vec![0xFF, 0xFF, 7, 0xFF, 0xFF].into());
}

#[test]
fn escape_yields_pieces_of_the_input() {
    let input = [1, 2, 0xFF, 3, 4];
    let slices = data(&input).into_slices();
    let expected: Vec<&[u8]> = vec![&[1, 2, 0xFF], &[0xFF, 3, 4]];
    assert_eq!(slices, expected);
}

#[test]
fn escape_pieces_sent_in_turn() {
    let input = [1, 2, 0xFF, 3, 4];
    let mut wire: Vec<u8> = Vec::new();
    for piece in data(&input).into_slices() {
        wire.extend_from_slice(piece);
    }
    assert_eq!(wire, vec![1, 2, 0xFF, 0xFF, 3, 4]);
}

#[test]
fn formatted_data_from_slices() {
    let first = [1u8, 2];
    let second = [3u8];
    let formatted = FormattedData::from(vec![&first[..], &second[..]]);
    assert_eq!(formatted.to_owned(), vec![1, 2, 3].into_boxed_slice());
}

#[test]
fn format_negotiation_will_echo() {
    let buffer = negotiation(Action::Will, TelnetOption::Echo);
    assert_eq!(buffer, vec![0xFF, 0xFB, 0x01].into_boxed_slice());
}

#[test]
fn format_negotiation_every_action() {
    assert_eq!(
        negotiation(Action::Wont, TelnetOption::NAWS),
        vec![255, 252, 31].into_boxed_slice()
    );
    assert_eq!(
        negotiation(Action::Do, TelnetOption::Compress2),
        vec![255, 253, 86].into_boxed_slice()
    );
    assert_eq!(
        negotiation(Action::Dont, TelnetOption::UnknownOption(200)),
        vec![255, 254, 200].into_boxed_slice()
    );
}

#[test]
fn format_sub_negotiation_plain() {
    let parameters = [1, 2, 3];
    let buffer = sub_negotiation(TelnetOption::TTYPE, &parameters);
    assert_eq!(
        buffer,
        vec![0xFF, 0xFA, 24, 1, 2, 3, 0xFF, 0xF0].into_boxed_slice()
    );
}

#[test]
fn format_sub_negotiation_empty() {
    let buffer = sub_negotiation(TelnetOption::EXOPL, &[]);
    assert_eq!(buffer, vec![0xFF, 0xFA, 0xFF, 0xFF, 0xF0].into_boxed_slice());
}

#[test]
fn formatter_escape_scenario() {
    assert_eq!(data(&[0xFF]).to_owned(), vec![0xFF, 0xFF].into_boxed_slice());
    assert_eq!(
        sub_negotiation(TelnetOption::TTYPE, &[1, 0xFF, 3]),
        vec![0xFF, 0xFA, 24, 1, 0xFF, 0xFF, 3, 0xFF, 0xF0].into_boxed_slice()
    );
}
