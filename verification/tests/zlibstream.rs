use telnet::zlibstream::ZlibStreamSwitch;

fn plain(value: u32) -> ZlibStreamSwitch<u32, String> {
    ZlibStreamSwitch::Plain(value)
}

fn describe(switch: &ZlibStreamSwitch<u32, String>) -> String {
    match switch {
        ZlibStreamSwitch::Plain(value) => format!("plain {}", value),
        ZlibStreamSwitch::Encoded(text) => format!("encoded {}", text),
    }
}

#[test]
fn switch_begins_once() {
    let mut wraps = 0;
    let first = plain(7).begin(|value| {
        wraps += 1;
        format!("<{}>", value)
    });
    assert_eq!(describe(&first), "encoded <7>");
    let second = first.begin(|value| {
        wraps += 1;
        format!("<<{}>>", value)
    });
    assert_eq!(describe(&second), "encoded <7>");
    assert_eq!(wraps, 1);
}

#[test]
fn switch_ends_once() {
    let mut unwraps = 0;
    let encoded: ZlibStreamSwitch<u32, String> = ZlibStreamSwitch::Encoded("12".to_string());
    let first = encoded.end(|text| {
        unwraps += 1;
        text.len() as u32
    });
    assert_eq!(describe(&first), "plain 2");
    let second = first.end(|text| {
        unwraps += 1;
        text.len() as u32 + 100
    });
    assert_eq!(describe(&second), "plain 2");
    assert_eq!(unwraps, 1);
}

#[test]
fn switch_begin_then_end_hands_the_stream_back() {
    let switched = plain(5).begin(|value| value.to_string()).end(|text| text.parse().unwrap());
    assert_eq!(describe(&switched), "plain 5");
}
