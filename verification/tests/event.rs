use telnet::{Action, TelnetEvent, TelnetEventQueue, TelnetOption};

#[test]
fn queue_is_first_in_first_out() {
    let mut queue = TelnetEventQueue::new();
    assert!(queue.is_empty());
    assert_eq!(queue.take_event(), None);
    queue.push_event(TelnetEvent::UnknownIAC(1));
    queue.push_event(TelnetEvent::Negotiation(Action::Do, TelnetOption::Echo));
    queue.push_event(TelnetEvent::Data(vec![1, 2].into_boxed_slice()));
    assert!(!queue.is_empty());
    assert_eq!(queue.take_event(), Some(TelnetEvent::UnknownIAC(1)));
    assert_eq!(
        queue.take_event(),
        Some(TelnetEvent::Negotiation(Action::Do, TelnetOption::Echo))
    );
    assert_eq!(
        queue.take_event(),
        Some(TelnetEvent::Data(vec![1, 2].into_boxed_slice()))
    );
    assert!(queue.is_empty());
    assert_eq!(queue.take_event(), None);
}

#[test]
fn queue_takes_a_list_in_order() {
    let mut queue = TelnetEventQueue::new();
    queue.push_event(TelnetEvent::TimedOut);
    queue.push_events(vec![TelnetEvent::UnknownIAC(1), TelnetEvent::UnknownIAC(2)]);
    queue.push_events(Vec::new());
    assert_eq!(queue.take_event(), Some(TelnetEvent::TimedOut));
    assert_eq!(queue.take_event(), Some(TelnetEvent::UnknownIAC(1)));
    assert_eq!(queue.take_event(), Some(TelnetEvent::UnknownIAC(2)));
    assert_eq!(queue.take_event(), None);
}

#[test]
fn action_bytes() {
    assert_eq!(Action::Will.as_byte(), 251);
    assert_eq!(Action::Wont.as_byte(), 252);
    assert_eq!(Action::Do.as_byte(), 253);
    assert_eq!(Action::Dont.as_byte(), 254);
}
