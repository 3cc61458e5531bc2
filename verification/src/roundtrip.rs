use crate::byte::{BYTE_IAC, BYTE_SB, BYTE_SE};
use crate::content::{
    bytes_content, content, decode, decode_state, event_content, lemma_content_single,
    lemma_decode_add, lemma_decode_push, lemma_parse_events_well_formed, lemma_parse_is_decode,
    Token,
};
use crate::event::EventView;
use crate::format::{
    escape, negotiation_frame, sub_negotiation_frame, sub_negotiation_head, sub_negotiation_tail,
};
use crate::negotiation::Action;
use crate::option::TelnetOption;
use crate::parse::{initial_state, parse_events, parse_state, well_formed, ParserState};
use vstd::prelude::*;

verus! {

/// Well-formed events carry at least one item each.
proof fn lemma_content_length(events: Seq<EventView>)
    requires
        forall|i: int| 0 <= i < events.len() ==> well_formed(#[trigger] events[i]),
    ensures
        content(events).len() >= events.len(),
    decreases events.len(),
{
    if events.len() > 0 {
        let front = events.drop_last();
        assert forall|i: int| 0 <= i < front.len() implies well_formed(#[trigger] front[i]) by {}
        lemma_content_length(front);
    }
}

/// A list of well-formed events that carries one event and no data is that
/// event alone.
proof fn lemma_single_event(events: Seq<EventView>, event: EventView)
    requires
        forall|i: int| 0 <= i < events.len() ==> well_formed(#[trigger] events[i]),
        content(events) == seq![Token::Event(event)],
    ensures
        events == seq![event],
{
    lemma_content_length(events);
    lemma_content_single(events[0]);
    assert(event_content(events[0])[0] == Token::Event(event));
}

/// A list of events that carries data only holds `Data` events only.
proof fn lemma_data_only(events: Seq<EventView>)
    requires
        forall|i: int| 0 <= i < content(events).len() ==> #[trigger] content(events)[i] is Byte,
    ensures
        forall|i: int| 0 <= i < events.len() ==> #[trigger] events[i] is Data,
    decreases events.len(),
{
    if events.len() > 0 {
        let front = events.drop_last();
        let last = events.last();
        assert forall|i: int| 0 <= i < content(front).len() implies #[trigger] content(
            front,
        )[i] is Byte by {
            assert(content(events)[i] == content(front)[i]);
        }
        lemma_data_only(front);
        if !(last is Data) {
            assert(content(events)[content(front).len() as int] == Token::Event(last));
        }
        assert forall|i: int| 0 <= i < events.len() implies #[trigger] events[i] is Data by {
            if i < front.len() {
                assert(events[i] == front[i]);
            }
        }
    }
}

/// Escaped data, fed byte by byte from user data, carries the data and
/// ends in user data.
proof fn lemma_decode_escaped_data(data: Seq<u8>)
    ensures
        decode(initial_state(), escape(data)) == bytes_content(data),
        decode_state(initial_state(), escape(data)) == initial_state(),
    decreases data.len(),
{
    if data.len() > 0 {
        let start = initial_state();
        let front = data.drop_last();
        lemma_decode_escaped_data(front);
        if data.last() == BYTE_IAC {
            lemma_decode_push(start, escape(front), BYTE_IAC);
            lemma_decode_push(start, escape(front).push(BYTE_IAC), BYTE_IAC);
            assert(escape(front).push(BYTE_IAC).push(BYTE_IAC) =~= escape(data));
        } else {
            lemma_decode_push(start, escape(front), data.last());
        }
    }
}

/// Escape round trip. Whatever the data, the parser reads its escaped form
/// back as that data: it reports `Data` events only, their bytes one after
/// the other are the data, and it ends where it started.
pub proof fn lemma_data_round_trip(data: Seq<u8>)
    ensures
        content(parse_events(initial_state(), escape(data))) == bytes_content(data),
        forall|i: int|
            0 <= i < parse_events(initial_state(), escape(data)).len() ==> #[trigger] parse_events(
                initial_state(),
                escape(data),
            )[i] is Data,
        parse_state(initial_state(), escape(data)) == initial_state(),
{
    lemma_parse_is_decode(initial_state(), escape(data));
    lemma_decode_escaped_data(data);
    lemma_data_only(parse_events(initial_state(), escape(data)));
}

/// Escaped parameters, fed byte by byte inside a sub-negotiation, carry
/// nothing and add the parameters to the payload.
proof fn lemma_decode_escaped_payload(opt: TelnetOption, read: Seq<u8>, parameters: Seq<u8>)
    ensures
        decode(ParserState::SBData(opt, read, false), escape(parameters)) == Seq::<Token>::empty(),
        decode_state(ParserState::SBData(opt, read, false), escape(parameters))
            == ParserState::SBData(opt, read + parameters, false),
    decreases parameters.len(),
{
    if parameters.len() > 0 {
        let start = ParserState::SBData(opt, read, false);
        let front = parameters.drop_last();
        let last = parameters.last();
        lemma_decode_escaped_payload(opt, read, front);
        assert((read + front).push(last) =~= read + parameters);
        if last == BYTE_IAC {
            lemma_decode_push(start, escape(front), BYTE_IAC);
            lemma_decode_push(start, escape(front).push(BYTE_IAC), BYTE_IAC);
            assert(escape(front).push(BYTE_IAC).push(BYTE_IAC) =~= escape(parameters));
        } else {
            lemma_decode_push(start, escape(front), last);
        }
    }
}

/// Sub-negotiation round trip. The parser reads the frame of a
/// sub-negotiation as one `Subnegotiation` event with the parameters as
/// they were before escaping, and ends where it started. The option is the
/// one that the frame's code stands for: the same option, where it is
/// canonical.
pub proof fn lemma_sub_negotiation_round_trip(opt: TelnetOption, parameters: Seq<u8>)
    ensures
        parse_events(initial_state(), sub_negotiation_frame(opt, parameters)) == seq![
            EventView::Subnegotiation(TelnetOption::spec_parse(opt.spec_as_byte()), parameters),
        ],
        parse_state(initial_state(), sub_negotiation_frame(opt, parameters)) == initial_state(),
        opt.is_canonical() ==> TelnetOption::spec_parse(opt.spec_as_byte()) == opt,
{
    let start = initial_state();
    let code = opt.spec_as_byte();
    let read = TelnetOption::spec_parse(code);
    let head = sub_negotiation_head(opt);
    let tail = sub_negotiation_tail();
    let frame = sub_negotiation_frame(opt, parameters);
    let none = Seq::<u8>::empty();

    // The head opens a sub-negotiation of the option with no payload yet.
    lemma_decode_push(start, none, BYTE_IAC);
    lemma_decode_push(start, none.push(BYTE_IAC), BYTE_SB);
    lemma_decode_push(start, none.push(BYTE_IAC).push(BYTE_SB), code);
    assert(none.push(BYTE_IAC).push(BYTE_SB).push(code) =~= head);

    // The escaped parameters become the payload.
    lemma_decode_escaped_payload(read, none, parameters);

    // The tail closes the sub-negotiation and reports it.
    let full = ParserState::SBData(read, parameters, false);
    lemma_decode_push(full, none, BYTE_IAC);
    lemma_decode_push(full, none.push(BYTE_IAC), BYTE_SE);
    assert(none.push(BYTE_IAC).push(BYTE_SE) =~= tail);

    lemma_decode_add(start, head, escape(parameters));
    lemma_decode_add(start, head + escape(parameters), tail);

    lemma_parse_is_decode(start, frame);
    lemma_parse_events_well_formed(start, frame);
    lemma_single_event(
        parse_events(start, frame),
        EventView::Subnegotiation(read, parameters),
    );
}

/// Negotiation round trip. The parser reads the frame of a negotiation as
/// one `Negotiation` event with the same action, and ends where it started.
/// The option is the one that the frame's code stands for: the same option,
/// where it is canonical.
pub proof fn lemma_negotiation_round_trip(action: Action, opt: TelnetOption)
    ensures
        parse_events(initial_state(), negotiation_frame(action, opt)) == seq![
            EventView::Negotiation(action, TelnetOption::spec_parse(opt.spec_as_byte())),
        ],
        parse_state(initial_state(), negotiation_frame(action, opt)) == initial_state(),
        opt.is_canonical() ==> TelnetOption::spec_parse(opt.spec_as_byte()) == opt,
{
    let start = initial_state();
    let code = opt.spec_as_byte();
    let frame = negotiation_frame(action, opt);
    let none = Seq::<u8>::empty();
    lemma_decode_push(start, none, BYTE_IAC);
    lemma_decode_push(start, none.push(BYTE_IAC), action.spec_as_byte());
    lemma_decode_push(start, none.push(BYTE_IAC).push(action.spec_as_byte()), code);
    assert(none.push(BYTE_IAC).push(action.spec_as_byte()).push(code) =~= frame);
    lemma_parse_is_decode(start, frame);
    lemma_parse_events_well_formed(start, frame);
    lemma_single_event(
        parse_events(start, frame),
        EventView::Negotiation(action, TelnetOption::spec_parse(code)),
    );
}

} // verus!
