use crate::byte::{BYTE_DO, BYTE_DONT, BYTE_IAC, BYTE_SB, BYTE_SE, BYTE_WILL, BYTE_WONT};
use crate::error::Error;
use crate::event::EventView;
use crate::negotiation::Action;
use crate::option::TelnetOption;
use crate::parse::{
    at_rest, flush, parse_events, parse_state, scan_events, scan_state, step, well_formed,
    ParserState,
};
use vstd::prelude::*;

verus! {

/// One item of what a connection carries: a byte of user data, or an event
/// that is not data.
pub enum Token {
    Byte(u8),
    Event(EventView),
}

/// A run of user data, byte by byte.
pub open spec fn bytes_content(data: Seq<u8>) -> Seq<Token> {
    data.map_values(|byte: u8| Token::Byte(byte))
}

/// What one event carries: the bytes of a `Data` event, any other event
/// itself.
pub open spec fn event_content(event: EventView) -> Seq<Token> {
    match event {
        EventView::Data(data) => bytes_content(data),
        _ => seq![Token::Event(event)],
    }
}

/// What a list of events carries. Two lists carry the same exactly when
/// they differ only in where runs of user data are cut into `Data` events.
pub open spec fn content(events: Seq<EventView>) -> Seq<Token>
    decreases events.len(),
{
    if events.len() == 0 {
        Seq::empty()
    } else {
        content(events.drop_last()) + event_content(events.last())
    }
}

/// The parser without its buffers: what one more byte makes of a state at
/// rest, and what the byte adds to the content.
pub open spec fn feed(state: ParserState, byte: u8) -> (ParserState, Seq<Token>) {
    let data = ParserState::NormalData(0);
    match state {
        ParserState::NormalData(_) => {
            if byte == BYTE_IAC {
                (ParserState::IAC, Seq::empty())
            } else {
                (data, seq![Token::Byte(byte)])
            }
        },
        ParserState::IAC => {
            if byte == BYTE_WILL {
                (ParserState::Negotiation(Action::Will), Seq::empty())
            } else if byte == BYTE_WONT {
                (ParserState::Negotiation(Action::Wont), Seq::empty())
            } else if byte == BYTE_DO {
                (ParserState::Negotiation(Action::Do), Seq::empty())
            } else if byte == BYTE_DONT {
                (ParserState::Negotiation(Action::Dont), Seq::empty())
            } else if byte == BYTE_SB {
                (ParserState::SB, Seq::empty())
            } else if byte == BYTE_IAC {
                (data, seq![Token::Byte(byte)])
            } else {
                (data, seq![Token::Event(EventView::UnknownIAC(byte))])
            }
        },
        ParserState::Negotiation(action) => (
            data,
            seq![Token::Event(EventView::Negotiation(action, TelnetOption::spec_parse(byte)))],
        ),
        ParserState::SB => (
            ParserState::SBData(TelnetOption::spec_parse(byte), Seq::empty(), false),
            Seq::empty(),
        ),
        ParserState::SBData(opt, payload, iac) => {
            if !iac && byte == BYTE_IAC {
                (ParserState::SBData(opt, payload, true), Seq::empty())
            } else if iac && byte == BYTE_SE {
                (data, seq![Token::Event(EventView::Subnegotiation(opt, payload))])
            } else if iac && byte != BYTE_IAC {
                (
                    ParserState::SBData(opt, payload.push(byte), false),
                    seq![Token::Event(EventView::Error(Error::UnexpectedByte(byte)))],
                )
            } else {
                (ParserState::SBData(opt, payload.push(byte), false), Seq::empty())
            }
        },
    }
}

/// The state at rest after `bytes`, fed one by one.
pub open spec fn decode_state(state: ParserState, bytes: Seq<u8>) -> ParserState
    decreases bytes.len(),
{
    if bytes.len() == 0 {
        state
    } else {
        feed(decode_state(state, bytes.drop_last()), bytes.last()).0
    }
}

/// What `bytes` carry, fed one by one.
pub open spec fn decode(state: ParserState, bytes: Seq<u8>) -> Seq<Token>
    decreases bytes.len(),
{
    if bytes.len() == 0 {
        Seq::empty()
    } else {
        decode(state, bytes.drop_last()) + feed(
            decode_state(state, bytes.drop_last()),
            bytes.last(),
        ).1
    }
}

/// One more event adds what it carries.
pub proof fn lemma_content_push(events: Seq<EventView>, event: EventView)
    ensures
        content(events.push(event)) == content(events) + event_content(event),
{
    assert(events.push(event).drop_last() =~= events);
}

/// Two lists of events, one after the other, carry what the first carries
/// and then what the second carries.
pub proof fn lemma_content_add(front: Seq<EventView>, back: Seq<EventView>)
    ensures
        content(front + back) == content(front) + content(back),
    decreases back.len(),
{
    if back.len() > 0 {
        lemma_content_add(front, back.drop_last());
        assert((front + back).drop_last() =~= front + back.drop_last());
    }
}

/// One event alone carries what it carries.
pub proof fn lemma_content_single(event: EventView)
    ensures
        content(seq![event]) == event_content(event),
{
    lemma_content_push(Seq::empty(), event);
}

/// The run of data that the parser has read and not yet reported, after
/// `count` bytes of `buffer`.
spec fn pending(state: ParserState, buffer: Seq<u8>, count: int) -> Seq<Token> {
    match state {
        ParserState::NormalData(start) => bytes_content(buffer.subrange(start, count)),
        _ => Seq::empty(),
    }
}

/// After any number of bytes of a buffer, the events so far and the run of
/// data still pending carry what the bytes carry fed one by one.
proof fn lemma_scan_is_decode(state: ParserState, buffer: Seq<u8>, count: int)
    requires
        state == at_rest(state),
        0 <= count <= buffer.len(),
    ensures
        scan_state(state, buffer, count) matches ParserState::NormalData(start) ==> 0 <= start
            <= count,
        at_rest(scan_state(state, buffer, count)) == decode_state(state, buffer.take(count)),
        content(scan_events(state, buffer, count)) + pending(
            scan_state(state, buffer, count),
            buffer,
            count,
        ) == decode(state, buffer.take(count)),
    decreases count,
{
    if count > 0 {
        let index = count - 1;
        lemma_scan_is_decode(state, buffer, index);
        assert(buffer.take(count).drop_last() =~= buffer.take(index));
        let before = scan_state(state, buffer, index);
        match step(before, buffer, index).1 {
            Some(event) => {
                lemma_content_push(scan_events(state, buffer, index), event);
            },
            None => {},
        }
    }
}

/// Parsing a buffer whole carries what its bytes carry fed one by one, and
/// leaves the parser in the same state.
pub proof fn lemma_parse_is_decode(state: ParserState, buffer: Seq<u8>)
    requires
        state == at_rest(state),
    ensures
        content(parse_events(state, buffer)) == decode(state, buffer),
        parse_state(state, buffer) == decode_state(state, buffer),
{
    let count = buffer.len() as int;
    lemma_scan_is_decode(state, buffer, count);
    assert(buffer.take(count) =~= buffer);
    let last = scan_state(state, buffer, count);
    lemma_content_add(scan_events(state, buffer, count), flush(last, buffer));
    match last {
        ParserState::NormalData(start) if start < count => {
            lemma_content_single(EventView::Data(buffer.subrange(start, count)));
        },
        _ => {},
    }
}

/// Feeding two pieces, one after the other, is feeding the whole.
pub proof fn lemma_decode_add(state: ParserState, front: Seq<u8>, back: Seq<u8>)
    ensures
        decode_state(state, front + back) == decode_state(decode_state(state, front), back),
        decode(state, front + back) == decode(state, front) + decode(
            decode_state(state, front),
            back,
        ),
    decreases back.len(),
{
    if back.len() > 0 {
        lemma_decode_add(state, front, back.drop_last());
        assert((front + back).drop_last() =~= front + back.drop_last());
    }
}

/// Feeding one more byte.
pub proof fn lemma_decode_push(state: ParserState, bytes: Seq<u8>, byte: u8)
    ensures
        decode_state(state, bytes.push(byte)) == feed(decode_state(state, bytes), byte).0,
        decode(state, bytes.push(byte)) == decode(state, bytes) + feed(
            decode_state(state, bytes),
            byte,
        ).1,
{
    assert(bytes.push(byte).drop_last() =~= bytes);
}

/// Resumability. Cut a buffer at any point and parse the two pieces in
/// turn: the events carry what the events of the whole buffer carry, so the
/// two lists differ at most in where runs of user data are cut, and the
/// parser ends in the same state.
pub proof fn lemma_parse_resumable(state: ParserState, buffer: Seq<u8>, cut: int)
    requires
        state == at_rest(state),
        0 <= cut <= buffer.len(),
    ensures
        content(
            parse_events(state, buffer.take(cut)) + parse_events(
                parse_state(state, buffer.take(cut)),
                buffer.skip(cut),
            ),
        ) == content(parse_events(state, buffer)),
        parse_state(parse_state(state, buffer.take(cut)), buffer.skip(cut)) == parse_state(
            state,
            buffer,
        ),
{
    let front = buffer.take(cut);
    let back = buffer.skip(cut);
    let middle = parse_state(state, front);
    assert(front + back =~= buffer);
    lemma_parse_is_decode(state, front);
    lemma_parse_is_decode(middle, back);
    lemma_parse_is_decode(state, buffer);
    lemma_decode_add(state, front, back);
    lemma_content_add(parse_events(state, front), parse_events(middle, back));
}

/// After any number of bytes of a buffer, every event so far is well
/// formed, and the run of data still pending holds IAC at most as its first
/// byte.
proof fn lemma_scan_well_formed(state: ParserState, buffer: Seq<u8>, count: int)
    requires
        state == at_rest(state),
        0 <= count <= buffer.len(),
    ensures
        scan_state(state, buffer, count) matches ParserState::NormalData(start) ==> 0 <= start
            <= count && forall|j: int| start < j < count ==> buffer[j] != BYTE_IAC,
        forall|i: int|
            0 <= i < scan_events(state, buffer, count).len() ==> well_formed(
                #[trigger] scan_events(state, buffer, count)[i],
            ),
    decreases count,
{
    if count > 0 {
        let index = count - 1;
        lemma_scan_well_formed(state, buffer, index);
        let events = scan_events(state, buffer, index);
        match step(scan_state(state, buffer, index), buffer, index).1 {
            Some(event) => {
                assert forall|i: int| 0 <= i < events.push(event).len() implies well_formed(
                    #[trigger] events.push(event)[i],
                ) by {
                    if i < events.len() {
                        assert(events.push(event)[i] == events[i]);
                    }
                }
            },
            None => {},
        }
    }
}

/// The parser reports no empty `Data` event, and none that holds IAC
/// anywhere but as its first byte.
pub proof fn lemma_parse_events_well_formed(state: ParserState, buffer: Seq<u8>)
    requires
        state == at_rest(state),
    ensures
        forall|i: int|
            0 <= i < parse_events(state, buffer).len() ==> well_formed(
                #[trigger] parse_events(state, buffer)[i],
            ),
{
    let count = buffer.len() as int;
    lemma_scan_well_formed(state, buffer, count);
    let scanned = scan_events(state, buffer, count);
    let flushed = flush(scan_state(state, buffer, count), buffer);
    assert forall|i: int| 0 <= i < (scanned + flushed).len() implies well_formed(
        #[trigger] (scanned + flushed)[i],
    ) by {
        if i < scanned.len() {
            assert((scanned + flushed)[i] == scanned[i]);
        } else {
            assert((scanned + flushed)[i] == flushed[i - scanned.len()]);
        }
    }
}

} // verus!
