use crate::buffer::into_boxed_slice;
use crate::byte::{BYTE_DO, BYTE_DONT, BYTE_IAC, BYTE_SB, BYTE_SE, BYTE_WILL, BYTE_WONT};
use crate::content::lemma_parse_events_well_formed;
use crate::error::Error;
use crate::event::{events_view, option_view, EventView, TelnetEvent};
use crate::negotiation::Action;
use crate::option::TelnetOption;
use vstd::prelude::*;
use vstd::slice::{slice_subrange, slice_to_vec};

verus! {

/// Where the parser stands between two bytes.
pub enum ParserState {
    /// In user data. The number is the index, in the buffer being parsed, at
    /// which the run of data not yet reported starts.
    NormalData(int),
    /// After IAC.
    IAC,
    /// After IAC SB, before the option.
    SB,
    /// Inside a sub-negotiation of the option, with the payload read so far;
    /// the flag is set after an IAC whose meaning the next byte decides: SE
    /// ends the sub-negotiation, IAC is a literal 255, and any other byte is
    /// reported as unexpected and kept as payload without the IAC.
    SBData(TelnetOption, Seq<u8>, bool),
    /// After IAC and WILL, WONT, DO or DONT, before the option.
    Negotiation(Action),
}

/// The state in which a parser starts.
pub open spec fn initial_state() -> ParserState {
    ParserState::NormalData(0)
}

/// The state as it is kept from one buffer to the next: a run of data never
/// spans two buffers, so its start is forgotten.
pub open spec fn at_rest(state: ParserState) -> ParserState {
    match state {
        ParserState::NormalData(_) => ParserState::NormalData(0),
        _ => state,
    }
}

/// One move of the parser: the state after the byte at `index` of `buffer`,
/// and the event that the byte completes, if any.
pub open spec fn step(state: ParserState, buffer: Seq<u8>, index: int) -> (
    ParserState,
    Option<EventView>,
) {
    let byte = buffer[index];
    match state {
        ParserState::NormalData(start) => {
            if byte == BYTE_IAC {
                (
                    ParserState::IAC,
                    if start < index {
                        Some(EventView::Data(buffer.subrange(start, index)))
                    } else {
                        None
                    },
                )
            } else {
                (state, None)
            }
        },
        ParserState::IAC => {
            if byte == BYTE_WILL {
                (ParserState::Negotiation(Action::Will), None)
            } else if byte == BYTE_WONT {
                (ParserState::Negotiation(Action::Wont), None)
            } else if byte == BYTE_DO {
                (ParserState::Negotiation(Action::Do), None)
            } else if byte == BYTE_DONT {
                (ParserState::Negotiation(Action::Dont), None)
            } else if byte == BYTE_SB {
                (ParserState::SB, None)
            } else if byte == BYTE_IAC {
                (ParserState::NormalData(index), None)
            } else {
                (ParserState::NormalData(index + 1), Some(EventView::UnknownIAC(byte)))
            }
        },
        ParserState::Negotiation(action) => (
            ParserState::NormalData(index + 1),
            Some(EventView::Negotiation(action, TelnetOption::spec_parse(byte))),
        ),
        ParserState::SB => (
            ParserState::SBData(TelnetOption::spec_parse(byte), Seq::empty(), false),
            None,
        ),
        ParserState::SBData(opt, data, iac) => {
            if iac {
                if byte == BYTE_SE {
                    (ParserState::NormalData(index + 1), Some(EventView::Subnegotiation(opt, data)))
                } else if byte == BYTE_IAC {
                    (ParserState::SBData(opt, data.push(BYTE_IAC), false), None)
                } else {
                    (
                        ParserState::SBData(opt, data.push(byte), false),
                        Some(EventView::Error(Error::UnexpectedByte(byte))),
                    )
                }
            } else {
                if byte == BYTE_IAC {
                    (ParserState::SBData(opt, data, true), None)
                } else {
                    (ParserState::SBData(opt, data.push(byte), false), None)
                }
            }
        },
    }
}

/// The state after the first `count` bytes of `buffer`.
pub open spec fn scan_state(state: ParserState, buffer: Seq<u8>, count: int) -> ParserState
    decreases count,
{
    if count <= 0 {
        state
    } else {
        step(scan_state(state, buffer, count - 1), buffer, count - 1).0
    }
}

/// The events that the first `count` bytes of `buffer` complete.
pub open spec fn scan_events(state: ParserState, buffer: Seq<u8>, count: int) -> Seq<EventView>
    decreases count,
{
    if count <= 0 {
        Seq::empty()
    } else {
        let before = scan_events(state, buffer, count - 1);
        match step(scan_state(state, buffer, count - 1), buffer, count - 1).1 {
            Some(event) => before.push(event),
            None => before,
        }
    }
}

/// What is reported at the end of a buffer: the run of data still pending,
/// unless it is empty.
pub open spec fn flush(state: ParserState, buffer: Seq<u8>) -> Seq<EventView> {
    match state {
        ParserState::NormalData(start) => {
            if start < buffer.len() {
                seq![EventView::Data(buffer.subrange(start, buffer.len() as int))]
            } else {
                Seq::empty()
            }
        },
        _ => Seq::empty(),
    }
}

/// The events of one call of [`Parser::parse`] on `buffer`, from a state at
/// rest.
pub open spec fn parse_events(state: ParserState, buffer: Seq<u8>) -> Seq<EventView> {
    scan_events(state, buffer, buffer.len() as int) + flush(
        scan_state(state, buffer, buffer.len() as int),
        buffer,
    )
}

/// The state at rest after one call of [`Parser::parse`] on `buffer`.
pub open spec fn parse_state(state: ParserState, buffer: Seq<u8>) -> ParserState {
    at_rest(scan_state(state, buffer, buffer.len() as int))
}

/// A `Data` event is well formed when it is not empty and holds IAC at most
/// as its first byte, where it stands for a doubled IAC of the peer.
pub open spec fn well_formed(event: EventView) -> bool {
    event matches EventView::Data(data) ==> data.len() > 0 && forall|i: int|
        1 <= i < data.len() ==> data[i] != BYTE_IAC
}

/// The state as the parser holds it.
enum ParsingState {
    NormalData(usize),
    IAC,
    SB,
    SBData(TelnetOption, Vec<u8>, bool),
    Negotiation(Action),
}

impl View for ParsingState {
    type V = ParserState;

    closed spec fn view(&self) -> ParserState {
        match *self {
            ParsingState::NormalData(start) => ParserState::NormalData(start as int),
            ParsingState::IAC => ParserState::IAC,
            ParsingState::SB => ParserState::SB,
            ParsingState::SBData(opt, data, iac) => ParserState::SBData(opt, data@, iac),
            ParsingState::Negotiation(action) => ParserState::Negotiation(action),
        }
    }
}

/// The `Data` event of a part of a buffer.
fn data_event(buffer: &[u8], start: usize, end: usize) -> (event: TelnetEvent)
    requires
        start <= end <= buffer@.len(),
    ensures
        event@ == EventView::Data(buffer@.subrange(start as int, end as int)),
{
    TelnetEvent::Data(into_boxed_slice(slice_to_vec(slice_subrange(buffer, start, end))))
}

/// A resumable Telnet parser. It keeps its state from one buffer to the
/// next, so a command may be split over any number of buffers.
pub struct Parser {
    state: ParsingState,
}

impl View for Parser {
    type V = ParserState;

    closed spec fn view(&self) -> ParserState {
        at_rest(self.state@)
    }
}

impl Parser {
    /// Between two calls a parser is at rest.
    pub proof fn lemma_at_rest(&self)
        ensures
            self@ == at_rest(self@),
    {
    }

    /// A parser in user data.
    pub fn new() -> (parser: Parser)
        ensures
            parser@ == initial_state(),
    {
        Parser { state: ParsingState::NormalData(0) }
    }

    /// Parses `buffer` to the end and returns the events it completes, in
    /// the order of their last bytes.
    pub fn parse(&mut self, buffer: &[u8]) -> (events: Vec<TelnetEvent>)
        ensures
            events_view(events@) == parse_events(old(self)@, buffer@),
            final(self)@ == parse_state(old(self)@, buffer@),
            forall|i: int| 0 <= i < events@.len() ==> well_formed(#[trigger] events@[i]@),
    {
        // A run of data starts with the buffer.
        if let ParsingState::NormalData(_) = self.state {
            self.state = ParsingState::NormalData(0);
        }
        let ghost start = self.state@;
        let mut events: Vec<TelnetEvent> = Vec::new();
        let mut index: usize = 0;
        while index < buffer.len()
            invariant
                index <= buffer@.len(),
                start == old(self)@,
                self.state@ == scan_state(start, buffer@, index as int),
                events_view(events@) == scan_events(start, buffer@, index as int),
                self.state@ matches ParserState::NormalData(s) ==> 0 <= s <= index,
            decreases buffer@.len() - index,
        {
            match self.parse_byte(buffer, index) {
                Some(event) => {
                    events.push(event);
                },
                None => {},
            }
            index += 1;
        }
        if let ParsingState::NormalData(data_start) = self.state {
            if data_start < buffer.len() {
                events.push(data_event(buffer, data_start, buffer.len()));
            }
            self.state = ParsingState::NormalData(0);
        }
        proof {
            lemma_parse_events_well_formed(start, buffer@);
            assert(events_view(events@) =~= parse_events(start, buffer@));
            assert forall|i: int| 0 <= i < events@.len() implies well_formed(
                #[trigger] events@[i]@,
            ) by {
                assert(events_view(events@)[i] == events@[i]@);
            }
        }
        events
    }

    /// Parses the byte at `index` of `buffer`: moves the state, and returns
    /// the event that the byte completes, if any.
    fn parse_byte(&mut self, buffer: &[u8], index: usize) -> (event: Option<TelnetEvent>)
        requires
            index < buffer@.len(),
            old(self).state@ matches ParserState::NormalData(s) ==> 0 <= s <= index,
        ensures
            final(self).state@ == step(old(self).state@, buffer@, index as int).0,
            option_view(event) == step(old(self).state@, buffer@, index as int).1,
    {
        let byte = buffer[index];
        match &mut self.state {
            ParsingState::NormalData(data_start) => {
                let data_start: usize = *data_start;
                if byte == BYTE_IAC {
                    self.state = ParsingState::IAC;
                    if data_start < index {
                        return Some(data_event(buffer, data_start, index));
                    }
                }
            },
            ParsingState::IAC => {
                if byte == BYTE_WILL {
                    self.state = ParsingState::Negotiation(Action::Will);
                } else if byte == BYTE_WONT {
                    self.state = ParsingState::Negotiation(Action::Wont);
                } else if byte == BYTE_DO {
                    self.state = ParsingState::Negotiation(Action::Do);
                } else if byte == BYTE_DONT {
                    self.state = ParsingState::Negotiation(Action::Dont);
                } else if byte == BYTE_SB {
                    self.state = ParsingState::SB;
                } else if byte == BYTE_IAC {
                    self.state = ParsingState::NormalData(index);
                } else {
                    self.state = ParsingState::NormalData(index + 1);
                    return Some(TelnetEvent::UnknownIAC(byte));
                }
            },
            ParsingState::Negotiation(action) => {
                let action: Action = *action;
                self.state = ParsingState::NormalData(index + 1);
                return Some(TelnetEvent::Negotiation(action, TelnetOption::parse(byte)));
            },
            ParsingState::SB => {
                self.state = ParsingState::SBData(TelnetOption::parse(byte), Vec::new(), false);
            },
            ParsingState::SBData(opt, data, iac) => {
                if *iac {
                    *iac = false;
                    if byte == BYTE_SE {
                        let opt: TelnetOption = *opt;
                        let payload = into_boxed_slice(data.clone());
                        self.state = ParsingState::NormalData(index + 1);
                        return Some(TelnetEvent::Subnegotiation(opt, payload));
                    } else if byte == BYTE_IAC {
                        data.push(BYTE_IAC);
                    } else {
                        data.push(byte);
                        return Some(TelnetEvent::Error(Error::UnexpectedByte(byte)));
                    }
                } else {
                    if byte == BYTE_IAC {
                        *iac = true;
                    } else {
                        data.push(byte);
                    }
                }
            },
        }
        None
    }
}

} // verus!
