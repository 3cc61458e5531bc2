use crate::error::Error;
use crate::negotiation::Action;
use crate::option::TelnetOption;
use std::collections::VecDeque;
use vstd::prelude::*;

verus! {

/// What a connection reports to the application.
#[derive(Debug, PartialEq, Eq)]
pub enum TelnetEvent {
    /// A run of user data, with every doubled IAC already collapsed.
    Data(Box<[u8]>),
    /// IAC followed by a byte that is no known command.
    UnknownIAC(u8),
    /// A received WILL, WONT, DO or DONT.
    Negotiation(Action, TelnetOption),
    /// The unescaped payload of a complete sub-negotiation.
    Subnegotiation(TelnetOption, Box<[u8]>),
    /// The peer now uses the option.
    RemoteEnabled(TelnetOption),
    /// The peer no longer uses the option.
    RemoteDisabled(TelnetOption),
    /// The local side has agreed to use the option and should start.
    LocalShouldEnable(TelnetOption),
    /// The local side has agreed to drop the option and should stop.
    LocalShouldDisable(TelnetOption),
    /// A timed read ran out of time.
    TimedOut,
    /// A non-blocking read found nothing to read.
    NoData,
    /// A protocol error.
    Error(Error),
}

/// The mathematical value of a [`TelnetEvent`]: payloads are sequences.
pub enum EventView {
    Data(Seq<u8>),
    UnknownIAC(u8),
    Negotiation(Action, TelnetOption),
    Subnegotiation(TelnetOption, Seq<u8>),
    RemoteEnabled(TelnetOption),
    RemoteDisabled(TelnetOption),
    LocalShouldEnable(TelnetOption),
    LocalShouldDisable(TelnetOption),
    TimedOut,
    NoData,
    Error(Error),
}

impl View for TelnetEvent {
    type V = EventView;

    open spec fn view(&self) -> EventView {
        match *self {
            TelnetEvent::Data(data) => EventView::Data(data@),
            TelnetEvent::UnknownIAC(byte) => EventView::UnknownIAC(byte),
            TelnetEvent::Negotiation(action, opt) => EventView::Negotiation(action, opt),
            TelnetEvent::Subnegotiation(opt, data) => EventView::Subnegotiation(opt, data@),
            TelnetEvent::RemoteEnabled(opt) => EventView::RemoteEnabled(opt),
            TelnetEvent::RemoteDisabled(opt) => EventView::RemoteDisabled(opt),
            TelnetEvent::LocalShouldEnable(opt) => EventView::LocalShouldEnable(opt),
            TelnetEvent::LocalShouldDisable(opt) => EventView::LocalShouldDisable(opt),
            TelnetEvent::TimedOut => EventView::TimedOut,
            TelnetEvent::NoData => EventView::NoData,
            TelnetEvent::Error(error) => EventView::Error(error),
        }
    }
}

/// The values of a list of events, in order.
pub open spec fn events_view(events: Seq<TelnetEvent>) -> Seq<EventView> {
    events.map_values(|event: TelnetEvent| event@)
}

/// The value of an event that may be absent.
pub open spec fn option_view(event: Option<TelnetEvent>) -> Option<EventView> {
    match event {
        Some(event) => Some(event@),
        None => None,
    }
}

/// The event at the front of a queue, if there is one, and the queue behind
/// it.
pub open spec fn front_of(queue: Seq<EventView>) -> (Option<EventView>, Seq<EventView>) {
    if queue.len() > 0 {
        (Some(queue[0]), queue.skip(1))
    } else {
        (None, queue)
    }
}

/// Events waiting for the application, first in, first out.
pub struct TelnetEventQueue {
    queue: VecDeque<TelnetEvent>,
}

impl View for TelnetEventQueue {
    type V = Seq<EventView>;

    closed spec fn view(&self) -> Seq<EventView> {
        events_view(self.queue@)
    }
}

impl TelnetEventQueue {
    /// An empty queue.
    pub fn new() -> (queue: TelnetEventQueue)
        ensures
            queue@ == Seq::<EventView>::empty(),
    {
        TelnetEventQueue { queue: VecDeque::new() }
    }

    /// Puts an event at the back.
    pub fn push_event(&mut self, event: TelnetEvent)
        ensures
            final(self)@ == old(self)@.push(event@),
    {
        self.queue.push_back(event);
    }

    /// Takes the event at the front, if there is one.
    pub fn take_event(&mut self) -> (event: Option<TelnetEvent>)
        ensures
            (option_view(event), final(self)@) == front_of(old(self)@),
    {
        self.queue.pop_front()
    }

    /// Puts a list of events at the back, in their order.
    pub fn push_events(&mut self, events: Vec<TelnetEvent>)
        ensures
            final(self)@ == old(self)@ + events_view(events@),
    {
        let ghost all = events@;
        for event in iter: events
            invariant
                iter.seq() == all,
                self@ == old(self)@ + events_view(all.take(iter.index() as int)),
        {
            self.push_event(event);
        }
    }

    /// Whether no event is waiting.
    pub fn is_empty(&self) -> (empty: bool)
        ensures
            empty == (self@.len() == 0),
    {
        self.queue.len() == 0
    }
}

} // verus!
