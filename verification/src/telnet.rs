use crate::byte::{BYTE_IAC, BYTE_SB, BYTE_SE};
use crate::error::{Error, SubnegotiationType};
use crate::event::{front_of, option_view, EventView, TelnetEvent, TelnetEventQueue};
use crate::format::{
    escape, negotiation, negotiation_frame, sub_negotiation_head, sub_negotiation_tail,
};
use crate::negotiation::Action;
use crate::option::TelnetOption;
use crate::parse::{initial_state, parse_events, parse_state, Parser, ParserState};
use crate::stream::{brought, classify, taken_for, ReadFailure, Stream};
use crate::zcstream::ZCStream;
use std::time::Duration;
use vstd::prelude::*;
use vstd::slice::slice_subrange;

verus! {

/// The event at the front of a queue and the queue behind it; where the
/// queue is empty, the error that says so and the empty queue.
pub open spec fn front_or_error(queue: Seq<EventView>) -> (EventView, Seq<EventView>) {
    match front_of(queue).0 {
        Some(event) => (event, front_of(queue).1),
        None => (EventView::Error(Error::InternalQueueErr), queue),
    }
}

/// The event by which a timed read reports a failure that is no error: it
/// ran out of time.
pub fn timed_out_event(failure: ReadFailure) -> (event: Option<TelnetEvent>)
    ensures
        failure is Other ==> event is None,
        !(failure is Other) ==> event is Some && event->0@ == EventView::TimedOut,
{
    match failure {
        ReadFailure::WouldBlock | ReadFailure::TimedOut => Some(TelnetEvent::TimedOut),
        ReadFailure::Other => None,
    }
}

/// The event by which a non-blocking read reports a failure that is no
/// error: nothing was there.
pub fn no_data_event(failure: ReadFailure) -> (event: Option<TelnetEvent>)
    ensures
        failure is WouldBlock ==> event is Some && event->0@ == EventView::NoData,
        !(failure is WouldBlock) ==> event is None,
{
    match failure {
        ReadFailure::WouldBlock => Some(TelnetEvent::NoData),
        _ => None,
    }
}

/// A Telnet connection over a transport.
pub struct Telnet<S: Stream> {
    stream: S,
    event_queue: TelnetEventQueue,
    parser: Parser,
    buffer: Vec<u8>,
    sent: Ghost<Seq<u8>>,
}

impl<S: Stream> Telnet<S> {
    /// The transport.
    pub closed spec fn stream(&self) -> S {
        self.stream
    }

    /// The events that wait to be read.
    pub closed spec fn queue(&self) -> Seq<EventView> {
        self.event_queue@
    }

    /// Where the parser stands.
    pub closed spec fn parser_state(&self) -> ParserState {
        self.parser@
    }

    /// How many bytes one read of the transport may bring.
    pub closed spec fn buffer_size(&self) -> nat {
        self.buffer@.len()
    }

    /// All that this connection has handed to the transport in writes that
    /// succeeded, in order.
    pub closed spec fn sent(&self) -> Seq<u8> {
        self.sent@
    }

    /// Whether the queue, the parser and what was sent are as in `before`.
    pub open spec fn same_state(&self, before: &Self) -> bool {
        &&& self.queue() == before.queue()
        &&& self.parser_state() == before.parser_state()
        &&& self.sent() == before.sent()
    }

    /// What handing out the event at the front of the queue leaves: the
    /// queue behind it, and all else as in `before`.
    pub open spec fn handed_out(&self, before: &Self, event: EventView) -> bool {
        &&& (Some(event), self.queue()) == front_of(before.queue())
        &&& self.parser_state() == before.parser_state()
        &&& self.sent() == before.sent()
        &&& self.stream() == before.stream()
    }

    /// What taking in `bytes` leaves of a connection whose queue was empty:
    /// the parser has read the bytes, `event` is the first event they
    /// complete, if any, and the others wait.
    pub open spec fn taken_in(
        &self,
        before: &Self,
        bytes: Seq<u8>,
        event: Option<EventView>,
    ) -> bool {
        &&& self.parser_state() == parse_state(before.parser_state(), bytes)
        &&& (event, self.queue()) == front_of(parse_events(before.parser_state(), bytes))
        &&& self.sent() == before.sent()
    }

    /// As [`Self::taken_in`], for the reads that always hand out an event:
    /// where the bytes complete none, `event` says that the queue was found
    /// empty.
    pub open spec fn received(&self, before: &Self, bytes: Seq<u8>, event: EventView) -> bool {
        &&& self.parser_state() == parse_state(before.parser_state(), bytes)
        &&& (event, self.queue()) == front_or_error(parse_events(before.parser_state(), bytes))
        &&& self.sent() == before.sent()
    }

    /// A connection over `stream` that reads at most `buf_size` bytes at a
    /// time, and at least one.
    pub fn from_stream(stream: S, buf_size: usize) -> (telnet: Telnet<S>)
        ensures
            telnet.stream() == stream,
            telnet.queue() == Seq::<EventView>::empty(),
            telnet.parser_state() == initial_state(),
            telnet.sent() == Seq::<u8>::empty(),
            telnet.buffer_size() == if buf_size == 0 {
                1
            } else {
                buf_size as int
            },
    {
        let actual_size: usize = if buf_size == 0 {
            1
        } else {
            buf_size
        };
        Telnet {
            stream,
            event_queue: TelnetEventQueue::new(),
            parser: Parser::new(),
            buffer: vec![0u8; actual_size],
            sent: Ghost(Seq::empty()),
        }
    }

    /// One pass of a blocking read. Hands out the event at the front of the
    /// queue. Where the queue is empty, it first tells the transport to wait
    /// for data without a limit, reads from it once, and parses what came;
    /// where that completes no event it returns `None`, and the caller who
    /// wants an event calls again. Where a call of the transport fails, its
    /// error is returned as it came and no further call is made.
    pub fn read(&mut self) -> (result: Result<Option<TelnetEvent>, std::io::Error>)
        ensures
            old(self).queue().len() > 0 ==> match result {
                Ok(Some(event)) => final(self).handed_out(old(self), event@),
                _ => false,
            },
            old(self).queue().len() == 0 ==> match result {
                Ok(event) => exists|bytes: Seq<u8>|
                    final(self).taken_in(old(self), bytes, option_view(event)),
                Err(_) => final(self).same_state(old(self)),
            },
            old(self).queue().len() == 0 ==> exists|mode: Result<(), std::io::Error>|
                #[trigger] call_ensures(S::set_nonblocking, (&old(self).stream(), false), mode)
                    && match mode {
                    Err(error) => result == Err::<Option<TelnetEvent>, std::io::Error>(error)
                        && final(self).stream() == old(self).stream(),
                    Ok(_) => exists|wait: Result<(), std::io::Error>|
                        #[trigger] call_ensures(
                            S::set_read_timeout,
                            (&old(self).stream(), None::<Duration>),
                            wait,
                        ) && match wait {
                            Err(error) => result == Err::<Option<TelnetEvent>, std::io::Error>(
                                error,
                            ) && final(self).stream() == old(self).stream(),
                            Ok(_) => exists|
                                stream: &mut S,
                                room: &mut [u8],
                                got: Result<usize, std::io::Error>,
                            |
                                *stream == old(self).stream()
                                    && *final(stream) == final(self).stream()
                                    && room@.len() == old(self).buffer_size()
                                    && #[trigger] call_ensures(S::read, (stream, room), got)
                                    && match got {
                                    Ok(size) => result is Ok && final(self).taken_in(
                                        old(self),
                                        brought(final(room)@, size),
                                        option_view(result->Ok_0),
                                    ),
                                    Err(error) => result == Err::<
                                        Option<TelnetEvent>,
                                        std::io::Error,
                                    >(error),
                                },
                        },
                },
    {
        if self.event_queue.is_empty() {
            match self.stream.set_nonblocking(false) {
                Ok(()) => {},
                Err(error) => {
                    return Err(error);
                },
            }
            match self.stream.set_read_timeout(None) {
                Ok(()) => {},
                Err(error) => {
                    return Err(error);
                },
            }
            let size = match self.stream.read(self.buffer.as_mut_slice()) {
                Ok(size) => size,
                Err(error) => {
                    return Err(error);
                },
            };
            let Ghost(bytes) = self.process_buffer(size);
            let event = self.event_queue.take_event();
            assert(self.taken_in(old(self), bytes, option_view(event)));
            Ok(event)
        } else {
            Ok(self.event_queue.take_event())
        }
    }

    /// Hands out the event at the front of the queue. Where the queue is
    /// empty, it first tells the transport to wait for data no longer than
    /// `timeout`, reads from it once, and parses what came. Where the read
    /// fails because the time ran out, the event is `TimedOut`; any other
    /// error of the transport is returned as it came, and no further call is
    /// made.
    pub fn read_timeout(&mut self, timeout: Duration) -> (result: Result<
        TelnetEvent,
        std::io::Error,
    >)
        ensures
            old(self).queue().len() > 0 ==> result is Ok && final(self).handed_out(
                old(self),
                result->Ok_0@,
            ),
            old(self).queue().len() == 0 ==> match result {
                Ok(event) => (event@ == EventView::TimedOut && final(self).same_state(old(self)))
                    || exists|bytes: Seq<u8>| final(self).received(old(self), bytes, event@),
                Err(_) => final(self).same_state(old(self)),
            },
            old(self).queue().len() == 0 ==> exists|mode: Result<(), std::io::Error>|
                #[trigger] call_ensures(S::set_nonblocking, (&old(self).stream(), false), mode)
                    && match mode {
                    Err(error) => result == Err::<TelnetEvent, std::io::Error>(error)
                        && final(self).stream() == old(self).stream(),
                    Ok(_) => exists|wait: Result<(), std::io::Error>|
                        #[trigger] call_ensures(
                            S::set_read_timeout,
                            (&old(self).stream(), Some(timeout)),
                            wait,
                        ) && match wait {
                            Err(error) => result == Err::<TelnetEvent, std::io::Error>(error)
                                && final(self).stream() == old(self).stream(),
                            Ok(_) => exists|
                                stream: &mut S,
                                room: &mut [u8],
                                got: Result<usize, std::io::Error>,
                            |
                                *stream == old(self).stream()
                                    && *final(stream) == final(self).stream()
                                    && room@.len() == old(self).buffer_size()
                                    && #[trigger] call_ensures(S::read, (stream, room), got)
                                    && match got {
                                    Ok(size) => result is Ok && final(self).received(
                                        old(self),
                                        brought(final(room)@, size),
                                        result->Ok_0@,
                                    ),
                                    Err(error) => exists|failure: ReadFailure|
                                        #[trigger] taken_for(error, failure)
                                            && if failure is Other {
                                            result == Err::<TelnetEvent, std::io::Error>(error)
                                        } else {
                                            result matches Ok(event) && event@
                                                == EventView::TimedOut
                                                && final(self).same_state(old(self))
                                        },
                                },
                        },
                },
    {
        if self.event_queue.is_empty() {
            match self.stream.set_nonblocking(false) {
                Ok(()) => {},
                Err(error) => {
                    return Err(error);
                },
            }
            match self.stream.set_read_timeout(Some(timeout)) {
                Ok(()) => {},
                Err(error) => {
                    return Err(error);
                },
            }
            let size = match self.stream.read(self.buffer.as_mut_slice()) {
                Ok(size) => size,
                Err(error) => {
                    return match timed_out_event(classify(&error)) {
                        Some(event) => Ok(event),
                        None => Err(error),
                    };
                },
            };
            let Ghost(bytes) = self.process_buffer(size);
            let event = self.next_event();
            assert(self.received(old(self), bytes, event@));
            Ok(event)
        } else {
            Ok(self.next_event())
        }
    }

    /// Hands out the event at the front of the queue. Where the queue is
    /// empty, it first tells the transport not to wait for data, reads from
    /// it once, and parses what came. Where the read fails because nothing
    /// was there, the event is `NoData`; any other error of the transport is
    /// returned as it came, and no further call is made.
    pub fn read_nonblocking(&mut self) -> (result: Result<TelnetEvent, std::io::Error>)
        ensures
            old(self).queue().len() > 0 ==> result is Ok && final(self).handed_out(
                old(self),
                result->Ok_0@,
            ),
            old(self).queue().len() == 0 ==> match result {
                Ok(event) => (event@ == EventView::NoData && final(self).same_state(old(self)))
                    || exists|bytes: Seq<u8>| final(self).received(old(self), bytes, event@),
                Err(_) => final(self).same_state(old(self)),
            },
            old(self).queue().len() == 0 ==> exists|mode: Result<(), std::io::Error>|
                #[trigger] call_ensures(S::set_nonblocking, (&old(self).stream(), true), mode)
                    && match mode {
                    Err(error) => result == Err::<TelnetEvent, std::io::Error>(error)
                        && final(self).stream() == old(self).stream(),
                    Ok(_) => exists|wait: Result<(), std::io::Error>|
                        #[trigger] call_ensures(
                            S::set_read_timeout,
                            (&old(self).stream(), None::<Duration>),
                            wait,
                        ) && match wait {
                            Err(error) => result == Err::<TelnetEvent, std::io::Error>(error)
                                && final(self).stream() == old(self).stream(),
                            Ok(_) => exists|
                                stream: &mut S,
                                room: &mut [u8],
                                got: Result<usize, std::io::Error>,
                            |
                                *stream == old(self).stream()
                                    && *final(stream) == final(self).stream()
                                    && room@.len() == old(self).buffer_size()
                                    && #[trigger] call_ensures(S::read, (stream, room), got)
                                    && match got {
                                    Ok(size) => result is Ok && final(self).received(
                                        old(self),
                                        brought(final(room)@, size),
                                        result->Ok_0@,
                                    ),
                                    Err(error) => exists|failure: ReadFailure|
                                        #[trigger] taken_for(error, failure)
                                            && if failure is WouldBlock {
                                            result matches Ok(event) && event@
                                                == EventView::NoData
                                                && final(self).same_state(old(self))
                                        } else {
                                            result == Err::<TelnetEvent, std::io::Error>(error)
                                        },
                                },
                        },
                },
    {
        if self.event_queue.is_empty() {
            match self.stream.set_nonblocking(true) {
                Ok(()) => {},
                Err(error) => {
                    return Err(error);
                },
            }
            match self.stream.set_read_timeout(None) {
                Ok(()) => {},
                Err(error) => {
                    return Err(error);
                },
            }
            let size = match self.stream.read(self.buffer.as_mut_slice()) {
                Ok(size) => size,
                Err(error) => {
                    return match no_data_event(classify(&error)) {
                        Some(event) => Ok(event),
                        None => Err(error),
                    };
                },
            };
            let Ghost(bytes) = self.process_buffer(size);
            let event = self.next_event();
            assert(self.received(old(self), bytes, event@));
            Ok(event)
        } else {
            Ok(self.next_event())
        }
    }

    /// Sends user data, every IAC in it doubled, in one write, and returns
    /// how many bytes of `data` were sent: all of them. Where the write
    /// fails, its error is returned as it came. Where there is no data,
    /// nothing is written and nothing can fail.
    pub fn write(&mut self, data: &[u8]) -> (result: Result<usize, std::io::Error>)
        ensures
            final(self).queue() == old(self).queue(),
            final(self).parser_state() == old(self).parser_state(),
            data@.len() == 0 ==> result is Ok && final(self).stream() == old(self).stream(),
            data@.len() > 0 ==> exists|
                stream: &mut S,
                escaped: &[u8],
                outcome: Result<(), std::io::Error>,
            |
                *stream == old(self).stream() && *final(stream) == final(self).stream()
                    && escaped@ == escape(data@) && #[trigger] call_ensures(
                    S::write_all,
                    (stream, escaped),
                    outcome,
                ) && match outcome {
                    Ok(_) => result is Ok,
                    Err(error) => result == Err::<usize, std::io::Error>(error),
                },
            match result {
                Ok(count) => count == data@.len() && final(self).sent() == old(self).sent()
                    + escape(data@),
                Err(_) => final(self).sent() == old(self).sent(),
            },
    {
        if data.len() == 0 {
            return Ok(0);
        }
        let escaped = crate::format::data(data).to_owned();
        match self.send(&*escaped) {
            Ok(()) => Ok(data.len()),
            Err(error) => Err(error),
        }
    }

    /// Sends a negotiation in one write.
    pub fn negotiate(&mut self, action: &Action, opt: TelnetOption) -> (result: Result<(), Error>)
        ensures
            final(self).queue() == old(self).queue(),
            final(self).parser_state() == old(self).parser_state(),
            exists|stream: &mut S, frame: &[u8], outcome: Result<(), std::io::Error>|
                *stream == old(self).stream() && *final(stream) == final(self).stream()
                    && frame@ == negotiation_frame(*action, opt) && #[trigger] call_ensures(
                    S::write_all,
                    (stream, frame),
                    outcome,
                ) && (outcome is Ok <==> result is Ok),
            match result {
                Ok(_) => final(self).sent() == old(self).sent() + negotiation_frame(*action, opt),
                Err(error) => error == Error::NegotiationErr
                    && final(self).sent() == old(self).sent(),
            },
    {
        let frame = negotiation(*action, opt);
        match self.send(&*frame) {
            Ok(()) => Ok(()),
            Err(_) => Err(Error::NegotiationErr),
        }
    }

    /// Sends a sub-negotiation in three writes: the head, the parameters
    /// with every IAC doubled, the tail. The error names the write that
    /// failed; those after it are not made.
    pub fn subnegotiate(&mut self, opt: TelnetOption, data: &[u8]) -> (result: Result<(), Error>)
        ensures
            final(self).queue() == old(self).queue(),
            final(self).parser_state() == old(self).parser_state(),
            exists|first: &mut S, head: &[u8], began: Result<(), std::io::Error>|
                *first == old(self).stream() && head@ == sub_negotiation_head(opt)
                    && #[trigger] call_ensures(S::write_all, (first, head), began)
                    && match began {
                    Err(_) => result == Err::<(), Error>(
                        Error::SubnegotiationErr(SubnegotiationType::Start),
                    ) && final(self).stream() == *final(first),
                    Ok(_) => exists|
                        second: &mut S,
                        body: &[u8],
                        went: Result<(), std::io::Error>,
                    |
                        *second == *final(first) && body@ == escape(data@)
                            && #[trigger] call_ensures(S::write_all, (second, body), went)
                            && match went {
                            Err(_) => result == Err::<(), Error>(
                                Error::SubnegotiationErr(SubnegotiationType::Data),
                            ) && final(self).stream() == *final(second),
                            Ok(_) => exists|
                                third: &mut S,
                                tail: &[u8],
                                ended: Result<(), std::io::Error>,
                            |
                                *third == *final(second)
                                    && *final(third) == final(self).stream()
                                    && tail@ == sub_negotiation_tail()
                                    && #[trigger] call_ensures(
                                    S::write_all,
                                    (third, tail),
                                    ended,
                                ) && match ended {
                                    Err(_) => result == Err::<(), Error>(
                                        Error::SubnegotiationErr(SubnegotiationType::End),
                                    ),
                                    Ok(_) => result is Ok,
                                },
                        },
                },
            match result {
                Ok(_) => final(self).sent() == old(self).sent() + sub_negotiation_head(opt)
                    + escape(data@) + sub_negotiation_tail(),
                Err(Error::SubnegotiationErr(SubnegotiationType::Start)) => final(self).sent()
                    == old(self).sent(),
                Err(Error::SubnegotiationErr(SubnegotiationType::Data)) => final(self).sent()
                    == old(self).sent() + sub_negotiation_head(opt),
                Err(Error::SubnegotiationErr(SubnegotiationType::End)) => final(self).sent()
                    == old(self).sent() + sub_negotiation_head(opt) + escape(data@),
                Err(_) => false,
            },
    {
        let mut head: Vec<u8> = Vec::new();
        head.push(BYTE_IAC);
        head.push(BYTE_SB);
        head.push(opt.as_byte());
        assert(head@ =~= sub_negotiation_head(opt));
        if self.send(head.as_slice()).is_err() {
            return Err(Error::SubnegotiationErr(SubnegotiationType::Start));
        }
        let escaped = crate::format::data(data).to_owned();
        if self.send(&*escaped).is_err() {
            return Err(Error::SubnegotiationErr(SubnegotiationType::Data));
        }
        let mut tail: Vec<u8> = Vec::new();
        tail.push(BYTE_IAC);
        tail.push(BYTE_SE);
        assert(tail@ =~= sub_negotiation_tail());
        if self.send(tail.as_slice()).is_err() {
            return Err(Error::SubnegotiationErr(SubnegotiationType::End));
        }
        Ok(())
    }

    /// Takes bytes that the transport brought: the parser reads them, and
    /// the events they complete go to the back of the queue.
    pub fn process(&mut self, received: &[u8])
        ensures
            final(self).parser_state() == parse_state(old(self).parser_state(), received@),
            final(self).queue() == old(self).queue() + parse_events(
                old(self).parser_state(),
                received@,
            ),
            final(self).sent() == old(self).sent(),
            final(self).stream() == old(self).stream(),
            final(self).buffer_size() == old(self).buffer_size(),
    {
        let events = self.parser.parse(received);
        self.event_queue.push_events(events);
    }

    /// Takes the first `size` bytes of the buffer, or all of it where it
    /// holds fewer, and says which bytes these were.
    fn process_buffer(&mut self, size: usize) -> (bytes: Ghost<Seq<u8>>)
        ensures
            bytes@ == brought(old(self).buffer@, size),
            final(self).buffer@ == old(self).buffer@,
            final(self).parser_state() == parse_state(old(self).parser_state(), bytes@),
            final(self).queue() == old(self).queue() + parse_events(
                old(self).parser_state(),
                bytes@,
            ),
            final(self).sent() == old(self).sent(),
            final(self).stream() == old(self).stream(),
            final(self).buffer_size() == old(self).buffer_size(),
    {
        let mut buffer: Vec<u8> = Vec::new();
        core::mem::swap(&mut self.buffer, &mut buffer);
        let count: usize = if size <= buffer.len() {
            size
        } else {
            buffer.len()
        };
        let received = slice_subrange(buffer.as_slice(), 0, count);
        assert(received@ =~= brought(buffer@, size));
        self.process(received);
        core::mem::swap(&mut self.buffer, &mut buffer);
        Ghost(received@)
    }

    /// Hands `bytes` to the transport in one write: the transport is as its
    /// own `write_all` leaves it, and the result is what that returned. Keeps
    /// account of the bytes where the write succeeds.
    fn send(&mut self, bytes: &[u8]) -> (result: Result<(), std::io::Error>)
        ensures
            exists|stream: &mut S|
                *stream == old(self).stream() && *final(stream) == final(self).stream()
                    && #[trigger] call_ensures(S::write_all, (stream, bytes), result),
            final(self).queue() == old(self).queue(),
            final(self).parser_state() == old(self).parser_state(),
            final(self).buffer_size() == old(self).buffer_size(),
            result is Ok ==> final(self).sent() == old(self).sent() + bytes@,
            result is Err ==> final(self).sent() == old(self).sent(),
    {
        let result = self.stream.write_all(bytes);
        if result.is_ok() {
            self.sent = Ghost(self.sent@ + bytes@);
        }
        result
    }

    /// Takes the event at the front of the queue; where there is none, the
    /// error that says so.
    fn next_event(&mut self) -> (event: TelnetEvent)
        ensures
            (event@, final(self).queue()) == front_or_error(old(self).queue()),
            final(self).parser_state() == old(self).parser_state(),
            final(self).sent() == old(self).sent(),
            final(self).stream() == old(self).stream(),
    {
        match self.event_queue.take_event() {
            Some(event) => event,
            None => TelnetEvent::Error(Error::InternalQueueErr),
        }
    }
}

impl<S: ZCStream> Telnet<S> {
    /// Tells the transport to unpack what it reads from now on: the
    /// transport is as its own `begin_zlib` leaves it, and all else stays.
    pub fn begin_zlib(&mut self)
        ensures
            exists|stream: &mut S|
                *stream == old(self).stream() && *final(stream) == final(self).stream()
                    && #[trigger] call_ensures(S::begin_zlib, (stream,), ()),
            final(self).same_state(old(self)),
            final(self).buffer_size() == old(self).buffer_size(),
    {
        self.stream.begin_zlib();
    }

    /// Tells the transport to hand on what it reads as it comes: the
    /// transport is as its own `end_zlib` leaves it, and all else stays.
    pub fn end_zlib(&mut self)
        ensures
            exists|stream: &mut S|
                *stream == old(self).stream() && *final(stream) == final(self).stream()
                    && #[trigger] call_ensures(S::end_zlib, (stream,), ()),
            final(self).same_state(old(self)),
            final(self).buffer_size() == old(self).buffer_size(),
    {
        self.stream.end_zlib();
    }
}

} // verus!
