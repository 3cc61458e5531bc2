use crate::event::{
    events_view, front_of, option_view, EventView, TelnetEvent, TelnetEventQueue,
};
use crate::negotiation::{
    all_off, transition, transition_bytes, transition_events, Action, NegotiationSM, QInput,
    QState, Side,
};
use crate::option::{TelnetOption, TelnetOptionConfigs};
use crate::parse::{initial_state, parse_events, parse_state, Parser, ParserState};
use crate::stream::{brought, Stream};
use vstd::prelude::*;
use vstd::slice::slice_subrange;

verus! {

/// What a received negotiation asks of the registry: which side of the
/// option it moves, by which input, and whether the policy allows it.
pub open spec fn negotiation_move(
    configs: TelnetOptionConfigs,
    action: Action,
    opt: TelnetOption,
) -> (Side, QInput, bool) {
    match action {
        Action::Will => (Side::Remote, QInput::PeerAgrees, configs.spec_is_him_allowed(&opt)),
        Action::Wont => (Side::Remote, QInput::PeerRefuses, false),
        Action::Do => (Side::Local, QInput::PeerAgrees, configs.spec_is_us_allowed(&opt)),
        Action::Dont => (Side::Local, QInput::PeerRefuses, false),
    }
}

/// What a connection makes of parsed events.
pub struct Response {
    /// The registry after the negotiations among the events.
    pub registry: Map<(Side, u8), QState>,
    /// The events for the application: the parsed ones, each negotiation
    /// followed by what the registry reports of it.
    pub events: Seq<EventView>,
    /// The bytes of the replies to the peer.
    pub bytes: Seq<u8>,
}

/// What a connection makes of one more parsed event.
pub open spec fn respond_one(
    before: Response,
    configs: TelnetOptionConfigs,
    event: EventView,
) -> Response {
    match event {
        EventView::Negotiation(action, opt) => {
            let (side, input, allowed) = negotiation_move(configs, action, opt);
            let key = (side, opt.spec_as_byte());
            let step = transition(before.registry[key], input, allowed);
            Response {
                registry: before.registry.insert(key, step.next),
                events: before.events.push(event) + transition_events(side, opt, step),
                bytes: before.bytes + transition_bytes(side, opt, step),
            }
        },
        _ => Response { events: before.events.push(event), ..before },
    }
}

/// What a connection makes of a list of parsed events, taken in order.
pub open spec fn respond(
    registry: Map<(Side, u8), QState>,
    configs: TelnetOptionConfigs,
    parsed: Seq<EventView>,
) -> Response
    decreases parsed.len(),
{
    if parsed.len() == 0 {
        Response { registry, events: Seq::empty(), bytes: Seq::empty() }
    } else {
        respond_one(respond(registry, configs, parsed.drop_last()), configs, parsed.last())
    }
}

/// A Telnet connection that answers the peer's negotiations by itself,
/// within a policy, after RFC 1143.
pub struct TelnetConnection<S: Stream> {
    stream: S,
    option_configs: TelnetOptionConfigs,
    event_queue: TelnetEventQueue,
    parser: Parser,
    buffer: Vec<u8>,
    outgoing: Vec<u8>,
    negotiation_sm: NegotiationSM,
    sent: Ghost<Seq<u8>>,
}

impl<S: Stream> TelnetConnection<S> {
    /// The transport.
    pub closed spec fn stream(&self) -> S {
        self.stream
    }

    /// The policy.
    pub closed spec fn configs(&self) -> TelnetOptionConfigs {
        self.option_configs
    }

    /// The events that wait to be read.
    pub closed spec fn queue(&self) -> Seq<EventView> {
        self.event_queue@
    }

    /// Where the parser stands.
    pub closed spec fn parser_state(&self) -> ParserState {
        self.parser@
    }

    /// The state of every side of every option.
    pub closed spec fn registry(&self) -> Map<(Side, u8), QState> {
        self.negotiation_sm@
    }

    /// The commands that are still to be sent.
    pub closed spec fn unsent(&self) -> Seq<u8> {
        self.outgoing@
    }

    /// All that this connection has handed to the transport in writes that
    /// succeeded, in order.
    pub closed spec fn sent(&self) -> Seq<u8> {
        self.sent@
    }

    /// How many bytes one read of the transport may bring.
    pub closed spec fn buffer_size(&self) -> nat {
        self.buffer@.len()
    }

    /// Whether all but the transport is as in `before`.
    pub open spec fn same_state(&self, before: &Self) -> bool {
        &&& self.queue() == before.queue()
        &&& self.parser_state() == before.parser_state()
        &&& self.registry() == before.registry()
        &&& self.configs() == before.configs()
        &&& self.unsent() == before.unsent()
        &&& self.sent() == before.sent()
    }

    /// What taking in `bytes` makes of a connection: the parser has read
    /// them, the registry has taken the negotiations among them, and the
    /// events and replies have been added to those that wait.
    pub open spec fn absorbed(&self, before: &Self, bytes: Seq<u8>) -> bool {
        let response = respond(
            before.registry(),
            before.configs(),
            parse_events(before.parser_state(), bytes),
        );
        &&& self.parser_state() == parse_state(before.parser_state(), bytes)
        &&& self.registry() == response.registry
        &&& self.queue() == before.queue() + response.events
        &&& self.unsent() == before.unsent() + response.bytes
        &&& self.sent() == before.sent()
        &&& self.configs() == before.configs()
    }

    /// What sending the commands that wait leaves, but for the queue: they
    /// have been sent as they waited, none waits, and parser, registry and
    /// policy are as in `before`.
    pub open spec fn flushed(&self, before: &Self) -> bool {
        &&& self.parser_state() == before.parser_state()
        &&& self.registry() == before.registry()
        &&& self.configs() == before.configs()
        &&& self.unsent() == Seq::<u8>::empty()
        &&& self.sent() == before.sent() + before.unsent()
    }

    /// What a pass that took in `bytes` and sent every command leaves, with
    /// `waiting` for the queue before an event is taken from it.
    pub open spec fn served(&self, before: &Self, bytes: Seq<u8>, waiting: Seq<EventView>) -> bool {
        let response = respond(
            before.registry(),
            before.configs(),
            parse_events(before.parser_state(), bytes),
        );
        &&& self.parser_state() == parse_state(before.parser_state(), bytes)
        &&& self.registry() == response.registry
        &&& waiting == before.queue() + response.events
        &&& self.unsent() == Seq::<u8>::empty()
        &&& self.sent() == before.sent() + (before.unsent() + response.bytes)
        &&& self.configs() == before.configs()
    }

    /// What a request of the application makes of a connection before
    /// anything is sent: the registry has moved, and the events and the
    /// command of the move have been added to those that wait.
    pub open spec fn requested(
        &self,
        before: &Self,
        side: Side,
        opt: TelnetOption,
        input: QInput,
    ) -> bool {
        let key = (side, opt.spec_as_byte());
        let step = transition(before.registry()[key], input, false);
        &&& self.parser_state() == before.parser_state()
        &&& self.registry() == before.registry().insert(key, step.next)
        &&& self.queue() == before.queue() + transition_events(side, opt, step)
        &&& self.unsent() == before.unsent() + transition_bytes(side, opt, step)
        &&& self.sent() == before.sent()
        &&& self.configs() == before.configs()
    }

    /// What a request of the application leaves where every command could
    /// be sent: as [`Self::requested`], with the commands sent.
    pub open spec fn requested_and_sent(
        &self,
        before: &Self,
        side: Side,
        opt: TelnetOption,
        input: QInput,
    ) -> bool {
        let key = (side, opt.spec_as_byte());
        let step = transition(before.registry()[key], input, false);
        &&& self.parser_state() == before.parser_state()
        &&& self.registry() == before.registry().insert(key, step.next)
        &&& self.queue() == before.queue() + transition_events(side, opt, step)
        &&& self.unsent() == Seq::<u8>::empty()
        &&& self.sent() == before.sent() + (before.unsent() + transition_bytes(side, opt, step))
        &&& self.configs() == before.configs()
    }

    /// The commands that wait once a request of the application has been
    /// made of the connection `self`: those that waited, and the command of
    /// the request where it calls for one.
    pub open spec fn commands_after_request(
        &self,
        side: Side,
        opt: TelnetOption,
        input: QInput,
    ) -> Seq<u8> {
        self.unsent() + transition_bytes(
            side,
            opt,
            transition(self.registry()[(side, opt.spec_as_byte())], input, false),
        )
    }

    /// What the connection `self` makes of `bytes` that it takes in.
    pub open spec fn response_to(&self, bytes: Seq<u8>) -> Response {
        respond(self.registry(), self.configs(), parse_events(self.parser_state(), bytes))
    }

    /// A connection over `stream` with the given policy that reads at most
    /// `buf_size` bytes at a time, and at least one. Every option is off.
    pub fn new(stream: S, option_configs: TelnetOptionConfigs, buf_size: usize) -> (connection:
        TelnetConnection<S>)
        ensures
            connection.stream() == stream,
            connection.configs() == option_configs,
            connection.queue() == Seq::<EventView>::empty(),
            connection.parser_state() == initial_state(),
            connection.registry() == all_off(),
            connection.unsent() == Seq::<u8>::empty(),
            connection.sent() == Seq::<u8>::empty(),
            connection.buffer_size() == if buf_size == 0 {
                1
            } else {
                buf_size as int
            },
    {
        let actual_size: usize = if buf_size == 0 {
            1
        } else {
            buf_size
        };
        TelnetConnection {
            stream,
            option_configs,
            event_queue: TelnetEventQueue::new(),
            parser: Parser::new(),
            buffer: vec![0u8; actual_size],
            outgoing: Vec::new(),
            negotiation_sm: NegotiationSM::new(),
            sent: Ghost(Seq::empty()),
        }
    }

    /// The state of one side of one option.
    pub fn state(&self, side: Side, opt: TelnetOption) -> (state: QState)
        ensures
            state == self.registry()[(side, opt.spec_as_byte())],
    {
        self.negotiation_sm.state(side, opt)
    }

    /// One pass of reading an event. Where no event waits, it first reads
    /// from the transport once and takes in what came, as [`Self::process`]
    /// does. It then sends the commands that wait in one write, and hands
    /// out the event at the front of the queue; where there is none it
    /// returns `None`, and the caller who wants an event calls again.
    ///
    /// Where the transport fails, its error is returned. Commands that
    /// could not be sent keep waiting for the next call. Where an event
    /// waits and no command does, the transport is not called and the pass
    /// cannot fail.
    pub fn read_event(&mut self) -> (result: Result<Option<TelnetEvent>, std::io::Error>)
        ensures
            old(self).queue().len() > 0 && old(self).unsent().len() == 0 ==> result is Ok
                && final(self).stream() == old(self).stream(),
            old(self).queue().len() > 0 && old(self).unsent().len() > 0 ==> exists|
                stream: &mut S,
                commands: &[u8],
                outcome: Result<(), std::io::Error>,
            |
                *stream == old(self).stream() && *final(stream) == final(self).stream()
                    && commands@ == old(self).unsent() && #[trigger] call_ensures(
                    S::write_all,
                    (stream, commands),
                    outcome,
                ) && match outcome {
                    Ok(_) => result is Ok,
                    Err(error) => result == Err::<Option<TelnetEvent>, std::io::Error>(error),
                },
            old(self).queue().len() > 0 ==> match result {
                Ok(event) => final(self).flushed(old(self)) && (
                option_view(event),
                final(self).queue(),
                ) == front_of(old(self).queue()),
                Err(_) => final(self).same_state(old(self)),
            },
            old(self).queue().len() == 0 ==> exists|
                stream: &mut S,
                room: &mut [u8],
                got: Result<usize, std::io::Error>,
            |
                *stream == old(self).stream() && room@.len() == old(self).buffer_size()
                    && #[trigger] call_ensures(S::read, (stream, room), got) && match got {
                    Err(error) => result == Err::<Option<TelnetEvent>, std::io::Error>(error)
                        && final(self).stream() == *final(stream) && final(self).same_state(
                        old(self),
                    ),
                    Ok(size) => {
                        let bytes = brought(final(room)@, size);
                        let response = old(self).response_to(bytes);
                        let waiting = old(self).queue() + response.events;
                        let commands = old(self).unsent() + response.bytes;
                        if commands.len() == 0 {
                            &&& final(self).stream() == *final(stream)
                            &&& result is Ok
                            &&& final(self).served(old(self), bytes, waiting)
                            &&& (option_view(result->Ok_0), final(self).queue()) == front_of(
                                waiting,
                            )
                        } else {
                            exists|
                                second: &mut S,
                                replies: &[u8],
                                outcome: Result<(), std::io::Error>,
                            |
                                *second == *final(stream)
                                    && *final(second) == final(self).stream()
                                    && replies@ == commands && #[trigger] call_ensures(
                                    S::write_all,
                                    (second, replies),
                                    outcome,
                                ) && match outcome {
                                    Ok(_) => {
                                        &&& result is Ok
                                        &&& final(self).served(old(self), bytes, waiting)
                                        &&& (
                                            option_view(result->Ok_0),
                                            final(self).queue(),
                                        ) == front_of(waiting)
                                    },
                                    Err(error) => result == Err::<
                                        Option<TelnetEvent>,
                                        std::io::Error,
                                    >(error) && final(self).absorbed(old(self), bytes),
                                }
                        }
                    },
                },
            old(self).queue().len() == 0 ==> match result {
                Ok(event) => exists|bytes: Seq<u8>, waiting: Seq<EventView>|
                    final(self).served(old(self), bytes, waiting) && (
                    option_view(event),
                    final(self).queue(),
                    ) == front_of(waiting),
                Err(_) => final(self).same_state(old(self)) || exists|bytes: Seq<u8>|
                    final(self).absorbed(old(self), bytes),
            },
    {
        if self.event_queue.is_empty() {
            let size = match self.stream.read(self.buffer.as_mut_slice()) {
                Ok(size) => size,
                Err(error) => {
                    return Err(error);
                },
            };
            let Ghost(bytes) = self.process_buffer(size);
            let ghost waiting = self.queue();
            match self.send_replies() {
                Ok(()) => {},
                Err(error) => {
                    assert(self.absorbed(old(self), bytes));
                    return Err(error);
                },
            }
            let event = self.event_queue.take_event();
            assert(self.served(old(self), bytes, waiting));
            Ok(event)
        } else {
            match self.send_replies() {
                Ok(()) => Ok(self.event_queue.take_event()),
                Err(error) => Err(error),
            }
        }
    }

    /// Takes bytes that the transport brought: the parser reads them, the
    /// events they complete go to the back of the queue, and the registry
    /// answers each negotiation among them within the policy. What it
    /// reports goes to the queue right behind the negotiation, and what it
    /// replies waits to be sent.
    pub fn process(&mut self, received: &[u8])
        ensures
            final(self).absorbed(old(self), received@),
            final(self).stream() == old(self).stream(),
            final(self).buffer_size() == old(self).buffer_size(),
    {
        let events = self.parser.parse(received);
        let ghost parsed = events_view(events@);
        let ghost all = events@;
        let ghost registry = self.registry();
        let ghost configs = self.configs();
        for event in iter: events
            invariant
                iter.seq() == all,
                parsed == events_view(all),
                registry == old(self).registry(),
                configs == old(self).configs(),
                self.configs() == configs,
                self.stream() == old(self).stream(),
                self.sent() == old(self).sent(),
                self.buffer_size() == old(self).buffer_size(),
                self.parser_state() == parse_state(old(self).parser_state(), received@),
                self.registry() == respond(
                    registry,
                    configs,
                    parsed.take(iter.index() as int),
                ).registry,
                self.queue() == old(self).queue() + respond(
                    registry,
                    configs,
                    parsed.take(iter.index() as int),
                ).events,
                self.unsent() == old(self).unsent() + respond(
                    registry,
                    configs,
                    parsed.take(iter.index() as int),
                ).bytes,
        {
            proof {
                let done = iter.index() as int;
                assert(parsed.take(done + 1).drop_last() =~= parsed.take(done));
            }
            match event {
                TelnetEvent::Negotiation(action, opt) => {
                    self.event_queue.push_event(TelnetEvent::Negotiation(action, opt));
                    match action {
                        Action::Will => {
                            let allowed = self.option_configs.is_him_allowed(&opt);
                            self.negotiation_sm.receive_will(
                                &mut self.event_queue,
                                &mut self.outgoing,
                                opt,
                                allowed,
                            );
                        },
                        Action::Wont => {
                            self.negotiation_sm.receive_wont(
                                &mut self.event_queue,
                                &mut self.outgoing,
                                opt,
                            );
                        },
                        Action::Do => {
                            let allowed = self.option_configs.is_us_allowed(&opt);
                            self.negotiation_sm.receive_do(
                                &mut self.event_queue,
                                &mut self.outgoing,
                                opt,
                                allowed,
                            );
                        },
                        Action::Dont => {
                            self.negotiation_sm.receive_dont(
                                &mut self.event_queue,
                                &mut self.outgoing,
                                opt,
                            );
                        },
                    }
                },
                other => {
                    self.event_queue.push_event(other);
                },
            }
        }
        assert(parsed.take(parsed.len() as int) =~= parsed);
    }

    /// Asks the peer to use an option, and sends the command where the
    /// request calls for one now. Where the transport fails, the request
    /// stands and the command keeps waiting.
    pub fn ask_enable(&mut self, opt: TelnetOption) -> (result: Result<(), std::io::Error>)
        ensures
            old(self).commands_after_request(
                Side::Remote,
                opt,
                QInput::AskEnable,
            ).len() == 0 ==> result is Ok
                && final(self).stream() == old(self).stream(),
            old(self).commands_after_request(
                Side::Remote,
                opt,
                QInput::AskEnable,
            ).len() > 0 ==> exists|stream: &mut S, commands: &[u8]|
                *stream == old(self).stream() && *final(stream) == final(self).stream()
                    && commands@ == old(self).commands_after_request(
                    Side::Remote,
                    opt,
                    QInput::AskEnable,
                ) && #[trigger] call_ensures(S::write_all, (stream, commands), result),
            result is Ok ==> final(self).requested_and_sent(
                old(self),
                Side::Remote,
                opt,
                QInput::AskEnable,
            ),
            result is Err ==> final(self).requested(
                old(self),
                Side::Remote,
                opt,
                QInput::AskEnable,
            ),
    {
        self.request(Side::Remote, opt, QInput::AskEnable)
    }

    /// Asks the peer to stop using an option, and sends the command where
    /// the request calls for one now. Where the transport fails, the request
    /// stands and the command keeps waiting.
    pub fn ask_disable(&mut self, opt: TelnetOption) -> (result: Result<(), std::io::Error>)
        ensures
            old(self).commands_after_request(
                Side::Remote,
                opt,
                QInput::AskDisable,
            ).len() == 0 ==> result is Ok
                && final(self).stream() == old(self).stream(),
            old(self).commands_after_request(
                Side::Remote,
                opt,
                QInput::AskDisable,
            ).len() > 0 ==> exists|stream: &mut S, commands: &[u8]|
                *stream == old(self).stream() && *final(stream) == final(self).stream()
                    && commands@ == old(self).commands_after_request(
                    Side::Remote,
                    opt,
                    QInput::AskDisable,
                ) && #[trigger] call_ensures(S::write_all, (stream, commands), result),
            result is Ok ==> final(self).requested_and_sent(
                old(self),
                Side::Remote,
                opt,
                QInput::AskDisable,
            ),
            result is Err ==> final(self).requested(
                old(self),
                Side::Remote,
                opt,
                QInput::AskDisable,
            ),
    {
        self.request(Side::Remote, opt, QInput::AskDisable)
    }

    /// Announces that we want to use an option, and sends the command where
    /// the request calls for one now. Where the transport fails, the request
    /// stands and the command keeps waiting.
    pub fn inform_enable(&mut self, opt: TelnetOption) -> (result: Result<(), std::io::Error>)
        ensures
            old(self).commands_after_request(
                Side::Local,
                opt,
                QInput::AskEnable,
            ).len() == 0 ==> result is Ok
                && final(self).stream() == old(self).stream(),
            old(self).commands_after_request(
                Side::Local,
                opt,
                QInput::AskEnable,
            ).len() > 0 ==> exists|stream: &mut S, commands: &[u8]|
                *stream == old(self).stream() && *final(stream) == final(self).stream()
                    && commands@ == old(self).commands_after_request(
                    Side::Local,
                    opt,
                    QInput::AskEnable,
                ) && #[trigger] call_ensures(S::write_all, (stream, commands), result),
            result is Ok ==> final(self).requested_and_sent(
                old(self),
                Side::Local,
                opt,
                QInput::AskEnable,
            ),
            result is Err ==> final(self).requested(
                old(self),
                Side::Local,
                opt,
                QInput::AskEnable,
            ),
    {
        self.request(Side::Local, opt, QInput::AskEnable)
    }

    /// Announces that we stop using an option, and sends the command where
    /// the request calls for one now. Where the transport fails, the request
    /// stands and the command keeps waiting.
    pub fn inform_disable(&mut self, opt: TelnetOption) -> (result: Result<(), std::io::Error>)
        ensures
            old(self).commands_after_request(
                Side::Local,
                opt,
                QInput::AskDisable,
            ).len() == 0 ==> result is Ok
                && final(self).stream() == old(self).stream(),
            old(self).commands_after_request(
                Side::Local,
                opt,
                QInput::AskDisable,
            ).len() > 0 ==> exists|stream: &mut S, commands: &[u8]|
                *stream == old(self).stream() && *final(stream) == final(self).stream()
                    && commands@ == old(self).commands_after_request(
                    Side::Local,
                    opt,
                    QInput::AskDisable,
                ) && #[trigger] call_ensures(S::write_all, (stream, commands), result),
            result is Ok ==> final(self).requested_and_sent(
                old(self),
                Side::Local,
                opt,
                QInput::AskDisable,
            ),
            result is Err ==> final(self).requested(
                old(self),
                Side::Local,
                opt,
                QInput::AskDisable,
            ),
    {
        self.request(Side::Local, opt, QInput::AskDisable)
    }

    /// Makes a request of the application of one side of an option, and
    /// sends the commands that wait.
    fn request(&mut self, side: Side, opt: TelnetOption, input: QInput) -> (result: Result<
        (),
        std::io::Error,
    >)
        ensures
            old(self).commands_after_request(side, opt, input).len() == 0 ==> result is Ok
                && final(self).stream() == old(self).stream(),
            old(self).commands_after_request(side, opt, input).len() > 0 ==> exists|
                stream: &mut S,
                commands: &[u8],
            |
                *stream == old(self).stream() && *final(stream) == final(self).stream()
                    && commands@ == old(self).commands_after_request(side, opt, input)
                    && #[trigger] call_ensures(S::write_all, (stream, commands), result),
            result is Ok ==> final(self).requested_and_sent(old(self), side, opt, input),
            result is Err ==> final(self).requested(old(self), side, opt, input),
    {
        self.negotiation_sm.handle(
            &mut self.event_queue,
            &mut self.outgoing,
            side,
            opt,
            input,
            false,
        );
        self.send_replies()
    }

    /// Takes in the first `size` bytes of the buffer, or all of it where it
    /// holds fewer, and says which bytes these were.
    fn process_buffer(&mut self, size: usize) -> (bytes: Ghost<Seq<u8>>)
        ensures
            bytes@ == brought(old(self).buffer@, size),
            final(self).buffer@ == old(self).buffer@,
            final(self).absorbed(old(self), bytes@),
            final(self).stream() == old(self).stream(),
    {
        let mut buffer: Vec<u8> = Vec::new();
        core::mem::swap(&mut self.buffer, &mut buffer);
        let count: usize = if size <= buffer.len() {
            size
        } else {
            buffer.len()
        };
        let received = slice_subrange(buffer.as_slice(), 0, count);
        assert(received@ =~= brought(buffer@, size));
        self.process(received);
        core::mem::swap(&mut self.buffer, &mut buffer);
        Ghost(received@)
    }

    /// Hands the commands that wait to the transport in one write, and
    /// keeps account of them where the write succeeds: the transport is as
    /// its own `write_all` leaves it, and the result is what that returned.
    /// Where no command waits, nothing is written and nothing can fail.
    fn send_replies(&mut self) -> (result: Result<(), std::io::Error>)
        ensures
            old(self).unsent().len() == 0 ==> result is Ok
                && final(self).stream() == old(self).stream(),
            old(self).unsent().len() > 0 ==> exists|stream: &mut S, commands: &[u8]|
                *stream == old(self).stream() && *final(stream) == final(self).stream()
                    && commands@ == old(self).unsent() && #[trigger] call_ensures(
                    S::write_all,
                    (stream, commands),
                    result,
                ),
            result is Ok ==> final(self).flushed(old(self)),
            result is Ok ==> final(self).queue() == old(self).queue(),
            result is Err ==> final(self).same_state(old(self)),
            final(self).buffer_size() == old(self).buffer_size(),
    {
        if self.outgoing.len() > 0 {
            let result = self.stream.write_all(self.outgoing.as_slice());
            if result.is_ok() {
                self.sent = Ghost(self.sent@ + self.outgoing@);
                self.outgoing.clear();
            }
            result
        } else {
            assert(self.unsent() =~= Seq::<u8>::empty());
            Ok(())
        }
    }
}

} // verus!
