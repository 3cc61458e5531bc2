use crate::byte::{BYTE_DO, BYTE_DONT, BYTE_WILL, BYTE_WONT};
use crate::error::Error;
use crate::event::{EventView, TelnetEvent, TelnetEventQueue};
use crate::format::{negotiation, negotiation_frame};
use crate::option::TelnetOption;
use vstd::prelude::*;

verus! {

/// The four negotiation commands.
#[derive(Debug, PartialEq, Eq, Clone, Copy, Structural)]
pub enum Action {
    Will,
    Wont,
    Do,
    Dont,
}

impl Action {
    /// The command byte of an action: 251 for WILL, 252 for WONT, 253 for DO
    /// and 254 for DONT.
    pub open spec fn spec_as_byte(&self) -> u8 {
        match *self {
            Action::Will => 251u8,
            Action::Wont => 252u8,
            Action::Do => 253u8,
            Action::Dont => 254u8,
        }
    }

    /// The command byte of this action.
    #[verifier::when_used_as_spec(spec_as_byte)]
    pub fn as_byte(&self) -> (byte: u8)
        ensures
            byte == self.spec_as_byte(),
    {
        match *self {
            Action::Will => BYTE_WILL,
            Action::Wont => BYTE_WONT,
            Action::Do => BYTE_DO,
            Action::Dont => BYTE_DONT,
        }
    }
}

/// The state of one side of one option, after RFC 1143.
#[derive(Debug, PartialEq, Eq, Clone, Copy, Structural)]
pub enum QState {
    /// The option is off.
    No,
    /// The option is on.
    Yes,
    /// Asked to turn it off; waiting for the answer.
    WantNoEmpty,
    /// Asked to turn it off, and since asked to turn it on again.
    WantNoOpposite,
    /// Asked to turn it on; waiting for the answer.
    WantYesEmpty,
    /// Asked to turn it on, and since asked to turn it off again.
    WantYesOpposite,
}

impl Default for QState {
    /// A side that nobody has spoken of is off.
    fn default() -> (state: QState)
        ensures
            state == QState::No,
    {
        QState::No
    }
}

/// The side of an option: whether we use it, or whether the peer does.
#[derive(Debug, PartialEq, Eq, Clone, Copy, Structural)]
pub enum Side {
    /// Our use of the option. The peer speaks of it with DO and DONT, we
    /// with WILL and WONT.
    Local,
    /// The peer's use of the option. The peer speaks of it with WILL and
    /// WONT, we with DO and DONT.
    Remote,
}

/// What moves a side.
#[derive(Debug, PartialEq, Eq, Clone, Copy, Structural)]
pub enum QInput {
    /// The peer is for the option: WILL on the remote side, DO on the local.
    PeerAgrees,
    /// The peer is against it: WONT on the remote side, DONT on the local.
    PeerRefuses,
    /// The application asks to turn the option on.
    AskEnable,
    /// The application asks to turn the option off.
    AskDisable,
}

/// What a side sends to the peer.
#[derive(Debug, PartialEq, Eq, Clone, Copy, Structural)]
pub enum Reply {
    /// For the option: DO on the remote side, WILL on the local.
    Accept,
    /// Against it: DONT on the remote side, WONT on the local.
    Reject,
}

/// What a move changes for the application.
#[derive(Debug, PartialEq, Eq, Clone, Copy, Structural)]
pub enum Change {
    Enabled,
    Disabled,
}

/// Why a move is reported as an error.
#[derive(Debug, PartialEq, Eq, Clone, Copy, Structural)]
pub enum Fault {
    /// The peer answered what was not asked.
    PeerViolation,
    /// Asked to turn on what is on.
    AlreadyEnabled,
    /// Asked to turn off what is off.
    AlreadyDisabled,
    /// The same request is already waiting behind the running negotiation.
    AlreadyQueued,
    /// The same request is what the running negotiation is about.
    AlreadyNegotiating,
}

/// One move of a side: where it goes, and what it sends and reports.
#[derive(Debug, PartialEq, Eq, Clone, Copy, Structural)]
pub struct Transition {
    pub next: QState,
    pub reply: Option<Reply>,
    pub change: Option<Change>,
    pub fault: Option<Fault>,
}

/// A move that sends and reports nothing.
pub open spec fn quiet(next: QState) -> Transition {
    Transition { next, reply: None, change: None, fault: None }
}

/// The move of a side whose peer is for the option. `allowed` is the
/// policy: whether this side may be turned on at the peer's wish.
pub open spec fn on_agree(state: QState, allowed: bool) -> Transition {
    match state {
        QState::No => if allowed {
            Transition {
                next: QState::Yes,
                reply: Some(Reply::Accept),
                change: Some(Change::Enabled),
                fault: None,
            }
        } else {
            Transition { next: QState::No, reply: Some(Reply::Reject), change: None, fault: None }
        },
        QState::Yes => quiet(QState::Yes),
        QState::WantNoEmpty => Transition {
            next: QState::No,
            reply: None,
            change: Some(Change::Disabled),
            fault: Some(Fault::PeerViolation),
        },
        QState::WantNoOpposite => Transition {
            next: QState::Yes,
            reply: None,
            change: Some(Change::Enabled),
            fault: Some(Fault::PeerViolation),
        },
        QState::WantYesEmpty => Transition {
            next: QState::Yes,
            reply: None,
            change: Some(Change::Enabled),
            fault: None,
        },
        QState::WantYesOpposite => Transition {
            next: QState::WantNoEmpty,
            reply: Some(Reply::Reject),
            change: None,
            fault: None,
        },
    }
}

/// The move of a side whose peer is against the option.
pub open spec fn on_refuse(state: QState) -> Transition {
    match state {
        QState::No => quiet(QState::No),
        QState::Yes => Transition {
            next: QState::No,
            reply: Some(Reply::Reject),
            change: Some(Change::Disabled),
            fault: None,
        },
        QState::WantNoOpposite => Transition {
            next: QState::WantYesEmpty,
            reply: Some(Reply::Accept),
            change: None,
            fault: None,
        },
        _ => Transition {
            next: QState::No,
            reply: None,
            change: Some(Change::Disabled),
            fault: None,
        },
    }
}

/// The move of a side that the application asks to turn on.
pub open spec fn on_ask_enable(state: QState) -> Transition {
    match state {
        QState::No => Transition {
            next: QState::WantYesEmpty,
            reply: Some(Reply::Accept),
            change: None,
            fault: None,
        },
        QState::Yes => Transition {
            next: state,
            reply: None,
            change: None,
            fault: Some(Fault::AlreadyEnabled),
        },
        QState::WantNoEmpty => quiet(QState::WantNoOpposite),
        QState::WantNoOpposite => Transition {
            next: state,
            reply: None,
            change: None,
            fault: Some(Fault::AlreadyQueued),
        },
        QState::WantYesEmpty => Transition {
            next: state,
            reply: None,
            change: None,
            fault: Some(Fault::AlreadyNegotiating),
        },
        QState::WantYesOpposite => quiet(QState::WantYesEmpty),
    }
}

/// The move of a side that the application asks to turn off: that of
/// [`on_ask_enable`] with on and off exchanged.
pub open spec fn on_ask_disable(state: QState) -> Transition {
    match state {
        QState::Yes => Transition {
            next: QState::WantNoEmpty,
            reply: Some(Reply::Reject),
            change: None,
            fault: None,
        },
        QState::No => Transition {
            next: state,
            reply: None,
            change: None,
            fault: Some(Fault::AlreadyDisabled),
        },
        QState::WantYesEmpty => quiet(QState::WantYesOpposite),
        QState::WantYesOpposite => Transition {
            next: state,
            reply: None,
            change: None,
            fault: Some(Fault::AlreadyQueued),
        },
        QState::WantNoEmpty => Transition {
            next: state,
            reply: None,
            change: None,
            fault: Some(Fault::AlreadyNegotiating),
        },
        QState::WantNoOpposite => quiet(QState::WantNoEmpty),
    }
}

/// The move of a side on any input. The policy counts only where the peer
/// is for the option.
pub open spec fn transition(state: QState, input: QInput, allowed: bool) -> Transition {
    match input {
        QInput::PeerAgrees => on_agree(state, allowed),
        QInput::PeerRefuses => on_refuse(state),
        QInput::AskEnable => on_ask_enable(state),
        QInput::AskDisable => on_ask_disable(state),
    }
}

/// The command by which a side sends a reply.
pub open spec fn reply_action(side: Side, reply: Reply) -> Action {
    match (side, reply) {
        (Side::Remote, Reply::Accept) => Action::Do,
        (Side::Remote, Reply::Reject) => Action::Dont,
        (Side::Local, Reply::Accept) => Action::Will,
        (Side::Local, Reply::Reject) => Action::Wont,
    }
}

/// The event by which a side reports a change.
pub open spec fn change_event(side: Side, opt: TelnetOption, change: Change) -> EventView {
    match (side, change) {
        (Side::Remote, Change::Enabled) => EventView::RemoteEnabled(opt),
        (Side::Remote, Change::Disabled) => EventView::RemoteDisabled(opt),
        (Side::Local, Change::Enabled) => EventView::LocalShouldEnable(opt),
        (Side::Local, Change::Disabled) => EventView::LocalShouldDisable(opt),
    }
}

/// The bytes that a move sends: the frame of its reply, or nothing.
pub open spec fn transition_bytes(side: Side, opt: TelnetOption, step: Transition) -> Seq<u8> {
    match step.reply {
        Some(reply) => negotiation_frame(reply_action(side, reply), opt),
        None => Seq::empty(),
    }
}

/// The events that a move reports: an error for its fault, then its change.
pub open spec fn transition_events(side: Side, opt: TelnetOption, step: Transition) -> Seq<
    EventView,
> {
    let faults = match step.fault {
        Some(_) => seq![EventView::Error(Error::NegotiationErr)],
        None => Seq::empty(),
    };
    let changes = match step.change {
        Some(change) => seq![change_event(side, opt, change)],
        None => Seq::empty(),
    };
    faults + changes
}

impl QState {
    /// Moves one side by one input.
    pub fn advance(self, input: QInput, allowed: bool) -> (step: Transition)
        ensures
            step == transition(self, input, allowed),
    {
        let stay = Transition { next: self, reply: None, change: None, fault: None };
        match input {
            QInput::PeerAgrees => match self {
                QState::No => if allowed {
                    Transition {
                        next: QState::Yes,
                        reply: Some(Reply::Accept),
                        change: Some(Change::Enabled),
                        fault: None,
                    }
                } else {
                    Transition { reply: Some(Reply::Reject), ..stay }
                },
                QState::Yes => stay,
                QState::WantNoEmpty => Transition {
                    next: QState::No,
                    reply: None,
                    change: Some(Change::Disabled),
                    fault: Some(Fault::PeerViolation),
                },
                QState::WantNoOpposite => Transition {
                    next: QState::Yes,
                    reply: None,
                    change: Some(Change::Enabled),
                    fault: Some(Fault::PeerViolation),
                },
                QState::WantYesEmpty => Transition {
                    next: QState::Yes,
                    change: Some(Change::Enabled),
                    ..stay
                },
                QState::WantYesOpposite => Transition {
                    next: QState::WantNoEmpty,
                    reply: Some(Reply::Reject),
                    ..stay
                },
            },
            QInput::PeerRefuses => match self {
                QState::No => stay,
                QState::Yes => Transition {
                    next: QState::No,
                    reply: Some(Reply::Reject),
                    change: Some(Change::Disabled),
                    fault: None,
                },
                QState::WantNoOpposite => Transition {
                    next: QState::WantYesEmpty,
                    reply: Some(Reply::Accept),
                    ..stay
                },
                QState::WantNoEmpty | QState::WantYesEmpty | QState::WantYesOpposite => Transition {
                    next: QState::No,
                    change: Some(Change::Disabled),
                    ..stay
                },
            },
            QInput::AskEnable => match self {
                QState::No => Transition {
                    next: QState::WantYesEmpty,
                    reply: Some(Reply::Accept),
                    ..stay
                },
                QState::Yes => Transition { fault: Some(Fault::AlreadyEnabled), ..stay },
                QState::WantNoEmpty => Transition { next: QState::WantNoOpposite, ..stay },
                QState::WantNoOpposite => Transition { fault: Some(Fault::AlreadyQueued), ..stay },
                QState::WantYesEmpty => Transition {
                    fault: Some(Fault::AlreadyNegotiating),
                    ..stay
                },
                QState::WantYesOpposite => Transition { next: QState::WantYesEmpty, ..stay },
            },
            QInput::AskDisable => match self {
                QState::Yes => Transition {
                    next: QState::WantNoEmpty,
                    reply: Some(Reply::Reject),
                    ..stay
                },
                QState::No => Transition { fault: Some(Fault::AlreadyDisabled), ..stay },
                QState::WantYesEmpty => Transition { next: QState::WantYesOpposite, ..stay },
                QState::WantYesOpposite => Transition { fault: Some(Fault::AlreadyQueued), ..stay },
                QState::WantNoEmpty => Transition {
                    fault: Some(Fault::AlreadyNegotiating),
                    ..stay
                },
                QState::WantNoOpposite => Transition { next: QState::WantNoEmpty, ..stay },
            },
        }
    }
}

/// The state of both sides of every option, by side and option code.
pub struct NegotiationSM {
    us: [QState; 256],
    him: [QState; 256],
}

impl View for NegotiationSM {
    type V = Map<(Side, u8), QState>;

    closed spec fn view(&self) -> Map<(Side, u8), QState> {
        Map::total(
            |key: (Side, u8)|
                match key.0 {
                    Side::Local => self.us@[key.1 as int],
                    Side::Remote => self.him@[key.1 as int],
                },
        )
    }
}

/// The registry in which every side of every option is off.
pub open spec fn all_off() -> Map<(Side, u8), QState> {
    Map::total(|key: (Side, u8)| QState::No)
}

impl NegotiationSM {
    /// A registry in which every side of every option is off.
    pub fn new() -> (sm: NegotiationSM)
        ensures
            sm@ == all_off(),
    {
        NegotiationSM { us: [QState::No; 256], him: [QState::No; 256] }
    }

    /// The state of one side of one option.
    pub fn state(&self, side: Side, opt: TelnetOption) -> (state: QState)
        ensures
            state == self@[(side, opt.spec_as_byte())],
    {
        let code: u8 = opt.as_byte();
        match side {
            Side::Local => self.us[code as usize],
            Side::Remote => self.him[code as usize],
        }
    }

    /// Moves one side of one option by one input: the registry takes the
    /// next state, the events of the move go to the back of `queue`, and the
    /// bytes of its reply to the end of `outgoing`.
    pub fn handle(
        &mut self,
        queue: &mut TelnetEventQueue,
        outgoing: &mut Vec<u8>,
        side: Side,
        opt: TelnetOption,
        input: QInput,
        allowed: bool,
    ) -> (step: Transition)
        ensures
            step == transition(old(self)@[(side, opt.spec_as_byte())], input, allowed),
            final(self)@ == old(self)@.insert((side, opt.spec_as_byte()), step.next),
            final(queue)@ == old(queue)@ + transition_events(side, opt, step),
            final(outgoing)@ == old(outgoing)@ + transition_bytes(side, opt, step),
    {
        let code: u8 = opt.as_byte();
        let step = self.state(side, opt).advance(input, allowed);
        match side {
            Side::Local => {
                self.us[code as usize] = step.next;
            },
            Side::Remote => {
                self.him[code as usize] = step.next;
            },
        }
        if step.fault.is_some() {
            queue.push_event(TelnetEvent::Error(Error::NegotiationErr));
        }
        match step.change {
            Some(Change::Enabled) => {
                match side {
                    Side::Local => queue.push_event(TelnetEvent::LocalShouldEnable(opt)),
                    Side::Remote => queue.push_event(TelnetEvent::RemoteEnabled(opt)),
                }
            },
            Some(Change::Disabled) => {
                match side {
                    Side::Local => queue.push_event(TelnetEvent::LocalShouldDisable(opt)),
                    Side::Remote => queue.push_event(TelnetEvent::RemoteDisabled(opt)),
                }
            },
            None => {},
        }
        match step.reply {
            Some(reply) => {
                let action = match (side, reply) {
                    (Side::Remote, Reply::Accept) => Action::Do,
                    (Side::Remote, Reply::Reject) => Action::Dont,
                    (Side::Local, Reply::Accept) => Action::Will,
                    (Side::Local, Reply::Reject) => Action::Wont,
                };
                let frame = negotiation(action, opt);
                outgoing.extend_from_slice(&*frame);
            },
            None => {},
        }
        step
    }

    /// The peer said WILL: it wants to use the option, or confirms that it
    /// does. `allowed` is whether the policy lets it.
    pub fn receive_will(
        &mut self,
        queue: &mut TelnetEventQueue,
        outgoing: &mut Vec<u8>,
        opt: TelnetOption,
        allowed: bool,
    ) -> (step: Transition)
        ensures
            step == on_agree(old(self)@[(Side::Remote, opt.spec_as_byte())], allowed),
            final(self)@ == old(self)@.insert((Side::Remote, opt.spec_as_byte()), step.next),
            final(queue)@ == old(queue)@ + transition_events(Side::Remote, opt, step),
            final(outgoing)@ == old(outgoing)@ + transition_bytes(Side::Remote, opt, step),
    {
        self.handle(queue, outgoing, Side::Remote, opt, QInput::PeerAgrees, allowed)
    }

    /// The peer said WONT: it will not use the option, or stops using it.
    pub fn receive_wont(
        &mut self,
        queue: &mut TelnetEventQueue,
        outgoing: &mut Vec<u8>,
        opt: TelnetOption,
    ) -> (step: Transition)
        ensures
            step == on_refuse(old(self)@[(Side::Remote, opt.spec_as_byte())]),
            final(self)@ == old(self)@.insert((Side::Remote, opt.spec_as_byte()), step.next),
            final(queue)@ == old(queue)@ + transition_events(Side::Remote, opt, step),
            final(outgoing)@ == old(outgoing)@ + transition_bytes(Side::Remote, opt, step),
    {
        self.handle(queue, outgoing, Side::Remote, opt, QInput::PeerRefuses, false)
    }

    /// The peer said DO: it wants us to use the option, or confirms that we
    /// do. `allowed` is whether the policy lets us.
    pub fn receive_do(
        &mut self,
        queue: &mut TelnetEventQueue,
        outgoing: &mut Vec<u8>,
        opt: TelnetOption,
        allowed: bool,
    ) -> (step: Transition)
        ensures
            step == on_agree(old(self)@[(Side::Local, opt.spec_as_byte())], allowed),
            final(self)@ == old(self)@.insert((Side::Local, opt.spec_as_byte()), step.next),
            final(queue)@ == old(queue)@ + transition_events(Side::Local, opt, step),
            final(outgoing)@ == old(outgoing)@ + transition_bytes(Side::Local, opt, step),
    {
        self.handle(queue, outgoing, Side::Local, opt, QInput::PeerAgrees, allowed)
    }

    /// The peer said DONT: it wants us not to use the option.
    pub fn receive_dont(
        &mut self,
        queue: &mut TelnetEventQueue,
        outgoing: &mut Vec<u8>,
        opt: TelnetOption,
    ) -> (step: Transition)
        ensures
            step == on_refuse(old(self)@[(Side::Local, opt.spec_as_byte())]),
            final(self)@ == old(self)@.insert((Side::Local, opt.spec_as_byte()), step.next),
            final(queue)@ == old(queue)@ + transition_events(Side::Local, opt, step),
            final(outgoing)@ == old(outgoing)@ + transition_bytes(Side::Local, opt, step),
    {
        self.handle(queue, outgoing, Side::Local, opt, QInput::PeerRefuses, false)
    }

    /// The application asks the peer to use the option.
    pub fn ask_enable(
        &mut self,
        queue: &mut TelnetEventQueue,
        outgoing: &mut Vec<u8>,
        opt: TelnetOption,
    ) -> (step: Transition)
        ensures
            step == on_ask_enable(old(self)@[(Side::Remote, opt.spec_as_byte())]),
            final(self)@ == old(self)@.insert((Side::Remote, opt.spec_as_byte()), step.next),
            final(queue)@ == old(queue)@ + transition_events(Side::Remote, opt, step),
            final(outgoing)@ == old(outgoing)@ + transition_bytes(Side::Remote, opt, step),
    {
        self.handle(queue, outgoing, Side::Remote, opt, QInput::AskEnable, false)
    }

    /// The application asks the peer to stop using the option.
    pub fn ask_disable(
        &mut self,
        queue: &mut TelnetEventQueue,
        outgoing: &mut Vec<u8>,
        opt: TelnetOption,
    ) -> (step: Transition)
        ensures
            step == on_ask_disable(old(self)@[(Side::Remote, opt.spec_as_byte())]),
            final(self)@ == old(self)@.insert((Side::Remote, opt.spec_as_byte()), step.next),
            final(queue)@ == old(queue)@ + transition_events(Side::Remote, opt, step),
            final(outgoing)@ == old(outgoing)@ + transition_bytes(Side::Remote, opt, step),
    {
        self.handle(queue, outgoing, Side::Remote, opt, QInput::AskDisable, false)
    }

    /// The application announces that we want to use the option.
    pub fn inform_enable(
        &mut self,
        queue: &mut TelnetEventQueue,
        outgoing: &mut Vec<u8>,
        opt: TelnetOption,
    ) -> (step: Transition)
        ensures
            step == on_ask_enable(old(self)@[(Side::Local, opt.spec_as_byte())]),
            final(self)@ == old(self)@.insert((Side::Local, opt.spec_as_byte()), step.next),
            final(queue)@ == old(queue)@ + transition_events(Side::Local, opt, step),
            final(outgoing)@ == old(outgoing)@ + transition_bytes(Side::Local, opt, step),
    {
        self.handle(queue, outgoing, Side::Local, opt, QInput::AskEnable, false)
    }

    /// The application announces that we stop using the option.
    pub fn inform_disable(
        &mut self,
        queue: &mut TelnetEventQueue,
        outgoing: &mut Vec<u8>,
        opt: TelnetOption,
    ) -> (step: Transition)
        ensures
            step == on_ask_disable(old(self)@[(Side::Local, opt.spec_as_byte())]),
            final(self)@ == old(self)@.insert((Side::Local, opt.spec_as_byte()), step.next),
            final(queue)@ == old(queue)@ + transition_events(Side::Local, opt, step),
            final(outgoing)@ == old(outgoing)@ + transition_bytes(Side::Local, opt, step),
    {
        self.handle(queue, outgoing, Side::Local, opt, QInput::AskDisable, false)
    }
}

/// A side is settled when no negotiation of it is running.
pub open spec fn settled(state: QState) -> bool {
    state is Yes || state is No
}

/// How many answers of the peer a side is waiting for before it settles.
pub open spec fn pending_answers(state: QState) -> nat {
    match state {
        QState::No | QState::Yes => 0,
        QState::WantNoEmpty | QState::WantYesEmpty => 1,
        QState::WantNoOpposite | QState::WantYesOpposite => 2,
    }
}

/// Whether an input is an answer of the peer, not a request of the
/// application.
pub open spec fn from_peer(input: QInput) -> bool {
    input is PeerAgrees || input is PeerRefuses
}

/// The state of a side after a run of inputs, each with the policy that
/// holds when it arrives.
pub open spec fn run(state: QState, inputs: Seq<(QInput, bool)>) -> QState
    decreases inputs.len(),
{
    if inputs.len() == 0 {
        state
    } else {
        transition(run(state, inputs.drop_last()), inputs.last().0, inputs.last().1).next
    }
}

/// Every answer of the peer leaves a settled side settled, and brings a
/// side that is waiting one answer nearer to settling.
pub proof fn lemma_answer_brings_nearer(state: QState, input: QInput, allowed: bool)
    requires
        from_peer(input),
    ensures
        settled(state) ==> settled(transition(state, input, allowed).next),
        !settled(state) ==> pending_answers(transition(state, input, allowed).next)
            < pending_answers(state),
{
}

/// A request of the application changes nothing for the application yet.
/// One that is not taken up is reported and leaves the side as it is. One
/// that is taken up sends a command exactly when the side is settled, and
/// then the side waits for one answer; from a side that is waiting it sends
/// nothing and the side goes on waiting.
pub proof fn lemma_request_keeps_one_in_flight(state: QState, input: QInput, allowed: bool)
    requires
        !from_peer(input),
    ensures
        ({
            let step = transition(state, input, allowed);
            &&& step.change is None
            &&& step.fault is Some ==> step.next == state && step.reply is None
            &&& step.fault is None ==> (step.reply is Some <==> settled(state))
            &&& step.fault is None && settled(state) ==> pending_answers(step.next) == 1
            &&& step.fault is None && !settled(state) ==> pending_answers(step.next) >= 1
        }),
{
}

/// An answer of the peer that only confirms what a settled side holds is
/// neither answered nor reported.
pub proof fn lemma_confirmation_is_not_answered(allowed: bool)
    ensures
        on_agree(QState::Yes, allowed) == quiet(QState::Yes),
        on_refuse(QState::No) == quiet(QState::No),
{
}

/// Whatever the state and whatever happened before, two answers of the
/// peer in a row settle a side, for a side never waits for more than two.
pub proof fn lemma_two_answers_settle(state: QState, inputs: Seq<(QInput, bool)>)
    requires
        inputs.len() >= 2,
        from_peer(inputs[inputs.len() - 1].0),
        from_peer(inputs[inputs.len() - 2].0),
    ensures
        settled(run(state, inputs)),
{
    let before = inputs.drop_last().drop_last();
    let first = inputs[inputs.len() - 2];
    let second = inputs[inputs.len() - 1];
    let start = run(state, before);
    lemma_answer_brings_nearer(start, first.0, first.1);
    let middle = transition(start, first.0, first.1).next;
    assert(run(state, inputs.drop_last()) == middle);
    lemma_answer_brings_nearer(middle, second.0, second.1);
}

} // verus!
