use crate::negotiation::{pending_answers, settled, transition, QInput, QState, Reply};
use vstd::prelude::*;

verus! {

/// Two peers that negotiate one side of one option, both after RFC 1143,
/// over a connection that keeps the order of what it carries.
pub struct Network {
    /// The state that we keep of the side.
    pub ours: QState,
    /// The state that the peer keeps of it.
    pub theirs: QState,
    /// The peer's commands that have not reached us yet, oldest first.
    pub to_us: Seq<Reply>,
    /// Our commands that have not reached the peer yet, oldest first.
    pub to_peer: Seq<Reply>,
    /// Our policy for the side.
    pub ours_allowed: bool,
    /// The peer's policy for it.
    pub theirs_allowed: bool,
}

/// What can happen in a network.
pub enum Move {
    /// The oldest command on its way to us arrives.
    DeliverToUs,
    /// The oldest command on its way to the peer arrives.
    DeliverToPeer,
    /// Our application asks to turn the option on (`true`) or off.
    RequestOurs(bool),
    /// The peer's application asks to turn the option on (`true`) or off.
    RequestTheirs(bool),
}

/// A command as the peer that receives it takes it.
pub open spec fn as_input(command: Reply) -> QInput {
    match command {
        Reply::Accept => QInput::PeerAgrees,
        Reply::Reject => QInput::PeerRefuses,
    }
}

/// The input that a request of an application is.
pub open spec fn request_input(enable: bool) -> QInput {
    if enable {
        QInput::AskEnable
    } else {
        QInput::AskDisable
    }
}

/// A channel with one more command at its end, if there is one to send.
pub open spec fn with_reply(channel: Seq<Reply>, reply: Option<Reply>) -> Seq<Reply> {
    match reply {
        Some(command) => channel.push(command),
        None => channel,
    }
}

/// Whether a move is the arrival of a command that is on its way.
pub open spec fn is_delivery(network: Network, by: Move) -> bool {
    match by {
        Move::DeliverToUs => network.to_us.len() > 0,
        Move::DeliverToPeer => network.to_peer.len() > 0,
        _ => false,
    }
}

/// The network after a move. An arrival where nothing is on its way
/// changes nothing.
pub open spec fn after(network: Network, by: Move) -> Network {
    match by {
        Move::DeliverToUs => if network.to_us.len() > 0 {
            let step = transition(network.ours, as_input(network.to_us[0]), network.ours_allowed);
            Network {
                ours: step.next,
                to_us: network.to_us.skip(1),
                to_peer: with_reply(network.to_peer, step.reply),
                ..network
            }
        } else {
            network
        },
        Move::DeliverToPeer => if network.to_peer.len() > 0 {
            let step = transition(
                network.theirs,
                as_input(network.to_peer[0]),
                network.theirs_allowed,
            );
            Network {
                theirs: step.next,
                to_peer: network.to_peer.skip(1),
                to_us: with_reply(network.to_us, step.reply),
                ..network
            }
        } else {
            network
        },
        Move::RequestOurs(enable) => {
            let step = transition(network.ours, request_input(enable), network.ours_allowed);
            Network {
                ours: step.next,
                to_peer: with_reply(network.to_peer, step.reply),
                ..network
            }
        },
        Move::RequestTheirs(enable) => {
            let step = transition(network.theirs, request_input(enable), network.theirs_allowed);
            Network {
                theirs: step.next,
                to_us: with_reply(network.to_us, step.reply),
                ..network
            }
        },
    }
}

/// The network after a run of moves.
pub open spec fn after_all(network: Network, moves: Seq<Move>) -> Network
    decreases moves.len(),
{
    if moves.len() == 0 {
        network
    } else {
        after(after_all(network, moves.drop_last()), moves.last())
    }
}

/// A network is at rest and agreed when nothing is on its way and both
/// peers hold the same settled state.
pub open spec fn agreed(network: Network) -> bool {
    &&& network.to_us.len() == 0
    &&& network.to_peer.len() == 0
    &&& settled(network.ours)
    &&& network.ours == network.theirs
}

/// What a peer is after, whether or not it has a second thought waiting.
pub enum Aim {
    Off,
    On,
    WantOff,
    WantOn,
}

/// The aim of a state.
pub open spec fn aim(state: QState) -> Aim {
    match state {
        QState::No => Aim::Off,
        QState::Yes => Aim::On,
        QState::WantNoEmpty | QState::WantNoOpposite => Aim::WantOff,
        QState::WantYesEmpty | QState::WantYesOpposite => Aim::WantOn,
    }
}

/// A channel that carries nothing.
pub open spec fn none(channel: Seq<Reply>) -> bool {
    channel.len() == 0
}

/// A channel that carries one command.
pub open spec fn one(channel: Seq<Reply>, command: Reply) -> bool {
    channel.len() == 1 && channel[0] == command
}

/// A channel that carries two commands.
pub open spec fn two(channel: Seq<Reply>, first: Reply, second: Reply) -> bool {
    channel.len() == 2 && channel[0] == first && channel[1] == second
}

/// What is on its way when the peers have the given aims, seen from the
/// first: `to_first` is bound for the peer with the aim `first`, `to_second`
/// for the other.
pub open spec fn in_step(
    first: Aim,
    second: Aim,
    to_first: Seq<Reply>,
    to_second: Seq<Reply>,
) -> bool {
    match (first, second) {
        (Aim::Off, Aim::Off) | (Aim::On, Aim::On) => none(to_first) && none(to_second),
        (Aim::Off, Aim::On) | (Aim::On, Aim::Off) => false,
        (Aim::Off, Aim::WantOff) | (Aim::WantOff, Aim::On) => none(to_first) && one(
            to_second,
            Reply::Reject,
        ),
        (Aim::WantOff, Aim::Off) | (Aim::On, Aim::WantOff) => one(to_first, Reply::Reject) && none(
            to_second,
        ),
        (Aim::Off, Aim::WantOn) => (none(to_first) && one(to_second, Reply::Reject)) || (one(
            to_first,
            Reply::Accept,
        ) && none(to_second)),
        (Aim::WantOn, Aim::Off) => (one(to_first, Reply::Reject) && none(to_second)) || (none(
            to_first,
        ) && one(to_second, Reply::Accept)),
        (Aim::WantOn, Aim::On) => one(to_first, Reply::Accept) && none(to_second),
        (Aim::On, Aim::WantOn) => none(to_first) && one(to_second, Reply::Accept),
        (Aim::WantOff, Aim::WantOff) => one(to_first, Reply::Reject) && one(
            to_second,
            Reply::Reject,
        ),
        (Aim::WantOff, Aim::WantOn) => (none(to_first) && two(
            to_second,
            Reply::Accept,
            Reply::Reject,
        )) || (two(to_first, Reply::Reject, Reply::Accept) && none(to_second)),
        (Aim::WantOn, Aim::WantOff) => (two(to_first, Reply::Accept, Reply::Reject) && none(
            to_second,
        )) || (none(to_first) && two(to_second, Reply::Reject, Reply::Accept)),
        (Aim::WantOn, Aim::WantOn) => (one(to_first, Reply::Accept) && one(
            to_second,
            Reply::Accept,
        )) || (none(to_first) && two(to_second, Reply::Reject, Reply::Accept)) || (two(
            to_first,
            Reply::Reject,
            Reply::Accept,
        ) && none(to_second)),
    }
}

/// A network is consistent when what is on its way fits what the peers are
/// after. Every network that the peers can bring about from rest is.
pub open spec fn consistent(network: Network) -> bool {
    in_step(aim(network.ours), aim(network.theirs), network.to_us, network.to_peer)
}

/// How many requests a peer in the given state has still to send: one where
/// it has a second thought, none otherwise.
pub open spec fn withheld(state: QState) -> nat {
    match state {
        QState::WantNoOpposite | QState::WantYesOpposite => 1,
        _ => 0,
    }
}

/// How many of the commands on their way to a peer are requests that it
/// has not accounted for yet.
pub open spec fn unasked(channel: Seq<Reply>, state: QState) -> nat {
    let first: nat = if channel.len() >= 1 && settled(state) {
        1
    } else {
        0
    };
    let second: nat = if channel.len() >= 2 && (state is WantNoEmpty || state is WantYesEmpty) {
        1
    } else {
        0
    };
    first + second
}

/// A bound on the arrivals that a peer still has before it, in a
/// consistent network: `at` is its state and `channel` what is on its way
/// to it, `from` is the state of the other peer. The peer has the answers
/// before it that it waits for, the request that the other still withholds,
/// and the requests on their way that it has not accounted for.
pub open spec fn due(at: QState, from: QState, channel: Seq<Reply>) -> nat {
    pending_answers(at) + withheld(from) + unasked(channel, at)
}

/// A bound on the arrivals that we still have before us.
pub open spec fn due_to_us(network: Network) -> nat {
    due(network.ours, network.theirs, network.to_us)
}

/// A bound on the arrivals that the peer still has before it.
pub open spec fn due_to_peer(network: Network) -> nat {
    due(network.theirs, network.ours, network.to_peer)
}

/// How many of the moves are arrivals with us.
pub open spec fn arrivals_with_us(moves: Seq<Move>) -> nat
    decreases moves.len(),
{
    if moves.len() == 0 {
        0
    } else if moves.last() is DeliverToUs {
        arrivals_with_us(moves.drop_last()) + 1
    } else {
        arrivals_with_us(moves.drop_last())
    }
}

/// How many of the moves are arrivals with the peer.
pub open spec fn arrivals_with_peer(moves: Seq<Move>) -> nat
    decreases moves.len(),
{
    if moves.len() == 0 {
        0
    } else if moves.last() is DeliverToPeer {
        arrivals_with_peer(moves.drop_last()) + 1
    } else {
        arrivals_with_peer(moves.drop_last())
    }
}

/// A network at rest and agreed is consistent, and no arrival is due.
pub proof fn lemma_agreed_is_consistent(network: Network)
    requires
        agreed(network),
    ensures
        consistent(network),
        due_to_us(network) == 0,
        due_to_peer(network) == 0,
{
}

/// Whatever happens in a consistent network, it stays consistent.
pub proof fn lemma_consistent_is_kept(network: Network, by: Move)
    requires
        consistent(network),
    ensures
        consistent(after(network, by)),
{
}

/// In a consistent network no more than two commands are on their way to
/// either peer, and no more than three arrivals are due with either.
pub proof fn lemma_consistent_is_bounded(network: Network)
    requires
        consistent(network),
    ensures
        network.to_us.len() <= 2,
        network.to_peer.len() <= 2,
        due_to_us(network) <= 3,
        due_to_peer(network) <= 3,
{
}

/// Every arrival in a consistent network is one of those that were due
/// with the peer that it reaches, and adds none to those due with the
/// other.
pub proof fn lemma_delivery_brings_nearer(network: Network, by: Move)
    requires
        consistent(network),
        is_delivery(network, by),
    ensures
        by is DeliverToUs ==> due_to_us(after(network, by)) < due_to_us(network) && due_to_peer(
            after(network, by),
        ) <= due_to_peer(network),
        by is DeliverToPeer ==> due_to_peer(after(network, by)) < due_to_peer(network)
            && due_to_us(after(network, by)) <= due_to_us(network),
{
}

/// A consistent network in which nothing is on its way is agreed.
pub proof fn lemma_quiet_is_agreed(network: Network)
    requires
        consistent(network),
        network.to_us.len() == 0,
        network.to_peer.len() == 0,
    ensures
        agreed(network),
{
}

/// From rest, whatever the applications ask and in whatever order the
/// commands arrive, the network stays consistent.
pub proof fn lemma_reachable_is_consistent(start: Network, moves: Seq<Move>)
    requires
        agreed(start),
    ensures
        consistent(after_all(start, moves)),
    decreases moves.len(),
{
    if moves.len() == 0 {
        lemma_agreed_is_consistent(start);
    } else {
        lemma_reachable_is_consistent(start, moves.drop_last());
        lemma_consistent_is_kept(after_all(start, moves.drop_last()), moves.last());
    }
}

/// Whether every move of a run is the arrival of a command that was on its
/// way when its turn came.
pub open spec fn all_deliveries(network: Network, moves: Seq<Move>) -> bool
    decreases moves.len(),
{
    moves.len() > 0 ==> all_deliveries(network, moves.drop_last()) && is_delivery(
        after_all(network, moves.drop_last()),
        moves.last(),
    )
}

/// A run of arrivals in a consistent network uses up what was due.
pub proof fn lemma_deliveries_are_counted(network: Network, moves: Seq<Move>)
    requires
        consistent(network),
        all_deliveries(network, moves),
    ensures
        consistent(after_all(network, moves)),
        arrivals_with_us(moves) + due_to_us(after_all(network, moves)) <= due_to_us(network),
        arrivals_with_peer(moves) + due_to_peer(after_all(network, moves)) <= due_to_peer(
            network,
        ),
    decreases moves.len(),
{
    if moves.len() > 0 {
        let before = after_all(network, moves.drop_last());
        lemma_deliveries_are_counted(network, moves.drop_last());
        lemma_consistent_is_kept(before, moves.last());
        lemma_delivery_brings_nearer(before, moves.last());
    }
}

/// The network after so many arrivals, each of the command that is on its
/// way; where commands are on their way in both directions, ours goes
/// first.
pub open spec fn drained(network: Network, count: nat) -> Network
    decreases count,
{
    if count == 0 {
        network
    } else {
        let before = drained(network, (count - 1) as nat);
        if before.to_peer.len() > 0 {
            after(before, Move::DeliverToPeer)
        } else {
            after(before, Move::DeliverToUs)
        }
    }
}

/// No answering without end. Whatever the states and the policies of two
/// peers, consistent or not, one command on its way between them is
/// answered back and forth four times at most: then nothing is on its way.
pub proof fn lemma_one_command_dies_out(network: Network)
    requires
        network.to_us.len() + network.to_peer.len() == 1,
    ensures
        drained(network, 4).to_us.len() == 0,
        drained(network, 4).to_peer.len() == 0,
{
    reveal_with_fuel(drained, 5);
}

/// Loop freedom. Let two peers start at rest and agreed, let their
/// applications ask what they will, and let the commands arrive in any
/// order that keeps the order of each direction. Then, once the
/// applications ask no more, at most three commands arrive with either peer
/// before nothing is on its way, however the peers answer each other; and
/// when nothing is on its way the peers are settled and agreed again.
pub proof fn lemma_negotiation_converges(start: Network, asked: Seq<Move>, arrivals: Seq<Move>)
    requires
        agreed(start),
        all_deliveries(after_all(start, asked), arrivals),
    ensures
        arrivals_with_us(arrivals) <= 3,
        arrivals_with_peer(arrivals) <= 3,
        after_all(after_all(start, asked), arrivals).to_us.len() == 0 && after_all(
            after_all(start, asked),
            arrivals,
        ).to_peer.len() == 0 ==> agreed(after_all(after_all(start, asked), arrivals)),
{
    let middle = after_all(start, asked);
    lemma_reachable_is_consistent(start, asked);
    lemma_consistent_is_bounded(middle);
    lemma_deliveries_are_counted(middle, arrivals);
    let end = after_all(middle, arrivals);
    if end.to_us.len() == 0 && end.to_peer.len() == 0 {
        lemma_quiet_is_agreed(end);
    }
}

} // verus!
