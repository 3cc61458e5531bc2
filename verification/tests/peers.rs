use telnet::negotiation::Reply;
use telnet::{QInput, QState};

#[derive(Clone, Debug, PartialEq)]
struct Net {
    ours: QState,
    theirs: QState,
    to_us: Vec<Reply>,
    to_peer: Vec<Reply>,
}

fn input(command: Reply) -> QInput {
    match command {
        Reply::Accept => QInput::PeerAgrees,
        Reply::Reject => QInput::PeerRefuses,
    }
}

fn deliver_to_us(net: &mut Net, allowed: bool) {
    let command = net.to_us.remove(0);
    let step = net.ours.advance(input(command), allowed);
    net.ours = step.next;
    net.to_peer.extend(step.reply);
}

fn deliver_to_peer(net: &mut Net, allowed: bool) {
    let command = net.to_peer.remove(0);
    let step = net.theirs.advance(input(command), allowed);
    net.theirs = step.next;
    net.to_us.extend(step.reply);
}

fn settle(net: &mut Net, ours_allowed: bool, theirs_allowed: bool) -> usize {
    let mut with_us = 0;
    let mut with_peer = 0;
    while !net.to_us.is_empty() || !net.to_peer.is_empty() {
        if !net.to_peer.is_empty() {
            deliver_to_peer(net, theirs_allowed);
            with_peer += 1;
        } else {
            deliver_to_us(net, ours_allowed);
            with_us += 1;
        }
        assert!(with_us <= 3);
        assert!(with_peer <= 3);
    }
    with_us + with_peer
}

#[test]
fn peers_agree_after_a_request() {
    for theirs_allowed in [false, true] {
        let mut net = Net {
            ours: QState::No,
            theirs: QState::No,
            to_us: Vec::new(),
            to_peer: Vec::new(),
        };
        let step = net.ours.advance(QInput::AskEnable, false);
        net.ours = step.next;
        net.to_peer.extend(step.reply);
        assert_eq!(settle(&mut net, true, theirs_allowed), 2);
        let expected = if theirs_allowed { QState::Yes } else { QState::No };
        assert_eq!(net.ours, expected);
        assert_eq!(net.theirs, expected);
    }
}

#[test]
fn peers_agree_after_crossed_requests() {
    let mut net = Net {
        ours: QState::No,
        theirs: QState::No,
        to_us: Vec::new(),
        to_peer: Vec::new(),
    };
    let step = net.ours.advance(QInput::AskEnable, false);
    net.ours = step.next;
    net.to_peer.extend(step.reply);
    let step = net.ours.advance(QInput::AskDisable, false);
    net.ours = step.next;
    net.to_peer.extend(step.reply);
    let step = net.theirs.advance(QInput::AskEnable, false);
    net.theirs = step.next;
    net.to_us.extend(step.reply);
    assert_eq!(net.ours, QState::WantYesOpposite);
    assert_eq!(net.theirs, QState::WantYesEmpty);
    assert_eq!(net.to_peer, vec![Reply::Accept]);
    assert_eq!(net.to_us, vec![Reply::Accept]);
    let arrivals = settle(&mut net, true, true);
    assert_eq!(arrivals, 4);
    assert_eq!(net.ours, QState::No);
    assert_eq!(net.theirs, QState::No);
}

#[test]
fn one_command_dies_out_between_any_two_states() {
    let all = [
        QState::No,
        QState::Yes,
        QState::WantNoEmpty,
        QState::WantNoOpposite,
        QState::WantYesEmpty,
        QState::WantYesOpposite,
    ];
    for ours in all {
        for theirs in all {
            for command in [Reply::Accept, Reply::Reject] {
                for ours_allowed in [false, true] {
                    for theirs_allowed in [false, true] {
                        let mut net = Net {
                            ours,
                            theirs,
                            to_us: vec![command],
                            to_peer: Vec::new(),
                        };
                        let mut arrivals = 0;
                        while !net.to_us.is_empty() || !net.to_peer.is_empty() {
                            if !net.to_peer.is_empty() {
                                deliver_to_peer(&mut net, theirs_allowed);
                            } else {
                                deliver_to_us(&mut net, ours_allowed);
                            }
                            arrivals += 1;
                        }
                        assert!(arrivals <= 4);
                    }
                }
            }
        }
    }
}

#[test]
fn peers_agree_whatever_is_asked_and_however_it_arrives() {
    let requests = [QInput::AskEnable, QInput::AskDisable];
    let mut schedule: u32 = 0;
    for first in requests {
        for second in requests {
            for third in requests {
                for start in [QState::No, QState::Yes] {
                    for policy in 0..4u32 {
                        for order in 0..64u32 {
                            schedule = schedule.wrapping_add(1);
                            let ours_allowed = policy & 1 == 1;
                            let theirs_allowed = policy & 2 == 2;
                            let mut net = Net {
                                ours: start,
                                theirs: start,
                                to_us: Vec::new(),
                                to_peer: Vec::new(),
                            };
                            let step = net.ours.advance(first, false);
                            net.ours = step.next;
                            net.to_peer.extend(step.reply);
                            let step = net.theirs.advance(second, false);
                            net.theirs = step.next;
                            net.to_us.extend(step.reply);
                            let step = net.ours.advance(third, false);
                            net.ours = step.next;
                            net.to_peer.extend(step.reply);
                            let mut with_us = 0;
                            let mut with_peer = 0;
                            let mut turn = 0;
                            while !net.to_us.is_empty() || !net.to_peer.is_empty() {
                                let pick_us = (order >> turn) & 1 == 1;
                                turn += 1;
                                if net.to_peer.is_empty() || (pick_us && !net.to_us.is_empty()) {
                                    deliver_to_us(&mut net, ours_allowed);
                                    with_us += 1;
                                } else {
                                    deliver_to_peer(&mut net, theirs_allowed);
                                    with_peer += 1;
                                }
                                assert!(with_us <= 3 && with_peer <= 3);
                                assert!(net.to_us.len() <= 2 && net.to_peer.len() <= 2);
                            }
                            assert_eq!(net.ours, net.theirs);
                            assert!(net.ours == QState::Yes || net.ours == QState::No);
                        }
                    }
                }
            }
        }
    }
    assert!(schedule > 0);
}
