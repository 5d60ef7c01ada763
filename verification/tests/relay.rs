use switch_pro_xy::relay::{
    channel_number, mode_for, needs_blocking_sockets, rewrites_reports, Channel, End,
    RelayAction, RelayDirection, RelayEvent, RelayMode, RelayStage,
};

/// Feeds the packets to a direction, with the given number of refused sends
/// before each send goes through, and returns what was delivered.
fn relay(mode: RelayMode, packets: &[Vec<u8>], refusals: usize) -> (Vec<Vec<u8>>, RelayStage) {
    let mut d = RelayDirection::new(mode);
    let mut delivered: Vec<Vec<u8>> = Vec::new();
    assert_eq!(RelayDirection::first_action(), RelayAction::Receive);
    for p in packets {
        match d.step(RelayEvent::Received(p.clone())) {
            RelayAction::Send(bytes) => {
                for _ in 0..refusals {
                    assert_eq!(d.step(RelayEvent::SendPending), RelayAction::SendAgain);
                    assert_eq!(d.stage, RelayStage::Sending);
                }
                delivered.push(bytes);
                assert_eq!(d.step(RelayEvent::Sent), RelayAction::Receive);
            }
            RelayAction::Receive => {}
            RelayAction::Stop => break,
            other => panic!("unexpected action {:?}", other),
        }
    }
    (delivered, d.stage)
}

#[test]
fn cooperative_delivers_in_order_without_loss() {
    let packets: Vec<Vec<u8>> = vec![vec![1], vec![2, 2], vec![3, 3, 3], vec![2, 2]];
    let (out, stage) = relay(RelayMode::Cooperative, &packets, 0);
    assert_eq!(out, packets);
    assert_eq!(stage, RelayStage::Receiving);
}

#[test]
fn cooperative_drops_empty_packets_and_goes_on() {
    let packets: Vec<Vec<u8>> = vec![vec![], vec![1], vec![], vec![], vec![2]];
    let (out, stage) = relay(RelayMode::Cooperative, &packets, 0);
    assert_eq!(out, vec![vec![1u8], vec![2u8]]);
    assert_eq!(stage, RelayStage::Receiving);
}

#[test]
fn empty_packet_never_ends_the_control_direction() {
    let mut d = RelayDirection::new(mode_for(Channel::Control));
    for _ in 0..10 {
        assert_eq!(d.step(RelayEvent::Received(Vec::new())), RelayAction::Receive);
        assert_eq!(d.stage, RelayStage::Receiving);
    }
}

#[test]
fn low_latency_delivers_each_packet_once_despite_refused_sends() {
    let packets: Vec<Vec<u8>> = vec![vec![1], vec![2, 2], vec![3, 3, 3]];
    let (out, stage) = relay(RelayMode::LowLatency, &packets, 5);
    assert_eq!(out, packets);
    assert_eq!(stage, RelayStage::Receiving);
}

#[test]
fn low_latency_ends_on_empty_packet() {
    let packets: Vec<Vec<u8>> = vec![vec![1], vec![], vec![2]];
    let (out, stage) = relay(RelayMode::LowLatency, &packets, 1);
    assert_eq!(out, vec![vec![1u8]]);
    assert_eq!(stage, RelayStage::Closed);
    let mut d = RelayDirection { mode: RelayMode::LowLatency, stage: RelayStage::Closed };
    assert_eq!(d.step(RelayEvent::Received(vec![1, 2, 3, 4])), RelayAction::Stop);
    assert_eq!(d.stage, RelayStage::Closed);
}

#[test]
fn two_directions_do_not_disturb_each_other() {
    let mut a = RelayDirection::new(RelayMode::LowLatency);
    let mut b = RelayDirection::new(RelayMode::LowLatency);
    assert_eq!(a.step(RelayEvent::Received(vec![3, 3, 3])), RelayAction::Send(vec![3, 3, 3]));
    assert_eq!(b.step(RelayEvent::Received(vec![7])), RelayAction::Send(vec![7]));
    assert_eq!(a.step(RelayEvent::SendPending), RelayAction::SendAgain);
    assert_eq!(b.step(RelayEvent::Sent), RelayAction::Receive);
    assert_eq!(a.step(RelayEvent::Sent), RelayAction::Receive);
    assert_eq!(b.step(RelayEvent::Received(vec![1])), RelayAction::Send(vec![1]));
    assert_eq!(a.stage, RelayStage::Receiving);
    assert_eq!(b.stage, RelayStage::Sending);
}

#[test]
fn outcome_that_was_not_asked_for_aborts_the_direction() {
    let mut d = RelayDirection::new(RelayMode::Cooperative);
    assert_eq!(d.step(RelayEvent::Sent), RelayAction::Abort);
    assert_eq!(d.stage, RelayStage::Failed);
    assert_eq!(d.step(RelayEvent::Received(vec![3])), RelayAction::Abort);
    let mut e = RelayDirection::new(RelayMode::LowLatency);
    assert_eq!(e.step(RelayEvent::Received(vec![2, 2])), RelayAction::Send(vec![2, 2]));
    assert_eq!(e.step(RelayEvent::Received(vec![2, 2])), RelayAction::Abort);
    assert_eq!(e.mode, RelayMode::LowLatency);
}

#[test]
fn modes_and_channel_numbers() {
    assert_eq!(mode_for(Channel::Control), RelayMode::Cooperative);
    assert_eq!(mode_for(Channel::Interrupt), RelayMode::LowLatency);
    assert_eq!(channel_number(Channel::Control), 17);
    assert_eq!(channel_number(Channel::Interrupt), 19);
    assert!(needs_blocking_sockets(RelayMode::LowLatency));
    assert!(!needs_blocking_sockets(RelayMode::Cooperative));
}

#[test]
fn only_the_console_end_of_the_interrupt_channel_rewrites() {
    assert!(rewrites_reports(Channel::Interrupt, End::Console));
    assert!(!rewrites_reports(Channel::Interrupt, End::Controller));
    assert!(!rewrites_reports(Channel::Control, End::Console));
    assert!(!rewrites_reports(Channel::Control, End::Controller));
}
