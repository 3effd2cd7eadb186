use ethcore_sync::common_types::{ETH_PROTOCOL, LIGHT_PROTOCOL, WARP_SYNC_PROTOCOL_ID};
use ethcore_sync::full_sync::handler::{
    SyncProtocolHandler, Timer, TimerAction, PEERS_TIMER, SYNC_TIMER, TX_TIMER,
};

#[test]
fn protocol_names() {
    assert_eq!(&WARP_SYNC_PROTOCOL_ID, b"par");
    assert_eq!(&ETH_PROTOCOL, b"eth");
    assert_eq!(&LIGHT_PROTOCOL, b"pip");
}

#[test]
fn main_context_registers_three_timers() {
    assert_eq!(
        SyncProtocolHandler::initialize(ETH_PROTOCOL),
        vec![
            Timer { token: PEERS_TIMER, period_ms: 700 },
            Timer { token: SYNC_TIMER, period_ms: 1100 },
            Timer { token: TX_TIMER, period_ms: 1300 },
        ]
    );
    assert_eq!((PEERS_TIMER, SYNC_TIMER, TX_TIMER), (0, 1, 2));
}

#[test]
fn warp_context_registers_no_timer() {
    assert_eq!(SyncProtocolHandler::initialize(WARP_SYNC_PROTOCOL_ID), vec![]);
}

#[test]
fn registered_timers_have_a_purpose() {
    for timer in SyncProtocolHandler::initialize(ETH_PROTOCOL) {
        assert_ne!(SyncProtocolHandler::timeout(timer.token), TimerAction::Unknown(timer.token));
    }
}

#[test]
fn warp_peers_are_greeted_in_the_warp_context() {
    assert!(SyncProtocolHandler::connected(Some(1), WARP_SYNC_PROTOCOL_ID));
    assert!(!SyncProtocolHandler::connected(Some(1), ETH_PROTOCOL));
}

#[test]
fn other_peers_are_greeted_in_the_main_context() {
    assert!(!SyncProtocolHandler::connected(None, WARP_SYNC_PROTOCOL_ID));
    assert!(SyncProtocolHandler::connected(None, ETH_PROTOCOL));
    assert!(!SyncProtocolHandler::connected(Some(0), WARP_SYNC_PROTOCOL_ID));
    assert!(SyncProtocolHandler::connected(Some(0), ETH_PROTOCOL));
}

#[test]
fn peers_are_given_up_outside_of_the_warp_context() {
    assert!(SyncProtocolHandler::disconnected(ETH_PROTOCOL));
    assert!(!SyncProtocolHandler::disconnected(WARP_SYNC_PROTOCOL_ID));
}

#[test]
fn timers_have_their_actions() {
    assert_eq!(SyncProtocolHandler::timeout(0), TimerAction::MaintainPeers);
    assert_eq!(SyncProtocolHandler::timeout(1), TimerAction::MaintainSync);
    assert_eq!(SyncProtocolHandler::timeout(2), TimerAction::PropagateNewTransactions);
    assert_eq!(SyncProtocolHandler::timeout(3), TimerAction::Unknown(3));
    assert_eq!(
        SyncProtocolHandler::timeout(usize::MAX),
        TimerAction::Unknown(usize::MAX)
    );
}
