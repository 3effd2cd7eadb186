//! Decisions of the handler that speaks the main and the warp protocol.
use vstd::prelude::*;

use ethcore_io::TimerToken;

use crate::common_types::{ProtocolId, WARP_SYNC_PROTOCOL_ID};
use crate::fixed_bytes::same_bytes;

verus! {

/// Timer for looking after the peers.
pub const PEERS_TIMER: TimerToken = 0;

/// Timer for looking after the synchronisation.
pub const SYNC_TIMER: TimerToken = 1;

/// Timer for propagating transactions.
pub const TX_TIMER: TimerToken = 2;

/// A timer to be registered.
#[derive(Debug, Clone, Copy, PartialEq, Eq, Structural)]
pub struct Timer {
    /// Its name.
    pub token: TimerToken,
    /// Its period in milliseconds.
    pub period_ms: u64,
}

/// What is to be done when a timer fires.
#[derive(Debug, Clone, Copy, PartialEq, Eq, Structural)]
pub enum TimerAction {
    /// Look after the peers.
    MaintainPeers,
    /// Look after the synchronisation.
    MaintainSync,
    /// Propagate new transactions.
    PropagateNewTransactions,
    /// Nothing: no such timer is known.
    Unknown(TimerToken),
}

/// The timers that a context of the protocol `subprotocol` needs: the warp
/// context needs none, every other context needs all three.
pub open spec fn timers_of(subprotocol: ProtocolId) -> Seq<Timer> {
    if subprotocol == WARP_SYNC_PROTOCOL_ID {
        seq![]
    } else {
        seq![
            Timer { token: PEERS_TIMER, period_ms: 700 },
            Timer { token: SYNC_TIMER, period_ms: 1100 },
            Timer { token: TX_TIMER, period_ms: 1300 },
        ]
    }
}

/// What each timer is for.
pub open spec fn action_of(timer: TimerToken) -> TimerAction {
    if timer == PEERS_TIMER {
        TimerAction::MaintainPeers
    } else if timer == SYNC_TIMER {
        TimerAction::MaintainSync
    } else if timer == TX_TIMER {
        TimerAction::PropagateNewTransactions
    } else {
        TimerAction::Unknown(timer)
    }
}

/// A peer whose version of the warp protocol is `warp_version` takes part in it.
pub open spec fn speaks_warp(warp_version: Option<u8>) -> bool {
    warp_version matches Some(version) && version != 0
}

/// A new peer is greeted in the context of `subprotocol`.
pub open spec fn is_greeted(warp_version: Option<u8>, subprotocol: ProtocolId) -> bool {
    speaks_warp(warp_version) == (subprotocol == WARP_SYNC_PROTOCOL_ID)
}

/// A peer that speaks the warp protocol is greeted in the warp context alone, and
/// any other peer outside of it alone: never in both, and never in neither.
pub proof fn greeted_in_one_context(warp_version: Option<u8>, subprotocol: ProtocolId)
    requires
        subprotocol != WARP_SYNC_PROTOCOL_ID,
    ensures
        is_greeted(warp_version, WARP_SYNC_PROTOCOL_ID) != is_greeted(warp_version, subprotocol),
        is_greeted(warp_version, WARP_SYNC_PROTOCOL_ID) == speaks_warp(warp_version),
{
}

/// A peer that left is given up in the context of `subprotocol`.
pub open spec fn is_given_up(subprotocol: ProtocolId) -> bool {
    subprotocol != WARP_SYNC_PROTOCOL_ID
}

/// A peer that left both contexts is given up once, in the context that runs the
/// timers, whichever context greeted it.
pub proof fn given_up_in_one_context(subprotocol: ProtocolId)
    requires
        subprotocol != WARP_SYNC_PROTOCOL_ID,
    ensures
        is_given_up(WARP_SYNC_PROTOCOL_ID) != is_given_up(subprotocol),
        is_given_up(subprotocol) <==> timers_of(subprotocol).len() > 0,
        is_given_up(WARP_SYNC_PROTOCOL_ID) <==> timers_of(WARP_SYNC_PROTOCOL_ID).len() > 0,
{
}

/// Every timer that any context registers is known when it fires, and no two
/// timers of a context share a name or a purpose.
pub proof fn registered_timers_are_known(subprotocol: ProtocolId, i: int, j: int)
    requires
        0 <= i < timers_of(subprotocol).len(),
        0 <= j < timers_of(subprotocol).len(),
    ensures
        !(action_of(timers_of(subprotocol)[i].token) is Unknown),
        i != j ==> timers_of(subprotocol)[i].token != timers_of(subprotocol)[j].token,
        i != j ==> action_of(timers_of(subprotocol)[i].token) != action_of(
            timers_of(subprotocol)[j].token,
        ),
{
}

/// Every purpose has its timer in each context other than the warp context.
pub proof fn every_purpose_has_a_timer(subprotocol: ProtocolId, timer: TimerToken)
    requires
        subprotocol != WARP_SYNC_PROTOCOL_ID,
        !(action_of(timer) is Unknown),
    ensures
        exists|i: int|
            0 <= i < timers_of(subprotocol).len() && (#[trigger] timers_of(subprotocol)[i]).token
                == timer,
{
    assert(timers_of(subprotocol)[timer as int].token == timer);
}

/// A context of the warp protocol registers no timer; any other context registers
/// one for the peers every 700 milliseconds, one for the synchronisation every 1100
/// and one for transactions every 1300, and no further one.
pub proof fn contexts_register_their_timers(
    subprotocol: ProtocolId,
    res: Vec<Timer>,
    token: TimerToken,
    period_ms: u64,
)
    requires
        call_ensures(SyncProtocolHandler::initialize, (subprotocol,), res),
    ensures
        subprotocol == WARP_SYNC_PROTOCOL_ID ==> res@.len() == 0,
        subprotocol != WARP_SYNC_PROTOCOL_ID ==> res@.len() == 3,
        subprotocol != WARP_SYNC_PROTOCOL_ID ==> (res@.contains(Timer { token, period_ms }) <==> {
            ||| token == PEERS_TIMER && period_ms == 700
            ||| token == SYNC_TIMER && period_ms == 1100
            ||| token == TX_TIMER && period_ms == 1300
        }),
        PEERS_TIMER != SYNC_TIMER,
        PEERS_TIMER != TX_TIMER,
        SYNC_TIMER != TX_TIMER,
{
    if subprotocol != WARP_SYNC_PROTOCOL_ID {
        assert(res@[0] == (Timer { token: PEERS_TIMER, period_ms: 700 }));
        assert(res@[1] == (Timer { token: SYNC_TIMER, period_ms: 1100 }));
        assert(res@[2] == (Timer { token: TX_TIMER, period_ms: 1300 }));
    }
}

/// In a context of the warp protocol the peers that agreed to a version of it other
/// than zero are greeted; in any other context the remaining peers are.
pub proof fn greeting_goes_by_the_warp_version(
    warp_version: Option<u8>,
    subprotocol: ProtocolId,
    res: bool,
)
    requires
        call_ensures(SyncProtocolHandler::connected, (warp_version, subprotocol), res),
    ensures
        warp_version is None ==> res == (subprotocol != WARP_SYNC_PROTOCOL_ID),
        warp_version == Some(0u8) ==> res == (subprotocol != WARP_SYNC_PROTOCOL_ID),
        warp_version is Some && warp_version != Some(0u8) ==> res == (subprotocol
            == WARP_SYNC_PROTOCOL_ID),
{
}

/// A peer is given up in every context but that of the warp protocol.
pub proof fn giving_up_goes_by_the_context(subprotocol: ProtocolId, res: bool)
    requires
        call_ensures(SyncProtocolHandler::disconnected, (subprotocol,), res),
    ensures
        res <==> subprotocol != WARP_SYNC_PROTOCOL_ID,
{
}

/// Each timer does what it is named for, and any other is reported under the name
/// that it came with.
pub proof fn timers_do_what_they_are_for(timer: TimerToken, res: TimerAction)
    requires
        call_ensures(SyncProtocolHandler::timeout, (timer,), res),
    ensures
        res == TimerAction::MaintainPeers <==> timer == PEERS_TIMER,
        res == TimerAction::MaintainSync <==> timer == SYNC_TIMER,
        res == TimerAction::PropagateNewTransactions <==> timer == TX_TIMER,
        timer != PEERS_TIMER && timer != SYNC_TIMER && timer != TX_TIMER ==> res
            == TimerAction::Unknown(timer),
{
}

/// The handler of the main protocol and of the warp protocol.
pub struct SyncProtocolHandler;

impl SyncProtocolHandler {
    /// Tells which timers to register for a context of the protocol `subprotocol`.
    pub fn initialize(subprotocol: ProtocolId) -> (res: Vec<Timer>)
        ensures
            res@ == timers_of(subprotocol),
            subprotocol == WARP_SYNC_PROTOCOL_ID ==> res@.len() == 0,
            subprotocol != WARP_SYNC_PROTOCOL_ID ==> res@ == seq![
                Timer { token: PEERS_TIMER, period_ms: 700 },
                Timer { token: SYNC_TIMER, period_ms: 1100 },
                Timer { token: TX_TIMER, period_ms: 1300 },
            ],
    {
        let mut timers: Vec<Timer> = Vec::new();
        if !same_bytes(&subprotocol, &WARP_SYNC_PROTOCOL_ID) {
            timers.push(Timer { token: PEERS_TIMER, period_ms: 700 });
            timers.push(Timer { token: SYNC_TIMER, period_ms: 1100 });
            timers.push(Timer { token: TX_TIMER, period_ms: 1300 });
        }
        timers
    }

    /// Tells whether a peer that connected in a context of the protocol
    /// `subprotocol` is greeted there; `warp_version` is the version of the warp
    /// protocol that the peer agreed to, if any.
    ///
    /// If the warp protocol is supported only the warp handshake is allowed.
    pub fn connected(warp_version: Option<u8>, subprotocol: ProtocolId) -> (res: bool)
        ensures
            res == is_greeted(warp_version, subprotocol),
            subprotocol == WARP_SYNC_PROTOCOL_ID ==> res == (warp_version matches Some(version)
                && version > 0),
            subprotocol != WARP_SYNC_PROTOCOL_ID ==> res == !(warp_version matches Some(version)
                && version > 0),
    {
        let warp_protocol: bool = warp_version.unwrap_or(0) != 0;
        let warp_context: bool = same_bytes(&subprotocol, &WARP_SYNC_PROTOCOL_ID);
        warp_protocol == warp_context
    }

    /// Tells whether a peer that disconnected in a context of the protocol
    /// `subprotocol` is given up there.
    pub fn disconnected(subprotocol: ProtocolId) -> (res: bool)
        ensures
            res == is_given_up(subprotocol),
            res == (subprotocol != WARP_SYNC_PROTOCOL_ID),
    {
        !same_bytes(&subprotocol, &WARP_SYNC_PROTOCOL_ID)
    }

    /// Tells what to do when `timer` fires.
    pub fn timeout(timer: TimerToken) -> (res: TimerAction)
        ensures
            res == action_of(timer),
            timer == PEERS_TIMER ==> res == TimerAction::MaintainPeers,
            timer == SYNC_TIMER ==> res == TimerAction::MaintainSync,
            timer == TX_TIMER ==> res == TimerAction::PropagateNewTransactions,
            timer != PEERS_TIMER && timer != SYNC_TIMER && timer != TX_TIMER ==> res
                == TimerAction::Unknown(timer),
    {
        if timer == PEERS_TIMER {
            TimerAction::MaintainPeers
        } else if timer == SYNC_TIMER {
            TimerAction::MaintainSync
        } else if timer == TX_TIMER {
            TimerAction::PropagateNewTransactions
        } else {
            TimerAction::Unknown(timer)
        }
    }
}

} // verus!
