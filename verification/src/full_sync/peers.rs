//! What is told about connected peers.
use vstd::prelude::*;

use std::fmt::Display;

use crate::common_types::{EthProtocolInfo, PeerInfo, PipProtocolInfo, Status};
use crate::fixed_bytes;
use crate::fixed_bytes::{node_id_hex, H512};

verus! {

/// What the network knows about an open session, with capabilities of type `C`.
#[derive(Debug)]
pub struct SessionInfo<C> {
    /// Id of the peer, once it is known.
    pub id: Option<H512>,
    /// Client version of the peer.
    pub client_version: String,
    /// Capabilities of the peer.
    pub peer_capabilities: Vec<C>,
    /// Remote endpoint address.
    pub remote_address: String,
    /// Local endpoint address.
    pub local_address: String,
}

/// All that is known about a connected peer.
#[derive(Debug)]
pub struct ConnectedPeer<C> {
    /// Its session, if it is still open.
    pub session: Option<SessionInfo<C>>,
    /// What the main protocol knows about it.
    pub eth_info: Option<EthProtocolInfo>,
    /// What the light protocol knows about it.
    pub pip_status: Option<Status>,
}

/// `texts` are what `Display` writes for `capabilities`, one by one.
pub open spec fn are_shown_as<C: Display>(capabilities: Seq<C>, texts: Seq<String>) -> bool {
    &&& texts.len() == capabilities.len()
    &&& forall|i: int|
        0 <= i < texts.len() ==> vstd::string::to_string_from_display_ensures::<C>(
            &capabilities[i],
            #[trigger] texts[i],
        )
}

/// `info` says about `peer` what its session and the two protocols know.
pub open spec fn is_info_of<C: Display>(info: PeerInfo, peer: ConnectedPeer<C>) -> bool {
    &&& peer.session matches Some(session)
    &&& match session.id {
        Some(id) => info.id matches Some(text) && text@ == fixed_bytes::hex(id@),
        None => info.id is None,
    }
    &&& info.client_version == session.client_version
    &&& are_shown_as(session.peer_capabilities@, info.capabilities@)
    &&& info.remote_address == session.remote_address
    &&& info.local_address == session.local_address
    &&& info.eth_info == peer.eth_info
    &&& match peer.pip_status {
        Some(status) => info.pip_info == Some(
            PipProtocolInfo {
                version: status.protocol_version,
                head: status.head_hash,
                difficulty: status.head_td,
            },
        ),
        None => info.pip_info is None,
    }
}

/// The peers whose session is open, in the order given.
pub open spec fn in_session<C>(peers: Seq<ConnectedPeer<C>>) -> Seq<ConnectedPeer<C>> {
    peers.filter(|peer: ConnectedPeer<C>| peer.session is Some)
}

/// Whether a peer is listed depends on that peer alone, and the peers keep their
/// order: the list for two groups is the list for the first followed by the list
/// for the second.
pub proof fn groups_are_listed_apart<C>(
    first: Seq<ConnectedPeer<C>>,
    second: Seq<ConnectedPeer<C>>,
)
    ensures
        in_session(first + second) == in_session(first) + in_session(second),
{
    Seq::filter_distributes_over_add(
        first,
        second,
        |peer: ConnectedPeer<C>| peer.session is Some,
    );
}

/// No more peers are listed than are connected.
pub proof fn no_peer_is_made_up<C>(peers: Seq<ConnectedPeer<C>>)
    ensures
        in_session(peers).len() <= peers.len(),
{
    peers.lemma_filter_len(|peer: ConnectedPeer<C>| peer.session is Some);
}

/// A peer is described by its session, field by field; each capability is written
/// as its own `Display` writes it, and what the two protocols know of the peer is told
/// as they know it.
pub proof fn session_is_told_as_it_is<C: Display>(
    session: SessionInfo<C>,
    eth_info: Option<EthProtocolInfo>,
    pip_status: Option<Status>,
    res: PeerInfo,
)
    requires
        call_ensures(peer_info::<C>, (session, eth_info, pip_status), res),
    ensures
        res.client_version == session.client_version,
        res.remote_address == session.remote_address,
        res.local_address == session.local_address,
        res.capabilities@.len() == session.peer_capabilities@.len(),
        forall|i: int|
            0 <= i < res.capabilities@.len() ==> vstd::string::to_string_from_display_ensures::<C>(
                &session.peer_capabilities@[i],
                #[trigger] res.capabilities@[i],
            ),
        res.eth_info == eth_info,
        pip_status is None ==> res.pip_info is None,
        pip_status matches Some(status) ==> res.pip_info matches Some(pip_info)
            && pip_info.version == status.protocol_version && pip_info.head == status.head_hash
            && pip_info.difficulty == status.head_td,
{
}

/// The id of a peer is told where it is known, as 128 hexadecimal digits from which
/// each byte of the id can be read.
pub proof fn id_is_told_in_digits<C: Display>(
    session: SessionInfo<C>,
    eth_info: Option<EthProtocolInfo>,
    pip_status: Option<Status>,
    res: PeerInfo,
    i: int,
)
    requires
        call_ensures(peer_info::<C>, (session, eth_info, pip_status), res),
        0 <= i < 64,
    ensures
        res.id is Some <==> session.id is Some,
        session.id matches Some(id) ==> {
            let high = res.id->0@[2 * i] as int;
            let low = res.id->0@[2 * i + 1] as int;
            &&& res.id->0@.len() == 128
            &&& '0' as int <= high <= '9' as int || 'a' as int <= high <= 'f' as int
            &&& '0' as int <= low <= '9' as int || 'a' as int <= low <= 'f' as int
            &&& id@[i] == 16 * (if high <= '9' as int {
                high - '0' as int
            } else {
                high - 'a' as int + 10
            }) + (if low <= '9' as int {
                low - '0' as int
            } else {
                low - 'a' as int + 10
            })
        },
{
    if session.id is Some {
        fixed_bytes::hex_can_be_read(session.id->0@, i);
    }
}

/// Of a single connected peer one description is given if its session is open, and
/// none if it is not, whatever the two protocols know about it.
pub proof fn open_session_alone_decides<C: Display>(
    connected: Vec<ConnectedPeer<C>>,
    peer: ConnectedPeer<C>,
    res: Vec<PeerInfo>,
)
    requires
        call_ensures(peers::<C>, (Some(connected),), res),
        connected@ == seq![peer],
    ensures
        peer.session is Some ==> res@.len() == 1,
        peer.session is None ==> res@.len() == 0,
        in_session(seq![peer]) == (if peer.session is Some {
            seq![peer]
        } else {
            seq![]
        }),
{
    reveal_with_fuel(Seq::filter, 2);
    assert(seq![peer].drop_last() =~= seq![]);
    assert(in_session(seq![peer]) =~= (if peer.session is Some {
        seq![peer]
    } else {
        seq![]
    }));
}

/// As many descriptions are given as sessions are open, and none where the
/// connected peers could not be asked for.
pub proof fn open_sessions_are_counted<C: Display>(
    connected: Option<Vec<ConnectedPeer<C>>>,
    res: Vec<PeerInfo>,
)
    requires
        call_ensures(peers::<C>, (connected,), res),
    ensures
        connected is None ==> res@.len() == 0,
        connected matches Some(list) ==> res@.len() == list@.filter(
            |peer: ConnectedPeer<C>| peer.session is Some,
        ).len(),
{
}

/// Each peer with an open session is described, in the order of the peers: at the
/// place that is the number of open sessions before its own.
pub proof fn each_open_session_is_described<C: Display>(
    connected: Vec<ConnectedPeer<C>>,
    res: Vec<PeerInfo>,
    k: int,
)
    requires
        call_ensures(peers::<C>, (Some(connected),), res),
        0 <= k < connected@.len(),
        connected@[k].session is Some,
    ensures
        ({
            let place = connected@.take(k).filter(
                |peer: ConnectedPeer<C>| peer.session is Some,
            ).len() as int;
            let peer = connected@[k];
            let session = peer.session->0;
            let info = res@[place];
            &&& 0 <= place < res@.len()
            &&& info.id is Some <==> session.id is Some
            &&& session.id matches Some(id) ==> info.id->0@ == fixed_bytes::hex(id@)
            &&& info.client_version == session.client_version
            &&& info.remote_address == session.remote_address
            &&& info.local_address == session.local_address
            &&& info.capabilities@.len() == session.peer_capabilities@.len()
            &&& forall|i: int|
                0 <= i < info.capabilities@.len()
                    ==> vstd::string::to_string_from_display_ensures::<C>(
                    &session.peer_capabilities@[i],
                    #[trigger] info.capabilities@[i],
                )
            &&& info.eth_info == peer.eth_info
            &&& info.pip_info is Some <==> peer.pip_status is Some
            &&& peer.pip_status matches Some(status) ==> info.pip_info->0.version
                == status.protocol_version && info.pip_info->0.head == status.head_hash
                && info.pip_info->0.difficulty == status.head_td
        }),
{
    let peer = connected@[k];
    let before = connected@.take(k);
    let after = connected@.skip(k + 1);
    assert(connected@ =~= before + (seq![peer] + after));
    groups_are_listed_apart(before, seq![peer] + after);
    groups_are_listed_apart(seq![peer], after);
    reveal_with_fuel(Seq::filter, 2);
    assert(seq![peer].drop_last() =~= seq![]);
    assert(in_session(seq![peer]) =~= seq![peer]);
    let place = in_session(before).len() as int;
    assert(in_session(connected@)[place] == peer);
    assert(is_info_of(res@[place], peer));
}

/// Writes each capability as text.
fn shown<C: Display>(capabilities: &Vec<C>) -> (res: Vec<String>)
    ensures
        are_shown_as(capabilities@, res@),
{
    let mut texts: Vec<String> = Vec::new();
    let mut i: usize = 0;
    while i < capabilities.len()
        invariant
            i <= capabilities@.len(),
            are_shown_as(capabilities@.take(i as int), texts@),
        decreases capabilities@.len() - i,
    {
        texts.push(capabilities[i].to_string());
        i += 1;
    }
    assert(capabilities@.take(i as int) =~= capabilities@);
    texts
}

/// Describes a peer with an open session.
pub fn peer_info<C: Display>(
    session: SessionInfo<C>,
    eth_info: Option<EthProtocolInfo>,
    pip_status: Option<Status>,
) -> (res: PeerInfo)
    ensures
        is_info_of(res, ConnectedPeer { session: Some(session), eth_info, pip_status }),
        res.id is Some <==> session.id is Some,
        session.id matches Some(id) ==> res.id->0@ == fixed_bytes::hex(id@),
        res.client_version == session.client_version,
        res.capabilities@.len() == session.peer_capabilities@.len(),
        forall|i: int|
            0 <= i < res.capabilities@.len() ==> vstd::string::to_string_from_display_ensures::<C>(
                &session.peer_capabilities@[i],
                #[trigger] res.capabilities@[i],
            ),
        res.remote_address == session.remote_address,
        res.local_address == session.local_address,
        res.eth_info == eth_info,
        res.pip_info is Some <==> pip_status is Some,
        pip_status matches Some(status) ==> {
            &&& res.pip_info->0.version == status.protocol_version
            &&& res.pip_info->0.head == status.head_hash
            &&& res.pip_info->0.difficulty == status.head_td
        },
{
    PeerInfo {
        id: match &session.id {
            Some(id) => Some(node_id_hex(id)),
            None => None,
        },
        client_version: session.client_version,
        capabilities: shown(&session.peer_capabilities),
        remote_address: session.remote_address,
        local_address: session.local_address,
        eth_info,
        pip_info: match pip_status {
            Some(status) => Some(PipProtocolInfo::from(status)),
            None => None,
        },
    }
}

/// Describes the connected peers, leaving out those without an open session;
/// nobody is described where the connected peers could not be asked for.
pub fn peers<C: Display>(connected: Option<Vec<ConnectedPeer<C>>>) -> (res: Vec<PeerInfo>)
    ensures
        connected is None ==> res@.len() == 0,
        connected matches Some(peers) ==> {
            &&& res@.len() == in_session(peers@).len()
            &&& forall|i: int|
                0 <= i < res@.len() ==> is_info_of(#[trigger] res@[i], in_session(peers@)[i])
        },
        connected matches Some(peers) ==> res@.len() == peers@.filter(
            |peer: ConnectedPeer<C>| peer.session is Some,
        ).len(),
{
    let mut infos: Vec<PeerInfo> = Vec::new();
    let list = match connected {
        Some(list) => list,
        None => return infos,
    };
    let ghost given = list@;
    for peer in iter: list
        invariant
            iter.seq() == given,
            infos@.len() == in_session(given.take(iter.index() as int)).len(),
            forall|i: int|
                0 <= i < infos@.len() ==> is_info_of(
                    #[trigger] infos@[i],
                    in_session(given.take(iter.index() as int))[i],
                ),
    {
        proof {
            let n = iter.index() as int;
            reveal(Seq::filter);
            assert(given.take(n + 1).drop_last() =~= given.take(n));
            assert(given.take(n + 1).last() == given[n]);
        }
        let ConnectedPeer { session, eth_info, pip_status } = peer;
        match session {
            Some(session) => {
                infos.push(peer_info(session, eth_info, pip_status));
            },
            None => {},
        }
    }
    assert(given.take(given.len() as int) =~= given);
    infos
}

} // verus!
