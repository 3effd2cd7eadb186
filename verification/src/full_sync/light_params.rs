//! Parameters of the light client server.
use vstd::prelude::*;

verus! {

/// How far back the chain and the state are kept.
#[derive(Debug, Clone, Copy)]
pub struct PruningInfo {
    /// The first block whose body and receipts can be served.
    pub earliest_chain: u64,
    /// The first block whose state can be served.
    pub earliest_state: u64,
}

/// What a light server offers its peers.
#[derive(Debug, Clone, Copy)]
pub struct Capabilities {
    /// Whether headers are served.
    pub serve_headers: bool,
    /// The first block whose chain data is served.
    pub serve_chain_since: Option<u64>,
    /// The first block whose state is served.
    pub serve_state_since: Option<u64>,
    /// Whether transactions are relayed.
    pub tx_relay: bool,
}

/// The share of the server's capacity that one light peer may use, as the
/// fraction `numerator / denominator`.
#[derive(Debug, Clone, Copy)]
pub struct LoadShare {
    /// Upper part of the fraction.
    pub numerator: u64,
    /// Lower part of the fraction.
    pub denominator: u64,
}

/// Name of the file that keeps the measured request timings.
pub const REQUEST_TIMINGS: &'static str = "request_timings";

/// Where measured request timings are kept: a file in a directory.
#[derive(Debug)]
pub struct SampleStore {
    /// The directory.
    pub directory: String,
    /// Name of the file in the directory.
    pub file_name: &'static str,
}

/// Parameters of the light protocol.
#[derive(Debug)]
pub struct LightParams {
    /// Network id.
    pub network_id: u64,
    /// The load that one peer may cause.
    pub load_share: LoadShare,
    /// What is offered.
    pub capabilities: Capabilities,
    /// Where request timings are kept, if anywhere.
    pub sample_store: Option<SampleStore>,
}

/// The larger of the peer limit and one: by so many peers the load is divided.
pub open spec fn sharing_peers(max_peers: u32) -> u32 {
    if max_peers < 1 {
        1
    } else {
        max_peers
    }
}

/// One half of the server's capacity, divided by the number of peers.
pub open spec fn half_shared_by(max_peers: u32) -> LoadShare {
    LoadShare { numerator: 1, denominator: (2 * sharing_peers(max_peers)) as u64 }
}

/// However many peers connect within the limit, together they may use no more
/// than half of the server's capacity.
pub proof fn peers_share_at_most_half(max_peers: u32, connected: u32)
    requires
        connected <= max_peers,
    ensures
        half_shared_by(max_peers).denominator > 0,
        2 * (connected * half_shared_by(max_peers).numerator) <= half_shared_by(
            max_peers,
        ).denominator,
{
}

/// A server that is filled to its limit hands out half of its capacity, not less.
pub proof fn full_house_shares_half(max_peers: u32)
    requires
        max_peers >= 1,
    ensures
        2 * (max_peers * half_shared_by(max_peers).numerator) == half_shared_by(
            max_peers,
        ).denominator,
{
}

/// A light server offers headers and the relay of transactions, and of blocks and of
/// states all that is kept of each; it serves the network that it was given, and
/// keeps timings where it was told.
pub proof fn server_offers_what_is_kept(
    network_id: u64,
    max_peers: u32,
    pruning_info: PruningInfo,
    sample_store: Option<SampleStore>,
    res: LightParams,
)
    requires
        call_ensures(light_params, (network_id, max_peers, pruning_info, sample_store), res),
    ensures
        res.network_id == network_id,
        res.capabilities.serve_headers,
        res.capabilities.tx_relay,
        res.capabilities.serve_chain_since == Some(pruning_info.earliest_chain),
        res.capabilities.serve_state_since == Some(pruning_info.earliest_state),
        res.sample_store == sample_store,
{
}

/// As many peers as may connect, and at least one, use up half of the capacity of a
/// light server together; one peer alone may use half divided by their number.
pub proof fn server_hands_out_half(
    network_id: u64,
    max_peers: u32,
    pruning_info: PruningInfo,
    sample_store: Option<SampleStore>,
    res: LightParams,
)
    requires
        call_ensures(light_params, (network_id, max_peers, pruning_info, sample_store), res),
    ensures
        res.load_share.numerator > 0,
        max_peers > 0 ==> 2 * (max_peers * res.load_share.numerator)
            == res.load_share.denominator,
        max_peers == 0 ==> 2 * res.load_share.numerator == res.load_share.denominator,
{
}

/// Parameters of a light server that serves everything it has.
///
/// Half of the server's capacity is shared evenly among the peers that may
/// connect; a limit of zero peers counts as one.
pub fn light_params(
    network_id: u64,
    max_peers: u32,
    pruning_info: PruningInfo,
    sample_store: Option<SampleStore>,
) -> (res: LightParams)
    ensures
        res == (LightParams {
            network_id,
            load_share: half_shared_by(max_peers),
            capabilities: Capabilities {
                serve_headers: true,
                serve_chain_since: Some(pruning_info.earliest_chain),
                serve_state_since: Some(pruning_info.earliest_state),
                tx_relay: true,
            },
            sample_store,
        }),
        res.network_id == network_id,
        res.capabilities.serve_headers,
        res.capabilities.serve_chain_since == Some(pruning_info.earliest_chain),
        res.capabilities.serve_state_since == Some(pruning_info.earliest_state),
        res.capabilities.tx_relay,
        res.sample_store == sample_store,
        res.load_share.numerator == 1,
        max_peers == 0 ==> res.load_share.denominator == 2,
        max_peers > 0 ==> res.load_share.denominator == 2 * max_peers,
{
    let peers: u64 = if max_peers < 1 {
        1
    } else {
        max_peers as u64
    };
    LightParams {
        network_id,
        load_share: LoadShare { numerator: 1, denominator: 2 * peers },
        capabilities: Capabilities {
            serve_headers: true,
            serve_chain_since: Some(pruning_info.earliest_chain),
            serve_state_since: Some(pruning_info.earliest_state),
            tx_relay: true,
        },
        sample_store,
    }
}

} // verus!
