//! The synchronisation service: what it is built from and what it does when it
//! starts, stops, announces and broadcasts.
use vstd::prelude::*;

use std::sync::Arc;
use std::time::Duration;

use ethcore_bytes::Bytes;
use ethereum_types::U256;

use crate::common_types::{
    listed, AttachedProtocol, BasicNetworkConfiguration, Handler, ProtocolId, Registration,
    RegistrationView, TransactionStats, WARP_SYNC_PROTOCOL_ID,
};
use crate::common_types;
use crate::fixed_bytes::H256;
use crate::full_sync::handler;
use crate::full_sync::light_params::{
    light_params, LightParams, PruningInfo, SampleStore, REQUEST_TIMINGS,
};
use crate::full_sync::light_params;
use crate::full_sync::{BlockNumber, Params, SyncConfig};
use crate::ordered_map;
use crate::ordered_map::OrderedMap;

verus! {

/// Protocol versions of the chain synchronisation, each with its packet count,
/// and the ids of its packets for private transactions.
#[derive(Debug, Clone, Copy)]
pub struct ChainProtocol {
    /// Version 62 of the main protocol.
    pub eth_62: (u8, u8),
    /// Version 63 of the main protocol.
    pub eth_63: (u8, u8),
    /// Version 1 of the warp protocol.
    pub par_1: (u8, u8),
    /// Version 2 of the warp protocol.
    pub par_2: (u8, u8),
    /// Version 3 of the warp protocol.
    pub par_3: (u8, u8),
    /// Packet with a private transaction.
    pub private_transaction_packet: u8,
    /// Packet with a signed private transaction.
    pub signed_private_transaction_packet: u8,
}

/// What the light protocol is to be made from.
#[derive(Debug)]
pub struct LightStartup<C, P> {
    /// The light data provider.
    pub provider: Arc<P>,
    /// The parameters.
    pub params: LightParams,
    /// The chain that transactions of light clients are queued in.
    pub relay_to: Arc<C>,
}

/// What the chain synchronisation is to be made from.
#[derive(Debug)]
pub struct ChainSyncStartup<C, T> {
    /// The configuration.
    pub config: SyncConfig,
    /// The chain.
    pub chain: Arc<C>,
    /// The service for private transactions.
    pub private_tx_handler: Arc<T>,
}

/// What the handler of the main and the warp protocol works with.
#[derive(Debug)]
pub struct HandlerStartup<C, N> {
    /// The chain.
    pub chain: Arc<C>,
    /// The snapshot service.
    pub snapshot_service: Arc<N>,
}

/// What the network is to be made from.
#[derive(Debug)]
pub struct NetworkStartup<A, S, I, G> {
    /// The configuration of the network layer.
    pub config: BasicNetworkConfiguration<A, S, I>,
    /// The filter for connections, if there is one.
    pub connection_filter: Option<G>,
    /// The main protocol, to be registered as soon as the network stands.
    pub registration: Registration,
}

/// What the parts around the service are to be made from.
#[derive(Debug)]
pub struct Startup<C, N, T, P, A, S, I, G, E> {
    /// The light protocol, where light clients are served.
    pub light: Option<LightStartup<C, P>>,
    /// The chain synchronisation.
    pub chain_sync: ChainSyncStartup<C, T>,
    /// The handler of the main and the warp protocol.
    pub handler: HandlerStartup<C, N>,
    /// The network, or why there is none.
    pub network: Result<NetworkStartup<A, S, I, G>, E>,
}

/// Head of the chain.
#[derive(Debug)]
pub struct BlockChainInfo {
    /// Hash of the best block.
    pub best_block_hash: H256,
    /// Number of the best block.
    pub best_block_number: BlockNumber,
    /// Total difficulty up to the best block.
    pub total_difficulty: U256,
}

/// How the best chain changed.
#[derive(Debug)]
pub struct ChainRoute {
    /// Blocks that became part of the best chain.
    pub enacted: Vec<H256>,
    /// Blocks that left the best chain.
    pub retracted: Vec<H256>,
}

/// What is known when new blocks came in.
#[derive(Debug)]
pub struct NewBlocks {
    /// Imported blocks.
    pub imported: Vec<H256>,
    /// Invalid blocks.
    pub invalid: Vec<H256>,
    /// How the best chain changed.
    pub route: ChainRoute,
    /// Sealed blocks.
    pub sealed: Vec<H256>,
    /// Proposed blocks.
    pub proposed: Vec<Bytes>,
    /// How long the import took.
    pub duration: Duration,
}

/// What the chain synchronisation is told about new blocks, and where.
#[derive(Debug)]
pub struct ChainNews {
    /// The protocol in whose context it is told.
    pub context: ProtocolId,
    /// Imported blocks.
    pub imported: Vec<H256>,
    /// Invalid blocks.
    pub invalid: Vec<H256>,
    /// Blocks that became part of the best chain.
    pub enacted: Vec<H256>,
    /// Blocks that left the best chain.
    pub retracted: Vec<H256>,
    /// Sealed blocks.
    pub sealed: Vec<H256>,
    /// Proposed blocks.
    pub proposed: Vec<Bytes>,
}

/// A step of what is to be done about new blocks.
#[derive(Debug)]
pub enum NewBlocksStep {
    /// Tell the chain synchronisation.
    TellChain(ChainNews),
    /// Tell light peers, in a context of this protocol, what `announce` says then.
    TellLight(ProtocolId),
}

/// News about the chain for light peers. The fields on capabilities hold changes
/// only.
#[derive(Debug)]
pub struct Announcement {
    /// Hash of the new head.
    pub head_hash: H256,
    /// Number of the new head.
    pub head_num: BlockNumber,
    /// Total difficulty of the new head.
    pub head_td: U256,
    /// Depth of the reorganisation; worked out anew for each peer.
    pub reorg_depth: u64,
    /// Headers are served from now on.
    pub serve_headers: bool,
    /// State is served from this block from now on.
    pub serve_state_since: Option<u64>,
    /// Chain data is served from this block from now on.
    pub serve_chain_since: Option<u64>,
    /// Transactions are relayed from now on.
    pub tx_relay: bool,
}

impl BlockChainInfo {
    /// The announcement of this head, with no change of capabilities.
    pub open spec fn announcement(self) -> Announcement {
        Announcement {
            head_hash: self.best_block_hash,
            head_num: self.best_block_number,
            head_td: self.total_difficulty,
            reorg_depth: 0,
            serve_headers: false,
            serve_state_since: None,
            serve_chain_since: None,
            tx_relay: false,
        }
    }
}

/// A message that the chain wants to be spread.
#[derive(Debug)]
pub enum ChainMessageType {
    /// A consensus message.
    Consensus(Bytes),
    /// A private transaction: its hash and its content.
    PrivateTransaction(H256, Bytes),
    /// A signed private transaction: its hash and its content.
    SignedPrivateTransaction(H256, Bytes),
}

/// What is to be propagated to the peers.
#[derive(Debug)]
pub enum Propagation {
    /// A consensus packet.
    Consensus {
        /// Content of the packet.
        message: Bytes,
    },
    /// A packet with a private transaction.
    PrivateTransaction {
        /// Hash of the transaction.
        transaction_hash: H256,
        /// Id of the packet.
        packet_id: u8,
        /// Content of the packet.
        message: Bytes,
    },
}

/// What is to be propagated, and where.
#[derive(Debug)]
pub struct Outgoing {
    /// The protocol in whose context it is propagated.
    pub context: ProtocolId,
    /// What is propagated.
    pub propagation: Propagation,
}

/// How a message is propagated: private transactions go out under the packet id
/// of their kind.
pub open spec fn propagation_of(message: ChainMessageType, chain: ChainProtocol) -> Propagation {
    match message {
        ChainMessageType::Consensus(message) => Propagation::Consensus { message },
        ChainMessageType::PrivateTransaction(transaction_hash, message) =>
            Propagation::PrivateTransaction {
            transaction_hash,
            packet_id: chain.private_transaction_packet,
            message,
        },
        ChainMessageType::SignedPrivateTransaction(transaction_hash, message) =>
            Propagation::PrivateTransaction {
            transaction_hash,
            packet_id: chain.signed_private_transaction_packet,
            message,
        },
    }
}

/// As long as the two packet ids differ, different messages are propagated
/// differently: nothing of a message is lost.
pub proof fn messages_are_told_apart(
    a: ChainMessageType,
    b: ChainMessageType,
    chain: ChainProtocol,
)
    requires
        chain.private_transaction_packet != chain.signed_private_transaction_packet,
        propagation_of(a, chain) == propagation_of(b, chain),
    ensures
        a == b,
{
}

/// How long the import of new blocks took has no effect on what anybody is told.
pub proof fn duration_has_no_effect<H>(
    sync: EthSync<H>,
    a: NewBlocks,
    b: NewBlocks,
    info: BlockChainInfo,
)
    requires
        b == (NewBlocks { duration: b.duration, ..a }),
    ensures
        sync.told(b, info) == sync.told(a, info),
{
}

/// What light peers are told depends on the head of the chain alone, not on the
/// blocks that came in.
pub proof fn announcement_depends_on_the_head_alone<H>(
    sync: EthSync<H>,
    a: NewBlocks,
    b: NewBlocks,
    info: BlockChainInfo,
)
    ensures
        sync.told(a, info).1 == sync.told(b, info).1,
{
}

/// The chain synchronisation is told the same, in the same context, whether or
/// not the light protocol is run and whatever it is named.
pub proof fn chain_is_told_without_regard_to_light<H>(
    a: EthSync<H>,
    b: EthSync<H>,
    blocks: NewBlocks,
)
    requires
        a.subprotocol_name == b.subprotocol_name,
    ensures
        a.chain_news(blocks) == b.chain_news(blocks),
        a.new_blocks_steps(blocks)[0] == b.new_blocks_steps(blocks)[0],
{
}

/// The chain synchronisation is told of new blocks first, and once; light peers are
/// told after it, and once.
pub proof fn chain_is_told_first<H>(sync: EthSync<H>, blocks: NewBlocks, i: int)
    requires
        0 <= i < sync.new_blocks_steps(blocks).len(),
    ensures
        sync.new_blocks_steps(blocks)[i] is TellChain <==> i == 0,
        sync.new_blocks_steps(blocks)[i] is TellLight <==> i == 1,
        sync.new_blocks_steps(blocks).len() == 2,
{
}

/// Messages go out in a context of the warp protocol, and in the same way
/// however the other protocols are named and whichever are run.
pub proof fn messages_go_out_in_the_warp_context<H>(
    a: EthSync<H>,
    b: EthSync<H>,
    message: ChainMessageType,
    chain: ChainProtocol,
)
    ensures
        a.outgoing(message, chain).context == WARP_SYNC_PROTOCOL_ID,
        a.outgoing(message, chain) == b.outgoing(message, chain),
{
}

/// A light server is built if and only if light clients are to be served. It offers
/// all that the chain keeps, of blocks and of states each as far back as that is kept,
/// on the configured network, and hands transactions to the chain.
pub proof fn light_server_is_built_as_configured<
    C,
    N,
    T,
    P,
    A,
    S,
    I,
    G,
    E,
    H,
    F: Fn(&String) -> Result<A, E>,
>(
    params: Params<C, N, T, P, S, I, H>,
    connection_filter: Option<G>,
    pruning_info: PruningInfo,
    protocol: ChainProtocol,
    parse: F,
    res: (EthSync<H>, Startup<C, N, T, P, A, S, I, G, E>),
)
    requires
        call_ensures(
            EthSync::<H>::new::<C, N, T, P, A, S, I, G, E, F>,
            (params, connection_filter, pruning_info, &protocol, parse),
            res,
        ),
    ensures
        res.1.light is Some <==> params.config.serve_light,
        res.1.light matches Some(light) ==> {
            &&& light.params.capabilities.serve_chain_since == Some(pruning_info.earliest_chain)
            &&& light.params.capabilities.serve_state_since == Some(pruning_info.earliest_state)
            &&& light.params.capabilities.serve_headers
            &&& light.params.capabilities.tx_relay
            &&& light.params.network_id == params.config.network_id
            &&& light.provider == params.provider
            &&& light.relay_to == params.chain
        },
{
}

/// As many light peers as may connect, and at least one, may use half of the server
/// together. Timings are kept in a file `request_timings` in the directory for
/// network-specific configuration, and nowhere where there is none.
pub proof fn light_server_shares_and_keeps_timings<
    C,
    N,
    T,
    P,
    A,
    S,
    I,
    G,
    E,
    H,
    F: Fn(&String) -> Result<A, E>,
>(
    params: Params<C, N, T, P, S, I, H>,
    connection_filter: Option<G>,
    pruning_info: PruningInfo,
    protocol: ChainProtocol,
    parse: F,
    res: (EthSync<H>, Startup<C, N, T, P, A, S, I, G, E>),
)
    requires
        call_ensures(
            EthSync::<H>::new::<C, N, T, P, A, S, I, G, E, F>,
            (params, connection_filter, pruning_info, &protocol, parse),
            res,
        ),
    ensures
        res.1.light matches Some(light) ==> {
            &&& light.params.load_share.numerator > 0
            &&& params.network_config.max_peers > 0 ==> 2 * (params.network_config.max_peers
                * light.params.load_share.numerator) == light.params.load_share.denominator
            &&& params.network_config.max_peers == 0 ==> 2 * light.params.load_share.numerator
                == light.params.load_share.denominator
            &&& match (params.network_config.net_config_path, light.params.sample_store) {
                (None, None) => true,
                (Some(directory), Some(store)) => store.directory == directory
                    && store.file_name@ == "request_timings"@,
                _ => false,
            }
        },
{
}

/// The service and the parts around it get what the parameters hold for them: the
/// names, the attached protocols, the chain, the snapshots, the private transactions
/// and the whole configuration.
pub proof fn service_is_built_as_configured<
    C,
    N,
    T,
    P,
    A,
    S,
    I,
    G,
    E,
    H,
    F: Fn(&String) -> Result<A, E>,
>(
    params: Params<C, N, T, P, S, I, H>,
    connection_filter: Option<G>,
    pruning_info: PruningInfo,
    protocol: ChainProtocol,
    parse: F,
    res: (EthSync<H>, Startup<C, N, T, P, A, S, I, G, E>),
)
    requires
        call_ensures(
            EthSync::<H>::new::<C, N, T, P, A, S, I, G, E, F>,
            (params, connection_filter, pruning_info, &protocol, parse),
            res,
        ),
    ensures
        res.0.subprotocol_name == params.config.subprotocol_name,
        res.0.light_subprotocol_name == params.config.light_subprotocol_name,
        res.0.light_proto == params.config.serve_light,
        res.0.attached_protos == params.attached_protos,
        res.1.chain_sync.config == params.config,
        res.1.chain_sync.chain == params.chain,
        res.1.chain_sync.private_tx_handler == params.private_tx_handler,
        res.1.handler.chain == params.chain,
        res.1.handler.snapshot_service == params.snapshot_service,
{
}

/// The network gets the filter and the settings of the parameters, each in its own
/// place, and the main protocol is registered with it under the configured name and
/// in its two versions.
pub proof fn network_is_built_as_configured<
    C,
    N,
    T,
    P,
    A,
    S,
    I,
    G,
    E,
    H,
    F: Fn(&String) -> Result<A, E>,
>(
    params: Params<C, N, T, P, S, I, H>,
    connection_filter: Option<G>,
    pruning_info: PruningInfo,
    protocol: ChainProtocol,
    parse: F,
    res: (EthSync<H>, Startup<C, N, T, P, A, S, I, G, E>),
)
    requires
        call_ensures(
            EthSync::<H>::new::<C, N, T, P, A, S, I, G, E, F>,
            (params, connection_filter, pruning_info, &protocol, parse),
            res,
        ),
    ensures
        res.1.network matches Ok(network) ==> {
            &&& network.connection_filter == connection_filter
            &&& network.registration.handler == Handler::Sync
            &&& network.registration.protocol == params.config.subprotocol_name
            &&& network.registration.versions@.len() == 2
            &&& network.registration.versions@[0] == protocol.eth_62
            &&& network.registration.versions@[1] == protocol.eth_63
            &&& network.config.config_path == params.network_config.config_path
            &&& network.config.net_config_path == params.network_config.net_config_path
            &&& network.config.udp_port == params.network_config.udp_port
            &&& network.config.nat_enabled == params.network_config.nat_enabled
            &&& network.config.discovery_enabled == params.network_config.discovery_enabled
            &&& network.config.boot_nodes == params.network_config.boot_nodes
            &&& network.config.use_secret == params.network_config.use_secret
            &&& network.config.max_peers == params.network_config.max_peers
            &&& network.config.min_peers == params.network_config.min_peers
            &&& network.config.max_handshakes == params.network_config.max_pending_peers
            &&& network.config.reserved_protocols@
                == map![WARP_SYNC_PROTOCOL_ID => params.network_config.snapshot_peers]
            &&& network.config.reserved_nodes == params.network_config.reserved_nodes
            &&& network.config.ip_filter == params.network_config.ip_filter
            &&& (network.config.non_reserved_mode is Accept
                <==> params.network_config.allow_non_reserved)
            &&& network.config.client_version == params.network_config.client_version
        },
{
}

/// There is a network where no address is refused, with the addresses as they were
/// read; where there is none, the reason is that of a refused address.
pub proof fn network_depends_on_the_addresses<
    C,
    N,
    T,
    P,
    A,
    S,
    I,
    G,
    E,
    H,
    F: Fn(&String) -> Result<A, E>,
>(
    params: Params<C, N, T, P, S, I, H>,
    connection_filter: Option<G>,
    pruning_info: PruningInfo,
    protocol: ChainProtocol,
    parse: F,
    res: (EthSync<H>, Startup<C, N, T, P, A, S, I, G, E>),
)
    requires
        call_ensures(
            EthSync::<H>::new::<C, N, T, P, A, S, I, G, E, F>,
            (params, connection_filter, pruning_info, &protocol, parse),
            res,
        ),
    ensures
        (params.network_config.listen_address matches Some(text) ==> forall|error: E|
            !call_ensures(parse, (&text,), Err(error))) && (
        params.network_config.public_address matches Some(text) ==> forall|error: E|
            !call_ensures(parse, (&text,), Err(error))) ==> res.1.network is Ok,
        res.1.network matches Err(error) ==> (params.network_config.listen_address matches Some(
            text,
        ) && call_ensures(parse, (&text,), Err(error))) || (
        params.network_config.public_address matches Some(text) && call_ensures(
            parse,
            (&text,),
            Err(error),
        )),
        res.1.network matches Ok(network) ==> match (
            params.network_config.listen_address,
            network.config.listen_address,
        ) {
            (None, None) => true,
            (Some(text), Some(address)) => call_ensures(parse, (&text,), Ok(address)),
            _ => false,
        },
        res.1.network matches Ok(network) ==> match (
            params.network_config.public_address,
            network.config.public_address,
        ) {
            (None, None) => true,
            (Some(text), Some(address)) => call_ensures(parse, (&text,), Ok(address)),
            _ => false,
        },
{
}

/// A start brings the network up before anything else, and then registers the main
/// protocol under its configured name and the warp protocol under its own, both in all
/// their versions and with the same handler.
pub proof fn start_brings_up_the_network_and_its_own_protocols<H>(
    sync: EthSync<H>,
    chain: ChainProtocol,
    light_versions: &[(u8, u8)],
    res: Vec<StartStep>,
)
    requires
        call_ensures(EthSync::<H>::start, (&sync, &chain, light_versions), res),
    ensures
        res@.len() >= 3,
        res@[0] is StartNetwork,
        res@[1] matches StartStep::Register(main) && main.handler == Handler::Sync && main.protocol
            == sync.subprotocol_name && main.versions@ == seq![chain.eth_62, chain.eth_63],
        res@[2] matches StartStep::Register(warp) && warp.handler == Handler::Sync && warp.protocol
            == WARP_SYNC_PROTOCOL_ID && warp.versions@ == seq![
            chain.par_1,
            chain.par_2,
            chain.par_3,
        ],
{
    let steps = sync.start_steps(chain, light_versions@);
    assert(res@[1]@ == steps[1]);
    assert(res@[2]@ == steps[2]);
    assert(sync.registrations(chain, light_versions@)[0] == sync.main_registration(chain));
    assert(sync.registrations(chain, light_versions@)[1] == sync.warp_registration(chain));
}

/// A start registers the light protocol after its own protocols, under its configured
/// name and in the versions given, if and only if it is run.
pub proof fn start_registers_the_light_protocol<H>(
    sync: EthSync<H>,
    chain: ChainProtocol,
    light_versions: &[(u8, u8)],
    res: Vec<StartStep>,
)
    requires
        call_ensures(EthSync::<H>::start, (&sync, &chain, light_versions), res),
    ensures
        sync.light_proto ==> res@.len() == 4 + sync.attached_protos@.len(),
        !sync.light_proto ==> res@.len() == 3 + sync.attached_protos@.len(),
        sync.light_proto ==> (res@[3] matches StartStep::Register(light) && light.handler
            == Handler::Light && light.protocol == sync.light_subprotocol_name && light.versions@
            == light_versions@),
{
    let steps = sync.start_steps(chain, light_versions@);
    if sync.light_proto {
        assert(res@[3]@ == steps[3]);
        assert(sync.registrations(chain, light_versions@)[2] == sync.light_registrations(
            light_versions@,
        )[0]);
    }
}

/// A start registers the attached protocols last, in the order of their list, each
/// with the handler at its own place, under its own id and in its own versions.
pub proof fn start_registers_the_attached_protocols<H>(
    sync: EthSync<H>,
    chain: ChainProtocol,
    light_versions: &[(u8, u8)],
    res: Vec<StartStep>,
    place: usize,
)
    requires
        call_ensures(EthSync::<H>::start, (&sync, &chain, light_versions), res),
        place < sync.attached_protos@.len(),
    ensures
        res@[res@.len() - sync.attached_protos@.len() + place] matches StartStep::Register(proto)
            && proto.handler == Handler::Attached(place) && proto.protocol
            == sync.attached_protos@[place as int].protocol_id && proto.versions@
            == sync.attached_protos@[place as int].versions@,
{
    let steps = sync.start_steps(chain, light_versions@);
    let all = sync.registrations(chain, light_versions@);
    let at = res@.len() - sync.attached_protos@.len() + place;
    assert(res@[at]@ == steps[at]);
    assert(all[at - 1] == sync.attached_registrations()[place as int]);
}

/// A taken port is reported with the address that was to be listened on; any other
/// error is reported itself.
pub proof fn failed_start_is_reported<H, A>(
    error: StartError,
    listen_address: Option<A>,
    res: StartReport<A>,
)
    requires
        error == StartError::AddressInUse ==> listen_address is Some,
        call_ensures(EthSync::<H>::start_failure::<A>, (error, listen_address), res),
    ensures
        error == StartError::AddressInUse ==> res == StartReport::PortInUse(listen_address->0),
        error == StartError::Other ==> res == StartReport::<A>::Failure,
{
}

/// A stop ends a restoration that is under way, and then the network; nothing else.
pub proof fn stop_ends_restoration_and_network<H>(sync: EthSync<H>, res: Vec<StopStep>)
    requires
        call_ensures(EthSync::<H>::stop, (&sync,), res),
    ensures
        res@.len() == 2,
        res@[0] == StopStep::AbortRestore,
        res@[1] == StopStep::StopNetwork,
{
}

/// A stop of the whole network ends the synchronisation in the context of the main
/// protocol, then the light protocol where it is run, and then does what a stop does.
pub proof fn stop_of_the_network_ends_the_protocols_first<H>(
    sync: EthSync<H>,
    stop: Vec<StopStep>,
    res: Vec<StopStep>,
)
    requires
        call_ensures(EthSync::<H>::stop, (&sync,), stop),
        call_ensures(EthSync::<H>::stop_network, (&sync,), res),
    ensures
        sync.light_proto ==> res@ == seq![
            StopStep::AbortSync(sync.subprotocol_name),
            StopStep::AbortLight,
        ] + stop@,
        !sync.light_proto ==> res@ == seq![StopStep::AbortSync(sync.subprotocol_name)] + stop@,
{
}

/// The connected peers are asked for in the context of the main protocol.
pub proof fn peers_are_asked_for_in_the_main_context<H>(sync: EthSync<H>, res: ProtocolId)
    requires
        call_ensures(EthSync::<H>::peers_context, (&sync,), res),
    ensures
        res == sync.subprotocol_name,
{
}

/// The chain synchronisation is told of every list of blocks what it is: the imported
/// as imported, the invalid as invalid, those that joined the best chain as enacted,
/// those that left it as retracted, the sealed as sealed and the proposed as proposed.
/// Light peers are told after it.
pub proof fn chain_is_told_of_each_list_what_it_is<H>(
    sync: EthSync<H>,
    blocks: NewBlocks,
    res: Vec<NewBlocksStep>,
)
    requires
        call_ensures(EthSync::<H>::new_blocks, (&sync, blocks), res),
    ensures
        res@.len() == 2,
        res@[0] matches NewBlocksStep::TellChain(news) && {
            &&& news.context == sync.subprotocol_name
            &&& news.imported@ == blocks.imported@
            &&& news.invalid@ == blocks.invalid@
            &&& news.enacted@ == blocks.route.enacted@
            &&& news.retracted@ == blocks.route.retracted@
            &&& news.sealed@ == blocks.sealed@
            &&& news.proposed@ == blocks.proposed@
        },
        res@[1] == NewBlocksStep::TellLight(sync.light_subprotocol_name),
{
}

/// Light peers are told of the head that the chain gives, and of no reorganisation
/// and no change of capabilities; nobody is told where the light protocol is not run.
pub proof fn light_peers_are_told_of_the_head<H, F: FnOnce() -> BlockChainInfo>(
    sync: EthSync<H>,
    chain_info: F,
    res: Option<Announcement>,
)
    requires
        call_ensures(EthSync::<H>::announce::<F>, (&sync, chain_info), res),
    ensures
        res is Some <==> sync.light_proto,
        res matches Some(news) ==> {
            &&& exists|info: BlockChainInfo| #[trigger]
                call_ensures(chain_info, (), info) && news.head_hash == info.best_block_hash
                    && news.head_num == info.best_block_number && news.head_td
                    == info.total_difficulty
            &&& news.reorg_depth == 0
            &&& !news.serve_headers
            &&& news.serve_state_since is None
            &&& news.serve_chain_since is None
            &&& !news.tx_relay
        },
{
}

/// A message is propagated as what it is, and unchanged: a private transaction under
/// the packet id for private transactions, a signed one under that for signed ones,
/// each with its own hash, and a consensus message as a consensus packet.
pub proof fn messages_are_propagated_as_what_they_are<H>(
    sync: EthSync<H>,
    message_type: ChainMessageType,
    chain: ChainProtocol,
    res: Outgoing,
)
    requires
        call_ensures(EthSync::<H>::broadcast, (&sync, message_type, &chain), res),
    ensures
        res.context == WARP_SYNC_PROTOCOL_ID,
        message_type matches ChainMessageType::Consensus(content) ==> (
        res.propagation matches Propagation::Consensus { message } && message@ == content@),
        message_type matches ChainMessageType::PrivateTransaction(hash, content) ==> (
        res.propagation matches Propagation::PrivateTransaction {
            transaction_hash,
            packet_id,
            message,
        } && transaction_hash == hash && packet_id == chain.private_transaction_packet && message@
            == content@),
        message_type matches ChainMessageType::SignedPrivateTransaction(hash, content) ==> (
        res.propagation matches Propagation::PrivateTransaction {
            transaction_hash,
            packet_id,
            message,
        } && transaction_hash == hash && packet_id == chain.signed_private_transaction_packet
            && message@ == content@),
{
}

/// Statistics are told of exactly the transactions that there are statistics of, and
/// of each the last that came.
pub proof fn statistics_are_told_of_each_transaction<H>(
    stats: Vec<(H256, TransactionStats)>,
    res: OrderedMap<32, TransactionStats>,
    hash: H256,
)
    requires
        call_ensures(EthSync::<H>::transactions_stats, (stats,), res),
    ensures
        res@.dom().contains(hash) <==> exists|i: int|
            0 <= i < stats@.len() && (#[trigger] stats@[i]).0 == hash,
        forall|i: int|
            0 <= i < stats@.len() && (#[trigger] stats@[i]).0 == hash && (forall|j: int|
                i < j < stats@.len() ==> (#[trigger] stats@[j]).0 != hash) ==> res@[hash]
                == stats@[i].1,
{
    ordered_map::last_entry_decides(stats@, hash);
}

/// Each relayed transaction is queued in its encoding, once and in its turn.
pub proof fn transactions_are_queued_in_their_turn<T, F: Fn(&T) -> Bytes>(
    relay: &[T],
    encode: F,
    res: Vec<Bytes>,
    i: int,
)
    requires
        call_ensures(TxRelay::on_transactions::<T, F>, (relay, encode), res),
    ensures
        res@.len() == relay@.len(),
        0 <= i < relay@.len() ==> call_ensures(encode, (&relay@[i],), res@[i]),
{
}

/// A step of the way up.
#[derive(Debug)]
pub enum StartStep {
    /// Start the network. What comes after is done even if it does not start.
    StartNetwork,
    /// Register a protocol. What comes after is done even if it is refused.
    Register(Registration),
}

/// What a step of the way up says.
pub enum StartStepView {
    /// Start the network.
    StartNetwork,
    /// Register a protocol.
    Register(RegistrationView),
}

impl View for StartStep {
    type V = StartStepView;

    open spec fn view(&self) -> StartStepView {
        match *self {
            StartStep::StartNetwork => StartStepView::StartNetwork,
            StartStep::Register(registration) => StartStepView::Register(registration@),
        }
    }
}

/// A step of the way down.
#[derive(Debug, Clone, Copy, PartialEq, Eq)]
pub enum StopStep {
    /// Abort the synchronisation in a context of this protocol.
    AbortSync(ProtocolId),
    /// Abort the light protocol.
    AbortLight,
    /// Abort the restoration of a snapshot.
    AbortRestore,
    /// Stop the network.
    StopNetwork,
}

/// Why the network did not start.
#[derive(Debug, Clone, Copy, PartialEq, Eq, Structural)]
pub enum StartError {
    /// The listen address is taken.
    AddressInUse,
    /// Anything else.
    Other,
}

/// What is to be reported about a network that did not start.
#[derive(Debug)]
pub enum StartReport<A> {
    /// The port of this address is taken.
    PortInUse(A),
    /// The error itself.
    Failure,
}

/// Ethereum network protocol handler
#[derive(Debug)]
pub struct EthSync<H> {
    /// Whether the light (pip) protocol is run.
    pub light_proto: bool,
    /// Other protocols to attach.
    pub attached_protos: Vec<AttachedProtocol<H>>,
    /// The main subprotocol name
    pub subprotocol_name: ProtocolId,
    /// Light subprotocol name.
    pub light_subprotocol_name: ProtocolId,
}

/// The store for request timings: a file of its own in the directory for
/// network-specific configuration, if there is one.
pub open spec fn sample_store_in(net_config_path: Option<String>) -> Option<SampleStore> {
    match net_config_path {
        Some(directory) => Some(SampleStore { directory, file_name: REQUEST_TIMINGS }),
        None => None,
    }
}

/// What the light protocol is made from, where the configuration asks for it.
pub open spec fn light_side<C, N, T, P, S, I, H>(
    params: Params<C, N, T, P, S, I, H>,
    pruning_info: PruningInfo,
) -> Option<LightStartup<C, P>> {
    if params.config.serve_light {
        Some(
            LightStartup {
                provider: params.provider,
                params: LightParams {
                    network_id: params.config.network_id,
                    load_share: light_params::half_shared_by(params.network_config.max_peers),
                    capabilities: light_params::Capabilities {
                        serve_headers: true,
                        serve_chain_since: Some(pruning_info.earliest_chain),
                        serve_state_since: Some(pruning_info.earliest_state),
                        tx_relay: true,
                    },
                    sample_store: sample_store_in(params.network_config.net_config_path),
                },
                relay_to: params.chain,
            },
        )
    } else {
        None
    }
}

/// The main protocol and the warp protocol are registered at every start, before all
/// others and both with the same handler. What a new service has registered is thus
/// registered again, with the same versions.
pub proof fn main_and_warp_are_always_registered<H>(
    sync: EthSync<H>,
    chain: ChainProtocol,
    light_versions: Seq<(u8, u8)>,
)
    ensures
        sync.registrations(chain, light_versions)[0] == sync.main_registration(chain),
        sync.registrations(chain, light_versions)[1] == sync.warp_registration(chain),
        sync.registrations(chain, light_versions).contains(sync.main_registration(chain)),
        sync.registrations(chain, light_versions).contains(sync.warp_registration(chain)),
        sync.main_registration(chain).handler == sync.warp_registration(chain).handler,
{
    let all = sync.registrations(chain, light_versions);
    assert(all[0] == sync.main_registration(chain));
    assert(all[1] == sync.warp_registration(chain));
}

/// One registration, and no other, is as `wanted` says.
pub open spec fn just_one(
    registrations: Seq<RegistrationView>,
    wanted: spec_fn(RegistrationView) -> bool,
) -> bool {
    exists|i: int| #[trigger] is_the_one(registrations, wanted, i)
}

/// The registration at place `i` is as `wanted` says, and no other is.
pub open spec fn is_the_one(
    registrations: Seq<RegistrationView>,
    wanted: spec_fn(RegistrationView) -> bool,
    i: int,
) -> bool {
    &&& 0 <= i < registrations.len()
    &&& wanted(registrations[i])
    &&& forall|j: int|
        0 <= j < registrations.len() && wanted(#[trigger] registrations[j]) ==> j == i
}

/// As long as the main protocol is not named like the warp protocol, each peer is
/// greeted in one, and given up in one, of the contexts that the handler of the
/// main and the warp protocol is registered for, and one of them runs the timers.
pub proof fn each_peer_is_handled_once<H>(
    sync: EthSync<H>,
    chain: ChainProtocol,
    light_versions: Seq<(u8, u8)>,
    warp_version: Option<u8>,
)
    requires
        sync.subprotocol_name != WARP_SYNC_PROTOCOL_ID,
    ensures
        just_one(
            sync.registrations(chain, light_versions),
            |r: RegistrationView|
                r.handler == Handler::Sync && handler::is_greeted(warp_version, r.protocol),
        ),
        just_one(
            sync.registrations(chain, light_versions),
            |r: RegistrationView|
                r.handler == Handler::Sync && handler::is_given_up(r.protocol),
        ),
        just_one(
            sync.registrations(chain, light_versions),
            |r: RegistrationView|
                r.handler == Handler::Sync && handler::timers_of(r.protocol).len() > 0,
        ),
{
    let all = sync.registrations(chain, light_versions);
    assert forall|i: int| 2 <= i < all.len() implies (#[trigger] all[i]).handler
        != Handler::Sync by {
        let rest = sync.light_registrations(light_versions) + sync.attached_registrations();
        assert(all[i] == rest[i - 2]);
    }
    assert(all[0] == sync.main_registration(chain));
    assert(all[1] == sync.warp_registration(chain));
    let greeting: int = if handler::speaks_warp(warp_version) {
        1
    } else {
        0
    };
    assert(is_the_one(
        all,
        |r: RegistrationView|
            r.handler == Handler::Sync && handler::is_greeted(warp_version, r.protocol),
        greeting,
    ));
    assert(is_the_one(
        all,
        |r: RegistrationView| r.handler == Handler::Sync && handler::is_given_up(r.protocol),
        0,
    ));
    assert(is_the_one(
        all,
        |r: RegistrationView|
            r.handler == Handler::Sync && handler::timers_of(r.protocol).len() > 0,
        0,
    ));
}

/// Each attached protocol is registered under its own id and versions, and with
/// its own handler once only.
pub proof fn attached_protocols_are_registered_once<H>(
    sync: EthSync<H>,
    chain: ChainProtocol,
    light_versions: Seq<(u8, u8)>,
    place: usize,
)
    requires
        place < sync.attached_protos@.len(),
    ensures
        sync.registrations(chain, light_versions).contains(
            sync.attached_protos@[place as int].registration(place),
        ),
        just_one(
            sync.registrations(chain, light_versions),
            |r: RegistrationView| r.handler == Handler::Attached(place),
        ),
{
    let all = sync.registrations(chain, light_versions);
    let attached = sync.attached_registrations();
    let first = all.len() - attached.len();
    let wanted = |r: RegistrationView| r.handler == Handler::Attached(place);
    assert(sync.attached_protos.len() == sync.attached_protos@.len());
    assert(all[first + place] == attached[place as int]);
    assert forall|i: int| 0 <= i < all.len() && wanted(#[trigger] all[i]) implies i == first
        + place by {
        if first <= i {
            assert(all[i] == attached[i - first]);
        }
    }
    assert(is_the_one(all, wanted, first + place));
}

/// The network is started first, and once; every registration comes after it.
pub proof fn network_starts_first<H>(
    sync: EthSync<H>,
    chain: ChainProtocol,
    light_versions: Seq<(u8, u8)>,
    i: int,
)
    requires
        0 <= i < sync.start_steps(chain, light_versions).len(),
    ensures
        sync.start_steps(chain, light_versions)[i] is StartNetwork <==> i == 0,
        i > 0 ==> sync.start_steps(chain, light_versions)[i] == StartStepView::Register(
            sync.registrations(chain, light_versions)[i - 1],
        ),
        sync.start_steps(chain, light_versions).len() == 1 + sync.registrations(
            chain,
            light_versions,
        ).len(),
{
}

/// The network is stopped last, and once, whichever way the service goes down;
/// stopping the whole network ends with what a stop does.
pub proof fn network_stops_last<H>(sync: EthSync<H>)
    ensures
        sync.stop_steps().last() == StopStep::StopNetwork,
        sync.stop_steps().no_duplicates(),
        sync.stop_network_steps().last() == StopStep::StopNetwork,
        sync.stop_network_steps().no_duplicates(),
        sync.stop_network_steps().skip(
            sync.stop_network_steps().len() - sync.stop_steps().len(),
        ) == sync.stop_steps(),
{
    let all = sync.stop_network_steps();
    assert(all.skip(all.len() - sync.stop_steps().len()) =~= sync.stop_steps());
}

/// The light protocol is set up, registered and aborted if and only if the
/// configuration asks for it to be served.
pub proof fn light_side_follows_configuration<C, N, T, P, S, I, H>(
    params: Params<C, N, T, P, S, I, H>,
    pruning_info: PruningInfo,
    chain: ChainProtocol,
    light_versions: Seq<(u8, u8)>,
)
    ensures
        light_side(params, pruning_info) is Some <==> params.config.serve_light,
        EthSync::built_from(params).light_proto <==> params.config.serve_light,
        just_one(
            EthSync::built_from(params).registrations(chain, light_versions),
            |r: RegistrationView| r.handler == Handler::Light,
        ) <==> params.config.serve_light,
        !params.config.serve_light ==> forall|i: int|
            0 <= i < EthSync::built_from(params).registrations(chain, light_versions).len() ==> (
            #[trigger] EthSync::built_from(params).registrations(chain, light_versions)[i]).handler
                != Handler::Light,
        EthSync::built_from(params).stop_network_steps().contains(StopStep::AbortLight)
            <==> params.config.serve_light,
{
    let sync = EthSync::built_from(params);
    let all = sync.registrations(chain, light_versions);
    let attached = sync.attached_registrations();
    let first = all.len() - attached.len();
    assert forall|i: int|
        0 <= i < all.len() && (#[trigger] all[i]).handler == Handler::Light implies i < first by {
        if first <= i {
            assert(all[i] == attached[i - first]);
        }
    }
    if params.config.serve_light {
        assert(is_the_one(all, |r: RegistrationView| r.handler == Handler::Light, 2));
        assert(sync.stop_network_steps()[1] == StopStep::AbortLight);
    }
}

/// The relay of transactions from light client peers.
pub struct TxRelay;

impl TxRelay {
    /// Encodes the transactions to be queued, in the order in which they came.
    pub fn on_transactions<T, F: Fn(&T) -> Bytes>(relay: &[T], encode: F) -> (res: Vec<Bytes>)
        requires
            forall|i: int| 0 <= i < relay@.len() ==> call_requires(encode, (&#[trigger] relay@[i],)),
        ensures
            res@.len() == relay@.len(),
            forall|i: int|
                0 <= i < relay@.len() ==> call_ensures(
                    encode,
                    (&#[trigger] relay@[i],),
                    res@[i],
                ),
    {
        let mut res: Vec<Bytes> = Vec::new();
        let mut i: usize = 0;
        while i < relay.len()
            invariant
                i <= relay@.len(),
                res@.len() == i,
                forall|j: int|
                    0 <= j < relay@.len() ==> call_requires(encode, (&#[trigger] relay@[j],)),
                forall|j: int|
                    0 <= j < i ==> call_ensures(encode, (&#[trigger] relay@[j],), res@[j]),
            decreases relay@.len() - i,
        {
            res.push(encode(&relay[i]));
            i += 1;
        }
        res
    }
}

impl<H> EthSync<H> {
    /// The service that the parameters describe.
    pub open spec fn built_from<C, N, T, P, S, I>(
        params: Params<C, N, T, P, S, I, H>,
    ) -> EthSync<H> {
        EthSync {
            light_proto: params.config.serve_light,
            attached_protos: params.attached_protos,
            subprotocol_name: params.config.subprotocol_name,
            light_subprotocol_name: params.config.light_subprotocol_name,
        }
    }

    /// The main protocol under its configured name.
    pub open spec fn main_registration(self, chain: ChainProtocol) -> RegistrationView {
        RegistrationView {
            handler: Handler::Sync,
            protocol: self.subprotocol_name,
            versions: seq![chain.eth_62, chain.eth_63],
        }
    }

    /// The warp protocol, which the same handler answers for.
    pub open spec fn warp_registration(self, chain: ChainProtocol) -> RegistrationView {
        RegistrationView {
            handler: Handler::Sync,
            protocol: WARP_SYNC_PROTOCOL_ID,
            versions: seq![chain.par_1, chain.par_2, chain.par_3],
        }
    }

    /// The light protocol under its configured name, where it is run.
    pub open spec fn light_registrations(self, light_versions: Seq<(u8, u8)>) -> Seq<
        RegistrationView,
    > {
        if self.light_proto {
            seq![
                RegistrationView {
                    handler: Handler::Light,
                    protocol: self.light_subprotocol_name,
                    versions: light_versions,
                },
            ]
        } else {
            seq![]
        }
    }

    /// The attached protocols in the order of their list.
    pub open spec fn attached_registrations(self) -> Seq<RegistrationView> {
        Seq::new(
            self.attached_protos@.len(),
            |i: int| self.attached_protos@[i].registration(i as usize),
        )
    }

    /// All registrations of a start: the main protocol, the warp protocol, the
    /// light protocol where it is run, and the attached protocols.
    pub open spec fn registrations(
        self,
        chain: ChainProtocol,
        light_versions: Seq<(u8, u8)>,
    ) -> Seq<RegistrationView> {
        seq![self.main_registration(chain), self.warp_registration(chain)]
            + self.light_registrations(light_versions) + self.attached_registrations()
    }

    /// The steps of a start: the network first, then all registrations.
    pub open spec fn start_steps(
        self,
        chain: ChainProtocol,
        light_versions: Seq<(u8, u8)>,
    ) -> Seq<StartStepView> {
        seq![StartStepView::StartNetwork] + self.registrations(chain, light_versions).map_values(
            |registration: RegistrationView| StartStepView::Register(registration),
        )
    }

    /// The steps of a stop.
    pub open spec fn stop_steps(self) -> Seq<StopStep> {
        seq![StopStep::AbortRestore, StopStep::StopNetwork]
    }

    /// The steps of a stop of the whole network: the protocols come first.
    pub open spec fn stop_network_steps(self) -> Seq<StopStep> {
        seq![StopStep::AbortSync(self.subprotocol_name)] + (if self.light_proto {
            seq![StopStep::AbortLight]
        } else {
            seq![]
        }) + self.stop_steps()
    }

    /// What the chain synchronisation is told: all the blocks, in a context of the
    /// main protocol.
    pub open spec fn chain_news(self, blocks: NewBlocks) -> ChainNews {
        ChainNews {
            context: self.subprotocol_name,
            imported: blocks.imported,
            invalid: blocks.invalid,
            enacted: blocks.route.enacted,
            retracted: blocks.route.retracted,
            sealed: blocks.sealed,
            proposed: blocks.proposed,
        }
    }

    /// What is to be done about new blocks: first the chain synchronisation is told,
    /// then light peers are, in a context of the light protocol.
    pub open spec fn new_blocks_steps(self, blocks: NewBlocks) -> Seq<NewBlocksStep> {
        seq![
            NewBlocksStep::TellChain(self.chain_news(blocks)),
            NewBlocksStep::TellLight(self.light_subprotocol_name),
        ]
    }

    /// What light peers are told, where the light protocol is run.
    pub open spec fn announcement(self, info: BlockChainInfo) -> Option<Announcement> {
        if self.light_proto {
            Some(info.announcement())
        } else {
            None
        }
    }

    /// All that is told about new blocks when the chain has the head `info`.
    pub open spec fn told(self, blocks: NewBlocks, info: BlockChainInfo) -> (
        Seq<NewBlocksStep>,
        Option<Announcement>,
    ) {
        (self.new_blocks_steps(blocks), self.announcement(info))
    }

    /// How a message goes out: always in a context of the warp protocol.
    pub open spec fn outgoing(self, message: ChainMessageType, chain: ChainProtocol) -> Outgoing {
        Outgoing {
            context: WARP_SYNC_PROTOCOL_ID,
            propagation: propagation_of(message, chain),
        }
    }

    /// Builds the service from its parameters, and tells what the parts around it
    /// are to be made from.
    ///
    /// Where there is a network, the main protocol is registered with it as soon as
    /// it stands, under the configured name.
    ///
    /// `pruning_info` is what the chain keeps, `protocol` holds the versions that it
    /// is registered with, and `parse` reads an address.
    pub fn new<C, N, T, P, A, S, I, G, E, F: Fn(&String) -> Result<A, E>>(
        params: Params<C, N, T, P, S, I, H>,
        connection_filter: Option<G>,
        pruning_info: PruningInfo,
        protocol: &ChainProtocol,
        parse: F,
    ) -> (res: (EthSync<H>, Startup<C, N, T, P, A, S, I, G, E>))
        requires
            common_types::can_parse(parse, params.network_config.listen_address),
            common_types::can_parse(parse, params.network_config.public_address),
        ensures
            res.0 == EthSync::built_from(params),
            res.0.light_proto == params.config.serve_light,
            res.0.attached_protos == params.attached_protos,
            res.0.subprotocol_name == params.config.subprotocol_name,
            res.0.light_subprotocol_name == params.config.light_subprotocol_name,
            res.1.light == light_side(params, pruning_info),
            res.1.light is Some <==> params.config.serve_light,
            res.1.light matches Some(light) ==> {
                &&& light.provider == params.provider
                &&& light.relay_to == params.chain
                &&& light.params.network_id == params.config.network_id
                &&& light.params.capabilities.serve_headers
                &&& light.params.capabilities.serve_chain_since == Some(
                    pruning_info.earliest_chain,
                )
                &&& light.params.capabilities.serve_state_since == Some(
                    pruning_info.earliest_state,
                )
                &&& light.params.capabilities.tx_relay
                &&& light.params.load_share.numerator == 1
                &&& params.network_config.max_peers == 0 ==> light.params.load_share.denominator
                    == 2
                &&& params.network_config.max_peers > 0 ==> light.params.load_share.denominator
                    == 2 * params.network_config.max_peers
                &&& light.params.sample_store is Some
                    <==> params.network_config.net_config_path is Some
                &&& light.params.sample_store matches Some(store) ==> store.directory
                    == params.network_config.net_config_path->0 && store.file_name
                    == REQUEST_TIMINGS
            },
            res.1.chain_sync == (ChainSyncStartup {
                config: params.config,
                chain: params.chain,
                private_tx_handler: params.private_tx_handler,
            }),
            res.1.handler == (HandlerStartup {
                chain: params.chain,
                snapshot_service: params.snapshot_service,
            }),
            match res.1.network {
                Ok(network) => {
                    &&& params.network_config.becomes(parse, network.config)
                    &&& network.connection_filter == connection_filter
                    &&& network.registration@ == (RegistrationView {
                        handler: Handler::Sync,
                        protocol: params.config.subprotocol_name,
                        versions: seq![protocol.eth_62, protocol.eth_63],
                    })
                    &&& network.registration@ == res.0.main_registration(*protocol)
                    &&& network.registration.handler == Handler::Sync
                    &&& network.registration.protocol == params.config.subprotocol_name
                    &&& network.registration.versions@ == seq![protocol.eth_62, protocol.eth_63]
                    &&& network.config.config_path == params.network_config.config_path
                    &&& network.config.net_config_path == params.network_config.net_config_path
                    &&& network.config.udp_port == params.network_config.udp_port
                    &&& network.config.nat_enabled == params.network_config.nat_enabled
                    &&& network.config.discovery_enabled
                        == params.network_config.discovery_enabled
                    &&& network.config.boot_nodes == params.network_config.boot_nodes
                    &&& network.config.use_secret == params.network_config.use_secret
                    &&& network.config.max_peers == params.network_config.max_peers
                    &&& network.config.min_peers == params.network_config.min_peers
                    &&& network.config.max_handshakes == params.network_config.max_pending_peers
                    &&& network.config.reserved_protocols@
                        == map![WARP_SYNC_PROTOCOL_ID => params.network_config.snapshot_peers]
                    &&& network.config.reserved_nodes == params.network_config.reserved_nodes
                    &&& network.config.ip_filter == params.network_config.ip_filter
                    &&& (network.config.non_reserved_mode is Accept
                        <==> params.network_config.allow_non_reserved)
                    &&& network.config.client_version == params.network_config.client_version
                },
                Err(error) => params.network_config.fails_with::<A, E, F>(parse, error),
            },
    {
        let Params {
            config,
            chain,
            snapshot_service,
            private_tx_handler,
            provider,
            network_config,
            attached_protos,
        } = params;
        let light: Option<LightStartup<C, P>> = if config.serve_light {
            let sample_store: Option<SampleStore> = match &network_config.net_config_path {
                Some(directory) => Some(
                    SampleStore { directory: directory.clone(), file_name: REQUEST_TIMINGS },
                ),
                None => None,
            };
            Some(
                LightStartup {
                    provider,
                    params: light_params(
                        config.network_id,
                        network_config.max_peers,
                        pruning_info,
                        sample_store,
                    ),
                    relay_to: chain.clone(),
                },
            )
        } else {
            None
        };
        let chain_sync = ChainSyncStartup { config, chain: chain.clone(), private_tx_handler };
        let sync = EthSync {
            light_proto: config.serve_light,
            attached_protos,
            subprotocol_name: config.subprotocol_name,
            light_subprotocol_name: config.light_subprotocol_name,
        };
        let network: Result<NetworkStartup<A, S, I, G>, E> = match network_config.into_basic(
            parse,
        ) {
            Ok(basic) => Ok(
                NetworkStartup {
                    config: basic,
                    connection_filter,
                    registration: sync.register_main(protocol),
                },
            ),
            Err(error) => Err(error),
        };
        let handler = HandlerStartup { chain, snapshot_service };
        (sync, Startup { light, chain_sync, handler, network })
    }

    /// Tells how to register the main protocol.
    fn register_main(&self, chain: &ChainProtocol) -> (res: Registration)
        ensures
            res.handler == Handler::Sync,
            res.protocol == self.subprotocol_name,
            res.versions@ == seq![chain.eth_62, chain.eth_63],
            res@ == self.main_registration(*chain),
    {
        let mut versions: Vec<(u8, u8)> = Vec::new();
        versions.push(chain.eth_62);
        versions.push(chain.eth_63);
        assert(versions@ =~= seq![chain.eth_62, chain.eth_63]);
        Registration { handler: Handler::Sync, protocol: self.subprotocol_name, versions }
    }

    /// Tells how to register the warp protocol.
    fn register_warp(&self, chain: &ChainProtocol) -> (res: Registration)
        ensures
            res.handler == Handler::Sync,
            res.protocol == WARP_SYNC_PROTOCOL_ID,
            res.versions@ == seq![chain.par_1, chain.par_2, chain.par_3],
            res@ == self.warp_registration(*chain),
    {
        let mut versions: Vec<(u8, u8)> = Vec::new();
        versions.push(chain.par_1);
        versions.push(chain.par_2);
        versions.push(chain.par_3);
        assert(versions@ =~= seq![chain.par_1, chain.par_2, chain.par_3]);
        Registration { handler: Handler::Sync, protocol: WARP_SYNC_PROTOCOL_ID, versions }
    }

    /// Tells which steps to take for a start, in order: the network is started, and
    /// then every protocol is registered, whether or not the network started or
    /// another protocol was refused.
    pub fn start(&self, chain: &ChainProtocol, light_versions: &[(u8, u8)]) -> (res: Vec<
        StartStep,
    >)
        ensures
            res@.map_values(|step: StartStep| step@) == self.start_steps(*chain, light_versions@),
            res@.len() == self.start_steps(*chain, light_versions@).len(),
            forall|i: int|
                0 <= i < res@.len() ==> (#[trigger] res@[i])@ == self.start_steps(
                    *chain,
                    light_versions@,
                )[i],
    {
        let mut res: Vec<StartStep> = Vec::new();
        res.push(StartStep::StartNetwork);
        res.push(StartStep::Register(self.register_main(chain)));
        res.push(StartStep::Register(self.register_warp(chain)));
        if self.light_proto {
            res.push(
                StartStep::Register(
                    Registration {
                        handler: Handler::Light,
                        protocol: self.light_subprotocol_name,
                        versions: listed(light_versions),
                    },
                ),
            );
        }
        let ghost said = |step: StartStep| step@;
        let ghost all = self.start_steps(*chain, light_versions@);
        let ghost own = res@.len();
        assert(res@.map_values(said) =~= all.take(own as int));
        let mut i: usize = 0;
        while i < self.attached_protos.len()
            invariant
                i <= self.attached_protos@.len(),
                said == (|step: StartStep| step@),
                all == self.start_steps(*chain, light_versions@),
                own == 3 + self.light_registrations(light_versions@).len(),
                res@.len() == own + i,
                res@.map_values(said) == all.take(own + i),
            decreases self.attached_protos@.len() - i,
        {
            let ghost before = res@;
            res.push(StartStep::Register(self.attached_protos[i].register(i)));
            proof {
                let registrations = self.registrations(*chain, light_versions@);
                assert(registrations[own - 1 + i] == self.attached_registrations()[i as int]);
                assert(all[own + i] == StartStepView::Register(registrations[own - 1 + i]));
                assert(res@.map_values(said) =~= before.map_values(said).push(res@.last()@));
                assert(all.take(own + i + 1) =~= all.take(own + i).push(all[own + i]));
            }
            i += 1;
        }
        assert(all.take(own + i) =~= all);
        assert forall|j: int| 0 <= j < res@.len() implies (#[trigger] res@[j])@ == all[j] by {
            assert(res@.map_values(said)[j] == all[j]);
        }
        res
    }

    /// Tells what to report when the network did not start; `listen_address` is
    /// the address that it was to listen on, which is known where it is taken.
    pub fn start_failure<A>(error: StartError, listen_address: Option<A>) -> (res: StartReport<A>)
        requires
            error is AddressInUse ==> listen_address is Some,
        ensures
            res == (match error {
                StartError::AddressInUse => StartReport::PortInUse(listen_address->0),
                StartError::Other => StartReport::Failure,
            }),
    {
        match error {
            StartError::AddressInUse => match listen_address {
                Some(address) => StartReport::PortInUse(address),
                None => StartReport::Failure,
            },
            StartError::Other => StartReport::Failure,
        }
    }

    /// Tells which steps to take for a stop.
    pub fn stop(&self) -> (res: Vec<StopStep>)
        ensures
            res@ == self.stop_steps(),
            res@ == seq![StopStep::AbortRestore, StopStep::StopNetwork],
    {
        let mut steps: Vec<StopStep> = Vec::new();
        steps.push(StopStep::AbortRestore);
        steps.push(StopStep::StopNetwork);
        steps
    }

    /// Tells which steps to take for a stop of the whole network.
    pub fn stop_network(&self) -> (res: Vec<StopStep>)
        ensures
            res@ == self.stop_network_steps(),
            self.light_proto ==> res@ == seq![
                StopStep::AbortSync(self.subprotocol_name),
                StopStep::AbortLight,
                StopStep::AbortRestore,
                StopStep::StopNetwork,
            ],
            !self.light_proto ==> res@ == seq![
                StopStep::AbortSync(self.subprotocol_name),
                StopStep::AbortRestore,
                StopStep::StopNetwork,
            ],
    {
        let mut steps: Vec<StopStep> = Vec::new();
        steps.push(StopStep::AbortSync(self.subprotocol_name));
        if self.light_proto {
            steps.push(StopStep::AbortLight);
        }
        let mut rest: Vec<StopStep> = self.stop();
        steps.append(&mut rest);
        steps
    }

    /// The protocol in whose context the connected peers are asked for.
    pub fn peers_context(&self) -> (res: ProtocolId)
        ensures
            res == self.subprotocol_name,
    {
        self.subprotocol_name
    }

    /// Tells what to do about new blocks, in order. What light peers are told,
    /// `announce` says when it is their turn.
    pub fn new_blocks(&self, blocks: NewBlocks) -> (res: Vec<NewBlocksStep>)
        ensures
            res@ == self.new_blocks_steps(blocks),
            res@.len() == 2,
            res@[0] matches NewBlocksStep::TellChain(news) && {
                &&& news.context == self.subprotocol_name
                &&& news.imported@ == blocks.imported@
                &&& news.invalid@ == blocks.invalid@
                &&& news.enacted@ == blocks.route.enacted@
                &&& news.retracted@ == blocks.route.retracted@
                &&& news.sealed@ == blocks.sealed@
                &&& news.proposed@ == blocks.proposed@
            },
            res@[1] == NewBlocksStep::TellLight(self.light_subprotocol_name),
    {
        let mut steps: Vec<NewBlocksStep> = Vec::new();
        steps.push(
            NewBlocksStep::TellChain(
                ChainNews {
                    context: self.subprotocol_name,
                    imported: blocks.imported,
                    invalid: blocks.invalid,
                    enacted: blocks.route.enacted,
                    retracted: blocks.route.retracted,
                    sealed: blocks.sealed,
                    proposed: blocks.proposed,
                },
            ),
        );
        steps.push(NewBlocksStep::TellLight(self.light_subprotocol_name));
        steps
    }

    /// Tells what to announce to light peers after new blocks came in, where the
    /// light protocol is run; `chain_info` gives the head of the chain and is
    /// asked in that case only.
    pub fn announce<F: FnOnce() -> BlockChainInfo>(&self, chain_info: F) -> (res: Option<
        Announcement,
    >)
        requires
            self.light_proto ==> call_requires(chain_info, ()),
        ensures
            !self.light_proto ==> res is None,
            self.light_proto ==> exists|info: BlockChainInfo|
                call_ensures(chain_info, (), info) && res == #[trigger] self.announcement(info),
            self.light_proto ==> res is Some,
            res matches Some(news) ==> {
                &&& exists|info: BlockChainInfo| #[trigger]
                    call_ensures(chain_info, (), info) && news.head_hash == info.best_block_hash
                        && news.head_num == info.best_block_number && news.head_td
                        == info.total_difficulty
                &&& news.reorg_depth == 0
                &&& !news.serve_headers
                &&& news.serve_state_since is None
                &&& news.serve_chain_since is None
                &&& !news.tx_relay
            },
    {
        if !self.light_proto {
            return None;
        }
        let info = chain_info();
        let ghost head = info;
        let announcement = Announcement {
            head_hash: info.best_block_hash,
            head_num: info.best_block_number,
            head_td: info.total_difficulty,
            reorg_depth: 0,  // recalculated on a per-peer basis.
            serve_headers: false,  // these fields consist of _changes_ in capability.
            serve_state_since: None,
            serve_chain_since: None,
            tx_relay: false,
        };
        assert(Some(announcement) == self.announcement(head));
        Some(announcement)
    }

    /// Tells what to propagate for a message of the chain, and in which context.
    pub fn broadcast(&self, message_type: ChainMessageType, chain: &ChainProtocol) -> (res:
        Outgoing)
        ensures
            res == self.outgoing(message_type, *chain),
            res.context == WARP_SYNC_PROTOCOL_ID,
            message_type matches ChainMessageType::Consensus(message) ==> res.propagation == (
            Propagation::Consensus { message }),
            message_type matches ChainMessageType::PrivateTransaction(hash, message)
                ==> res.propagation == (Propagation::PrivateTransaction {
                transaction_hash: hash,
                packet_id: chain.private_transaction_packet,
                message,
            }),
            message_type matches ChainMessageType::SignedPrivateTransaction(hash, message)
                ==> res.propagation == (Propagation::PrivateTransaction {
                transaction_hash: hash,
                packet_id: chain.signed_private_transaction_packet,
                message,
            }),
    {
        let propagation = match message_type {
            ChainMessageType::Consensus(message) => Propagation::Consensus { message },
            ChainMessageType::PrivateTransaction(transaction_hash, message) =>
                Propagation::PrivateTransaction {
                transaction_hash,
                packet_id: chain.private_transaction_packet,
                message,
            },
            ChainMessageType::SignedPrivateTransaction(transaction_hash, message) =>
                Propagation::PrivateTransaction {
                transaction_hash,
                packet_id: chain.signed_private_transaction_packet,
                message,
            },
        };
        Outgoing { context: WARP_SYNC_PROTOCOL_ID, propagation }
    }

    /// Collects the statistics of pending transactions, which come in any order,
    /// by the hash of the transaction.
    pub fn transactions_stats(stats: Vec<(H256, TransactionStats)>) -> (res: OrderedMap<
        32,
        TransactionStats,
    >)
        ensures
            res@ == ordered_map::collected(stats@),
    {
        OrderedMap::from_entries(stats)
    }
}

} // verus!
