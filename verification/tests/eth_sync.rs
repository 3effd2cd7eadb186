use ethcore_sync::common_types::{
    AttachedProtocol, Handler, NetworkConfiguration, Registration, TransactionStats,
    ETH_PROTOCOL, LIGHT_PROTOCOL, WARP_SYNC_PROTOCOL_ID,
};
use ethcore_sync::full_sync::eth_sync::{
    BlockChainInfo, ChainMessageType, ChainProtocol, ChainRoute, EthSync, NewBlocks,
    NewBlocksStep, Propagation, StartError, StartReport, StartStep, Startup, StopStep, TxRelay,
};
use ethcore_sync::full_sync::handler::SyncProtocolHandler;
use ethcore_sync::full_sync::light_params::{light_params, PruningInfo};
use ethcore_sync::full_sync::{Params, SyncConfig, WarpSync};
use ethcore_sync::ordered_map::OrderedMap;
use ethereum_types::U256;
use std::sync::Arc;
use std::time::Duration;

const CHAIN: ChainProtocol = ChainProtocol {
    eth_62: (62, 10),
    eth_63: (63, 11),
    par_1: (1, 21),
    par_2: (2, 22),
    par_3: (3, 23),
    private_transaction_packet: 30,
    signed_private_transaction_packet: 31,
};

const PRUNING: PruningInfo = PruningInfo { earliest_chain: 100, earliest_state: 200 };

type TestParams = Params<&'static str, u8, char, bool, (), (), &'static str>;

type TestStartup<E> = Startup<&'static str, u8, char, bool, u16, (), (), i8, E>;

fn params(serve_light: bool) -> TestParams {
    let mut config = SyncConfig::default();
    config.serve_light = serve_light;
    config.network_id = 17;
    Params {
        config,
        chain: Arc::new("chain"),
        snapshot_service: Arc::new(4),
        private_tx_handler: Arc::new('t'),
        provider: Arc::new(true),
        network_config: NetworkConfiguration {
            config_path: None,
            net_config_path: Some("/net".to_string()),
            listen_address: Some("30303".to_string()),
            public_address: None,
            udp_port: None,
            nat_enabled: true,
            discovery_enabled: true,
            boot_nodes: vec![],
            use_secret: None,
            max_peers: 50,
            min_peers: 25,
            max_pending_peers: 64,
            snapshot_peers: 0,
            reserved_nodes: vec![],
            allow_non_reserved: true,
            ip_filter: (),
            client_version: "test".to_string(),
        },
        attached_protos: vec![
            AttachedProtocol { handler: "whisper", protocol_id: *b"shh", versions: &[(6, 128)] },
            AttachedProtocol { handler: "store", protocol_id: *b"pns", versions: &[] },
        ],
    }
}

fn build(serve_light: bool) -> (EthSync<&'static str>, TestStartup<()>) {
    EthSync::new(
        params(serve_light),
        Some(-1),
        PRUNING,
        &CHAIN,
        |text: &String| -> Result<u16, ()> { text.parse::<u16>().map_err(|_| ()) },
    )
}

fn registrations(steps: Vec<StartStep>) -> Vec<Registration> {
    steps
        .into_iter()
        .filter_map(|step| match step {
            StartStep::StartNetwork => None,
            StartStep::Register(registration) => Some(registration),
        })
        .collect()
}

#[test]
fn warp_sync_modes() {
    assert!(WarpSync::Enabled.is_enabled());
    assert!(WarpSync::OnlyAndAfter(5).is_enabled());
    assert!(!WarpSync::Disabled.is_enabled());
    assert!(!WarpSync::Enabled.is_warp_only());
    assert!(WarpSync::OnlyAndAfter(5).is_warp_only());
    assert!(!WarpSync::Disabled.is_warp_only());
}

#[test]
fn default_configuration() {
    let config = SyncConfig::default();
    assert_eq!(config.max_download_ahead_blocks, 20000);
    assert!(config.download_old_blocks);
    assert_eq!(config.network_id, 1);
    assert_eq!(config.subprotocol_name, ETH_PROTOCOL);
    assert_eq!(config.light_subprotocol_name, LIGHT_PROTOCOL);
    assert_eq!(config.fork_block, None);
    assert_eq!(config.warp_sync, WarpSync::Disabled);
    assert!(!config.serve_light);
}

#[test]
fn light_server_offers_everything() {
    let params = light_params(9, 50, PRUNING, None);
    assert_eq!(params.network_id, 9);
    assert!(params.capabilities.serve_headers);
    assert_eq!(params.capabilities.serve_chain_since, Some(100));
    assert_eq!(params.capabilities.serve_state_since, Some(200));
    assert!(params.capabilities.tx_relay);
    assert_eq!((params.load_share.numerator, params.load_share.denominator), (1, 100));
    assert!(params.sample_store.is_none());
}

#[test]
fn load_is_shared() {
    for peers in [0u32, 1, 2, 3, 7, 50, u32::MAX] {
        let share = light_params(1, peers, PRUNING, None).load_share;
        let value = share.numerator as f64 / share.denominator as f64;
        assert_eq!(value, 0.5 / std::cmp::max(peers, 1) as f64);
        assert!(peers as f64 * value <= 0.5);
    }
}

#[test]
fn service_without_light_side() {
    let (sync, startup) = build(false);
    assert!(!sync.light_proto);
    assert!(startup.light.is_none());
    let network = startup.network.unwrap();
    assert_eq!(network.config.listen_address, Some(30303));
    assert_eq!(network.connection_filter, Some(-1));
    assert_eq!(startup.chain_sync.config.network_id, 17);
    assert!(!startup.chain_sync.config.serve_light);
    assert_eq!(*startup.chain_sync.chain, "chain");
    assert_eq!(*startup.chain_sync.private_tx_handler, 't');
    assert_eq!(*startup.handler.chain, "chain");
    assert_eq!(*startup.handler.snapshot_service, 4);
    assert_eq!(sync.subprotocol_name, ETH_PROTOCOL);
    assert_eq!(sync.light_subprotocol_name, LIGHT_PROTOCOL);
    assert_eq!(sync.attached_protos.len(), 2);
}

#[test]
fn service_with_light_side() {
    let (sync, startup) = build(true);
    assert!(sync.light_proto);
    let light = startup.light.unwrap();
    assert!(*light.provider);
    assert_eq!(*light.relay_to, "chain");
    let light = light.params;
    assert_eq!(light.network_id, 17);
    assert_eq!(light.load_share.denominator, 100);
    let store = light.sample_store.unwrap();
    assert_eq!(store.directory, "/net");
    assert_eq!(store.file_name, "request_timings");
    assert_eq!(startup.network.unwrap().config.net_config_path, Some("/net".to_string()));
}

#[test]
fn service_with_a_bad_address() {
    let mut params = params(true);
    params.network_config.listen_address = Some("nowhere".to_string());
    params.network_config.net_config_path = None;
    let (_, startup): (EthSync<&'static str>, TestStartup<String>) =
        EthSync::new(params, None, PRUNING, &CHAIN, |text: &String| Err(text.clone()));
    assert!(startup.light.unwrap().params.sample_store.is_none());
    assert!(startup.chain_sync.config.serve_light);
    assert_eq!(startup.network.unwrap_err(), "nowhere");
}

#[test]
fn new_service_registers_the_main_protocol() {
    let mut params = params(true);
    params.config.subprotocol_name = *b"etc";
    let (sync, startup): (EthSync<&'static str>, TestStartup<()>) =
        EthSync::new(params, None, PRUNING, &CHAIN, |_: &String| Ok(1));
    let registration = startup.network.unwrap().registration;
    assert_eq!(registration.handler, Handler::Sync);
    assert_eq!(registration.protocol, *b"etc");
    assert_eq!(registration.versions, vec![(62, 10), (63, 11)]);
    let at_start = registrations(sync.start(&CHAIN, &[]));
    assert_eq!(format!("{:?}", at_start[0]), format!("{:?}", registration));
}

#[test]
fn network_is_started_before_any_registration() {
    for serve_light in [false, true] {
        let (sync, _) = build(serve_light);
        let started: Vec<bool> = sync
            .start(&CHAIN, &[(1, 15)])
            .iter()
            .map(|step| matches!(step, StartStep::StartNetwork))
            .collect();
        assert!(started[0]);
        assert!(started[1..].iter().all(|is_start| !is_start));
        assert_eq!(started.len(), if serve_light { 6 } else { 5 });
    }
}

#[test]
fn start_registers_every_protocol() {
    let (sync, _) = build(true);
    let listed: Vec<(Handler, [u8; 3], Vec<(u8, u8)>)> = registrations(
        sync.start(&CHAIN, &[(1, 15), (2, 16)]),
    )
        .into_iter()
        .map(|registration| (registration.handler, registration.protocol, registration.versions))
        .collect();
    assert_eq!(
        listed,
        vec![
            (Handler::Sync, ETH_PROTOCOL, vec![(62, 10), (63, 11)]),
            (Handler::Sync, WARP_SYNC_PROTOCOL_ID, vec![(1, 21), (2, 22), (3, 23)]),
            (Handler::Light, LIGHT_PROTOCOL, vec![(1, 15), (2, 16)]),
            (Handler::Attached(0), *b"shh", vec![(6, 128)]),
            (Handler::Attached(1), *b"pns", vec![]),
        ]
    );
}

#[test]
fn start_without_light_side() {
    let (sync, _) = build(false);
    let handlers: Vec<Handler> = registrations(sync.start(&CHAIN, &[(1, 15)]))
        .into_iter()
        .map(|registration| registration.handler)
        .collect();
    assert_eq!(
        handlers,
        vec![Handler::Sync, Handler::Sync, Handler::Attached(0), Handler::Attached(1)]
    );
}

#[test]
fn start_failures_are_reported() {
    let taken = EthSync::<()>::start_failure(StartError::AddressInUse, Some(30303u16));
    assert!(matches!(taken, StartReport::PortInUse(30303)));
    let other = EthSync::<()>::start_failure(StartError::Other, Some(30303u16));
    assert!(matches!(other, StartReport::Failure));
    let unknown = EthSync::<()>::start_failure::<u16>(StartError::Other, None);
    assert!(matches!(unknown, StartReport::Failure));
}

#[test]
fn stop_steps_in_order() {
    let (sync, _) = build(true);
    assert_eq!(sync.stop(), vec![StopStep::AbortRestore, StopStep::StopNetwork]);
    assert_eq!(
        sync.stop_network(),
        vec![
            StopStep::AbortSync(ETH_PROTOCOL),
            StopStep::AbortLight,
            StopStep::AbortRestore,
            StopStep::StopNetwork,
        ]
    );
    let (sync, _) = build(false);
    assert_eq!(
        sync.stop_network(),
        vec![
            StopStep::AbortSync(ETH_PROTOCOL),
            StopStep::AbortRestore,
            StopStep::StopNetwork,
        ]
    );
}

#[test]
fn new_head_is_announced_to_light_peers() {
    let (sync, _) = build(true);
    let announcement = sync
        .announce(|| BlockChainInfo {
            best_block_hash: [4; 32],
            best_block_number: 77,
            total_difficulty: U256::from(99),
        })
        .unwrap();
    assert_eq!(announcement.head_hash, [4; 32]);
    assert_eq!(announcement.head_num, 77);
    assert_eq!(announcement.head_td, U256::from(99));
    assert_eq!(announcement.reorg_depth, 0);
    assert!(!announcement.serve_headers);
    assert_eq!(announcement.serve_state_since, None);
    assert_eq!(announcement.serve_chain_since, None);
    assert!(!announcement.tx_relay);
}

#[test]
fn nothing_is_announced_without_light_side() {
    let (sync, _) = build(false);
    let announcement = sync.announce(|| panic!("the chain is not asked"));
    assert!(announcement.is_none());
}

fn blocks(millis: u64) -> NewBlocks {
    NewBlocks {
        imported: vec![[1; 32], [2; 32]],
        invalid: vec![[3; 32]],
        route: ChainRoute { enacted: vec![[4; 32]], retracted: vec![[5; 32], [6; 32]] },
        sealed: vec![[7; 32]],
        proposed: vec![vec![8, 9]],
        duration: Duration::from_millis(millis),
    }
}

#[test]
fn new_blocks_are_handed_over_in_the_main_context() {
    for serve_light in [false, true] {
        let (sync, _) = build(serve_light);
        let mut steps = sync.new_blocks(blocks(5)).into_iter();
        let chain = match steps.next() {
            Some(NewBlocksStep::TellChain(news)) => news,
            other => panic!("{:?}", other),
        };
        assert_eq!(chain.context, ETH_PROTOCOL);
        assert_eq!(chain.imported, vec![[1; 32], [2; 32]]);
        assert_eq!(chain.invalid, vec![[3; 32]]);
        assert_eq!(chain.enacted, vec![[4; 32]]);
        assert_eq!(chain.retracted, vec![[5; 32], [6; 32]]);
        assert_eq!(chain.sealed, vec![[7; 32]]);
        assert_eq!(chain.proposed, vec![vec![8, 9]]);
        match steps.next() {
            Some(NewBlocksStep::TellLight(protocol)) => assert_eq!(protocol, LIGHT_PROTOCOL),
            other => panic!("{:?}", other),
        }
        assert!(steps.next().is_none());
        assert_eq!(sync.peers_context(), ETH_PROTOCOL);
    }
}

#[test]
fn duration_of_the_import_does_not_matter() {
    let (sync, _) = build(true);
    assert_eq!(
        format!("{:?}", sync.new_blocks(blocks(1))),
        format!("{:?}", sync.new_blocks(blocks(1000)))
    );
}

#[test]
fn messages_are_broadcast_by_kind() {
    let (sync, _) = build(false);
    let outgoing = sync.broadcast(ChainMessageType::Consensus(vec![1, 2]), &CHAIN);
    assert_eq!(outgoing.context, WARP_SYNC_PROTOCOL_ID);
    match outgoing.propagation {
        Propagation::Consensus { message } => assert_eq!(message, vec![1, 2]),
        other => panic!("{:?}", other),
    }
    let outgoing = sync.broadcast(ChainMessageType::PrivateTransaction([5; 32], vec![3]), &CHAIN);
    assert_eq!(outgoing.context, WARP_SYNC_PROTOCOL_ID);
    match outgoing.propagation {
        Propagation::PrivateTransaction { transaction_hash, packet_id, message } => {
            assert_eq!((transaction_hash, packet_id, message), ([5; 32], 30, vec![3]))
        }
        other => panic!("{:?}", other),
    }
    let outgoing =
        sync.broadcast(ChainMessageType::SignedPrivateTransaction([6; 32], vec![4]), &CHAIN);
    assert_eq!(outgoing.context, WARP_SYNC_PROTOCOL_ID);
    match outgoing.propagation {
        Propagation::PrivateTransaction { transaction_hash, packet_id, message } => {
            assert_eq!((transaction_hash, packet_id, message), ([6; 32], 31, vec![4]))
        }
        other => panic!("{:?}", other),
    }
}

#[test]
fn statistics_are_ordered_by_hash() {
    let stats = |first_seen: u64| TransactionStats {
        first_seen,
        propagated_to: OrderedMap::from_entries(vec![([9; 64], 2), ([8; 64], 1)]),
    };
    let map = EthSync::<()>::transactions_stats(vec![([2; 32], stats(20)), ([1; 32], stats(10))]);
    let seen: Vec<([u8; 32], u64)> =
        map.entries().iter().map(|(hash, stats)| (*hash, stats.first_seen)).collect();
    assert_eq!(seen, vec![([1; 32], 10), ([2; 32], 20)]);
    assert_eq!(
        map.get(&[1; 32]).unwrap().propagated_to.entries(),
        &vec![([8; 64], 1), ([9; 64], 2)]
    );
}

#[test]
fn relayed_transactions_keep_their_order() {
    let encoded = TxRelay::on_transactions(&[3u8, 1, 2], |tx: &u8| rlp::encode(tx).into_vec());
    assert_eq!(encoded, vec![vec![3u8], vec![1], vec![2]]);
}

#[test]
fn each_peer_is_greeted_and_given_up_once() {
    let (sync, _) = build(true);
    let contexts: Vec<[u8; 3]> = registrations(sync.start(&CHAIN, &[(1, 15)]))
        .into_iter()
        .filter(|registration| registration.handler == Handler::Sync)
        .map(|registration| registration.protocol)
        .collect();
    for version in [None, Some(0), Some(1), Some(3)] {
        let greeted = contexts
            .iter()
            .filter(|context| SyncProtocolHandler::connected(version, **context))
            .count();
        assert_eq!(greeted, 1);
    }
    let given_up =
        contexts.iter().filter(|context| SyncProtocolHandler::disconnected(**context)).count();
    assert_eq!(given_up, 1);
    let timed = contexts
        .iter()
        .filter(|context| !SyncProtocolHandler::initialize(**context).is_empty())
        .count();
    assert_eq!(timed, 1);
}

#[test]
fn stop_is_the_end_of_stop_network() {
    for serve_light in [false, true] {
        let (sync, _) = build(serve_light);
        assert!(sync.stop_network().ends_with(&sync.stop()));
        assert_eq!(sync.stop_network().last(), Some(&StopStep::StopNetwork));
        assert_eq!(sync.stop_network().contains(&StopStep::AbortLight), serve_light);
    }
}

#[test]
fn order_of_statistics_does_not_matter() {
    let stats = |first_seen: u64| TransactionStats { first_seen, propagated_to: OrderedMap::new() };
    let one = EthSync::<()>::transactions_stats(vec![([2; 32], stats(20)), ([1; 32], stats(10))]);
    let other = EthSync::<()>::transactions_stats(vec![([1; 32], stats(10)), ([2; 32], stats(20))]);
    assert_eq!(format!("{:?}", one), format!("{:?}", other));
}
