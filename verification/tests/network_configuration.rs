use ethcore_sync::common_types::{
    BasicNetworkConfiguration, NetworkConfiguration, NonReservedPeerMode, WARP_SYNC_PROTOCOL_ID,
};
use ethcore_sync::ordered_map::OrderedMap;
use std::cell::RefCell;
use std::num::ParseIntError;

fn parse(text: &String) -> Result<u16, ParseIntError> {
    text.parse::<u16>()
}

fn sample() -> NetworkConfiguration<u8, char> {
    NetworkConfiguration {
        config_path: Some("/config".to_string()),
        net_config_path: None,
        listen_address: Some("30303".to_string()),
        public_address: Some("0080".to_string()),
        udp_port: Some(30304),
        nat_enabled: true,
        discovery_enabled: false,
        boot_nodes: vec!["enode://a".to_string()],
        use_secret: Some(9),
        max_peers: 50,
        min_peers: 25,
        max_pending_peers: 64,
        snapshot_peers: 7,
        reserved_nodes: vec!["enode://b".to_string(), "enode://c".to_string()],
        allow_non_reserved: true,
        ip_filter: 'f',
        client_version: "version".to_string(),
    }
}

fn basic() -> BasicNetworkConfiguration<u16, u8, char> {
    let mut reserved_protocols: OrderedMap<3, u32> = OrderedMap::new();
    reserved_protocols.insert(*b"xyz", 3);
    reserved_protocols.insert(WARP_SYNC_PROTOCOL_ID, 5);
    BasicNetworkConfiguration {
        config_path: None,
        net_config_path: Some("/net".to_string()),
        listen_address: Some(1),
        public_address: None,
        udp_port: None,
        nat_enabled: false,
        discovery_enabled: true,
        boot_nodes: vec![],
        use_secret: None,
        max_peers: 2,
        min_peers: 1,
        max_handshakes: 3,
        reserved_protocols,
        reserved_nodes: vec![],
        ip_filter: 'g',
        non_reserved_mode: NonReservedPeerMode::Deny,
        client_version: "other".to_string(),
    }
}

#[test]
fn converts_every_setting() {
    let converted = sample().into_basic(parse).unwrap();
    assert_eq!(converted.config_path, Some("/config".to_string()));
    assert_eq!(converted.net_config_path, None);
    assert_eq!(converted.listen_address, Some(30303));
    assert_eq!(converted.public_address, Some(80));
    assert_eq!(converted.udp_port, Some(30304));
    assert!(converted.nat_enabled);
    assert!(!converted.discovery_enabled);
    assert_eq!(converted.boot_nodes, vec!["enode://a".to_string()]);
    assert_eq!(converted.use_secret, Some(9));
    assert_eq!(converted.max_peers, 50);
    assert_eq!(converted.min_peers, 25);
    assert_eq!(converted.max_handshakes, 64);
    assert_eq!(converted.reserved_protocols.entries(), &vec![(*b"par", 7)]);
    assert_eq!(
        converted.reserved_nodes,
        vec!["enode://b".to_string(), "enode://c".to_string()]
    );
    assert_eq!(converted.ip_filter, 'f');
    assert_eq!(converted.non_reserved_mode, NonReservedPeerMode::Accept);
    assert_eq!(converted.client_version, "version");
}

#[test]
fn denies_unreserved_peers() {
    let mut config = sample();
    config.allow_non_reserved = false;
    let converted = config.into_basic(parse).unwrap();
    assert_eq!(converted.non_reserved_mode, NonReservedPeerMode::Deny);
}

#[test]
fn refuses_a_bad_listen_address_first() {
    let mut config = sample();
    config.listen_address = Some("here".to_string());
    config.public_address = Some("there".to_string());
    let asked: RefCell<Vec<String>> = RefCell::new(vec![]);
    let refused = config.into_basic(|text: &String| -> Result<u16, String> {
        asked.borrow_mut().push(text.clone());
        Err(format!("bad {}", text))
    });
    assert_eq!(refused.unwrap_err(), "bad here");
    assert_eq!(asked.into_inner(), vec!["here".to_string()]);
}

#[test]
fn refuses_a_bad_public_address() {
    let mut config = sample();
    config.public_address = Some("70000".to_string());
    assert!(config.into_basic(parse).is_err());
}

#[test]
fn converts_without_addresses() {
    let mut config = sample();
    config.listen_address = None;
    config.public_address = None;
    let converted = config
        .into_basic(|_: &String| -> Result<u16, ()> { Err(()) })
        .unwrap();
    assert_eq!(converted.listen_address, None);
    assert_eq!(converted.public_address, None);
}

#[test]
fn writes_addresses_as_text() {
    let text = NetworkConfiguration::from(basic());
    assert_eq!(text.listen_address, Some("1".to_string()));
    assert_eq!(text.public_address, None);
    assert_eq!(text.net_config_path, Some("/net".to_string()));
    assert_eq!(text.max_pending_peers, 3);
    assert_eq!(text.snapshot_peers, 5);
    assert!(!text.allow_non_reserved);
    assert_eq!(text.client_version, "other");
}

#[test]
fn text_form_is_made_by_into() {
    let text: NetworkConfiguration<_, _> = basic().into();
    assert_eq!(text, NetworkConfiguration::from(basic()));
    assert_eq!(text.listen_address, Some("1".to_string()));
    assert_eq!(text.snapshot_peers, 5);
}

#[test]
fn reserves_no_peers_where_nothing_is_said() {
    let mut settings = basic();
    settings.reserved_protocols = OrderedMap::new();
    assert_eq!(NetworkConfiguration::from(settings).snapshot_peers, 0);
}

#[test]
fn text_form_is_restored() {
    let back = NetworkConfiguration::from(basic()).into_basic(parse).unwrap();
    let mut expected = basic();
    expected.reserved_protocols = OrderedMap::from_entries(vec![(*b"par", 5)]);
    assert_eq!(back, expected);
}

#[test]
fn addresses_are_written_anew() {
    let again = NetworkConfiguration::from(sample().into_basic(parse).unwrap());
    let mut expected = sample();
    expected.public_address = Some("80".to_string());
    assert_eq!(again, expected);
}

#[test]
fn canonical_addresses_are_written_again() {
    let mut config = sample();
    config.public_address = Some("80".to_string());
    let again = NetworkConfiguration::from(config.clone().into_basic(parse).unwrap());
    assert_eq!(again, config);
}

#[test]
fn other_reserved_protocols_are_left_out() {
    let mut settings = basic();
    settings.reserved_protocols = OrderedMap::from_entries(vec![(*b"par", 5), (*b"abc", 9)]);
    assert_eq!(NetworkConfiguration::from(settings), NetworkConfiguration::from(basic()));
    let mut missing = basic();
    missing.reserved_protocols = OrderedMap::new();
    let mut zero = basic();
    zero.reserved_protocols = OrderedMap::from_entries(vec![(*b"par", 0)]);
    assert_eq!(NetworkConfiguration::from(missing), NetworkConfiguration::from(zero));
}
