use ethcore_sync::common_types::{EthProtocolInfo, PipProtocolInfo, Status};
use ethcore_sync::full_sync::peers::{peer_info, peers, ConnectedPeer, SessionInfo};
use ethereum_types::U256;

fn session(first: u8, version: &str) -> SessionInfo<u16> {
    let mut id = [0u8; 64];
    id[0] = first;
    id[63] = 0x0f;
    SessionInfo {
        id: Some(id),
        client_version: version.to_string(),
        peer_capabilities: vec![63, 3],
        remote_address: "1.2.3.4:30303".to_string(),
        local_address: "5.6.7.8:30303".to_string(),
    }
}

fn connected(session: Option<SessionInfo<u16>>) -> ConnectedPeer<u16> {
    ConnectedPeer { session, eth_info: None, pip_status: None }
}

#[test]
fn node_id_is_written_in_hexadecimal() {
    let info = peer_info(session(0xab, "a"), None, None);
    let mut expected = "ab".to_string();
    for _ in 0..62 {
        expected.push_str("00");
    }
    expected.push_str("0f");
    assert_eq!(info.id, Some(expected));
}

#[test]
fn peer_without_id_has_no_text() {
    let mut unnamed = session(1, "a");
    unnamed.id = None;
    assert_eq!(peer_info(unnamed, None, None).id, None);
}

#[test]
fn peer_info_keeps_what_is_known() {
    let eth = EthProtocolInfo { version: 63, head: [7; 32], difficulty: Some(U256::from(11)) };
    let pip = Status { protocol_version: 2, head_hash: [8; 32], head_td: U256::from(12) };
    let info = peer_info(session(1, "client"), Some(eth), Some(pip));
    assert_eq!(info.client_version, "client");
    assert_eq!(info.capabilities, vec!["63".to_string(), "3".to_string()]);
    assert_eq!(info.remote_address, "1.2.3.4:30303");
    assert_eq!(info.local_address, "5.6.7.8:30303");
    let eth = info.eth_info.unwrap();
    assert_eq!((eth.version, eth.head, eth.difficulty), (63, [7; 32], Some(U256::from(11))));
    let pip = info.pip_info.unwrap();
    assert_eq!((pip.version, pip.head, pip.difficulty), (2, [8; 32], U256::from(12)));
}

#[test]
fn pip_info_from_status() {
    let status = Status { protocol_version: 1, head_hash: [3; 32], head_td: U256::from(5) };
    let info = PipProtocolInfo::from(status);
    assert_eq!((info.version, info.head, info.difficulty), (1, [3; 32], U256::from(5)));
}

#[test]
fn closed_sessions_are_left_out() {
    let infos = peers(Some(vec![
        connected(Some(session(1, "first"))),
        connected(None),
        connected(Some(session(2, "second"))),
    ]));
    let versions: Vec<String> = infos.into_iter().map(|info| info.client_version).collect();
    assert_eq!(versions, vec!["first".to_string(), "second".to_string()]);
}

#[test]
fn nobody_is_told_of_without_a_context() {
    assert_eq!(peers::<u16>(None).len(), 0);
    assert_eq!(peers::<u16>(Some(vec![])).len(), 0);
}

#[test]
fn different_ids_are_written_differently() {
    let one = peer_info(session(0x10, "a"), None, None).id;
    let other = peer_info(session(0x01, "a"), None, None).id;
    assert_ne!(one, other);
    assert_eq!(one.unwrap().len(), 128);
}

#[test]
fn two_groups_are_listed_one_after_the_other() {
    let first = || vec![connected(None), connected(Some(session(1, "first")))];
    let second = || vec![connected(Some(session(2, "second"))), connected(None)];
    let mut both = first();
    both.extend(second());
    let mut apart = peers(Some(first()));
    apart.extend(peers(Some(second())));
    assert_eq!(format!("{:?}", peers(Some(both))), format!("{:?}", apart));
}
