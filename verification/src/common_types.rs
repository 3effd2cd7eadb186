//! Types shared by the full and the light synchronisation.
use vstd::prelude::*;

use std::fmt::Display;

use crate::fixed_bytes::H256;
use crate::ordered_map::OrderedMap;
use ethereum_types::U256;

verus! {

/// The 256 bit unsigned integer of `ethereum_types`, carried as it is.
#[verifier::external_type_specification]
#[verifier::external_body]
pub struct ExU256(U256);

/// Name of a subprotocol, three characters.
pub type ProtocolId = [u8; 3];

/// Parity sync protocol, `par`.
pub const WARP_SYNC_PROTOCOL_ID: ProtocolId = [0x70, 0x61, 0x72];

/// Ethereum sync protocol, `eth`.
pub const ETH_PROTOCOL: ProtocolId = [0x65, 0x74, 0x68];

/// Ethereum light protocol, `pip`.
pub const LIGHT_PROTOCOL: ProtocolId = [0x70, 0x69, 0x70];

/// The names of the three protocols read `par`, `eth` and `pip`, so that none is
/// taken for another.
pub proof fn protocols_are_told_apart_by_name()
    ensures
        WARP_SYNC_PROTOCOL_ID@ == seq!['p' as u8, 'a' as u8, 'r' as u8],
        ETH_PROTOCOL@ == seq!['e' as u8, 't' as u8, 'h' as u8],
        LIGHT_PROTOCOL@ == seq!['p' as u8, 'i' as u8, 'p' as u8],
        WARP_SYNC_PROTOCOL_ID != ETH_PROTOCOL,
        WARP_SYNC_PROTOCOL_ID != LIGHT_PROTOCOL,
        ETH_PROTOCOL != LIGHT_PROTOCOL,
{
    assert(WARP_SYNC_PROTOCOL_ID@ =~= seq!['p' as u8, 'a' as u8, 'r' as u8]);
    assert(ETH_PROTOCOL@ =~= seq!['e' as u8, 't' as u8, 'h' as u8]);
    assert(LIGHT_PROTOCOL@ =~= seq!['p' as u8, 'i' as u8, 'p' as u8]);
    assert(WARP_SYNC_PROTOCOL_ID@[0] != ETH_PROTOCOL@[0]);
    assert(WARP_SYNC_PROTOCOL_ID@[1] != LIGHT_PROTOCOL@[1]);
    assert(ETH_PROTOCOL@[0] != LIGHT_PROTOCOL@[0]);
}

/// Transaction stats
#[derive(Debug)]
pub struct TransactionStats {
    /// Block number where this TX was first seen.
    pub first_seen: u64,
    /// Peers it was propagated to.
    pub propagated_to: OrderedMap<64, usize>,
}

/// Peer connection information
#[derive(Debug)]
pub struct PeerInfo {
    /// Public node id
    pub id: Option<String>,
    /// Node client ID
    pub client_version: String,
    /// Capabilities
    pub capabilities: Vec<String>,
    /// Remote endpoint address
    pub remote_address: String,
    /// Local endpoint address
    pub local_address: String,
    /// Eth protocol info.
    pub eth_info: Option<EthProtocolInfo>,
    /// Light protocol info.
    pub pip_info: Option<PipProtocolInfo>,
}

/// Ethereum protocol info.
#[derive(Debug)]
pub struct EthProtocolInfo {
    /// Protocol version
    pub version: u32,
    /// SHA3 of peer best block hash
    pub head: H256,
    /// Peer total difficulty if known
    pub difficulty: Option<U256>,
}

/// PIP protocol info.
#[derive(Debug)]
pub struct PipProtocolInfo {
    /// Protocol version
    pub version: u32,
    /// SHA3 of peer best block hash
    pub head: H256,
    /// Peer total difficulty if known
    pub difficulty: U256,
}

/// What a light peer last told about its chain.
#[derive(Debug)]
pub struct Status {
    /// Protocol version
    pub protocol_version: u32,
    /// Hash of the best block
    pub head_hash: H256,
    /// Total difficulty of the best block
    pub head_td: U256,
}

impl From<Status> for PipProtocolInfo {
    fn from(status: Status) -> (res: Self)
        ensures
            res.version == status.protocol_version,
            res.head == status.head_hash,
            res.difficulty == status.head_td,
    {
        PipProtocolInfo {
            version: status.protocol_version,
            head: status.head_hash,
            difficulty: status.head_td,
        }
    }
}

impl vstd::std_specs::convert::FromSpecImpl<Status> for PipProtocolInfo {
    open spec fn obeys_from_spec() -> bool {
        true
    }

    open spec fn from_spec(status: Status) -> Self {
        PipProtocolInfo {
            version: status.protocol_version,
            head: status.head_hash,
            difficulty: status.head_td,
        }
    }
}

/// Version, head and difficulty of a light peer are told as the peer gave them.
pub proof fn status_is_told_as_given(status: Status, res: PipProtocolInfo)
    requires
        call_ensures(<PipProtocolInfo as From<Status>>::from, (status,), res),
    ensures
        res.version == status.protocol_version,
        res.head == status.head_hash,
        res.difficulty == status.head_td,
{
}

/// Who answers for a protocol once it is registered.
#[derive(Debug, Clone, Copy, PartialEq, Eq, Structural)]
pub enum Handler {
    /// The handler of the main and the warp protocol.
    Sync,
    /// The light protocol.
    Light,
    /// The handler of the attached protocol at this place of the list.
    Attached(usize),
}

/// A protocol to be registered with the network.
#[derive(Debug)]
pub struct Registration {
    /// Who answers for the protocol.
    pub handler: Handler,
    /// 3-character ID for the protocol.
    pub protocol: ProtocolId,
    /// Supported versions and their packet counts.
    pub versions: Vec<(u8, u8)>,
}

/// What a registration says.
pub struct RegistrationView {
    /// Who answers for the protocol.
    pub handler: Handler,
    /// 3-character ID for the protocol.
    pub protocol: ProtocolId,
    /// Supported versions and their packet counts.
    pub versions: Seq<(u8, u8)>,
}

impl View for Registration {
    type V = RegistrationView;

    open spec fn view(&self) -> RegistrationView {
        RegistrationView {
            handler: self.handler,
            protocol: self.protocol,
            versions: self.versions@,
        }
    }
}

/// Configuration to attach alternate protocol handlers.
/// Only works when IPC is disabled.
#[derive(Debug)]
pub struct AttachedProtocol<H> {
    /// The protocol handler in question.
    pub handler: H,
    /// 3-character ID for the protocol.
    pub protocol_id: ProtocolId,
    /// Supported versions and their packet counts.
    pub versions: &'static [(u8, u8)],
}

impl<H> AttachedProtocol<H> {
    /// The registration of this protocol, which stands at place `place` of the list.
    pub open spec fn registration(self, place: usize) -> RegistrationView {
        RegistrationView {
            handler: Handler::Attached(place),
            protocol: self.protocol_id,
            versions: self.versions@,
        }
    }

    /// Tells how to register this protocol, which stands at place `place` of the list.
    pub(crate) fn register(&self, place: usize) -> (res: Registration)
        ensures
            res@ == self.registration(place),
            res.handler == Handler::Attached(place),
            res.protocol == self.protocol_id,
            res.versions@ == self.versions@,
    {
        Registration {
            handler: Handler::Attached(place),
            protocol: self.protocol_id,
            versions: listed(self.versions),
        }
    }
}

/// The versions of a slice as a list of their own.
pub(crate) fn listed(versions: &[(u8, u8)]) -> (res: Vec<(u8, u8)>)
    ensures
        res@ == versions@,
{
    let mut res: Vec<(u8, u8)> = Vec::new();
    let mut i: usize = 0;
    while i < versions.len()
        invariant
            i <= versions@.len(),
            res@ == versions@.take(i as int),
        decreases versions@.len() - i,
    {
        res.push(versions[i]);
        i += 1;
        assert(versions@.take(i as int) =~= versions@.take(i - 1).push(versions@[i - 1]));
    }
    assert(versions@.take(i as int) =~= versions@);
    res
}

/// How peers that are not reserved are treated.
#[derive(Debug, Clone, Copy, PartialEq, Eq, Structural)]
pub enum NonReservedPeerMode {
    /// Accept them.
    Accept,
    /// Deny them.
    Deny,
}

/// Network service configuration, with the addresses as text.
///
/// `S` is the type of the node key and `I` that of the IP filter.
#[derive(Debug, Clone, PartialEq, Eq)]
pub struct NetworkConfiguration<S, I> {
    /// Directory path to store general network configuration. None means nothing will be saved
    pub config_path: Option<String>,
    /// Directory path to store network-specific configuration. None means nothing will be saved
    pub net_config_path: Option<String>,
    /// IP address to listen for incoming connections. Listen to all connections by default
    pub listen_address: Option<String>,
    /// IP address to advertise. Detected automatically if none.
    pub public_address: Option<String>,
    /// Port for UDP connections, same as TCP by default
    pub udp_port: Option<u16>,
    /// Enable NAT configuration
    pub nat_enabled: bool,
    /// Enable discovery
    pub discovery_enabled: bool,
    /// List of initial node addresses
    pub boot_nodes: Vec<String>,
    /// Use provided node key instead of default
    pub use_secret: Option<S>,
    /// Max number of connected peers to maintain
    pub max_peers: u32,
    /// Min number of connected peers to maintain
    pub min_peers: u32,
    /// Max pending peers.
    pub max_pending_peers: u32,
    /// Reserved snapshot sync peers.
    pub snapshot_peers: u32,
    /// List of reserved node addresses.
    pub reserved_nodes: Vec<String>,
    /// The non-reserved peer mode.
    pub allow_non_reserved: bool,
    /// IP Filtering
    pub ip_filter: I,
    /// Client version string
    pub client_version: String,
}

/// Configuration of the network layer itself, with parsed addresses of type `A`.
#[derive(Debug, PartialEq, Eq)]
pub struct BasicNetworkConfiguration<A, S, I> {
    /// Directory path to store general network configuration.
    pub config_path: Option<String>,
    /// Directory path to store network-specific configuration.
    pub net_config_path: Option<String>,
    /// Address to listen for incoming connections.
    pub listen_address: Option<A>,
    /// Address to advertise.
    pub public_address: Option<A>,
    /// Port for UDP connections.
    pub udp_port: Option<u16>,
    /// Enable NAT configuration
    pub nat_enabled: bool,
    /// Enable discovery
    pub discovery_enabled: bool,
    /// List of initial node addresses
    pub boot_nodes: Vec<String>,
    /// Use provided node key instead of default
    pub use_secret: Option<S>,
    /// Max number of connected peers to maintain
    pub max_peers: u32,
    /// Min number of connected peers to maintain
    pub min_peers: u32,
    /// Max pending handshakes.
    pub max_handshakes: u32,
    /// Reserved number of peers for each protocol.
    pub reserved_protocols: OrderedMap<3, u32>,
    /// List of reserved node addresses.
    pub reserved_nodes: Vec<String>,
    /// IP Filtering
    pub ip_filter: I,
    /// The non-reserved peer mode.
    pub non_reserved_mode: NonReservedPeerMode,
    /// Client version string
    pub client_version: String,
}

/// `parse` reads the address `text` as `address`; no text gives no address.
pub open spec fn reads_as<A, E, F: Fn(&String) -> Result<A, E>>(
    parse: F,
    text: Option<String>,
    address: Option<A>,
) -> bool {
    match text {
        None => address is None,
        Some(s) => address matches Some(a) && call_ensures(parse, (&s,), Ok(a)),
    }
}

/// `parse` refuses the address `text` with `error`.
pub open spec fn is_refused<A, E, F: Fn(&String) -> Result<A, E>>(
    parse: F,
    text: Option<String>,
    error: E,
) -> bool {
    text matches Some(s) && call_ensures(parse, (&s,), Err(error))
}

/// `parse` can be called on the address `text`.
pub open spec fn can_parse<A, E, F: Fn(&String) -> Result<A, E>>(
    parse: F,
    text: Option<String>,
) -> bool {
    text matches Some(s) ==> call_requires(parse, (&s,))
}

/// `text` is what `Display` writes for `address`; no address gives no text.
pub open spec fn is_shown_as<A: Display>(address: Option<A>, text: Option<String>) -> bool {
    match address {
        None => text is None,
        Some(a) => text matches Some(s) && vstd::string::to_string_from_display_ensures::<A>(&a, s),
    }
}

impl<A, S, I> BasicNetworkConfiguration<A, S, I> {
    /// Number of peers reserved for the warp protocol, zero where nothing is said.
    pub open spec fn warp_peers(self) -> u32 {
        if self.reserved_protocols@.dom().contains(WARP_SYNC_PROTOCOL_ID) {
            self.reserved_protocols@[WARP_SYNC_PROTOCOL_ID]
        } else {
            0
        }
    }
}

impl<S, I> NetworkConfiguration<S, I> {
    /// Both configurations say the same, addresses and the peers reserved for
    /// protocols other than the warp protocol left aside.
    pub open spec fn agrees_with<A>(self, basic: BasicNetworkConfiguration<A, S, I>) -> bool {
        &&& basic.config_path == self.config_path
        &&& basic.net_config_path == self.net_config_path
        &&& basic.udp_port == self.udp_port
        &&& basic.nat_enabled == self.nat_enabled
        &&& basic.discovery_enabled == self.discovery_enabled
        &&& basic.boot_nodes == self.boot_nodes
        &&& basic.use_secret == self.use_secret
        &&& basic.max_peers == self.max_peers
        &&& basic.min_peers == self.min_peers
        &&& basic.max_handshakes == self.max_pending_peers
        &&& basic.warp_peers() == self.snapshot_peers
        &&& basic.reserved_nodes == self.reserved_nodes
        &&& basic.ip_filter == self.ip_filter
        &&& (basic.non_reserved_mode is Accept <==> self.allow_non_reserved)
        &&& basic.client_version == self.client_version
    }

    /// `basic` is what this configuration becomes when `parse` reads its addresses.
    pub open spec fn becomes<A, E, F: Fn(&String) -> Result<A, E>>(
        self,
        parse: F,
        basic: BasicNetworkConfiguration<A, S, I>,
    ) -> bool {
        &&& self.agrees_with(basic)
        &&& reads_as(parse, self.listen_address, basic.listen_address)
        &&& reads_as(parse, self.public_address, basic.public_address)
        &&& basic.reserved_protocols@ == map![WARP_SYNC_PROTOCOL_ID => self.snapshot_peers]
    }

    /// `error` is a reason why this configuration cannot be converted: the listen
    /// address is refused, or it is read and the public address is refused.
    pub open spec fn fails_with<A, E, F: Fn(&String) -> Result<A, E>>(
        self,
        parse: F,
        error: E,
    ) -> bool {
        ||| is_refused(parse, self.listen_address, error)
        ||| {
            &&& exists|address: Option<A>| reads_as(parse, self.listen_address, address)
            &&& is_refused(parse, self.public_address, error)
        }
    }

    /// This is the text form of `basic`.
    pub open spec fn describes<A: Display>(
        self,
        basic: BasicNetworkConfiguration<A, S, I>,
    ) -> bool {
        &&& self.agrees_with(basic)
        &&& is_shown_as(basic.listen_address, self.listen_address)
        &&& is_shown_as(basic.public_address, self.public_address)
    }

    /// Attempt to convert this config into a `BasicNetworkConfiguration`.
    ///
    /// The listen address is parsed first; the first address that `parse`
    /// refuses gives the error.
    pub fn into_basic<A, E, F: Fn(&String) -> Result<A, E>>(self, parse: F) -> (res: Result<
        BasicNetworkConfiguration<A, S, I>,
        E,
    >)
        requires
            can_parse(parse, self.listen_address),
            can_parse(parse, self.public_address),
        ensures
            match res {
                Ok(basic) => self.becomes(parse, basic),
                Err(error) => self.fails_with::<A, E, F>(parse, error),
            },
            res matches Ok(basic) ==> {
                &&& basic.config_path == self.config_path
                &&& basic.net_config_path == self.net_config_path
                &&& basic.udp_port == self.udp_port
                &&& basic.nat_enabled == self.nat_enabled
                &&& basic.discovery_enabled == self.discovery_enabled
                &&& basic.boot_nodes == self.boot_nodes
                &&& basic.use_secret == self.use_secret
                &&& basic.max_peers == self.max_peers
                &&& basic.min_peers == self.min_peers
                &&& basic.max_handshakes == self.max_pending_peers
                &&& basic.reserved_nodes == self.reserved_nodes
                &&& basic.ip_filter == self.ip_filter
                &&& basic.client_version == self.client_version
                &&& basic.non_reserved_mode == (if self.allow_non_reserved {
                    NonReservedPeerMode::Accept
                } else {
                    NonReservedPeerMode::Deny
                })
                &&& basic.reserved_protocols@ == map![WARP_SYNC_PROTOCOL_ID => self.snapshot_peers]
                &&& basic.listen_address is Some <==> self.listen_address is Some
                &&& basic.public_address is Some <==> self.public_address is Some
                &&& self.listen_address matches Some(text) ==> call_ensures(
                    parse,
                    (&text,),
                    Ok(basic.listen_address->0),
                )
                &&& self.public_address matches Some(text) ==> call_ensures(
                    parse,
                    (&text,),
                    Ok(basic.public_address->0),
                )
            },
    {
        let listen_address: Option<A> = match &self.listen_address {
            None => None,
            Some(text) => match parse(text) {
                Ok(address) => Some(address),
                Err(error) => return Err(error),
            },
        };
        assert(reads_as(parse, self.listen_address, listen_address));
        let public_address: Option<A> = match &self.public_address {
            None => None,
            Some(text) => match parse(text) {
                Ok(address) => Some(address),
                Err(error) => return Err(error),
            },
        };
        let mut reserved_protocols: OrderedMap<3, u32> = OrderedMap::new();
        let _ = reserved_protocols.insert(WARP_SYNC_PROTOCOL_ID, self.snapshot_peers);
        Ok(
            BasicNetworkConfiguration {
                config_path: self.config_path,
                net_config_path: self.net_config_path,
                listen_address,
                public_address,
                udp_port: self.udp_port,
                nat_enabled: self.nat_enabled,
                discovery_enabled: self.discovery_enabled,
                boot_nodes: self.boot_nodes,
                use_secret: self.use_secret,
                max_peers: self.max_peers,
                min_peers: self.min_peers,
                max_handshakes: self.max_pending_peers,
                reserved_protocols,
                reserved_nodes: self.reserved_nodes,
                ip_filter: self.ip_filter,
                non_reserved_mode: if self.allow_non_reserved {
                    NonReservedPeerMode::Accept
                } else {
                    NonReservedPeerMode::Deny
                },
                client_version: self.client_version,
            },
        )
    }
}

impl<A: Display, S, I> From<BasicNetworkConfiguration<A, S, I>> for NetworkConfiguration<S, I> {
    /// The text form of a configuration of the network layer.
    fn from(other: BasicNetworkConfiguration<A, S, I>) -> (res: Self)
        ensures
            res.describes(other),
            other.config_path == res.config_path,
            other.net_config_path == res.net_config_path,
            other.udp_port == res.udp_port,
            other.nat_enabled == res.nat_enabled,
            other.discovery_enabled == res.discovery_enabled,
            other.boot_nodes == res.boot_nodes,
            other.use_secret == res.use_secret,
            other.max_peers == res.max_peers,
            other.min_peers == res.min_peers,
            other.max_handshakes == res.max_pending_peers,
            other.reserved_nodes == res.reserved_nodes,
            other.ip_filter == res.ip_filter,
            other.client_version == res.client_version,
            res.allow_non_reserved == (other.non_reserved_mode is Accept),
            res.snapshot_peers == (if other.reserved_protocols@.dom().contains(
                WARP_SYNC_PROTOCOL_ID,
            ) {
                other.reserved_protocols@[WARP_SYNC_PROTOCOL_ID]
            } else {
                0
            }),
            res.listen_address is Some <==> other.listen_address is Some,
            res.public_address is Some <==> other.public_address is Some,
            other.listen_address matches Some(
                address,
            ) ==> vstd::string::to_string_from_display_ensures::<A>(
                &address,
                res.listen_address->0,
            ),
            other.public_address matches Some(
                address,
            ) ==> vstd::string::to_string_from_display_ensures::<A>(
                &address,
                res.public_address->0,
            ),
    {
        let listen_address: Option<String> = match &other.listen_address {
            None => None,
            Some(address) => Some(address.to_string()),
        };
        let public_address: Option<String> = match &other.public_address {
            None => None,
            Some(address) => Some(address.to_string()),
        };
        let snapshot_peers: u32 = match other.reserved_protocols.get(&WARP_SYNC_PROTOCOL_ID) {
            Some(peers) => *peers,
            None => 0,
        };
        NetworkConfiguration {
            config_path: other.config_path,
            net_config_path: other.net_config_path,
            listen_address,
            public_address,
            udp_port: other.udp_port,
            nat_enabled: other.nat_enabled,
            discovery_enabled: other.discovery_enabled,
            boot_nodes: other.boot_nodes,
            use_secret: other.use_secret,
            max_peers: other.max_peers,
            min_peers: other.min_peers,
            max_pending_peers: other.max_handshakes,
            snapshot_peers,
            reserved_nodes: other.reserved_nodes,
            allow_non_reserved: match other.non_reserved_mode {
                NonReservedPeerMode::Accept => true,
                NonReservedPeerMode::Deny => false,
            },
            ip_filter: other.ip_filter,
            client_version: other.client_version,
        }
    }
}

// What `Display` writes is known as a relation only, so no function from a
// configuration to its text form is claimed; the contract of `from` states the
// relation.
impl<A: Display, S, I> vstd::std_specs::convert::FromSpecImpl<BasicNetworkConfiguration<A, S, I>> for NetworkConfiguration<S, I> {
    open spec fn obeys_from_spec() -> bool {
        false
    }

    open spec fn from_spec(other: BasicNetworkConfiguration<A, S, I>) -> Self {
        arbitrary()
    }
}

/// `parse` reads every text that `Display` writes for `address` as that address;
/// nothing is asked where there is no address.
pub open spec fn reads_back<A: Display, E, F: Fn(&String) -> Result<A, E>>(
    parse: F,
    address: Option<A>,
) -> bool {
    address matches Some(a) ==> forall|s: String, read: Result<A, E>| #[trigger]
        vstd::string::to_string_from_display_ensures::<A>(&a, s) && #[trigger] call_ensures(
            parse,
            (&s,),
            read,
        ) ==> read == Ok::<A, E>(a)
}

/// `text` is canonical: for every address that `parse` reads it as, `Display`
/// writes `text` again; nothing is asked where there is no text.
pub open spec fn is_canonical<A: Display, E, F: Fn(&String) -> Result<A, E>>(
    parse: F,
    text: Option<String>,
) -> bool {
    text matches Some(s) ==> forall|a: A, t: String| #[trigger]
        call_ensures(parse, (&s,), Ok(a))
            && #[trigger] vstd::string::to_string_from_display_ensures::<A>(&a, t) ==> t@ == s@
}

/// `Display` always writes the same text for `address`.
pub open spec fn has_one_text<A: Display>(address: Option<A>) -> bool {
    address matches Some(a) ==> forall|s: String, t: String| #[trigger]
        vstd::string::to_string_from_display_ensures::<A>(&a, s)
            && #[trigger] vstd::string::to_string_from_display_ensures::<A>(&a, t) ==> s@ == t@
}

/// Both texts are missing, or both hold the same characters.
pub open spec fn same_text(a: Option<String>, b: Option<String>) -> bool {
    match (a, b) {
        (Some(s), Some(t)) => s@ == t@,
        (None, None) => true,
        _ => false,
    }
}

/// What the network layer is given are the settings of the configuration, each in
/// its own place; only the limit on pending peers goes by another name there.
pub proof fn settings_reach_the_network_layer<A, S, I, E, F: Fn(&String) -> Result<A, E>>(
    config: NetworkConfiguration<S, I>,
    parse: F,
    basic: BasicNetworkConfiguration<A, S, I>,
)
    requires
        call_ensures(
            NetworkConfiguration::<S, I>::into_basic::<A, E, F>,
            (config, parse),
            Ok(basic),
        ),
    ensures
        basic.config_path == config.config_path,
        basic.net_config_path == config.net_config_path,
        basic.udp_port == config.udp_port,
        basic.nat_enabled == config.nat_enabled,
        basic.discovery_enabled == config.discovery_enabled,
        basic.boot_nodes == config.boot_nodes,
        basic.use_secret == config.use_secret,
        basic.max_peers == config.max_peers,
        basic.min_peers == config.min_peers,
        basic.max_handshakes == config.max_pending_peers,
        basic.reserved_nodes == config.reserved_nodes,
        basic.ip_filter == config.ip_filter,
        basic.client_version == config.client_version,
{
}

/// Peers that are not reserved are accepted where the configuration allows them,
/// and denied where it does not; and peers are reserved for the warp protocol and
/// for no other, as many as the configuration says.
pub proof fn reservations_reach_the_network_layer<A, S, I, E, F: Fn(&String) -> Result<A, E>>(
    config: NetworkConfiguration<S, I>,
    parse: F,
    basic: BasicNetworkConfiguration<A, S, I>,
    protocol: ProtocolId,
)
    requires
        call_ensures(
            NetworkConfiguration::<S, I>::into_basic::<A, E, F>,
            (config, parse),
            Ok(basic),
        ),
    ensures
        config.allow_non_reserved ==> basic.non_reserved_mode == NonReservedPeerMode::Accept,
        !config.allow_non_reserved ==> basic.non_reserved_mode == NonReservedPeerMode::Deny,
        basic.reserved_protocols@.dom().contains(protocol) <==> protocol == WARP_SYNC_PROTOCOL_ID,
        basic.reserved_protocols@[WARP_SYNC_PROTOCOL_ID] == config.snapshot_peers,
{
}

/// Each address of the network layer is what was read from the text of the same
/// address; an address that is not given stays so.
pub proof fn addresses_reach_the_network_layer<A, S, I, E, F: Fn(&String) -> Result<A, E>>(
    config: NetworkConfiguration<S, I>,
    parse: F,
    basic: BasicNetworkConfiguration<A, S, I>,
)
    requires
        call_ensures(
            NetworkConfiguration::<S, I>::into_basic::<A, E, F>,
            (config, parse),
            Ok(basic),
        ),
    ensures
        match (config.listen_address, basic.listen_address) {
            (None, None) => true,
            (Some(text), Some(address)) => call_ensures(parse, (&text,), Ok(address)),
            _ => false,
        },
        match (config.public_address, basic.public_address) {
            (None, None) => true,
            (Some(text), Some(address)) => call_ensures(parse, (&text,), Ok(address)),
            _ => false,
        },
{
}

/// A failed conversion gives the error of the address that was refused: that of the
/// listen address, or that of the public address once the listen address was read.
pub proof fn conversion_fails_by_a_refused_address<A, S, I, E, F: Fn(&String) -> Result<A, E>>(
    config: NetworkConfiguration<S, I>,
    parse: F,
    error: E,
)
    requires
        call_ensures(
            NetworkConfiguration::<S, I>::into_basic::<A, E, F>,
            (config, parse),
            Err(error),
        ),
    ensures
        config.listen_address is Some || config.public_address is Some,
        (config.listen_address matches Some(text) && call_ensures(parse, (&text,), Err(error))) || (
        config.public_address matches Some(text) && call_ensures(parse, (&text,), Err(error))),
        config.listen_address matches Some(text) ==> call_ensures(parse, (&text,), Err(error)) || (
        exists|address: A| #[trigger] call_ensures(parse, (&text,), Ok(address))),
{
    if config.listen_address is Some && !call_ensures(
        parse,
        (&config.listen_address->0,),
        Err(error),
    ) {
        let read = choose|read: Option<A>| reads_as(parse, config.listen_address, read);
        assert(call_ensures(parse, (&config.listen_address->0,), Ok(read->0)));
    }
}

/// A configuration whose addresses are never refused is converted, and one with an
/// address that is never read is not.
pub proof fn conversion_goes_by_the_addresses<A, S, I, E, F: Fn(&String) -> Result<A, E>>(
    config: NetworkConfiguration<S, I>,
    parse: F,
    res: Result<BasicNetworkConfiguration<A, S, I>, E>,
)
    requires
        call_ensures(
            NetworkConfiguration::<S, I>::into_basic::<A, E, F>,
            (config, parse),
            res,
        ),
    ensures
        (config.listen_address matches Some(text) ==> forall|error: E|
            !call_ensures(parse, (&text,), Err(error))) && (
        config.public_address matches Some(text) ==> forall|error: E|
            !call_ensures(parse, (&text,), Err(error))) ==> res is Ok,
        config.listen_address matches Some(text) && (forall|address: A|
            !call_ensures(parse, (&text,), Ok(address))) ==> res is Err,
        config.public_address matches Some(text) && (forall|address: A|
            !call_ensures(parse, (&text,), Ok(address))) ==> res is Err,
{
}

/// The text form has the settings of the network layer, each in its own place.
pub proof fn settings_reach_the_text_form<A: Display, S, I>(
    basic: BasicNetworkConfiguration<A, S, I>,
    text: NetworkConfiguration<S, I>,
)
    requires
        call_ensures(
            <NetworkConfiguration<S, I> as From<BasicNetworkConfiguration<A, S, I>>>::from,
            (basic,),
            text,
        ),
    ensures
        basic.config_path == text.config_path,
        basic.net_config_path == text.net_config_path,
        basic.udp_port == text.udp_port,
        basic.nat_enabled == text.nat_enabled,
        basic.discovery_enabled == text.discovery_enabled,
        basic.boot_nodes == text.boot_nodes,
        basic.use_secret == text.use_secret,
        basic.max_peers == text.max_peers,
        basic.min_peers == text.min_peers,
        basic.max_handshakes == text.max_pending_peers,
        basic.reserved_nodes == text.reserved_nodes,
        basic.ip_filter == text.ip_filter,
        basic.client_version == text.client_version,
{
}

/// The text form allows peers that are not reserved where the network layer accepts
/// them; it keeps what is reserved for the warp protocol, which is nothing where
/// that protocol is not mentioned.
pub proof fn reservations_reach_the_text_form<A: Display, S, I>(
    basic: BasicNetworkConfiguration<A, S, I>,
    text: NetworkConfiguration<S, I>,
)
    requires
        call_ensures(
            <NetworkConfiguration<S, I> as From<BasicNetworkConfiguration<A, S, I>>>::from,
            (basic,),
            text,
        ),
    ensures
        basic.non_reserved_mode == NonReservedPeerMode::Accept ==> text.allow_non_reserved,
        basic.non_reserved_mode == NonReservedPeerMode::Deny ==> !text.allow_non_reserved,
        basic.reserved_protocols@.dom().contains(WARP_SYNC_PROTOCOL_ID) ==> text.snapshot_peers
            == basic.reserved_protocols@[WARP_SYNC_PROTOCOL_ID],
        !basic.reserved_protocols@.dom().contains(WARP_SYNC_PROTOCOL_ID) ==> text.snapshot_peers
            == 0,
{
}

/// Each address text is what `Display` writes for the same address; an address that
/// is not given stays so.
pub proof fn addresses_reach_the_text_form<A: Display, S, I>(
    basic: BasicNetworkConfiguration<A, S, I>,
    text: NetworkConfiguration<S, I>,
)
    requires
        call_ensures(
            <NetworkConfiguration<S, I> as From<BasicNetworkConfiguration<A, S, I>>>::from,
            (basic,),
            text,
        ),
    ensures
        match (basic.listen_address, text.listen_address) {
            (None, None) => true,
            (Some(address), Some(s)) => vstd::string::to_string_from_display_ensures::<A>(
                &address,
                s,
            ),
            _ => false,
        },
        match (basic.public_address, text.public_address) {
            (None, None) => true,
            (Some(address), Some(s)) => vstd::string::to_string_from_display_ensures::<A>(
                &address,
                s,
            ),
            _ => false,
        },
{
}

/// A configuration without addresses is always converted.
pub proof fn no_addresses_no_failure<A, S, I, E, F: Fn(&String) -> Result<A, E>>(
    config: NetworkConfiguration<S, I>,
    parse: F,
    error: E,
)
    requires
        config.listen_address is None,
        config.public_address is None,
    ensures
        !config.fails_with::<A, E, F>(parse, error),
{
}

/// The text form of a configuration is always converted back, provided that
/// `parse` reads back what `Display` writes for its addresses.
pub proof fn text_form_is_accepted<A: Display, S, I, E, F: Fn(&String) -> Result<A, E>>(
    basic: BasicNetworkConfiguration<A, S, I>,
    text: NetworkConfiguration<S, I>,
    parse: F,
    error: E,
)
    requires
        reads_back(parse, basic.listen_address),
        reads_back(parse, basic.public_address),
        text.describes(basic),
    ensures
        !text.fails_with::<A, E, F>(parse, error),
{
}

/// A configuration that goes into its text form and back is restored, provided
/// that `parse` reads back what `Display` writes for its addresses. Of the reserved
/// protocols the warp protocol alone is kept, and it is mentioned even where it
/// was not.
pub proof fn text_form_is_converted_back<A: Display, S, I, E, F: Fn(&String) -> Result<A, E>>(
    basic: BasicNetworkConfiguration<A, S, I>,
    text: NetworkConfiguration<S, I>,
    back: BasicNetworkConfiguration<A, S, I>,
    parse: F,
)
    requires
        reads_back(parse, basic.listen_address),
        reads_back(parse, basic.public_address),
        text.describes(basic),
        text.becomes(parse, back),
    ensures
        back == (BasicNetworkConfiguration {
            reserved_protocols: back.reserved_protocols,
            ..basic
        }),
        back.reserved_protocols@ == map![WARP_SYNC_PROTOCOL_ID => basic.warp_peers()],
        basic.reserved_protocols@.dom() == set![WARP_SYNC_PROTOCOL_ID]
            ==> back.reserved_protocols@ == basic.reserved_protocols@,
{
    assert(back.reserved_protocols@[WARP_SYNC_PROTOCOL_ID] == text.snapshot_peers);
    if basic.reserved_protocols@.dom() == set![WARP_SYNC_PROTOCOL_ID] {
        assert(back.reserved_protocols@ =~= basic.reserved_protocols@);
    }
}

/// A configuration that is converted and turned into text again is the same,
/// but that its addresses are written anew: none is lost and none is added.
pub proof fn settings_survive_conversion<A: Display, S, I, E, F: Fn(&String) -> Result<A, E>>(
    config: NetworkConfiguration<S, I>,
    basic: BasicNetworkConfiguration<A, S, I>,
    again: NetworkConfiguration<S, I>,
    parse: F,
)
    requires
        config.becomes(parse, basic),
        again.describes(basic),
    ensures
        again == (NetworkConfiguration {
            listen_address: again.listen_address,
            public_address: again.public_address,
            ..config
        }),
        again.listen_address is Some <==> config.listen_address is Some,
        again.public_address is Some <==> config.public_address is Some,
{
}

/// A canonical address text survives conversion: it is written again as it was.
pub proof fn canonical_addresses_survive<A: Display, S, I, E, F: Fn(&String) -> Result<A, E>>(
    config: NetworkConfiguration<S, I>,
    basic: BasicNetworkConfiguration<A, S, I>,
    again: NetworkConfiguration<S, I>,
    parse: F,
)
    requires
        config.becomes(parse, basic),
        again.describes(basic),
    ensures
        is_canonical::<A, E, F>(parse, config.listen_address) ==> same_text(
            again.listen_address,
            config.listen_address,
        ),
        is_canonical::<A, E, F>(parse, config.public_address) ==> same_text(
            again.public_address,
            config.public_address,
        ),
{
}

/// What is reserved for protocols other than the warp protocol has no effect on
/// the text form, and a warp protocol that is not mentioned is the same as one
/// with no reserved peers.
pub proof fn other_reserved_protocols_have_no_effect<A: Display, S, I>(
    a: BasicNetworkConfiguration<A, S, I>,
    b: BasicNetworkConfiguration<A, S, I>,
    text_of_a: NetworkConfiguration<S, I>,
    text_of_b: NetworkConfiguration<S, I>,
)
    requires
        b == (BasicNetworkConfiguration { reserved_protocols: b.reserved_protocols, ..a }),
        a.warp_peers() == b.warp_peers(),
        text_of_a.describes(a),
        text_of_b.describes(b),
    ensures
        text_of_a.describes(b),
        text_of_b.describes(a),
        text_of_a == (NetworkConfiguration {
            listen_address: text_of_a.listen_address,
            public_address: text_of_a.public_address,
            ..text_of_b
        }),
        has_one_text(a.listen_address) ==> same_text(
            text_of_a.listen_address,
            text_of_b.listen_address,
        ),
        has_one_text(a.public_address) ==> same_text(
            text_of_a.public_address,
            text_of_b.public_address,
        ),
{
}

/// Numbers of peers (max, min, active).
#[derive(Debug, Clone)]
pub struct PeerNumbers {
    /// Number of connected peers.
    pub connected: usize,
    /// Number of active peers.
    pub active: usize,
    /// Max peers.
    pub max: usize,
    /// Min peers.
    pub min: usize,
}

} // verus!
