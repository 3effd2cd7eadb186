//! Full synchronisation: its configuration and the service built from it.
pub mod eth_sync;
pub mod handler;
pub mod light_params;
pub mod peers;

use vstd::prelude::*;

use std::sync::Arc;

use crate::common_types::{
    AttachedProtocol, NetworkConfiguration, PeerInfo, ProtocolId, TransactionStats, ETH_PROTOCOL,
    LIGHT_PROTOCOL,
};
use crate::common_types;
use crate::fixed_bytes::H256;
use crate::ordered_map::OrderedMap;

verus! {

/// Number of a block.
pub type BlockNumber = u64;

/// Determine warp sync status.
#[derive(Debug, Clone, Copy, PartialEq, Eq, Structural)]
pub enum WarpSync {
    /// Warp sync is enabled.
    Enabled,
    /// Warp sync is disabled.
    Disabled,
    /// Only warp sync is allowed (no regular sync) and only after given block number.
    OnlyAndAfter(BlockNumber),
}

impl WarpSync {
    /// Returns true if warp sync is enabled.
    pub fn is_enabled(&self) -> (res: bool)
        ensures
            res == !(*self is Disabled),
    {
        match *self {
            WarpSync::Enabled => true,
            WarpSync::OnlyAndAfter(_) => true,
            WarpSync::Disabled => false,
        }
    }

    /// Returns `true` if we are in warp-only mode.
    ///
    /// i.e. we will never fall back to regular sync
    /// until given block number is reached by
    /// successfuly finding and restoring from a snapshot.
    pub fn is_warp_only(&self) -> (res: bool)
        ensures
            res == (*self is OnlyAndAfter),
            res ==> !(*self is Disabled),
    {
        if let WarpSync::OnlyAndAfter(_) = *self {
            true
        } else {
            false
        }
    }
}

/// Warp sync is enabled in each mode but the disabled one, and it is the only one
/// allowed where regular sync waits for a block, whichever block that is.
pub proof fn warp_modes(mode: WarpSync, enabled: bool, only: bool, block: BlockNumber)
    requires
        call_ensures(WarpSync::is_enabled, (&mode,), enabled),
        call_ensures(WarpSync::is_warp_only, (&mode,), only),
    ensures
        mode == WarpSync::Enabled ==> enabled && !only,
        mode == WarpSync::Disabled ==> !enabled && !only,
        mode == WarpSync::OnlyAndAfter(block) ==> enabled && only,
{
}

/// Current sync status
pub trait SyncProvider: Send + Sync {
    /// What is told about the progress of the synchronisation.
    type Status;

    /// Get sync status
    fn status(&self) -> Self::Status;

    /// Get peers information
    fn peers(&self) -> Vec<PeerInfo>;

    /// Get the enode if available.
    fn enode(&self) -> Option<String>;

    /// Returns propagation count for pending transactions.
    fn transactions_stats(&self) -> OrderedMap<32, TransactionStats>;
}

/// Sync configuration
#[derive(Debug, Clone, Copy)]
pub struct SyncConfig {
    /// Max blocks to download ahead
    pub max_download_ahead_blocks: usize,
    /// Enable ancient block download.
    pub download_old_blocks: bool,
    /// Network ID
    pub network_id: u64,
    /// Main "eth" subprotocol name.
    pub subprotocol_name: ProtocolId,
    /// Light subprotocol name.
    pub light_subprotocol_name: ProtocolId,
    /// Fork block to check
    pub fork_block: Option<(BlockNumber, H256)>,
    /// Enable snapshot sync
    pub warp_sync: WarpSync,
    /// Enable light client server.
    pub serve_light: bool,
}

impl Default for SyncConfig {
    fn default() -> (res: SyncConfig)
        ensures
            res == (SyncConfig {
                max_download_ahead_blocks: 20000,
                download_old_blocks: true,
                network_id: 1,
                subprotocol_name: ETH_PROTOCOL,
                light_subprotocol_name: LIGHT_PROTOCOL,
                fork_block: None,
                warp_sync: WarpSync::Disabled,
                serve_light: false,
            }),
    {
        SyncConfig {
            max_download_ahead_blocks: 20000,
            download_old_blocks: true,
            network_id: 1,
            subprotocol_name: ETH_PROTOCOL,
            light_subprotocol_name: LIGHT_PROTOCOL,
            fork_block: None,
            warp_sync: WarpSync::Disabled,
            serve_light: false,
        }
    }
}

/// By default the main network is synchronised in full, under the usual names of the
/// protocols, old blocks included, with up to 20000 blocks ahead; nothing is checked at
/// a fork, no snapshot is used and no light client is served.
pub proof fn default_is_a_full_synchronisation(res: SyncConfig)
    requires
        call_ensures(<SyncConfig as Default>::default, (), res),
    ensures
        res.max_download_ahead_blocks == 20000,
        res.download_old_blocks,
        res.network_id == 1,
        res.subprotocol_name@ == seq!['e' as u8, 't' as u8, 'h' as u8],
        res.light_subprotocol_name@ == seq!['p' as u8, 'i' as u8, 'p' as u8],
        res.fork_block is None,
        res.warp_sync == WarpSync::Disabled,
        !res.serve_light,
{
    common_types::protocols_are_told_apart_by_name();
}

/// EthSync initialization parameters.
///
/// The services are of types `C` (chain), `N` (snapshots), `T` (private
/// transactions) and `P` (light data); `S` is the type of the node key, `I` that
/// of the IP filter and `H` that of the handlers of attached protocols.
#[derive(Debug)]
pub struct Params<C, N, T, P, S, I, H> {
    /// Configuration.
    pub config: SyncConfig,
    /// Blockchain client.
    pub chain: Arc<C>,
    /// Snapshot service.
    pub snapshot_service: Arc<N>,
    /// Private tx service.
    pub private_tx_handler: Arc<T>,
    /// Light data provider.
    pub provider: Arc<P>,
    /// Network layer configuration.
    pub network_config: NetworkConfiguration<S, I>,
    /// Other protocols to attach.
    pub attached_protos: Vec<AttachedProtocol<H>>,
}

/// Configuration for IPC service.
#[derive(Debug, Clone)]
pub struct ServiceConfiguration<S, I> {
    /// Sync config.
    pub sync: SyncConfig,
    /// Network configuration.
    pub net: NetworkConfiguration<S, I>,
    /// IPC path.
    pub io_path: String,
}

} // verus!
