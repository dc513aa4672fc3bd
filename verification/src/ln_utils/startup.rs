//! The start of a Lightning node, step by step.

use crate::ln_utils::{
    get_open_channels_nodes_addresses, ln_data_backup_dir, ln_data_dir, LightningParams,
};
use crate::platform::{DerivationMethod, Network};
use crate::storage::NodesAddressesMap;
use crate::text::same_bytes;
use vstd::prelude::*;

verus! {

/// Why a Lightning node does not start.
#[derive(Debug)]
pub enum EnableLightningError {
    /// What is asked for, and the mode in which it is to be had.
    UnsupportedMode(String, String),
    IOError(String),
    HashError(String),
    SqlError(String),
    SystemTimeError(String),
    /// What a part of the node gave as its reason.
    Other(String),
}

/// How the node talks to the chain.
#[derive(Debug, Clone, Copy, PartialEq, Eq, Structural)]
pub enum RpcClient {
    Electrum,
    Native,
}

/// The last block of the chain.
#[derive(Debug, Clone, Copy)]
pub struct BestBlock {
    pub hash: [u8; 32],
    pub height: u64,
}

/// An output of a transaction.
#[derive(Debug, Clone, Copy, PartialEq, Eq)]
pub struct OutPoint {
    pub txid: [u8; 32],
    pub index: u16,
}

/// What is to be done next to start the node.
pub enum StartState {
    /// Open the storage in these directories, the first below the database
    /// directory.
    OpenPersister { data_dir: Vec<String>, backup_dir: Option<Vec<String>> },
    /// Find out whether the storage has its files.
    CheckFs,
    /// Make the files of the storage.
    InitFs,
    /// Read the clock.
    ReadClock,
    /// Make the keys manager from the 32 bytes of the node's private key and
    /// the time, which makes its random numbers differ from start to start.
    CreateKeysManager { seed: [u8; 32], secs: u64, nanos: u32 },
    /// Read the graph of this network from the storage.
    LoadNetworkGraph { network: Network },
    /// Let the network graph be saved from time to time, and be kept up to
    /// date by what other nodes tell.
    SpawnNetworkGraphLoop,
    /// Make the chain monitor and read the channel monitors.
    ReadChannelMonitors,
    /// Let the chain be watched for the outputs of the channel monitor at this
    /// place.
    LoadOutputsToWatch { monitor: usize },
    /// Find out how the node talks to the chain.
    FindRpcClient,
    /// Ask for the header of the last block.
    GetBestHeader,
    /// Open the file of the channel manager.
    OpenManagerFile { best_block: BestBlock },
    /// Read the channel manager from its file.
    ReadManager { best_block: BestBlock },
    /// Make a channel manager without history for this network, which knows
    /// the chain up to the last block. It takes the lower 32 bits of the
    /// height.
    CreateManager { network: Network, best_block: BestBlock, height: u32 },
    /// Take back transactions that are on the chain no more.
    ProcessUnconfirmations { best_block: BestBlock },
    /// Take note of transactions that are on the chain now, up to the height
    /// of the last block.
    ProcessConfirmations { best_block: BestBlock },
    /// Tell the channels of the last block.
    UpdateBestBlock { best_block: BestBlock },
    /// Give the channel monitor at this place to the chain monitor, with the
    /// output that funds its channel.
    WatchChannel { monitor: usize, funding_outpoint: OutPoint, best_block: BestBlock },
    /// Let the channels be told of every block after the last one.
    SpawnBestBlockLoop { best_block: BestBlock },
    /// Make the peer manager, which listens on this port.
    InitPeerManager { listening_port: u16 },
    /// Make the event handler and read the scorer from the storage.
    LoadScorer,
    /// Let the scorer be saved from time to time.
    SpawnScorerLoop,
    /// Make the invoice payer, which tries a payment again so many times.
    CreateInvoicePayer { retries: usize },
    /// Start the processing in the background.
    StartBackgroundProcessor,
    /// Read the addresses of the nodes from the storage.
    GetNodesAddresses,
    /// Let the node stay connected to these nodes.
    SpawnConnectLoop { nodes: NodesAddressesMap },
    /// Let the node make itself known.
    SpawnAnnouncementLoop { node_name: [u8; 32], node_color: [u8; 3], listening_port: u16 },
    /// Nothing more: the node runs.
    Running,
}

/// What came of it.
#[derive(Debug)]
pub enum StartEvent {
    /// It is done. This is for what cannot fail.
    Done,
    /// Whether there is a database.
    PersisterOpened { has_sqlite: bool },
    FsChecked(Result<bool, EnableLightningError>),
    FsInitialized(Result<(), EnableLightningError>),
    /// Seconds and nanoseconds since the UNIX epoch.
    ClockRead(Result<(u64, u32), String>),
    NetworkGraphLoaded(Result<(), EnableLightningError>),
    /// The outputs that fund the channels, one for each channel monitor.
    ChannelMonitorsRead(Result<Vec<OutPoint>, String>),
    RpcClientFound(RpcClient),
    /// The hash of the last block and its height.
    BestHeader(Result<(Vec<u8>, u64), EnableLightningError>),
    ManagerFileOpened { found: bool },
    /// The hash of the last block that the channel manager knows.
    ManagerRead(Result<[u8; 32], String>),
    ChannelWatched(Result<(), String>),
    PeerManagerReady(Result<(), EnableLightningError>),
    ScorerLoaded(Result<(), EnableLightningError>),
    /// The addresses, and the keys of the counterparties of the open channels.
    NodesAddresses {
        nodes_addresses: Result<NodesAddressesMap, EnableLightningError>,
        open: Vec<[u8; 33]>,
    },
}

/// Whether the event is about what was to be done.
pub open spec fn answers(event: StartEvent, state: StartState) -> bool {
    match state {
        StartState::OpenPersister { .. } => event is PersisterOpened,
        StartState::CheckFs => event is FsChecked,
        StartState::InitFs => event is FsInitialized,
        StartState::ReadClock => event is ClockRead,
        StartState::LoadNetworkGraph { .. } => event is NetworkGraphLoaded,
        StartState::ReadChannelMonitors => event is ChannelMonitorsRead,
        StartState::FindRpcClient => event is RpcClientFound,
        StartState::GetBestHeader => event is BestHeader,
        StartState::OpenManagerFile { .. } => event is ManagerFileOpened,
        StartState::ReadManager { .. } => event is ManagerRead,
        StartState::WatchChannel { .. } => event is ChannelWatched,
        StartState::InitPeerManager { .. } => event is PeerManagerReady,
        StartState::LoadScorer => event is ScorerLoaded,
        StartState::GetNodesAddresses => {
            &&& event matches StartEvent::NodesAddresses { nodes_addresses, .. }
            &&& nodes_addresses matches Ok(nodes_addresses) ==> nodes_addresses.wf()
        },
        StartState::Running => false,
        _ => event is Done,
    }
}

/// Whether the start ended in the refusal of `what` because of the mode, which
/// should be `mode`.
pub open spec fn refuses_mode(
    next: Result<StartState, EnableLightningError>,
    what: Seq<char>,
    mode: Seq<char>,
) -> bool {
    &&& next matches Err(EnableLightningError::UnsupportedMode(refused, wanted))
    &&& refused@ == what
    &&& wanted@ == mode
}

/// Why bytes of this number are no hash of a block.
pub open spec fn hash_length_text(len: nat) -> Seq<char> {
    "bad slice length "@ + crate::text::decimal_text(len) + " (expected 32)"@
}

/// What a node is started with.
pub struct NodeConf {
    pub params: LightningParams,
    pub network: Network,
    /// The 32 bytes of the node's private key.
    pub seed: [u8; 32],
}

/// A Lightning node that is being started.
pub struct Startup {
    pub conf: NodeConf,
    /// The outputs that fund the channels, one for each channel monitor that
    /// was read.
    pub monitors: Vec<OutPoint>,
    pub state: StartState,
}

impl Startup {
    /// What is to be done is about the node and the channel monitors at hand.
    pub open spec fn wf(self) -> bool {
        match self.state {
            StartState::CreateKeysManager { seed, .. } => seed == self.conf.seed,
            StartState::LoadNetworkGraph { network } => network == self.conf.network,
            StartState::LoadOutputsToWatch { monitor } => monitor < self.monitors.len(),
            StartState::CreateManager { network, .. } => network == self.conf.network,
            StartState::WatchChannel { monitor, funding_outpoint, .. } => {
                &&& monitor < self.monitors.len()
                &&& funding_outpoint == self.monitors@[monitor as int]
            },
            _ => true,
        }
    }
}

/// Whether the state is to load the outputs of the channel monitors from this
/// place on.
pub open spec fn loads_from(state: StartState, monitors: Seq<OutPoint>, place: int) -> bool {
    if place < monitors.len() {
        state == StartState::LoadOutputsToWatch { monitor: place as usize }
    } else {
        state is FindRpcClient
    }
}

/// Whether the state is to give the channel monitors from this place on to the
/// chain monitor.
pub open spec fn watches_from(
    state: StartState,
    monitors: Seq<OutPoint>,
    place: int,
    best_block: BestBlock,
) -> bool {
    if place < monitors.len() {
        state == StartState::WatchChannel {
            monitor: place as usize,
            funding_outpoint: monitors[place],
            best_block,
        }
    } else {
        state == StartState::SpawnBestBlockLoop { best_block }
    }
}

/// The channel monitors once the event came.
pub open spec fn monitors_after(before: Seq<OutPoint>, event: StartEvent) -> Seq<OutPoint> {
    match event {
        StartEvent::ChannelMonitorsRead(Ok(monitors)) => monitors@,
        _ => before,
    }
}

/// How the start of a node goes on once `event` came of what was to be done,
/// or why the node does not start.
pub open spec fn follows(
    before: Startup,
    event: StartEvent,
    next: Result<Startup, EnableLightningError>,
) -> bool {
    match next {
        Ok(after) => {
            &&& after.conf == before.conf
            &&& after.monitors@ == monitors_after(before.monitors@, event)
            &&& leads_to(before, event, Ok(after.state))
        },
        Err(err) => leads_to(before, event, Err(err)),
    }
}

/// What is to be done next to start the node once `event` came of what was to
/// be done, or why the node does not start.
pub open spec fn leads_to(
    before: Startup,
    event: StartEvent,
    next: Result<StartState, EnableLightningError>,
) -> bool {
    match event {
        StartEvent::Done => done_leads_to(before, next),
        StartEvent::PersisterOpened { has_sqlite } => if has_sqlite {
            next matches Ok(after) && after is CheckFs
        } else {
            &&& next matches Err(EnableLightningError::SqlError(err))
            &&& err@ == "sqlite_connection is not initialized"@
        },
        StartEvent::FsChecked(outcome) => match outcome {
            Ok(is_initialized) => if is_initialized {
                next matches Ok(after) && after is ReadClock
            } else {
                next matches Ok(after) && after is InitFs
            },
            Err(err) => next == Err::<StartState, EnableLightningError>(err),
        },
        StartEvent::FsInitialized(outcome) => match outcome {
            Ok(_) => next matches Ok(after) && after is ReadClock,
            Err(err) => next == Err::<StartState, EnableLightningError>(err),
        },
        StartEvent::ClockRead(outcome) => match outcome {
            Ok((secs, nanos)) => next == Ok::<StartState, EnableLightningError>(
                StartState::CreateKeysManager { seed: before.conf.seed, secs, nanos },
            ),
            Err(err) => next == Err::<StartState, EnableLightningError>(
                EnableLightningError::SystemTimeError(err),
            ),
        },
        StartEvent::NetworkGraphLoaded(outcome) => match outcome {
            Ok(_) => next matches Ok(after) && after is SpawnNetworkGraphLoop,
            Err(err) => next == Err::<StartState, EnableLightningError>(err),
        },
        StartEvent::ChannelMonitorsRead(outcome) => match outcome {
            Ok(monitors) => next matches Ok(after) && loads_from(after, monitors@, 0),
            Err(err) => next == Err::<StartState, EnableLightningError>(
                EnableLightningError::IOError(err),
            ),
        },
        StartEvent::RpcClientFound(client) => match client {
            RpcClient::Electrum => next matches Ok(after) && after is GetBestHeader,
            RpcClient::Native => refuses_mode(next, "Lightning network"@, "electrum"@),
        },
        StartEvent::BestHeader(outcome) => match outcome {
            Ok((hash, height)) => if hash@.len() == 32 {
                &&& next matches Ok(StartState::OpenManagerFile { best_block })
                &&& best_block.hash@ == hash@
                &&& best_block.height == height
            } else {
                &&& next matches Err(EnableLightningError::HashError(err))
                &&& err@ == hash_length_text(hash@.len())
            },
            Err(err) => next == Err::<StartState, EnableLightningError>(err),
        },
        StartEvent::ManagerFileOpened { found } => {
            let best_block = before.state->OpenManagerFile_best_block;
            if found {
                next == Ok::<StartState, EnableLightningError>(
                    StartState::ReadManager { best_block },
                )
            } else {
                &&& next matches Ok(
                    StartState::CreateManager { network, best_block: tip, height },
                )
                &&& network == before.conf.network
                &&& tip == best_block
                &&& height == best_block.height as int % 0x1_0000_0000
            }
        },
        StartEvent::ManagerRead(outcome) => match outcome {
            Ok(known) => {
                let best_block = before.state->ReadManager_best_block;
                if known@ == best_block.hash@ {
                    next matches Ok(after) && watches_from(
                        after,
                        before.monitors@,
                        0,
                        best_block,
                    )
                } else {
                    next == Ok::<StartState, EnableLightningError>(
                        StartState::ProcessUnconfirmations { best_block },
                    )
                }
            },
            Err(err) => next == Err::<StartState, EnableLightningError>(
                EnableLightningError::IOError(err),
            ),
        },
        StartEvent::ChannelWatched(outcome) => match outcome {
            Ok(_) => next matches Ok(after) && watches_from(
                after,
                before.monitors@,
                before.state->WatchChannel_monitor + 1,
                before.state->WatchChannel_best_block,
            ),
            Err(err) => next == Err::<StartState, EnableLightningError>(
                EnableLightningError::IOError(err),
            ),
        },
        StartEvent::PeerManagerReady(outcome) => match outcome {
            Ok(_) => next matches Ok(after) && after is LoadScorer,
            Err(err) => next == Err::<StartState, EnableLightningError>(err),
        },
        StartEvent::ScorerLoaded(outcome) => match outcome {
            Ok(_) => next matches Ok(after) && after is SpawnScorerLoop,
            Err(err) => next == Err::<StartState, EnableLightningError>(err),
        },
        StartEvent::NodesAddresses { nodes_addresses, open } => match nodes_addresses {
            Ok(nodes_addresses) => {
                &&& next matches Ok(StartState::SpawnConnectLoop { nodes })
                &&& nodes.wf()
                &&& nodes@ == nodes_addresses@.restrict(crate::keyed_map::listed(open@))
            },
            Err(err) => next == Err::<StartState, EnableLightningError>(err),
        },
    }
}

/// What follows something that cannot fail.
pub open spec fn done_leads_to(
    before: Startup,
    next: Result<StartState, EnableLightningError>,
) -> bool {
    let params = before.conf.params;
    &&& next matches Ok(after)
    &&& match before.state {
        StartState::CreateKeysManager { .. } => after == StartState::LoadNetworkGraph {
            network: before.conf.network,
        },
        StartState::SpawnNetworkGraphLoop => after is ReadChannelMonitors,
        StartState::LoadOutputsToWatch { monitor } => loads_from(
            after,
            before.monitors@,
            monitor + 1,
        ),
        StartState::CreateManager { best_block, .. } => watches_from(
            after,
            before.monitors@,
            0,
            best_block,
        ),
        StartState::ProcessUnconfirmations { best_block } => after
            == StartState::ProcessConfirmations { best_block },
        StartState::ProcessConfirmations { best_block } => after == StartState::UpdateBestBlock {
            best_block,
        },
        StartState::UpdateBestBlock { best_block } => watches_from(
            after,
            before.monitors@,
            0,
            best_block,
        ),
        StartState::SpawnBestBlockLoop { .. } => after == StartState::InitPeerManager {
            listening_port: params.listening_port,
        },
        StartState::SpawnScorerLoop => after == StartState::CreateInvoicePayer {
            retries: params.retries(),
        },
        StartState::CreateInvoicePayer { .. } => after is StartBackgroundProcessor,
        StartState::StartBackgroundProcessor => after is GetNodesAddresses,
        StartState::SpawnConnectLoop { .. } => after == StartState::SpawnAnnouncementLoop {
            node_name: params.node_name,
            node_color: params.node_color,
            listening_port: params.listening_port,
        },
        _ => after is Running,
    }
}

/// Calls `bitcoin_hashes::sha256d::Hash::from_slice`. Claimed of it: 32 bytes
/// are taken as they are, and any other number is refused with a text that
/// names it.
#[verifier::external_body]
fn block_hash(bytes: &[u8]) -> (hash: Result<[u8; 32], String>)
    ensures
        match hash {
            Ok(hash) => bytes@.len() == 32 && hash@ == bytes@,
            Err(err) => bytes@.len() != 32 && err@ == hash_length_text(bytes@.len()),
        },
{
    match <bitcoin_hashes::sha256d::Hash as bitcoin_hashes::Hash>::from_slice(bytes) {
        Ok(hash) => Ok(bitcoin_hashes::Hash::into_inner(hash)),
        Err(err) => Err(err.to_string()),
    }
}

/// Begins the start of a Lightning node. `rmd160` is the hash of the node's
/// public key.
pub fn start_lightning(
    derivation_method: &DerivationMethod,
    rmd160: &[u8; 20],
    ticker: &str,
    conf: NodeConf,
) -> (startup: Result<Startup, EnableLightningError>)
    ensures
        match *derivation_method {
            DerivationMethod::HDWallet => {
                &&& startup matches Err(EnableLightningError::UnsupportedMode(refused, wanted))
                &&& refused@ == "'start_lightning'"@
                &&& wanted@ == "iguana"@
            },
            DerivationMethod::Iguana(_) => {
                &&& startup matches Ok(startup)
                &&& startup.wf()
                &&& startup.conf == conf
                &&& startup.monitors@.len() == 0
                &&& startup.state matches StartState::OpenPersister { data_dir, backup_dir }
                &&& crate::ln_utils::parts_view(data_dir@) == crate::ln_utils::data_dir(ticker@)
                &&& match conf.params.backup_path {
                    Some(path) => {
                        &&& backup_dir is Some
                        &&& crate::ln_utils::parts_view((backup_dir->0)@)
                            == crate::ln_utils::backup_dir(rmd160@, path@, ticker@)
                    },
                    None => backup_dir is None,
                }
            },
        },
{
    match derivation_method {
        DerivationMethod::HDWallet => Err(
            EnableLightningError::UnsupportedMode(
                "'start_lightning'".to_owned(),
                "iguana".to_owned(),
            ),
        ),
        DerivationMethod::Iguana(_) => {
            let backup_path = match &conf.params.backup_path {
                Some(path) => Some(path.clone()),
                None => None,
            };
            let data_dir = ln_data_dir(ticker);
            let backup_dir = ln_data_backup_dir(rmd160, backup_path, ticker);
            let state = StartState::OpenPersister { data_dir, backup_dir };
            Ok(Startup { conf, monitors: Vec::new(), state })
        },
    }
}

/// Loads the outputs of the channel monitors from this place on.
fn load_from(monitors: &[OutPoint], place: usize) -> (state: StartState)
    ensures
        loads_from(state, monitors@, place as int),
{
    if place < monitors.len() {
        StartState::LoadOutputsToWatch { monitor: place }
    } else {
        StartState::FindRpcClient
    }
}

/// Gives the channel monitors from this place on to the chain monitor.
fn watch_from(monitors: &[OutPoint], place: usize, best_block: BestBlock) -> (state: StartState)
    ensures
        watches_from(state, monitors@, place as int, best_block),
{
    if place < monitors.len() {
        StartState::WatchChannel {
            monitor: place,
            funding_outpoint: monitors[place],
            best_block,
        }
    } else {
        StartState::SpawnBestBlockLoop { best_block }
    }
}

impl Startup {
    /// What follows something that cannot fail.
    fn done(&self) -> (after: StartState)
        requires
            self.wf(),
            answers(StartEvent::Done, self.state),
        ensures
            done_leads_to(*self, Ok(after)),
    {
        let params = &self.conf.params;
        match &self.state {
            StartState::CreateKeysManager { .. } => StartState::LoadNetworkGraph {
                network: self.conf.network,
            },
            StartState::SpawnNetworkGraphLoop => StartState::ReadChannelMonitors,
            StartState::LoadOutputsToWatch { monitor } => load_from(
                self.monitors.as_slice(),
                *monitor + 1,
            ),
            StartState::CreateManager { best_block, .. } => watch_from(
                self.monitors.as_slice(),
                0,
                *best_block,
            ),
            StartState::ProcessUnconfirmations { best_block } => StartState::ProcessConfirmations {
                best_block: *best_block,
            },
            StartState::ProcessConfirmations { best_block } => StartState::UpdateBestBlock {
                best_block: *best_block,
            },
            StartState::UpdateBestBlock { best_block } => watch_from(
                self.monitors.as_slice(),
                0,
                *best_block,
            ),
            StartState::SpawnBestBlockLoop { .. } => StartState::InitPeerManager {
                listening_port: params.listening_port,
            },
            StartState::SpawnScorerLoop => StartState::CreateInvoicePayer {
                retries: params.retry_attempts(),
            },
            StartState::CreateInvoicePayer { .. } => StartState::StartBackgroundProcessor,
            StartState::StartBackgroundProcessor => StartState::GetNodesAddresses,
            StartState::SpawnConnectLoop { .. } => StartState::SpawnAnnouncementLoop {
                node_name: params.node_name,
                node_color: params.node_color,
                listening_port: params.listening_port,
            },
            _ => StartState::Running,
        }
    }

    /// What follows the header of the last block.
    fn header_known(hash: &[u8], height: u64) -> (next: Result<StartState, EnableLightningError>)
        ensures
            if hash@.len() == 32 {
                &&& next matches Ok(StartState::OpenManagerFile { best_block })
                &&& best_block.hash@ == hash@
                &&& best_block.height == height
            } else {
                &&& next matches Err(EnableLightningError::HashError(err))
                &&& err@ == hash_length_text(hash@.len())
            },
    {
        match block_hash(hash) {
            Ok(hash) => Ok(StartState::OpenManagerFile { best_block: BestBlock { hash, height } }),
            Err(err) => Err(EnableLightningError::HashError(err)),
        }
    }

    /// The last block, where it is known.
    fn best_block(&self) -> (best_block: BestBlock)
        ensures
            self.state matches StartState::OpenManagerFile { best_block: known } ==> best_block
                == known,
            self.state matches StartState::ReadManager { best_block: known } ==> best_block
                == known,
    {
        match &self.state {
            StartState::OpenManagerFile { best_block } => *best_block,
            StartState::ReadManager { best_block } => *best_block,
            _ => BestBlock { hash: [0; 32], height: 0 },
        }
    }

    /// What follows the attempt to open the file of the channel manager.
    fn manager_file_opened(&self, found: bool) -> (after: StartState)
        requires
            self.state is OpenManagerFile,
        ensures
            leads_to(*self, StartEvent::ManagerFileOpened { found }, Ok(after)),
    {
        let best_block = self.best_block();
        if found {
            StartState::ReadManager { best_block }
        } else {
            // Initialize the ChannelManager to starting a new node without history
            StartState::CreateManager {
                network: self.conf.network,
                best_block,
                height: (best_block.height % 0x1_0000_0000) as u32,
            }
        }
    }

    /// What follows once the channel manager was read, which knows the chain
    /// up to the block with the hash `known`.
    fn manager_read(&self, known: [u8; 32]) -> (after: StartState)
        requires
            self.state is ReadManager,
        ensures
            leads_to(*self, StartEvent::ManagerRead(Ok(known)), Ok(after)),
    {
        let best_block = self.best_block();
        // Sync ChannelMonitors and ChannelManager to chain tip if the node is restarting and has open channels
        if same_bytes(known.as_slice(), best_block.hash.as_slice()) {
            watch_from(self.monitors.as_slice(), 0, best_block)
        } else {
            StartState::ProcessUnconfirmations { best_block }
        }
    }

    /// What follows once a channel monitor was given to the chain monitor.
    fn channel_watched(&self) -> (after: StartState)
        requires
            self.wf(),
            self.state is WatchChannel,
        ensures
            leads_to(*self, StartEvent::ChannelWatched(Ok(())), Ok(after)),
    {
        match &self.state {
            StartState::WatchChannel { monitor, best_block, .. } => watch_from(
                self.monitors.as_slice(),
                *monitor + 1,
                *best_block,
            ),
            _ => StartState::Running,
        }
    }

    /// What is to be done next once `event` came of what was to be done, or
    /// why the node does not start.
    fn next_state(&self, event: StartEvent) -> (next: Result<StartState, EnableLightningError>)
        requires
            self.wf(),
            answers(event, self.state),
        ensures
            leads_to(*self, event, next),
    {
        match event {
            StartEvent::Done => Ok(self.done()),
            StartEvent::PersisterOpened { has_sqlite: true } => Ok(StartState::CheckFs),
            StartEvent::PersisterOpened { has_sqlite: false } => Err(
                EnableLightningError::SqlError("sqlite_connection is not initialized".to_owned()),
            ),
            StartEvent::FsChecked(Ok(true)) => Ok(StartState::ReadClock),
            StartEvent::FsChecked(Ok(false)) => Ok(StartState::InitFs),
            StartEvent::FsChecked(Err(err)) => Err(err),
            StartEvent::FsInitialized(Ok(_)) => Ok(StartState::ReadClock),
            StartEvent::FsInitialized(Err(err)) => Err(err),
            StartEvent::ClockRead(Ok((secs, nanos))) => Ok(
                StartState::CreateKeysManager { seed: self.conf.seed, secs, nanos },
            ),
            StartEvent::ClockRead(Err(err)) => Err(EnableLightningError::SystemTimeError(err)),
            StartEvent::NetworkGraphLoaded(Ok(_)) => Ok(StartState::SpawnNetworkGraphLoop),
            StartEvent::NetworkGraphLoaded(Err(err)) => Err(err),
            StartEvent::ChannelMonitorsRead(Ok(monitors)) => Ok(load_from(monitors.as_slice(), 0)),
            StartEvent::ChannelMonitorsRead(Err(err)) => Err(EnableLightningError::IOError(err)),
            StartEvent::RpcClientFound(RpcClient::Electrum) => Ok(StartState::GetBestHeader),
            StartEvent::RpcClientFound(RpcClient::Native) => Err(
                EnableLightningError::UnsupportedMode(
                    "Lightning network".to_owned(),
                    "electrum".to_owned(),
                ),
            ),
            StartEvent::BestHeader(Ok((hash, height))) => Startup::header_known(
                hash.as_slice(),
                height,
            ),
            StartEvent::BestHeader(Err(err)) => Err(err),
            StartEvent::ManagerFileOpened { found } => Ok(self.manager_file_opened(found)),
            StartEvent::ManagerRead(Ok(known)) => Ok(self.manager_read(known)),
            StartEvent::ManagerRead(Err(err)) => Err(EnableLightningError::IOError(err)),
            StartEvent::ChannelWatched(Ok(_)) => Ok(self.channel_watched()),
            StartEvent::ChannelWatched(Err(err)) => Err(EnableLightningError::IOError(err)),
            StartEvent::PeerManagerReady(Ok(_)) => Ok(StartState::LoadScorer),
            StartEvent::PeerManagerReady(Err(err)) => Err(err),
            StartEvent::ScorerLoaded(Ok(_)) => Ok(StartState::SpawnScorerLoop),
            StartEvent::ScorerLoaded(Err(err)) => Err(err),
            StartEvent::NodesAddresses { nodes_addresses: Ok(nodes_addresses), open } => Ok(
                StartState::SpawnConnectLoop {
                    nodes: get_open_channels_nodes_addresses(nodes_addresses, open.as_slice()),
                },
            ),
            StartEvent::NodesAddresses { nodes_addresses: Err(err), .. } => Err(err),
        }
    }

    /// Goes on with the start once `event` came of what was to be done; an
    /// error where the node does not start.
    pub fn step(self, event: StartEvent) -> (next: Result<Startup, EnableLightningError>)
        requires
            self.wf(),
            answers(event, self.state),
        ensures
            follows(self, event, next),
            next matches Ok(after) ==> after.wf(),
    {
        match event {
            StartEvent::ChannelMonitorsRead(Ok(monitors)) => {
                let state = load_from(monitors.as_slice(), 0);
                Ok(Startup { conf: self.conf, monitors, state })
            },
            event => match self.next_state(event) {
                Ok(state) => Ok(Startup { conf: self.conf, monitors: self.monitors, state }),
                Err(err) => Err(err),
            },
        }
    }
}

/// Whether the event tells of something that failed, or that the node cannot
/// work with.
pub open spec fn tells_failure(event: StartEvent) -> bool {
    match event {
        StartEvent::Done => false,
        StartEvent::PersisterOpened { has_sqlite } => !has_sqlite,
        StartEvent::FsChecked(outcome) => outcome is Err,
        StartEvent::FsInitialized(outcome) => outcome is Err,
        StartEvent::ClockRead(outcome) => outcome is Err,
        StartEvent::NetworkGraphLoaded(outcome) => outcome is Err,
        StartEvent::ChannelMonitorsRead(outcome) => outcome is Err,
        StartEvent::RpcClientFound(client) => client == RpcClient::Native,
        StartEvent::BestHeader(outcome) => match outcome {
            Ok((hash, _)) => hash@.len() != 32,
            Err(_) => true,
        },
        StartEvent::ManagerFileOpened { .. } => false,
        StartEvent::ManagerRead(outcome) => outcome is Err,
        StartEvent::ChannelWatched(outcome) => outcome is Err,
        StartEvent::PeerManagerReady(outcome) => outcome is Err,
        StartEvent::ScorerLoaded(outcome) => outcome is Err,
        StartEvent::NodesAddresses { nodes_addresses, .. } => nodes_addresses is Err,
    }
}

/// The start ends with an error exactly where something failed.
pub proof fn only_failures_end_the_start(
    before: Startup,
    event: StartEvent,
    next: Result<Startup, EnableLightningError>,
)
    requires
        answers(event, before.state),
        follows(before, event, next),
    ensures
        next is Err <==> tells_failure(event),
{
}

} // verus!
