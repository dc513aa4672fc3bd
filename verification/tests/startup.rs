use mm2::keyed_map::KeyedMap;
use mm2::ln_utils::startup::{
    start_lightning, BestBlock, EnableLightningError, NodeConf, OutPoint, RpcClient, StartEvent,
    StartState, Startup,
};
use mm2::ln_utils::{
    get_open_channels_nodes_addresses, ln_data_backup_dir, ln_data_dir, persist_network_graph_step,
    persist_scorer_step, LightningParams,
};
use mm2::platform::{DerivationMethod, Network};

fn params() -> LightningParams {
    LightningParams {
        listening_port: 9735,
        node_name: [1; 32],
        node_color: [2; 3],
        payment_retries: None,
        backup_path: Some("/backup".to_string()),
    }
}

fn conf() -> NodeConf {
    NodeConf { params: params(), network: Network::Testnet, seed: [9; 32] }
}

fn at(state: StartState) -> Startup {
    Startup { conf: conf(), monitors: vec![], state }
}

fn step(state: StartState, event: StartEvent) -> Result<StartState, EnableLightningError> {
    at(state).step(event).map(|next| next.state)
}

fn outpoint(n: u8) -> OutPoint {
    OutPoint { txid: [n; 32], index: n as u16 }
}

const BEST: BestBlock = BestBlock { hash: [7; 32], height: 0x1_0000_0005 };

#[test]
fn directories_are_named_after_the_coin() {
    assert_eq!(ln_data_dir("tBTC"), vec!["LIGHTNING", "tBTC"]);
    assert_eq!(ln_data_backup_dir(&[0xab; 20], None, "tBTC"), None);
    assert_eq!(
        ln_data_backup_dir(&[0xab; 20], Some("/b".to_string()), "tBTC"),
        Some(vec![
            "/b".to_string(),
            "ab".repeat(20),
            "LIGHTNING".to_string(),
            "tBTC".to_string()
        ])
    );
}

#[test]
fn saving_goes_on_after_a_failure() {
    let step = persist_network_graph_step(Ok(()));
    assert_eq!((step.warning, step.sleep_secs), (None, 600));
    let step = persist_network_graph_step(Err("EIO".to_string()));
    assert_eq!(
        step.warning.unwrap(),
        "Failed to persist network graph error: EIO, please check disk space and permissions"
    );
    assert_eq!(step.sleep_secs, 600);
    let step = persist_scorer_step(Err("EIO".to_string()));
    assert_eq!(
        step.warning.unwrap(),
        "Failed to persist scorer error: EIO, please check disk space and permissions"
    );
    assert_eq!((step.sleep_secs, persist_scorer_step(Ok(())).warning), (600, None));
}

#[test]
fn only_counterparties_are_reconnected() {
    let mut nodes = KeyedMap::new();
    nodes.insert([1; 33], "1.1.1.1:9735".to_string());
    nodes.insert([2; 33], "2.2.2.2:9735".to_string());
    nodes.insert([3; 33], "3.3.3.3:9735".to_string());
    let kept = get_open_channels_nodes_addresses(nodes, &[[3; 33], [4; 33], [1; 33], [3; 33]]);
    assert_eq!(kept.get(&[1; 33]).unwrap(), "1.1.1.1:9735");
    assert_eq!(kept.get(&[3; 33]).unwrap(), "3.3.3.3:9735");
    assert!(kept.get(&[2; 33]).is_none());
    assert_eq!(kept.entries().len(), 2);
}

#[test]
fn wallet_with_many_keys_is_refused() {
    match start_lightning(&DerivationMethod::HDWallet, &[0; 20], "BTC", conf()) {
        Err(EnableLightningError::UnsupportedMode(what, mode)) => {
            assert_eq!((what.as_str(), mode.as_str()), ("'start_lightning'", "iguana"))
        }
        _ => panic!("the node starts"),
    }
}

#[test]
fn node_starts_step_by_step() {
    let mut startup =
        start_lightning(&DerivationMethod::Iguana([0; 20]), &[0xcd; 20], "BTC", conf()).unwrap();
    match &startup.state {
        StartState::OpenPersister { data_dir, backup_dir } => {
            assert_eq!(data_dir, &vec!["LIGHTNING".to_string(), "BTC".to_string()]);
            assert_eq!(backup_dir.as_ref().unwrap()[1], "cd".repeat(20));
        }
        _ => panic!("the storage is not opened"),
    }
    let mut nodes = KeyedMap::new();
    nodes.insert([1; 33], "1.1.1.1:9735".to_string());
    nodes.insert([2; 33], "2.2.2.2:9735".to_string());
    let mut nodes = Some(nodes);
    let best = |block: &BestBlock| assert_eq!((block.hash, block.height), ([7; 32], 800_000));
    let mut actions: Vec<String> = vec![];
    loop {
        let (action, event) = match &startup.state {
            StartState::OpenPersister { .. } => {
                ("OpenPersister".to_string(), StartEvent::PersisterOpened { has_sqlite: true })
            }
            StartState::CheckFs => ("CheckFs".to_string(), StartEvent::FsChecked(Ok(false))),
            StartState::InitFs => ("InitFs".to_string(), StartEvent::FsInitialized(Ok(()))),
            StartState::ReadClock => {
                ("ReadClock".to_string(), StartEvent::ClockRead(Ok((11, 12))))
            }
            StartState::CreateKeysManager { seed, secs, nanos } => {
                assert_eq!((*seed, *secs, *nanos), ([9; 32], 11, 12));
                ("CreateKeysManager".to_string(), StartEvent::Done)
            }
            StartState::LoadNetworkGraph { network } => {
                assert_eq!(*network, Network::Testnet);
                ("LoadNetworkGraph".to_string(), StartEvent::NetworkGraphLoaded(Ok(())))
            }
            StartState::SpawnNetworkGraphLoop => {
                ("SpawnNetworkGraphLoop".to_string(), StartEvent::Done)
            }
            StartState::ReadChannelMonitors => (
                "ReadChannelMonitors".to_string(),
                StartEvent::ChannelMonitorsRead(Ok(vec![outpoint(1), outpoint(2)])),
            ),
            StartState::LoadOutputsToWatch { monitor } => {
                (format!("LoadOutputsToWatch {}", monitor), StartEvent::Done)
            }
            StartState::FindRpcClient => (
                "FindRpcClient".to_string(),
                StartEvent::RpcClientFound(RpcClient::Electrum),
            ),
            StartState::GetBestHeader => (
                "GetBestHeader".to_string(),
                StartEvent::BestHeader(Ok((vec![7; 32], 800_000))),
            ),
            StartState::OpenManagerFile { best_block } => {
                best(best_block);
                ("OpenManagerFile".to_string(), StartEvent::ManagerFileOpened { found: true })
            }
            StartState::ReadManager { best_block } => {
                best(best_block);
                ("ReadManager".to_string(), StartEvent::ManagerRead(Ok([6; 32])))
            }
            StartState::ProcessUnconfirmations { best_block } => {
                best(best_block);
                ("ProcessUnconfirmations".to_string(), StartEvent::Done)
            }
            StartState::ProcessConfirmations { best_block } => {
                best(best_block);
                ("ProcessConfirmations".to_string(), StartEvent::Done)
            }
            StartState::UpdateBestBlock { best_block } => {
                best(best_block);
                ("UpdateBestBlock".to_string(), StartEvent::Done)
            }
            StartState::WatchChannel { monitor, funding_outpoint, best_block } => {
                best(best_block);
                assert_eq!(*funding_outpoint, outpoint(*monitor as u8 + 1));
                (format!("WatchChannel {}", monitor), StartEvent::ChannelWatched(Ok(())))
            }
            StartState::SpawnBestBlockLoop { best_block } => {
                best(best_block);
                ("SpawnBestBlockLoop".to_string(), StartEvent::Done)
            }
            StartState::InitPeerManager { listening_port } => {
                assert_eq!(*listening_port, 9735);
                ("InitPeerManager".to_string(), StartEvent::PeerManagerReady(Ok(())))
            }
            StartState::LoadScorer => {
                ("LoadScorer".to_string(), StartEvent::ScorerLoaded(Ok(())))
            }
            StartState::SpawnScorerLoop => ("SpawnScorerLoop".to_string(), StartEvent::Done),
            StartState::CreateInvoicePayer { retries } => {
                assert_eq!(*retries, 5);
                ("CreateInvoicePayer".to_string(), StartEvent::Done)
            }
            StartState::StartBackgroundProcessor => {
                ("StartBackgroundProcessor".to_string(), StartEvent::Done)
            }
            StartState::GetNodesAddresses => (
                "GetNodesAddresses".to_string(),
                StartEvent::NodesAddresses {
                    nodes_addresses: Ok(nodes.take().unwrap()),
                    open: vec![[2; 33]],
                },
            ),
            StartState::SpawnConnectLoop { nodes } => {
                assert!(nodes.get(&[1; 33]).is_none());
                assert_eq!(nodes.get(&[2; 33]).unwrap(), "2.2.2.2:9735");
                ("SpawnConnectLoop".to_string(), StartEvent::Done)
            }
            StartState::SpawnAnnouncementLoop { node_name, node_color, listening_port } => {
                assert_eq!((*node_name, *node_color, *listening_port), ([1; 32], [2; 3], 9735));
                ("SpawnAnnouncementLoop".to_string(), StartEvent::Done)
            }
            StartState::CreateManager { .. } => panic!("the history is lost"),
            StartState::Running => break,
        };
        actions.push(action);
        startup = match startup.step(event) {
            Ok(next) => next,
            Err(err) => panic!("{:?}", err),
        };
    }
    assert_eq!(
        actions,
        vec![
            "OpenPersister", "CheckFs", "InitFs", "ReadClock", "CreateKeysManager",
            "LoadNetworkGraph", "SpawnNetworkGraphLoop", "ReadChannelMonitors",
            "LoadOutputsToWatch 0", "LoadOutputsToWatch 1", "FindRpcClient", "GetBestHeader",
            "OpenManagerFile", "ReadManager", "ProcessUnconfirmations", "ProcessConfirmations",
            "UpdateBestBlock", "WatchChannel 0", "WatchChannel 1", "SpawnBestBlockLoop",
            "InitPeerManager", "LoadScorer", "SpawnScorerLoop", "CreateInvoicePayer",
            "StartBackgroundProcessor", "GetNodesAddresses", "SpawnConnectLoop",
            "SpawnAnnouncementLoop",
        ]
    );
    assert_eq!(actions.len(), 24 + 2 * 2);
}

#[test]
fn nothing_is_done_twice() {
    assert!(matches!(
        step(StartState::CheckFs, StartEvent::FsChecked(Ok(true))),
        Ok(StartState::ReadClock)
    ));
    assert!(matches!(
        step(StartState::ReadChannelMonitors, StartEvent::ChannelMonitorsRead(Ok(vec![]))),
        Ok(StartState::FindRpcClient)
    ));
    // A manager that knows the last block is not synced.
    assert!(matches!(
        step(StartState::ReadManager { best_block: BEST }, StartEvent::ManagerRead(Ok([7; 32]))),
        Ok(StartState::SpawnBestBlockLoop { best_block: BestBlock { height: 0x1_0000_0005, .. } })
    ));
    assert!(matches!(
        step(StartState::ReadManager { best_block: BEST }, StartEvent::ManagerRead(Ok([8; 32]))),
        Ok(StartState::ProcessUnconfirmations {
            best_block: BestBlock { height: 0x1_0000_0005, .. }
        })
    ));
}

#[test]
fn new_manager_starts_at_the_last_block() {
    let opening = Startup {
        monitors: vec![outpoint(3)],
        ..at(StartState::OpenManagerFile { best_block: BEST })
    };
    let creating = match opening.step(StartEvent::ManagerFileOpened { found: false }) {
        Ok(creating) => creating,
        Err(err) => panic!("{:?}", err),
    };
    match &creating.state {
        StartState::CreateManager { network, best_block, height } => {
            assert_eq!((*network, best_block.hash, *height), (Network::Testnet, [7; 32], 5))
        }
        _ => panic!("there is no channel manager"),
    }
    match creating.step(StartEvent::Done) {
        Ok(Startup { state: StartState::WatchChannel { monitor, funding_outpoint, .. }, .. }) => {
            assert_eq!((monitor, funding_outpoint), (0, outpoint(3)))
        }
        _ => panic!("the channels are not watched"),
    }
}

#[test]
fn first_channel_that_cannot_be_watched_ends_the_start() {
    let watching = Startup {
        monitors: vec![outpoint(1), outpoint(2)],
        ..at(StartState::WatchChannel {
            monitor: 0,
            funding_outpoint: outpoint(1),
            best_block: BEST,
        })
    };
    match watching.step(StartEvent::ChannelWatched(Err("PermanentFailure".to_string()))) {
        Err(EnableLightningError::IOError(text)) => assert_eq!(text, "PermanentFailure"),
        _ => panic!("the node runs without its channel"),
    }
}

#[test]
fn retries_are_taken_from_the_parameters() {
    let params = LightningParams { payment_retries: Some(2), ..params() };
    assert_eq!(params.retry_attempts(), 2);
    let conf = NodeConf { params, ..conf() };
    let startup = Startup { conf, ..at(StartState::SpawnScorerLoop) };
    match startup.step(StartEvent::Done) {
        Ok(next) => assert!(matches!(next.state, StartState::CreateInvoicePayer { retries: 2 })),
        Err(err) => panic!("{:?}", err),
    }
}

#[test]
fn failures_end_the_start() {
    let other = || EnableLightningError::Other("down".to_string());
    let err = |state, event| step(state, event).err().unwrap();
    assert!(matches!(
        err(
            StartState::OpenPersister { data_dir: vec![], backup_dir: None },
            StartEvent::PersisterOpened { has_sqlite: false }
        ),
        EnableLightningError::SqlError(text) if text == "sqlite_connection is not initialized"
    ));
    let passed_on = vec![
        (StartState::CheckFs, StartEvent::FsChecked(Err(other()))),
        (StartState::InitFs, StartEvent::FsInitialized(Err(other()))),
        (StartState::LoadNetworkGraph { network: Network::Testnet }, StartEvent::NetworkGraphLoaded(Err(other()))),
        (StartState::GetBestHeader, StartEvent::BestHeader(Err(other()))),
        (StartState::InitPeerManager { listening_port: 1 }, StartEvent::PeerManagerReady(Err(other()))),
        (StartState::LoadScorer, StartEvent::ScorerLoaded(Err(other()))),
        (
            StartState::GetNodesAddresses,
            StartEvent::NodesAddresses { nodes_addresses: Err(other()), open: vec![] },
        ),
    ];
    for (state, event) in passed_on {
        assert!(matches!(err(state, event), EnableLightningError::Other(text) if text == "down"));
    }
    assert!(matches!(
        err(StartState::ReadClock, StartEvent::ClockRead(Err("early".to_string()))),
        EnableLightningError::SystemTimeError(text) if text == "early"
    ));
    let io = vec![
        (StartState::ReadChannelMonitors, StartEvent::ChannelMonitorsRead(Err("io".to_string()))),
        (StartState::ReadManager { best_block: BEST }, StartEvent::ManagerRead(Err("io".to_string()))),
    ];
    for (state, event) in io {
        assert!(matches!(err(state, event), EnableLightningError::IOError(text) if text == "io"));
    }
    assert!(matches!(
        err(StartState::FindRpcClient, StartEvent::RpcClientFound(RpcClient::Native)),
        EnableLightningError::UnsupportedMode(what, mode)
            if what == "Lightning network" && mode == "electrum"
    ));
    assert!(matches!(
        err(StartState::GetBestHeader, StartEvent::BestHeader(Ok((vec![0; 31], 1)))),
        EnableLightningError::HashError(text) if text == "bad slice length 31 (expected 32)"
    ));
}
