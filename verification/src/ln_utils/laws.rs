//! What holds of the start of a Lightning node as a whole.

use crate::ln_utils::startup::{
    BestBlock, EnableLightningError, OutPoint, RpcClient, StartEvent, StartState, Startup,
};
use crate::storage::NodesAddressesMap;
use vstd::prelude::*;

verus! {

/// How many events the start of a node still takes at most, where the channel
/// monitors are known. Before they are read, they are taken for none.
pub open spec fn events_left(startup: Startup) -> int {
    let monitors: int = startup.monitors@.len() as int;
    match startup.state {
        StartState::OpenPersister { .. } => 24,
        StartState::CheckFs => 23,
        StartState::InitFs => 22,
        StartState::ReadClock => 21,
        StartState::CreateKeysManager { .. } => 20,
        StartState::LoadNetworkGraph { .. } => 19,
        StartState::SpawnNetworkGraphLoop => 18,
        StartState::ReadChannelMonitors => 17,
        StartState::LoadOutputsToWatch { monitor } => 16 + (monitors - monitor) + monitors,
        StartState::FindRpcClient => 16 + monitors,
        StartState::GetBestHeader => 15 + monitors,
        StartState::OpenManagerFile { .. } => 14 + monitors,
        StartState::ReadManager { .. } => 13 + monitors,
        StartState::ProcessUnconfirmations { .. } => 12 + monitors,
        StartState::ProcessConfirmations { .. } => 11 + monitors,
        StartState::UpdateBestBlock { .. } => 10 + monitors,
        StartState::CreateManager { .. } => 10 + monitors,
        StartState::WatchChannel { monitor, .. } => 9 + (monitors - monitor),
        StartState::SpawnBestBlockLoop { .. } => 9,
        StartState::InitPeerManager { .. } => 8,
        StartState::LoadScorer => 7,
        StartState::SpawnScorerLoop => 6,
        StartState::CreateInvoicePayer { .. } => 5,
        StartState::StartBackgroundProcessor => 4,
        StartState::GetNodesAddresses => 3,
        StartState::SpawnConnectLoop { .. } => 2,
        StartState::SpawnAnnouncementLoop { .. } => 1,
        StartState::Running => 0,
    }
}

/// Every event brings the start of a node nearer to its end; only the channel
/// monitors, once they are read, add two events each. Steps are left out only
/// once the files of the storage were looked for, the file of the channel
/// manager was opened or the channel manager was read.
pub proof fn start_ends(before: Startup, event: StartEvent, after: Startup)
    requires
        before.wf(),
        crate::ln_utils::startup::answers(event, before.state),
        crate::ln_utils::startup::follows(before, event, Ok(after)),
    ensures
        after.wf(),
        0 <= events_left(after),
        before.state is ReadChannelMonitors ==> events_left(after) == events_left(before) - 1 + 2
            * after.monitors@.len(),
        !(before.state is ReadChannelMonitors) ==> {
            &&& events_left(after) < events_left(before)
            &&& events_left(after) == events_left(before) - 1 || before.state is CheckFs
                || before.state is OpenManagerFile || before.state is ReadManager
        },
{
    assert(before.monitors.len() == before.monitors@.len());
    assert(after.monitors.len() == after.monitors@.len());
}

/// A channel manager that was read from its file and knows another last block
/// than the chain has is brought up to date before its channels are watched.
pub proof fn a_manager_behind_the_chain_is_synced(
    reading: Startup,
    known: [u8; 32],
    s1: Startup,
    s2: Startup,
    s3: Startup,
    s4: Startup,
)
    requires
        reading.state is ReadManager,
        known@ != (reading.state->ReadManager_best_block).hash@,
        crate::ln_utils::startup::follows(reading, StartEvent::ManagerRead(Ok(known)), Ok(s1)),
        crate::ln_utils::startup::follows(s1, StartEvent::Done, Ok(s2)),
        crate::ln_utils::startup::follows(s2, StartEvent::Done, Ok(s3)),
        crate::ln_utils::startup::follows(s3, StartEvent::Done, Ok(s4)),
    ensures
        ({
            let best_block = reading.state->ReadManager_best_block;
            &&& s1.state == StartState::ProcessUnconfirmations { best_block }
            &&& s2.state == StartState::ProcessConfirmations { best_block }
            &&& s3.state == StartState::UpdateBestBlock { best_block }
            &&& crate::ln_utils::startup::watches_from(
                s4.state,
                reading.monitors@,
                0,
                best_block,
            )
        }),
{
}

/// A node without history gets a new channel manager, for the network of the
/// node and with the last block of the chain, and its channels are watched
/// without any synchronization.
pub proof fn a_new_manager_starts_at_the_last_block(opening: Startup, s1: Startup, s2: Startup)
    requires
        opening.state is OpenManagerFile,
        crate::ln_utils::startup::follows(
            opening,
            StartEvent::ManagerFileOpened { found: false },
            Ok(s1),
        ),
        crate::ln_utils::startup::follows(s1, StartEvent::Done, Ok(s2)),
    ensures
        ({
            let best_block = opening.state->OpenManagerFile_best_block;
            &&& s1.state matches StartState::CreateManager { network, best_block: known, height }
            &&& network == opening.conf.network
            &&& known == best_block
            &&& height == best_block.height as int % 0x1_0000_0000
            &&& crate::ln_utils::startup::watches_from(
                s2.state,
                opening.monitors@,
                0,
                best_block,
            )
        }),
{
}

/// Channels are watched by a node that has a channel manager: one without
/// history, one that knows the last block of the chain, or one that was told
/// of it.
pub proof fn watched_channels_are_up_to_date(before: Startup, event: StartEvent, after: Startup)
    requires
        crate::ln_utils::startup::answers(event, before.state),
        crate::ln_utils::startup::follows(before, event, Ok(after)),
        after.state is WatchChannel || after.state is SpawnBestBlockLoop,
        !(before.state is WatchChannel),
    ensures
        ({
            ||| before.state is CreateManager
            ||| before.state is UpdateBestBlock
            ||| {
                &&& before.state matches StartState::ReadManager { best_block }
                &&& event matches StartEvent::ManagerRead(Ok(known))
                &&& known@ == best_block.hash@
            }
        }),
{
}

/// Whether the event `i` came of what was to be done, and the start went on as
/// it should.
pub open spec fn goes_on(steps: Seq<Startup>, events: Seq<StartEvent>, i: int) -> bool {
    &&& crate::ln_utils::startup::answers(events[i], steps[i].state)
    &&& crate::ln_utils::startup::follows(steps[i], events[i], Ok(steps[i + 1]))
}

/// Whether the steps are those of a start from its beginning on, with these
/// events in between.
pub open spec fn is_run(steps: Seq<Startup>, events: Seq<StartEvent>) -> bool {
    &&& steps.len() == events.len() + 1
    &&& steps[0].state is OpenPersister
    &&& steps[0].monitors@.len() == 0
    &&& forall|i: int| 0 <= i < events.len() ==> #[trigger] goes_on(steps, events, i)
}

/// The channel monitors that were given to the chain monitor, with their
/// outputs, in the first `n` steps.
pub open spec fn watched(steps: Seq<Startup>, n: nat) -> Seq<(int, OutPoint)>
    decreases n,
{
    if n == 0 {
        Seq::empty()
    } else {
        let before = watched(steps, (n - 1) as nat);
        match steps[n - 1].state {
            StartState::WatchChannel { monitor, funding_outpoint, .. } => before.push(
                (monitor as int, funding_outpoint),
            ),
            _ => before,
        }
    }
}

/// The places of the channel monitors whose outputs were loaded in the first
/// `n` steps.
pub open spec fn loaded(steps: Seq<Startup>, n: nat) -> Seq<int>
    decreases n,
{
    if n == 0 {
        Seq::empty()
    } else {
        let before = loaded(steps, (n - 1) as nat);
        match steps[n - 1].state {
            StartState::LoadOutputsToWatch { monitor } => before.push(monitor as int),
            _ => before,
        }
    }
}

/// The blocks from which loops were started in the first `n` steps that tell
/// the channels of every new block.
pub open spec fn loops(steps: Seq<Startup>, n: nat) -> Seq<BestBlock>
    decreases n,
{
    if n == 0 {
        Seq::empty()
    } else {
        let before = loops(steps, (n - 1) as nat);
        match steps[n - 1].state {
            StartState::SpawnBestBlockLoop { best_block } => before.push(best_block),
            _ => before,
        }
    }
}

/// The lists of channel monitors that were read by the first `n` events.
pub open spec fn monitors_read(events: Seq<StartEvent>, n: nat) -> Seq<Seq<OutPoint>>
    decreases n,
{
    if n == 0 {
        Seq::empty()
    } else {
        let before = monitors_read(events, (n - 1) as nat);
        match events[n - 1] {
            StartEvent::ChannelMonitorsRead(Ok(monitors)) => before.push(monitors@),
            _ => before,
        }
    }
}

/// The hashes and heights of the last block that the first `n` events told.
pub open spec fn headers_read(events: Seq<StartEvent>, n: nat) -> Seq<(Seq<u8>, u64)>
    decreases n,
{
    if n == 0 {
        Seq::empty()
    } else {
        let before = headers_read(events, (n - 1) as nat);
        match events[n - 1] {
            StartEvent::BestHeader(Ok((hash, height))) => before.push((hash@, height)),
            _ => before,
        }
    }
}

/// Each channel monitor at its place with its output.
pub open spec fn each_once(monitors: Seq<OutPoint>) -> Seq<(int, OutPoint)> {
    Seq::new(monitors.len(), |i: int| (i, monitors[i]))
}

/// Whether the channel monitors were read.
spec fn knows_monitors(state: StartState) -> bool {
    match state {
        StartState::OpenPersister { .. } => false,
        StartState::CheckFs => false,
        StartState::InitFs => false,
        StartState::ReadClock => false,
        StartState::CreateKeysManager { .. } => false,
        StartState::LoadNetworkGraph { .. } => false,
        StartState::SpawnNetworkGraphLoop => false,
        StartState::ReadChannelMonitors => false,
        _ => true,
    }
}

/// The last block, where it is known and the loop that starts from it is not
/// started yet.
spec fn pending_block(state: StartState) -> Option<BestBlock> {
    match state {
        StartState::OpenManagerFile { best_block } => Some(best_block),
        StartState::ReadManager { best_block } => Some(best_block),
        StartState::CreateManager { best_block, .. } => Some(best_block),
        StartState::ProcessUnconfirmations { best_block } => Some(best_block),
        StartState::ProcessConfirmations { best_block } => Some(best_block),
        StartState::UpdateBestBlock { best_block } => Some(best_block),
        StartState::WatchChannel { best_block, .. } => Some(best_block),
        StartState::SpawnBestBlockLoop { best_block } => Some(best_block),
        _ => None,
    }
}

/// Whether the loop that tells the channels of new blocks was started.
spec fn follows_chain(state: StartState) -> bool {
    match state {
        StartState::InitPeerManager { .. } => true,
        StartState::LoadScorer => true,
        StartState::SpawnScorerLoop => true,
        StartState::CreateInvoicePayer { .. } => true,
        StartState::StartBackgroundProcessor => true,
        StartState::GetNodesAddresses => true,
        StartState::SpawnConnectLoop { .. } => true,
        StartState::SpawnAnnouncementLoop { .. } => true,
        StartState::Running => true,
        _ => false,
    }
}

/// How many channel monitors were given to the chain monitor.
spec fn watched_count(startup: Startup) -> int {
    match startup.state {
        StartState::WatchChannel { monitor, .. } => monitor as int,
        state => if state is SpawnBestBlockLoop || follows_chain(state) {
            startup.monitors@.len() as int
        } else {
            0
        },
    }
}

/// How many channel monitors had their outputs loaded.
spec fn loaded_count(startup: Startup) -> int {
    match startup.state {
        StartState::LoadOutputsToWatch { monitor } => monitor as int,
        state => if knows_monitors(state) {
            startup.monitors@.len() as int
        } else {
            0
        },
    }
}

/// What was done in the first `n` steps of a run, as the step after them shows
/// it.
spec fn on_track(steps: Seq<Startup>, events: Seq<StartEvent>, n: int) -> bool {
    let startup = steps[n];
    let monitors = startup.monitors@;
    &&& startup.wf()
    &&& startup.conf == steps[0].conf
    &&& 0 <= loaded_count(startup) <= monitors.len()
    &&& 0 <= watched_count(startup) <= monitors.len()
    &&& loaded(steps, n as nat) == Seq::new(loaded_count(startup) as nat, |i: int| i)
    &&& watched(steps, n as nat) == each_once(monitors).take(watched_count(startup))
    &&& if knows_monitors(startup.state) {
        monitors_read(events, n as nat) == seq![monitors]
    } else {
        monitors_read(events, n as nat).len() == 0 && monitors.len() == 0
    }
    &&& n + events_left(startup) <= 24 + 2 * monitors.len()
    &&& match pending_block(startup.state) {
        Some(block) => {
            &&& headers_read(events, n as nat) == seq![(block.hash@, block.height)]
            &&& loops(steps, n as nat).len() == 0
        },
        None => if follows_chain(startup.state) {
            &&& loops(steps, n as nat).len() == 1
            &&& headers_read(events, n as nat) == seq![
                (loops(steps, n as nat)[0].hash@, loops(steps, n as nat)[0].height),
            ]
        } else {
            headers_read(events, n as nat).len() == 0 && loops(steps, n as nat).len() == 0
        },
    }
}

proof fn run_is_on_track(steps: Seq<Startup>, events: Seq<StartEvent>, n: int)
    requires
        is_run(steps, events),
        0 <= n <= events.len(),
    ensures
        on_track(steps, events, n),
    decreases n,
{
    if n == 0 {
        assert(loaded(steps, 0) =~= Seq::new(0, |i: int| i));
        assert(watched(steps, 0) =~= each_once(steps[0].monitors@).take(0));
    } else {
        run_is_on_track(steps, events, n - 1);
        let before = steps[n - 1];
        let after = steps[n];
        assert(goes_on(steps, events, n - 1));
        start_ends(before, events[n - 1], after);
        assert(loaded(steps, n as nat) =~= Seq::new(loaded_count(after) as nat, |i: int| i));
        assert(watched(steps, n as nat) =~= each_once(after.monitors@).take(watched_count(after)));
        if knows_monitors(after.state) {
            assert(monitors_read(events, n as nat) =~= seq![after.monitors@]);
        }
        if let Some(block) = pending_block(after.state) {
            assert(headers_read(events, n as nat) =~= seq![(block.hash@, block.height)]);
        } else if follows_chain(after.state) {
            let block = loops(steps, n as nat)[0];
            assert(headers_read(events, n as nat) =~= seq![(block.hash@, block.height)]);
        }
    }
}

/// A node that runs gave every channel monitor that it read to the chain
/// monitor, once and in its order, with the output that funds its channel, and
/// every time with success. Before that it loaded the outputs of each of them.
/// One loop tells its channels of new blocks, from the last block of the chain
/// on. All this took twenty-four events at most, and two more for each
/// channel.
pub proof fn running_node_watches_every_channel_once(steps: Seq<Startup>, events: Seq<StartEvent>)
    requires
        is_run(steps, events),
        steps.last().state is Running,
    ensures
        monitors_read(events, events.len()).len() == 1,
        watched(steps, events.len()) == each_once(monitors_read(events, events.len())[0]),
        loaded(steps, events.len()) == Seq::new(
            monitors_read(events, events.len())[0].len(),
            |i: int| i,
        ),
        forall|i: int|
            0 <= i < events.len() ==> (#[trigger] events[i] matches StartEvent::ChannelWatched(
                outcome,
            ) ==> outcome is Ok),
        loops(steps, events.len()).len() == 1,
        headers_read(events, events.len()) == seq![
            (loops(steps, events.len())[0].hash@, loops(steps, events.len())[0].height),
        ],
        events.len() <= 24 + 2 * monitors_read(events, events.len())[0].len(),
{
    let n = events.len() as int;
    run_is_on_track(steps, events, n);
    let monitors = steps[n].monitors@;
    assert(each_once(monitors).take(monitors.len() as int) =~= each_once(monitors));
    assert forall|i: int| 0 <= i < events.len() implies (#[trigger] events[i] matches
        StartEvent::ChannelWatched(outcome) ==> outcome is Ok) by {
        assert(goes_on(steps, events, i));
    }
}

/// Whatever the start of a node makes, it makes for that node: its keys come
/// from the private key of the node, whenever it is started, and its network
/// graph and a new channel manager are for the network of the node.
pub proof fn parts_belong_to_the_node(steps: Seq<Startup>, events: Seq<StartEvent>, n: int)
    requires
        is_run(steps, events),
        0 <= n <= events.len(),
    ensures
        steps[n].conf == steps[0].conf,
        steps[n].state matches StartState::CreateKeysManager { seed, .. } ==> seed
            == steps[0].conf.seed,
        steps[n].state matches StartState::LoadNetworkGraph { network } ==> network
            == steps[0].conf.network,
        steps[n].state matches StartState::CreateManager { network, .. } ==> network
            == steps[0].conf.network,
{
    run_is_on_track(steps, events, n);
}

/// A node that starts reconnects to a node exactly where it knows its address
/// and that node is the counterparty of some open channel, whichever of them
/// it is, and does so at that address.
pub proof fn start_reconnects_every_counterparty(
    before: Startup,
    nodes_addresses: NodesAddressesMap,
    open: Vec<[u8; 33]>,
    after: Startup,
    node: Seq<u8>,
)
    requires
        before.state is GetNodesAddresses,
        crate::ln_utils::startup::follows(
            before,
            StartEvent::NodesAddresses { nodes_addresses: Ok(nodes_addresses), open },
            Ok(after),
        ),
    ensures
        after.state matches StartState::SpawnConnectLoop { nodes } && {
            &&& nodes@.contains_key(node) <==> nodes_addresses@.contains_key(node) && exists|i: int|
                0 <= i < open@.len() && #[trigger] open@[i]@ == node
            &&& nodes@.contains_key(node) ==> nodes@[node] == nodes_addresses@[node]
        },
{
    crate::keyed_map::every_place_of_the_list_counts(open@, node);
}

/// The same of a whole start: in every run, whichever step asks for the
/// addresses is followed by the one that connects to the counterparties of all
/// open channels whose addresses are known, and to no other node.
pub proof fn runs_reconnect_every_counterparty(
    steps: Seq<Startup>,
    events: Seq<StartEvent>,
    n: int,
    node: Seq<u8>,
)
    requires
        is_run(steps, events),
        0 <= n < events.len(),
        steps[n].state is GetNodesAddresses,
    ensures
        events[n] matches StartEvent::NodesAddresses { nodes_addresses: Ok(known), open } && {
            &&& steps[n + 1].state matches StartState::SpawnConnectLoop { nodes }
            &&& nodes@.contains_key(node) <==> known@.contains_key(node) && exists|i: int|
                0 <= i < open@.len() && #[trigger] open@[i]@ == node
            &&& nodes@.contains_key(node) ==> nodes@[node] == known@[node]
        },
{
    assert(goes_on(steps, events, n));
    if let StartEvent::NodesAddresses { nodes_addresses: Ok(known), open } = events[n] {
        start_reconnects_every_counterparty(steps[n], known, open, steps[n + 1], node);
    }
}

/// How a start that goes on does so up to the header of the last block: which
/// step follows which, and that each is given what the node was started with
/// or what an event told.
pub proof fn start_leads_to_the_last_block(before: Startup, event: StartEvent, after: Startup)
    requires
        before.wf(),
        crate::ln_utils::startup::answers(event, before.state),
        crate::ln_utils::startup::follows(before, event, Ok(after)),
    ensures
        after.conf == before.conf,
        !(before.state is ReadChannelMonitors) ==> after.monitors@ == before.monitors@,
        before.state is OpenPersister ==> after.state is CheckFs,
        before.state is CheckFs ==> (event matches StartEvent::FsChecked(Ok(found)) && (if found {
            after.state is ReadClock
        } else {
            after.state is InitFs
        })),
        before.state is InitFs ==> after.state is ReadClock,
        before.state is ReadClock ==> (event matches StartEvent::ClockRead(Ok((read, rest))) && (
        after.state matches StartState::CreateKeysManager { seed, secs, nanos } && seed
            == before.conf.seed && secs == read && nanos == rest)),
        before.state is CreateKeysManager ==> (after.state matches StartState::LoadNetworkGraph {
            network,
        } && network == before.conf.network),
        before.state is LoadNetworkGraph ==> after.state is SpawnNetworkGraphLoop,
        before.state is SpawnNetworkGraphLoop ==> after.state is ReadChannelMonitors,
        before.state is ReadChannelMonitors ==> (event matches StartEvent::ChannelMonitorsRead(
            Ok(read),
        ) && after.monitors@ == read@ && (if read@.len() > 0 {
            after.state matches StartState::LoadOutputsToWatch { monitor } && monitor == 0
        } else {
            after.state is FindRpcClient
        })),
        before.state matches StartState::LoadOutputsToWatch { monitor: last } ==> (if last + 1
            < before.monitors@.len() {
            after.state matches StartState::LoadOutputsToWatch { monitor } && monitor == last + 1
        } else {
            after.state is FindRpcClient
        }),
        before.state is FindRpcClient ==> after.state is GetBestHeader,
        before.state is GetBestHeader ==> (event matches StartEvent::BestHeader(Ok((hash, height)))
            && (after.state matches StartState::OpenManagerFile { best_block } && best_block.hash@
            == hash@ && best_block.height == height)),
{
    assert(before.monitors.len() == before.monitors@.len());
}

/// How a start that goes on does so from the channel manager to the watched
/// channels: which step follows which, with the last block of the chain handed
/// on from each to the next.
pub proof fn start_leads_to_watched_channels(
    before: Startup,
    event: StartEvent,
    after: Startup,
    best: BestBlock,
)
    requires
        before.wf(),
        crate::ln_utils::startup::answers(event, before.state),
        crate::ln_utils::startup::follows(before, event, Ok(after)),
    ensures
        ({
            let monitors = before.monitors@;
            // The first channel is watched, or there is none.
            let watching = if monitors.len() > 0 {
                after.state == StartState::WatchChannel {
                    monitor: 0,
                    funding_outpoint: monitors[0],
                    best_block: best,
                }
            } else {
                after.state == StartState::SpawnBestBlockLoop { best_block: best }
            };
            &&& before.state == (StartState::OpenManagerFile { best_block: best }) ==> (
            event matches StartEvent::ManagerFileOpened { found } && (if found {
                after.state == StartState::ReadManager { best_block: best }
            } else {
                &&& after.state matches StartState::CreateManager { network, best_block, height }
                &&& network == before.conf.network
                &&& best_block == best
                &&& best.height <= u32::MAX ==> height == best.height
                &&& (best.height - height) % 0x1_0000_0000 == 0
            }))
            &&& before.state == (StartState::ReadManager { best_block: best }) ==> (
            event matches StartEvent::ManagerRead(Ok(known)) && (if known@ == best.hash@ {
                watching
            } else {
                after.state == StartState::ProcessUnconfirmations { best_block: best }
            }))
            &&& before.state == (StartState::ProcessUnconfirmations { best_block: best })
                ==> after.state == StartState::ProcessConfirmations { best_block: best }
            &&& before.state == (StartState::ProcessConfirmations { best_block: best })
                ==> after.state == StartState::UpdateBestBlock { best_block: best }
            &&& before.state == (StartState::UpdateBestBlock { best_block: best }) ==> watching
            &&& (before.state matches StartState::CreateManager { best_block, .. } && best_block
                == best) ==> watching
            &&& (before.state matches StartState::WatchChannel { best_block, .. } && best_block
                == best) ==> {
                let last = before.state->WatchChannel_monitor;
                if last + 1 < monitors.len() {
                    &&& after.state matches StartState::WatchChannel {
                        monitor,
                        funding_outpoint,
                        best_block,
                    }
                    &&& monitor == last + 1
                    &&& funding_outpoint == monitors[last + 1]
                    &&& best_block == best
                } else {
                    after.state == StartState::SpawnBestBlockLoop { best_block: best }
                }
            }
        }),
{
    assert(before.monitors.len() == before.monitors@.len());
}

/// How a start that goes on does so once the channels are watched: which step
/// follows which, and that each is given what the parameters say.
pub proof fn start_leads_to_a_running_node(before: Startup, event: StartEvent, after: Startup)
    requires
        crate::ln_utils::startup::answers(event, before.state),
        crate::ln_utils::startup::follows(before, event, Ok(after)),
    ensures
        before.state is SpawnBestBlockLoop ==> (after.state matches StartState::InitPeerManager {
            listening_port,
        } && listening_port == before.conf.params.listening_port),
        before.state is InitPeerManager ==> after.state is LoadScorer,
        before.state is LoadScorer ==> after.state is SpawnScorerLoop,
        before.state is SpawnScorerLoop ==> (after.state matches StartState::CreateInvoicePayer {
            retries,
        } && {
            &&& before.conf.params.payment_retries is Some ==> Some(retries)
                == before.conf.params.payment_retries
            &&& before.conf.params.payment_retries is None ==> retries == 5
        }),
        before.state is CreateInvoicePayer ==> after.state is StartBackgroundProcessor,
        before.state is StartBackgroundProcessor ==> after.state is GetNodesAddresses,
        before.state is GetNodesAddresses ==> after.state is SpawnConnectLoop,
        before.state is SpawnConnectLoop ==> (
        after.state matches StartState::SpawnAnnouncementLoop {
            node_name,
            node_color,
            listening_port,
        } && {
            &&& node_name == before.conf.params.node_name
            &&& node_color == before.conf.params.node_color
            &&& listening_port == before.conf.params.listening_port
        }),
        before.state is SpawnAnnouncementLoop ==> after.state is Running,
{
}

/// A start that ends with an error gives that of the part that failed as it
/// is, or the kind of error that belongs to the step with the whole text of
/// what failed.
pub proof fn errors_of_a_start_are_told(
    before: Startup,
    err: EnableLightningError,
    text: String,
    open: Vec<[u8; 33]>,
    told: EnableLightningError,
    event: StartEvent,
)
    requires
        crate::ln_utils::startup::follows(before, event, Err(told)),
    ensures
        event == StartEvent::FsChecked(Err(err)) ==> told == err,
        event == StartEvent::FsInitialized(Err(err)) ==> told == err,
        event == StartEvent::NetworkGraphLoaded(Err(err)) ==> told == err,
        event == StartEvent::BestHeader(Err(err)) ==> told == err,
        event == StartEvent::PeerManagerReady(Err(err)) ==> told == err,
        event == StartEvent::ScorerLoaded(Err(err)) ==> told == err,
        event == (StartEvent::NodesAddresses { nodes_addresses: Err(err), open }) ==> told == err,
        event == StartEvent::ClockRead(Err(text)) ==> told == EnableLightningError::SystemTimeError(
            text,
        ),
        event == StartEvent::ChannelMonitorsRead(Err(text)) ==> told
            == EnableLightningError::IOError(text),
        event == StartEvent::ManagerRead(Err(text)) ==> told == EnableLightningError::IOError(text),
        event == StartEvent::ChannelWatched(Err(text)) ==> told == EnableLightningError::IOError(
            text,
        ),
        event == (StartEvent::PersisterOpened { has_sqlite: false }) ==> (
        told matches EnableLightningError::SqlError(text) && text@
            == "sqlite_connection is not initialized"@),
        event == StartEvent::RpcClientFound(RpcClient::Native) ==> (
        told matches EnableLightningError::UnsupportedMode(what, mode) && what@
            == "Lightning network"@ && mode@ == "electrum"@),
        (event matches StartEvent::BestHeader(Ok((hash, _))) && hash@.len() != 32) ==> (
        told matches EnableLightningError::HashError(text) && text@ == "bad slice length "@
            + crate::text::decimal_text((event->BestHeader_0->Ok_0).0@.len()) + " (expected 32)"@),
{
}

/// Whatever came of what was to be done is taken: the start asks nothing of the
/// outcome but that the addresses, where they could be read, make up a map.
pub proof fn every_outcome_of_a_start_is_taken(
    startup: Startup,
    addresses: NodesAddressesMap,
    open: Vec<[u8; 33]>,
    event: StartEvent,
)
    requires
        !(startup.state is Running),
    ensures
        (startup.state is OpenPersister && event is PersisterOpened)
            ==> crate::ln_utils::startup::answers(event, startup.state),
        (startup.state is CheckFs && event is FsChecked) ==> crate::ln_utils::startup::answers(
            event,
            startup.state,
        ),
        (startup.state is InitFs && event is FsInitialized) ==> crate::ln_utils::startup::answers(
            event,
            startup.state,
        ),
        (startup.state is ReadClock && event is ClockRead) ==> crate::ln_utils::startup::answers(
            event,
            startup.state,
        ),
        (startup.state is LoadNetworkGraph && event is NetworkGraphLoaded)
            ==> crate::ln_utils::startup::answers(event, startup.state),
        (startup.state is ReadChannelMonitors && event is ChannelMonitorsRead)
            ==> crate::ln_utils::startup::answers(event, startup.state),
        (startup.state is FindRpcClient && event is RpcClientFound)
            ==> crate::ln_utils::startup::answers(event, startup.state),
        (startup.state is GetBestHeader && event is BestHeader)
            ==> crate::ln_utils::startup::answers(event, startup.state),
        (startup.state is OpenManagerFile && event is ManagerFileOpened)
            ==> crate::ln_utils::startup::answers(event, startup.state),
        (startup.state is ReadManager && event is ManagerRead)
            ==> crate::ln_utils::startup::answers(event, startup.state),
        (startup.state is WatchChannel && event is ChannelWatched)
            ==> crate::ln_utils::startup::answers(event, startup.state),
        (startup.state is InitPeerManager && event is PeerManagerReady)
            ==> crate::ln_utils::startup::answers(event, startup.state),
        (startup.state is LoadScorer && event is ScorerLoaded)
            ==> crate::ln_utils::startup::answers(event, startup.state),
        (startup.state is GetNodesAddresses && addresses.wf())
            ==> crate::ln_utils::startup::answers(
            StartEvent::NodesAddresses { nodes_addresses: Ok(addresses), open },
            startup.state,
        ),
        (startup.state is CreateKeysManager || startup.state is SpawnNetworkGraphLoop
            || startup.state is LoadOutputsToWatch || startup.state is CreateManager
            || startup.state is ProcessUnconfirmations || startup.state is ProcessConfirmations
            || startup.state is UpdateBestBlock || startup.state is SpawnBestBlockLoop
            || startup.state is SpawnScorerLoop || startup.state is CreateInvoicePayer
            || startup.state is StartBackgroundProcessor || startup.state is SpawnConnectLoop
            || startup.state is SpawnAnnouncementLoop) ==> crate::ln_utils::startup::answers(
            StartEvent::Done,
            startup.state,
        ),
{
}

/// A start goes on wherever nothing failed: where there is a database, where
/// the storage, the clock, the network graph, the channel monitors, the header
/// with a hash of 32 bytes, the channel manager, the peer manager, the scorer
/// and the addresses could be had, where every channel could be watched, and
/// where the node talks to the chain through Electrum. A missing file of the
/// storage or of the channel manager is no failure.
pub proof fn start_goes_on_unless_something_failed(
    before: Startup,
    event: StartEvent,
    next: Result<Startup, EnableLightningError>,
)
    requires
        crate::ln_utils::startup::answers(event, before.state),
        crate::ln_utils::startup::follows(before, event, next),
    ensures
        event is Done ==> next is Ok,
        event matches StartEvent::PersisterOpened { has_sqlite } ==> (next is Ok <==> has_sqlite),
        event matches StartEvent::FsChecked(outcome) ==> (next is Ok <==> outcome is Ok),
        event matches StartEvent::FsInitialized(outcome) ==> (next is Ok <==> outcome is Ok),
        event matches StartEvent::ClockRead(outcome) ==> (next is Ok <==> outcome is Ok),
        event matches StartEvent::NetworkGraphLoaded(outcome) ==> (next is Ok <==> outcome is Ok),
        event matches StartEvent::ChannelMonitorsRead(outcome) ==> (next is Ok <==> outcome is Ok),
        event matches StartEvent::RpcClientFound(client) ==> (next is Ok <==> client
            == RpcClient::Electrum),
        event matches StartEvent::BestHeader(outcome) ==> (next is Ok <==> (outcome matches Ok(
            header,
        ) && header.0@.len() == 32)),
        event is ManagerFileOpened ==> next is Ok,
        event matches StartEvent::ManagerRead(outcome) ==> (next is Ok <==> outcome is Ok),
        event matches StartEvent::ChannelWatched(outcome) ==> (next is Ok <==> outcome is Ok),
        event matches StartEvent::PeerManagerReady(outcome) ==> (next is Ok <==> outcome is Ok),
        event matches StartEvent::ScorerLoaded(outcome) ==> (next is Ok <==> outcome is Ok),
        event matches StartEvent::NodesAddresses { nodes_addresses, .. } ==> (next is Ok
            <==> nodes_addresses is Ok),
{
}

} // verus!
