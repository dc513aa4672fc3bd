//! The parts that a Lightning node is put together from.

use crate::storage::NodesAddressesMap;
use crate::text::hex_encode;
use vstd::prelude::*;

pub mod laws;
pub mod startup;

verus! {

/// How often, in seconds, the network graph is saved.
pub const NETWORK_GRAPH_PERSIST_INTERVAL: u64 = 600;

/// How often, in seconds, the scorer is saved.
pub const SCORER_PERSIST_INTERVAL: u64 = 600;

/// How often a payment is retried where the parameters do not say.
pub const DEFAULT_PAYMENT_RETRIES: usize = 5;

#[derive(Debug, Clone)]
pub struct LightningParams {
    // The listening port for the p2p LN node
    pub listening_port: u16,
    // Printable human-readable string to describe this node to other users.
    pub node_name: [u8; 32],
    // Node's RGB color. This is used for showing the node in a network graph with the desired color.
    pub node_color: [u8; 3],
    // Invoice Payer is initialized while starting the lightning node, and it requires the number of payment retries that
    // it should do before considering a payment failed or partially failed. If not provided the number of retries will be 5
    // as this is a good default value.
    pub payment_retries: Option<usize>,
    // Node's backup path for channels and other data that requires backup.
    pub backup_path: Option<String>,
}

impl LightningParams {
    /// How often a payment is retried.
    pub open spec fn retries(self) -> usize {
        match self.payment_retries {
            Some(retries) => retries,
            None => DEFAULT_PAYMENT_RETRIES,
        }
    }

    /// How often a payment is retried.
    pub fn retry_attempts(&self) -> (retries: usize)
        ensures
            retries == self.retries(),
    {
        match self.payment_retries {
            Some(retries) => retries,
            None => DEFAULT_PAYMENT_RETRIES,
        }
    }
}

/// The texts of the parts of a path.
pub open spec fn parts_view(parts: Seq<String>) -> Seq<Seq<char>> {
    Seq::new(parts.len(), |i: int| parts[i]@)
}

/// Where the data of the node is, below the database directory.
pub open spec fn data_dir(ticker: Seq<char>) -> Seq<Seq<char>> {
    seq!["LIGHTNING"@, ticker]
}

/// Where the backup of the node's data is: below the given path, in a
/// directory that is named after the node's key.
pub open spec fn backup_dir(rmd160: Seq<u8>, path: Seq<char>, ticker: Seq<char>) -> Seq<Seq<char>> {
    seq![path, crate::text::hex_text(rmd160), "LIGHTNING"@, ticker]
}

/// Where the data of the node is, part by part, below the database directory.
pub fn ln_data_dir(ticker: &str) -> (parts: Vec<String>)
    ensures
        parts_view(parts@) == data_dir(ticker@),
{
    let mut parts: Vec<String> = Vec::new();
    parts.push("LIGHTNING".to_owned());
    parts.push(ticker.to_owned());
    assert(parts_view(parts@) =~= data_dir(ticker@));
    parts
}

/// Where the backup of the node's data is, part by part, if it is wanted.
/// `rmd160` is the hash of the node's public key.
pub fn ln_data_backup_dir(rmd160: &[u8; 20], path: Option<String>, ticker: &str) -> (parts: Option<
    Vec<String>,
>)
    ensures
        match path {
            Some(path) => {
                &&& parts is Some
                &&& parts_view((parts->0)@) == backup_dir(rmd160@, path@, ticker@)
            },
            None => parts is None,
        },
{
    match path {
        Some(path) => {
            let ghost whole = backup_dir(rmd160@, path@, ticker@);
            let mut parts: Vec<String> = Vec::new();
            parts.push(path);
            parts.push(hex_encode(rmd160.as_slice()));
            parts.push("LIGHTNING".to_owned());
            parts.push(ticker.to_owned());
            assert(parts_view(parts@) =~= whole);
            Some(parts)
        },
        None => None,
    }
}

/// What follows an attempt to save something.
#[derive(Debug)]
pub struct PersistStep {
    /// What the user is warned of.
    pub warning: Option<String>,
    /// How many seconds pass until the next attempt.
    pub sleep_secs: u64,
}

/// What the user is told when something could not be saved.
pub open spec fn persist_warning(what: Seq<char>, err: Seq<char>) -> Seq<char> {
    "Failed to persist "@ + what + " error: "@ + err
        + ", please check disk space and permissions"@
}

/// Tells the user that something could not be saved.
fn warn_of(what: &str, err: &str) -> (text: String)
    ensures
        text@ == persist_warning(what@, err@),
{
    let mut text = "Failed to persist ".to_owned();
    text.append(what);
    text.append(" error: ");
    text.append(err);
    text.append(", please check disk space and permissions");
    text
}

/// Whether the step is a wait of `sleep_secs` with the warning that belongs to
/// the outcome.
pub open spec fn waits_after(
    step: PersistStep,
    what: Seq<char>,
    outcome: Result<(), String>,
    sleep_secs: u64,
) -> bool {
    &&& step.sleep_secs == sleep_secs
    &&& match outcome {
        Ok(_) => step.warning is None,
        Err(err) => step.warning is Some && (step.warning->0)@ == persist_warning(what, err@),
    }
}

/// One turn of the loop that saves the network graph.
pub fn persist_network_graph_step(outcome: Result<(), String>) -> (step: PersistStep)
    ensures
        waits_after(step, "network graph"@, outcome, NETWORK_GRAPH_PERSIST_INTERVAL),
{
    let warning = match outcome {
        Ok(_) => None,
        Err(err) => Some(warn_of("network graph", err.as_str())),
    };
    PersistStep { warning, sleep_secs: NETWORK_GRAPH_PERSIST_INTERVAL }
}

/// One turn of the loop that saves the scorer.
pub fn persist_scorer_step(outcome: Result<(), String>) -> (step: PersistStep)
    ensures
        waits_after(step, "scorer"@, outcome, SCORER_PERSIST_INTERVAL),
{
    let warning = match outcome {
        Ok(_) => None,
        Err(err) => Some(warn_of("scorer", err.as_str())),
    };
    PersistStep { warning, sleep_secs: SCORER_PERSIST_INTERVAL }
}

/// The addresses of the nodes that the node has open channels with. `open` has
/// the key of the counterparty of each channel.
pub fn get_open_channels_nodes_addresses(
    nodes_addresses: NodesAddressesMap,
    open: &[[u8; 33]],
) -> (kept: NodesAddressesMap)
    requires
        nodes_addresses.wf(),
    ensures
        kept.wf(),
        kept@ == nodes_addresses@.restrict(crate::keyed_map::listed(open@)),
        forall|node: Seq<u8>| #[trigger]
            kept@.contains_key(node) <==> nodes_addresses@.contains_key(node) && exists|i: int|
                0 <= i < open@.len() && #[trigger] open@[i]@ == node,
        forall|node: Seq<u8>| #[trigger]
            kept@.contains_key(node) ==> kept@[node] == nodes_addresses@[node],
{
    nodes_addresses.retain_listed(open)
}

/// The node reconnects to every node whose address it knows and with which it
/// has an open channel, at that address, and to no other.
pub proof fn reconnects_to_counterparties_only(
    nodes_addresses: Map<Seq<u8>, String>,
    open: Seq<[u8; 33]>,
    node: Seq<u8>,
)
    ensures
        ({
            let kept = nodes_addresses.restrict(crate::keyed_map::listed(open));
            &&& kept.contains_key(node) <==> nodes_addresses.contains_key(node) && exists|i: int|
                0 <= i < open.len() && #[trigger] open[i]@ == node
            &&& kept.contains_key(node) ==> kept[node] == nodes_addresses[node]
        }),
{
}

/// The data of two coins are in different directories, and so are their
/// backups, and those of two nodes.
pub proof fn directories_are_apart(
    ticker1: Seq<char>,
    ticker2: Seq<char>,
    rmd160_1: Seq<u8>,
    rmd160_2: Seq<u8>,
    path: Seq<char>,
)
    ensures
        data_dir(ticker1) == data_dir(ticker2) ==> ticker1 == ticker2,
        backup_dir(rmd160_1, path, ticker1) == backup_dir(rmd160_2, path, ticker2) ==> ticker1
            == ticker2 && rmd160_1 == rmd160_2,
{
    if data_dir(ticker1) == data_dir(ticker2) {
        assert(data_dir(ticker1)[1] == data_dir(ticker2)[1]);
    }
    if backup_dir(rmd160_1, path, ticker1) == backup_dir(rmd160_2, path, ticker2) {
        let left = backup_dir(rmd160_1, path, ticker1);
        let right = backup_dir(rmd160_2, path, ticker2);
        assert(left[3] == right[3]);
        assert(left[1] == right[1]);
        crate::text::hex_text_identifies_bytes(rmd160_1, rmd160_2);
    }
}

/// The data of a coin is in the directory of its name below `LIGHTNING`. The
/// backup is in directories of the same names, below one that is named after
/// the whole hash of the node's key, below the path that was asked for.
pub proof fn directories_are_named_in_full(
    data: Seq<String>,
    backup: Seq<String>,
    rmd160: Seq<u8>,
    path: Seq<char>,
    ticker: Seq<char>,
)
    requires
        parts_view(data) == data_dir(ticker),
        parts_view(backup) == backup_dir(rmd160, path, ticker),
    ensures
        data.len() == 2,
        data[0]@ == "LIGHTNING"@,
        data[1]@ == ticker,
        backup.len() == 4,
        backup[0]@ == path,
        backup[1]@ == crate::text::hex_text(rmd160),
        backup[2]@ == "LIGHTNING"@,
        backup[3]@ == ticker,
{
    assert(parts_view(data).len() == 2);
    assert(parts_view(data)[0] == data[0]@ && parts_view(data)[1] == data[1]@);
    assert(parts_view(backup).len() == 4);
    assert(parts_view(backup)[0] == backup[0]@ && parts_view(backup)[1] == backup[1]@);
    assert(parts_view(backup)[2] == backup[2]@ && parts_view(backup)[3] == backup[3]@);
}

/// The network graph and the scorer are saved every ten minutes, whether the
/// last attempt failed or not. The user is warned exactly where it failed, and
/// of what, with the whole error.
pub proof fn saving_goes_on_every_ten_minutes(step: PersistStep, what: Seq<char>, err: String)
    ensures
        NETWORK_GRAPH_PERSIST_INTERVAL == 600,
        SCORER_PERSIST_INTERVAL == 600,
        waits_after(step, what, Ok(()), 600) <==> step.sleep_secs == 600 && step.warning is None,
        waits_after(step, what, Err(err), 600) <==> {
            &&& step.sleep_secs == 600
            &&& step.warning matches Some(warning)
            &&& warning@ == "Failed to persist "@ + what + " error: "@ + err@
                + ", please check disk space and permissions"@
        },
{
}

/// A payment is retried as often as the parameters say, and five times where
/// they do not say.
pub proof fn retries_are_five_unless_said(params: LightningParams)
    ensures
        params.payment_retries matches Some(retries) ==> params.retries() == retries,
        params.payment_retries is None ==> params.retries() == 5,
{
}

} // verus!
