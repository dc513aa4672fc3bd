//! The aftermath of a channel that was closed: the database learns of it, and
//! of the transaction that closed it once that is on the chain.

use crate::storage::SqlChannelDetails;
use crate::text::txid_text;
use vstd::prelude::*;

verus! {

/// How long, in seconds, the closing transaction is waited for.
pub const CLOSING_TX_WAIT: u64 = 3600;

/// What is to be done next about a closed channel.
#[derive(Debug)]
pub enum ClosureState {
    /// Mark the channel as closed in the database.
    MarkClosed { reason: String },
    /// Read the channel from the database.
    ReadChannel,
    /// Read the transaction with this id, which funded the channel, from the
    /// chain. There is none where the id is not the hash of a transaction.
    FetchFundingTx { tx_id: String, from_block: u64 },
    /// Wait for a transaction that spends the funding transaction.
    WaitForSpend { funding_tx: Vec<u8>, wait_until: u64, from_block: u64 },
    /// Put the id of the closing transaction on record.
    RecordClosingTx { closing_tx: String },
    /// Nothing more.
    Done,
}

/// What came of it. What failed is not part of it: the user is told of that
/// where it happens.
#[derive(Debug)]
pub enum ClosureEvent {
    /// The database was told that the channel is closed, or failed to take
    /// note.
    Marked,
    /// The channel that the database has, where it has it.
    ChannelRead(Option<SqlChannelDetails>),
    /// The bytes of the funding transaction, where they could be had, and the
    /// time in milliseconds.
    FundingTxFetched { funding_tx: Option<Vec<u8>>, now_ms: u64 },
    /// The hash of the transaction that spent the funding transaction, where
    /// one came in time.
    Spent { closing_tx_hash: Option<[u8; 32]> },
    /// The database was told of the closing transaction, or failed to take
    /// note.
    Recorded,
}

/// A channel that was closed.
#[derive(Debug)]
pub struct Closure {
    pub user_channel_id: u64,
    pub state: ClosureState,
}

/// Whether the event is about what was to be done.
pub open spec fn answers(event: ClosureEvent, state: ClosureState) -> bool {
    match state {
        ClosureState::MarkClosed { .. } => event is Marked,
        ClosureState::ReadChannel => event is ChannelRead,
        ClosureState::FetchFundingTx { .. } => event is FundingTxFetched,
        ClosureState::WaitForSpend { .. } => event is Spent,
        ClosureState::RecordClosingTx { .. } => event is Recorded,
        ClosureState::Done => false,
    }
}

/// The time, in seconds, until which the closing transaction is waited for.
pub open spec fn wait_deadline(now_ms: u64) -> int {
    now_ms as int / 1000 + CLOSING_TX_WAIT
}

/// Whether `after` is what is to be done once `event` came of what was to be
/// done before.
pub open spec fn follows(before: ClosureState, event: ClosureEvent, after: ClosureState) -> bool {
    match event {
        ClosureEvent::Marked => after is ReadChannel,
        ClosureEvent::ChannelRead(details) => match details {
            Some(details) => match details.funding_tx {
                Some(funding_tx) => {
                    &&& after matches ClosureState::FetchFundingTx { tx_id, from_block }
                    &&& tx_id@ == funding_tx@
                    &&& from_block == match details.funding_generated_in_block {
                        Some(block) => block,
                        None => 0,
                    }
                },
                None => after is Done,
            },
            None => after is Done,
        },
        ClosureEvent::FundingTxFetched { funding_tx, now_ms } => match funding_tx {
            Some(bytes) => {
                &&& after matches ClosureState::WaitForSpend { funding_tx, wait_until, from_block }
                &&& funding_tx@ == bytes@
                &&& wait_until == wait_deadline(now_ms)
                &&& from_block == before->FetchFundingTx_from_block
            },
            None => after is Done,
        },
        ClosureEvent::Spent { closing_tx_hash } => match closing_tx_hash {
            Some(hash) => {
                &&& after matches ClosureState::RecordClosingTx { closing_tx }
                &&& closing_tx@ == crate::text::hex_text(hash@.reverse())
            },
            None => after is Done,
        },
        ClosureEvent::Recorded => after is Done,
    }
}

impl Closure {
    /// What remains to be done about the channel once `event` came of what
    /// was to be done.
    pub fn step(self, event: ClosureEvent) -> (next: Closure)
        requires
            answers(event, self.state),
        ensures
            next.user_channel_id == self.user_channel_id,
            follows(self.state, event, next.state),
    {
        let state = match event {
            ClosureEvent::Marked => ClosureState::ReadChannel,
            ClosureEvent::ChannelRead(Some(details)) => match details.funding_tx {
                Some(tx_id) => ClosureState::FetchFundingTx {
                    tx_id,
                    from_block: match details.funding_generated_in_block {
                        Some(block) => block,
                        None => 0,
                    },
                },
                None => ClosureState::Done,
            },
            ClosureEvent::ChannelRead(None) => ClosureState::Done,
            ClosureEvent::FundingTxFetched { funding_tx: Some(funding_tx), now_ms } => {
                let from_block: u64 = match self.state {
                    ClosureState::FetchFundingTx { from_block, .. } => from_block,
                    _ => 0,
                };
                ClosureState::WaitForSpend {
                    funding_tx,
                    wait_until: now_ms / 1000 + CLOSING_TX_WAIT,
                    from_block,
                }
            },
            ClosureEvent::FundingTxFetched { funding_tx: None, .. } => ClosureState::Done,
            ClosureEvent::Spent { closing_tx_hash: Some(hash) } => ClosureState::RecordClosingTx {
                closing_tx: txid_text(&hash),
            },
            ClosureEvent::Spent { closing_tx_hash: None } => ClosureState::Done,
            ClosureEvent::Recorded => ClosureState::Done,
        };
        Closure { user_channel_id: self.user_channel_id, state }
    }
}

/// How many events a closure can still take.
pub open spec fn events_left(state: ClosureState) -> nat {
    match state {
        ClosureState::MarkClosed { .. } => 5,
        ClosureState::ReadChannel => 4,
        ClosureState::FetchFundingTx { .. } => 3,
        ClosureState::WaitForSpend { .. } => 2,
        ClosureState::RecordClosingTx { .. } => 1,
        ClosureState::Done => 0,
    }
}

/// Every event brings a closure nearer to its end, whatever came of it: it
/// takes five events at most.
pub proof fn closure_ends(before: ClosureState, event: ClosureEvent, after: ClosureState)
    requires
        answers(event, before),
        follows(before, event, after),
    ensures
        events_left(before) <= 5,
        events_left(after) < events_left(before),
{
}

/// The closing transaction is put on record only where the funding transaction
/// of the channel is on record, could be read, and was spent in time; and it
/// is the spending transaction that is put on record.
pub proof fn only_the_spender_of_the_funding_tx_is_recorded(
    details: Option<SqlChannelDetails>,
    fetched: ClosureState,
    funding_tx: Option<Vec<u8>>,
    now_ms: u64,
    waiting: ClosureState,
    closing_tx_hash: Option<[u8; 32]>,
    recording: ClosureState,
)
    requires
        follows(ClosureState::ReadChannel, ClosureEvent::ChannelRead(details), fetched),
        answers(ClosureEvent::FundingTxFetched { funding_tx, now_ms }, fetched),
        follows(fetched, ClosureEvent::FundingTxFetched { funding_tx, now_ms }, waiting),
        answers(ClosureEvent::Spent { closing_tx_hash }, waiting),
        follows(waiting, ClosureEvent::Spent { closing_tx_hash }, recording),
        recording is RecordClosingTx,
    ensures
        details is Some && details->0.funding_tx is Some,
        fetched->tx_id@ == (details->0.funding_tx->0)@,
        funding_tx is Some && waiting->funding_tx@ == (funding_tx->0)@,
        waiting->WaitForSpend_from_block == match details->0.funding_generated_in_block {
            Some(block) => block,
            None => 0,
        },
        closing_tx_hash is Some,
        recording->closing_tx@ == crate::text::hex_text((closing_tx_hash->0)@.reverse()),
{
}

/// The closing transaction is waited for until an hour after the funding
/// transaction was read, to the second, from the block on that is on record,
/// and it is the transaction that was read that is to be spent.
pub proof fn closing_transaction_is_waited_for_an_hour(
    tx_id: String,
    recorded_block: u64,
    bytes: Vec<u8>,
    now_ms: u64,
    after: ClosureState,
)
    requires
        follows(
            ClosureState::FetchFundingTx { tx_id, from_block: recorded_block },
            ClosureEvent::FundingTxFetched { funding_tx: Some(bytes), now_ms },
            after,
        ),
    ensures
        after matches ClosureState::WaitForSpend { funding_tx, wait_until, from_block } && {
            &&& 1000 * (wait_until - 3600) <= now_ms
            &&& now_ms < 1000 * (wait_until - 3600) + 1000
            &&& funding_tx@ == bytes@
            &&& from_block == recorded_block
        },
{
}

/// A closed channel is read from the database once it was marked, whatever
/// came of that. Its funding transaction is looked for by the id on record and
/// from the block on record, or from the first block where none is.
pub proof fn funding_transaction_is_looked_for_as_recorded(
    reason: String,
    details: SqlChannelDetails,
    tx_id: String,
    read: ClosureState,
    found: ClosureState,
    unfunded: ClosureState,
    unknown: ClosureState,
)
    requires
        follows(ClosureState::MarkClosed { reason }, ClosureEvent::Marked, read),
        details.funding_tx == Some(tx_id),
        follows(ClosureState::ReadChannel, ClosureEvent::ChannelRead(Some(details)), found),
        follows(
            ClosureState::ReadChannel,
            ClosureEvent::ChannelRead(Some(SqlChannelDetails { funding_tx: None, ..details })),
            unfunded,
        ),
        follows(ClosureState::ReadChannel, ClosureEvent::ChannelRead(None), unknown),
    ensures
        read is ReadChannel,
        found matches ClosureState::FetchFundingTx { tx_id: wanted, from_block } && {
            &&& wanted@ == tx_id@
            &&& details.funding_generated_in_block is Some ==> Some(from_block)
                == details.funding_generated_in_block
            &&& details.funding_generated_in_block is None ==> from_block == 0
        },
        unfunded is Done,
        unknown is Done,
{
}

/// Where the funding transaction cannot be read, or nothing spends it in time,
/// nothing more is done. What spends it is put on record by its id: the bytes
/// of its hash in hexadecimal, the last byte first.
pub proof fn spender_is_recorded_by_its_id(
    fetching: ClosureState,
    waiting: ClosureState,
    recording: ClosureState,
    now_ms: u64,
    hash: [u8; 32],
    unread: ClosureState,
    unspent: ClosureState,
    spent: ClosureState,
    recorded: ClosureState,
)
    requires
        follows(fetching, ClosureEvent::FundingTxFetched { funding_tx: None, now_ms }, unread),
        follows(waiting, ClosureEvent::Spent { closing_tx_hash: None }, unspent),
        follows(waiting, ClosureEvent::Spent { closing_tx_hash: Some(hash) }, spent),
        follows(recording, ClosureEvent::Recorded, recorded),
    ensures
        unread is Done,
        unspent is Done,
        spent matches ClosureState::RecordClosingTx { closing_tx } && {
            &&& closing_tx@.len() == 64
            &&& forall|i: int|
                0 <= i < 32 ==> {
                    &&& closing_tx@[2 * i] == "0123456789abcdef"@[#[trigger] hash@[31 - i] as int
                        / 16]
                    &&& closing_tx@[2 * i + 1] == "0123456789abcdef"@[hash@[31 - i] as int % 16]
                }
        },
        recorded is Done,
{
    let bytes = hash@.reverse();
    assert forall|i: int| 0 <= i < 32 implies {
        &&& crate::text::hex_text(bytes)[2 * i] == "0123456789abcdef"@[#[trigger] hash@[31 - i]
            as int / 16]
        &&& crate::text::hex_text(bytes)[2 * i + 1] == "0123456789abcdef"@[hash@[31 - i] as int
            % 16]
    } by {
        crate::text::hex_text_has_two_digits_for_each_byte(bytes, i);
        assert(bytes[i] == hash@[31 - i]);
    }
}

/// Whatever came of what was to be done is taken: the closure asks nothing of
/// the outcome.
pub proof fn every_outcome_of_a_closure_is_taken(
    reason: String,
    tx_id: String,
    bytes: Vec<u8>,
    time: u64,
    block: u64,
    details: Option<SqlChannelDetails>,
    funding_tx: Option<Vec<u8>>,
    closing_tx_hash: Option<[u8; 32]>,
)
    ensures
        answers(ClosureEvent::Marked, ClosureState::MarkClosed { reason }),
        answers(ClosureEvent::ChannelRead(details), ClosureState::ReadChannel),
        answers(
            ClosureEvent::FundingTxFetched { funding_tx, now_ms: time },
            ClosureState::FetchFundingTx { tx_id, from_block: block },
        ),
        answers(
            ClosureEvent::Spent { closing_tx_hash },
            ClosureState::WaitForSpend { funding_tx: bytes, wait_until: time, from_block: block },
        ),
        answers(ClosureEvent::Recorded, ClosureState::RecordClosingTx { closing_tx: tx_id }),
{
}

} // verus!
