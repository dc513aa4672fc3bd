//! Outputs of closed channels that the node can spend.

use crate::ln_events::report::{no_reports, told, Level, Report};
use crate::text::txid_text;
use vstd::prelude::*;

verus! {

/// An output of a closed channel: the transaction that it is an output of and
/// its value in satoshis.
#[derive(Debug, Clone, Copy)]
pub enum SpendableOutput {
    StaticOutput { txid: [u8; 32], value: u64 },
    DelayedPaymentOutput { txid: [u8; 32], value: u64 },
    StaticPaymentOutput { txid: [u8; 32], value: u64 },
}

impl SpendableOutput {
    /// The id of the transaction.
    pub open spec fn txid(self) -> [u8; 32] {
        match self {
            SpendableOutput::StaticOutput { txid, .. } => txid,
            SpendableOutput::DelayedPaymentOutput { txid, .. } => txid,
            SpendableOutput::StaticPaymentOutput { txid, .. } => txid,
        }
    }

    /// The value of the output.
    pub open spec fn value(self) -> u64 {
        match self {
            SpendableOutput::StaticOutput { value, .. } => value,
            SpendableOutput::DelayedPaymentOutput { value, .. } => value,
            SpendableOutput::StaticPaymentOutput { value, .. } => value,
        }
    }
}

/// How soon a transaction should be on the chain.
#[derive(Debug, Clone, Copy, PartialEq, Eq, Structural)]
pub enum ConfirmationTarget {
    Normal,
}

/// Outputs that are to be spent: one transaction takes them all, and what is
/// left after the fee goes to the change script.
#[derive(Debug)]
pub struct SpendingTask {
    pub outputs: Vec<SpendableOutput>,
    pub change_destination_script: Vec<u8>,
    /// What the rate of the fee is estimated for.
    pub confirmation_target: ConfirmationTarget,
}

/// What the database is told of an output that was spent.
#[derive(Debug)]
pub struct ClaimRecord {
    pub closing_tx: String,
    pub claiming_tx: String,
    /// In satoshis.
    pub claimed_balance: u64,
}

/// Whether the record says that the transaction with the id `claiming_txid`
/// spent the output.
pub open spec fn records_claim(
    record: ClaimRecord,
    output: SpendableOutput,
    claiming_txid: Seq<u8>,
) -> bool {
    &&& record.closing_tx@ == crate::text::hex_text(output.txid()@.reverse())
    &&& record.claiming_tx@ == crate::text::hex_text(claiming_txid.reverse())
    &&& record.claimed_balance == output.value()
}

/// What comes of the attempt to spend the outputs.
#[derive(Debug)]
pub struct Spending {
    pub reports: Vec<Report>,
    /// Whether there is a transaction to broadcast.
    pub broadcast: bool,
    pub records: Vec<ClaimRecord>,
}

impl SpendingTask {
    /// Takes the id of the transaction that spends the outputs, where one
    /// could be made.
    pub fn spent(self, spending_txid: Option<[u8; 32]>) -> (spending: Spending)
        ensures
            match spending_txid {
                Some(txid) => {
                    &&& spending.reports@.len() == 0
                    &&& spending.broadcast
                    &&& spending.records@.len() == self.outputs@.len()
                    &&& forall|i: int|
                        0 <= i < self.outputs@.len() ==> records_claim(
                            #[trigger] spending.records@[i],
                            self.outputs@[i],
                            txid@,
                        )
                },
                None => {
                    &&& crate::ln_events::report::reports_view(spending.reports@)
                        == seq![crate::ln_events::report::error("Error spending spendable outputs"@)]
                    &&& !spending.broadcast
                    &&& spending.records@.len() == 0
                },
            },
    {
        let txid = match spending_txid {
            Some(txid) => txid,
            None => {
                let text = "Error spending spendable outputs".to_owned();
                return Spending {
                    reports: told(Level::Error, text),
                    broadcast: false,
                    records: Vec::new(),
                };
            },
        };
        let mut records: Vec<ClaimRecord> = Vec::new();
        let mut i: usize = 0;
        while i < self.outputs.len()
            invariant
                i <= self.outputs@.len(),
                records@.len() == i,
                forall|j: int|
                    0 <= j < i ==> records_claim(
                        #[trigger] records@[j],
                        self.outputs@[j],
                        txid@,
                    ),
            decreases self.outputs@.len() - i,
        {
            let (closing_txid, claimed_balance) = match &self.outputs[i] {
                SpendableOutput::StaticOutput { txid, value } => (txid_text(txid), *value),
                SpendableOutput::DelayedPaymentOutput { txid, value } => (txid_text(txid), *value),
                SpendableOutput::StaticPaymentOutput { txid, value } => (txid_text(txid), *value),
            };
            records.push(
                ClaimRecord {
                    closing_tx: closing_txid,
                    claiming_tx: txid_text(&txid),
                    claimed_balance,
                },
            );
            i = i + 1;
        }
        Spending { reports: no_reports(), broadcast: true, records }
    }
}

/// What goes on record of a spent output is the id of the transaction that it
/// is an output of, the id of the transaction that spent it, both with the
/// last byte first, and the whole value of the output.
pub proof fn claims_are_recorded_in_full(
    record: ClaimRecord,
    output: SpendableOutput,
    claiming_txid: [u8; 32],
)
    requires
        records_claim(record, output, claiming_txid@),
    ensures
        record.claiming_tx@ == crate::text::hex_text(claiming_txid@.reverse()),
        output matches SpendableOutput::StaticOutput { txid, value } ==> {
            &&& record.closing_tx@ == crate::text::hex_text(txid@.reverse())
            &&& record.claimed_balance == value
        },
        output matches SpendableOutput::DelayedPaymentOutput { txid, value } ==> {
            &&& record.closing_tx@ == crate::text::hex_text(txid@.reverse())
            &&& record.claimed_balance == value
        },
        output matches SpendableOutput::StaticPaymentOutput { txid, value } ==> {
            &&& record.closing_tx@ == crate::text::hex_text(txid@.reverse())
            &&& record.claimed_balance == value
        },
{
}

} // verus!
