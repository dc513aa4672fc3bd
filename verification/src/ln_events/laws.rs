//! What holds of the handling of events as a whole.

use crate::ln_events::closure::ClosureState;
use crate::ln_events::report::Level;
use crate::ln_events::spending::{ConfirmationTarget, SpendableOutput};
use crate::ln_events::{
    ClaimTask, Event, LightningEventHandler, PaymentPurpose, Reaction, Task,
};
use crate::platform::{DerivationMethod, PrivKeyPolicy};
use crate::storage::{
    HTLCStatus, NodeId, PaymentHash, PaymentInfo, PaymentPreimage, PaymentSecret,
};
use vstd::prelude::*;

verus! {

/// An event changes at most the one outbound payment that it is about, and
/// makes no payment known or unknown.
pub proof fn events_touch_one_outbound_payment(
    payments: Map<Seq<u8>, PaymentInfo>,
    event: Event,
    other: Seq<u8>,
)
    requires
        event matches Event::PaymentSent { payment_hash, .. } ==> payment_hash.0@ != other,
        event matches Event::PaymentFailed { payment_hash } ==> payment_hash.0@ != other,
    ensures
        crate::ln_events::outbound_after(payments, event).dom() == payments.dom(),
        payments.contains_key(other) ==> crate::ln_events::outbound_after(payments, event)[other]
            == payments[other],
{
    assert(crate::ln_events::outbound_after(payments, event).dom() =~= payments.dom());
}

/// Whether every payment is kept under its own hash.
pub open spec fn under_own_hashes(payments: Map<Seq<u8>, PaymentInfo>) -> bool {
    forall|hash: Seq<u8>| #[trigger]
        payments.contains_key(hash) ==> payments[hash].payment_hash.0@ == hash
}

/// Payments that are kept under their own hashes stay so, whatever event comes
/// and whatever is claimed.
pub proof fn payments_stay_under_their_hashes(
    payments: Map<Seq<u8>, PaymentInfo>,
    event: Event,
    task: ClaimTask,
    claimed: bool,
)
    requires
        under_own_hashes(payments),
    ensures
        under_own_hashes(crate::ln_events::outbound_after(payments, event)),
        under_own_hashes(crate::ln_events::with_received(payments, task, claimed)),
{
}

/// Whatever becomes of a payment, its hash and its amount stay as they were.
pub proof fn amounts_are_kept(payments: Map<Seq<u8>, PaymentInfo>, event: Event, hash: Seq<u8>)
    requires
        payments.contains_key(hash),
    ensures
        crate::ln_events::outbound_after(payments, event)[hash].payment_hash
            == payments[hash].payment_hash,
        crate::ln_events::outbound_after(payments, event)[hash].amt_msat == payments[hash].amt_msat,
        crate::ln_events::outbound_after(payments, event)[hash].secret == payments[hash].secret,
{
}

/// A payment that failed after it went through is a failed payment, and one
/// that went through after it failed has succeeded: the last word counts. The
/// preimage that was learnt is not forgotten.
pub proof fn the_last_word_counts(
    payments: Map<Seq<u8>, PaymentInfo>,
    preimage: PaymentPreimage,
    hash: PaymentHash,
    fee_paid_msat: Option<u64>,
)
    requires
        payments.contains_key(hash.0@),
    ensures
        ({
            let sent = crate::ln_events::with_sent(payments, preimage, hash, fee_paid_msat);
            let failed = crate::ln_events::with_failed(payments, hash);
            &&& crate::ln_events::with_failed(sent, hash)[hash.0@].status == HTLCStatus::Failed
            &&& crate::ln_events::with_failed(sent, hash)[hash.0@].preimage == Some(preimage)
            &&& crate::ln_events::with_sent(failed, preimage, hash, fee_paid_msat) == sent
        }),
{
    let sent = crate::ln_events::with_sent(payments, preimage, hash, fee_paid_msat);
    let failed = crate::ln_events::with_failed(payments, hash);
    assert(crate::ln_events::with_sent(failed, preimage, hash, fee_paid_msat) =~= sent);
}

/// A payment that is claimed twice is known as after the second claim alone,
/// but for the amount, which the first claim settled.
pub proof fn claims_keep_the_first_amount(
    payments: Map<Seq<u8>, PaymentInfo>,
    first: ClaimTask,
    first_claimed: bool,
    second: ClaimTask,
    second_claimed: bool,
)
    requires
        first.payment_hash == second.payment_hash,
        !payments.contains_key(first.payment_hash.0@),
    ensures
        ({
            let once = crate::ln_events::with_received(payments, first, first_claimed);
            let twice = crate::ln_events::with_received(once, second, second_claimed);
            let alone = crate::ln_events::with_received(payments, second, second_claimed);
            let hash = first.payment_hash.0@;
            &&& twice.dom() == once.dom()
            &&& twice[hash] == PaymentInfo { amt_msat: Some(first.amt), ..alone[hash] }
        }),
{
    let once = crate::ln_events::with_received(payments, first, first_claimed);
    let twice = crate::ln_events::with_received(once, second, second_claimed);
    assert(twice.dom() =~= once.dom());
}

/// A claim touches no inbound payment but its own, which is known afterwards
/// under its hash with the preimage of the claim.
pub proof fn claims_touch_one_inbound_payment(
    payments: Map<Seq<u8>, PaymentInfo>,
    task: ClaimTask,
    claimed: bool,
    other: Seq<u8>,
)
    requires
        other != task.payment_hash.0@,
    ensures
        ({
            let after = crate::ln_events::with_received(payments, task, claimed);
            &&& after.contains_key(task.payment_hash.0@)
            &&& after[task.payment_hash.0@].preimage == Some(task.payment_preimage)
            &&& claimed <==> after[task.payment_hash.0@].status == HTLCStatus::Succeeded
            &&& after.contains_key(other) <==> payments.contains_key(other)
            &&& payments.contains_key(other) ==> after[other] == payments[other]
        }),
{
}

/// A payment is left unclaimed only where it pays an invoice whose preimage
/// the node does not have.
pub proof fn only_unknown_invoices_stay_unclaimed(
    payment_hash: PaymentHash,
    amt: u64,
    purpose: PaymentPurpose,
)
    ensures
        crate::ln_events::claim_of(payment_hash, amt, purpose) is None <==> (purpose matches
            PaymentPurpose::InvoicePayment { payment_preimage, .. } && payment_preimage is None),
{
}

/// A payment that went through has succeeded, with its preimage and its fee on
/// record. All else that is known of it stays, and so does every other
/// payment. A payment that is not known stays unknown.
pub proof fn sent_payment_is_settled(
    payments: Map<Seq<u8>, PaymentInfo>,
    payment_preimage: PaymentPreimage,
    payment_hash: PaymentHash,
    fee_paid_msat: Option<u64>,
    other: Seq<u8>,
)
    ensures
        ({
            let event = Event::PaymentSent { payment_preimage, payment_hash, fee_paid_msat };
            let after = crate::ln_events::outbound_after(payments, event);
            let hash = payment_hash.0@;
            &&& after.contains_key(other) <==> payments.contains_key(other)
            &&& payments.contains_key(other) && other != hash ==> after[other] == payments[other]
            &&& payments.contains_key(hash) ==> {
                &&& after[hash].status == HTLCStatus::Succeeded
                &&& after[hash].preimage == Some(payment_preimage)
                &&& after[hash].fee_paid_msat == fee_paid_msat
                &&& after[hash].payment_hash == payments[hash].payment_hash
                &&& after[hash].secret == payments[hash].secret
                &&& after[hash].amt_msat == payments[hash].amt_msat
            }
        }),
{
}

/// A payment that failed is a failed one. All else that is known of it stays,
/// and so does every other payment. A payment that is not known stays unknown.
pub proof fn failed_payment_is_marked(
    payments: Map<Seq<u8>, PaymentInfo>,
    payment_hash: PaymentHash,
    other: Seq<u8>,
)
    ensures
        ({
            let after = crate::ln_events::outbound_after(
                payments,
                Event::PaymentFailed { payment_hash },
            );
            let hash = payment_hash.0@;
            &&& after.contains_key(other) <==> payments.contains_key(other)
            &&& payments.contains_key(other) && other != hash ==> after[other] == payments[other]
            &&& payments.contains_key(hash) ==> {
                &&& after[hash].status == HTLCStatus::Failed
                &&& after[hash].preimage == payments[hash].preimage
                &&& after[hash].fee_paid_msat == payments[hash].fee_paid_msat
                &&& after[hash].payment_hash == payments[hash].payment_hash
                &&& after[hash].secret == payments[hash].secret
                &&& after[hash].amt_msat == payments[hash].amt_msat
            }
        }),
{
}

/// No other event changes what is known of outbound payments.
pub proof fn other_events_leave_outbound_payments_alone(
    payments: Map<Seq<u8>, PaymentInfo>,
    event: Event,
)
    requires
        !(event is PaymentSent),
        !(event is PaymentFailed),
    ensures
        crate::ln_events::outbound_after(payments, event) == payments,
{
}

/// What is known of a payment after a claim: the preimage and the secret of the
/// claim, and whether it succeeded. The amount of the claim counts where the
/// payment was not known before; otherwise amount, fee and hash stay.
pub proof fn claimed_payment_is_known_in_full(
    payments: Map<Seq<u8>, PaymentInfo>,
    task: ClaimTask,
    claimed: bool,
)
    ensures
        ({
            let after = crate::ln_events::with_received(payments, task, claimed);
            let hash = task.payment_hash.0@;
            &&& after.contains_key(hash)
            &&& claimed ==> after[hash].status == HTLCStatus::Succeeded
            &&& !claimed ==> after[hash].status == HTLCStatus::Failed
            &&& after[hash].preimage == Some(task.payment_preimage)
            &&& after[hash].secret == task.payment_secret
            &&& payments.contains_key(hash) ==> {
                &&& after[hash].amt_msat == payments[hash].amt_msat
                &&& after[hash].fee_paid_msat == payments[hash].fee_paid_msat
                &&& after[hash].payment_hash == payments[hash].payment_hash
            }
            &&& !payments.contains_key(hash) ==> {
                &&& after[hash].amt_msat == Some(task.amt)
                &&& after[hash].fee_paid_msat is None
                &&& after[hash].payment_hash == task.payment_hash
            }
        }),
{
}

/// A received payment is claimed with the preimage that came with it, for the
/// whole amount, under its own hash, and with the secret of the invoice where
/// it pays one.
pub proof fn received_payment_is_claimed_as_it_came(
    reaction: Reaction,
    handler: LightningEventHandler,
    payment_hash: PaymentHash,
    amt: u64,
    preimage: PaymentPreimage,
    payment_secret: PaymentSecret,
    purpose: PaymentPurpose,
)
    requires
        crate::ln_events::reacts(
            reaction,
            handler,
            Event::PaymentReceived { payment_hash, amt, purpose },
        ),
    ensures
        reaction.reports@.len() == 1,
        reaction.reports@[0].level == Level::Info,
        reaction.reports@[0].text@ == "Handling PaymentReceived event for payment_hash: "@
            + crate::text::hex_text(payment_hash.0@),
        purpose == PaymentPurpose::SpontaneousPayment(preimage) ==> {
            &&& reaction.task matches Task::Claim(claim)
            &&& claim.payment_hash == payment_hash
            &&& claim.amt == amt
            &&& claim.payment_preimage == preimage
            &&& claim.payment_secret is None
        },
        purpose == (PaymentPurpose::InvoicePayment {
            payment_preimage: Some(preimage),
            payment_secret,
        }) ==> {
            &&& reaction.task matches Task::Claim(claim)
            &&& claim.payment_hash == payment_hash
            &&& claim.amt == amt
            &&& claim.payment_preimage == preimage
            &&& claim.payment_secret == Some(payment_secret)
        },
        purpose == (PaymentPurpose::InvoicePayment { payment_preimage: None, payment_secret })
            ==> reaction.task is Nothing,
{
    crate::ln_events::report::report_views_hide_nothing(reaction.reports@);
}

/// A payment that went through is told with its hash, and where it is known
/// with its amount too, which counts as none where it is not known.
pub proof fn sent_payment_is_told(
    reaction: Reaction,
    handler: LightningEventHandler,
    payment_preimage: PaymentPreimage,
    payment_hash: PaymentHash,
    fee_paid_msat: Option<u64>,
)
    requires
        crate::ln_events::reacts(
            reaction,
            handler,
            Event::PaymentSent { payment_preimage, payment_hash, fee_paid_msat },
        ),
    ensures
        ({
            let payments = handler.outbound_payments@;
            let hash = payment_hash.0@;
            &&& reaction.task is Nothing
            &&& reaction.reports@[0].level == Level::Info
            &&& reaction.reports@[0].text@ == "Handling PaymentSent event for payment_hash: "@
                + crate::text::hex_text(hash)
            &&& !payments.contains_key(hash) ==> reaction.reports@.len() == 1
            &&& payments.contains_key(hash) ==> {
                &&& reaction.reports@.len() == 2
                &&& reaction.reports@[1].level == Level::Info
                &&& payments[hash].amt_msat matches Some(amt) ==> reaction.reports@[1].text@
                    == "Successfully sent payment of "@ + crate::text::decimal_text(amt as nat)
                    + " millisatoshis with payment hash "@ + crate::text::hex_text(hash)
                &&& payments[hash].amt_msat is None ==> reaction.reports@[1].text@
                    == "Successfully sent payment of "@ + crate::text::decimal_text(0)
                    + " millisatoshis with payment hash "@ + crate::text::hex_text(hash)
            }
        }),
{
    crate::ln_events::report::report_views_hide_nothing(reaction.reports@);
}

/// A payment that failed is told with its hash.
pub proof fn failed_payment_is_told(
    reaction: Reaction,
    handler: LightningEventHandler,
    payment_hash: PaymentHash,
)
    requires
        crate::ln_events::reacts(reaction, handler, Event::PaymentFailed { payment_hash }),
    ensures
        reaction.task is Nothing,
        reaction.reports@.len() == 1,
        reaction.reports@[0].level == Level::Info,
        reaction.reports@[0].text@ == "Handling PaymentFailed event for payment_hash: "@
            + crate::text::hex_text(payment_hash.0@),
{
    crate::ln_events::report::report_views_hide_nothing(reaction.reports@);
}

/// Pending payments are forwarded after at least the time that was asked for,
/// as far as 32 bits hold it: what is left of the time is a multiple of the
/// range of 32 bits.
pub proof fn pending_payments_are_forwarded_in_time(
    reaction: Reaction,
    handler: LightningEventHandler,
    time_forwardable: u128,
)
    requires
        crate::ln_events::reacts(
            reaction,
            handler,
            Event::PendingHTLCsForwardable { time_forwardable },
        ),
    ensures
        reaction.reports@.len() == 1,
        reaction.reports@[0].level == Level::Info,
        reaction.reports@[0].text@ == "Handling PendingHTLCsForwardable event!"@,
        reaction.task matches Task::Forward { min_wait_time } && {
            &&& time_forwardable <= u32::MAX ==> min_wait_time == time_forwardable
            &&& (time_forwardable - min_wait_time) % 0x1_0000_0000 == 0
        },
{
    crate::ln_events::report::report_views_hide_nothing(reaction.reports@);
}

/// There is a time to choose for a wait exactly where five times the least
/// time is more than that and fits in 32 bits.
pub proof fn every_wait_that_fits_is_possible(min_wait_time: u32)
    ensures
        crate::ln_events::can_wait(min_wait_time) <==> min_wait_time < 5 * min_wait_time
            && 5 * min_wait_time <= 0xffff_ffff,
{
}

/// All outputs are spent together, and what is left goes to the node itself:
/// to the script of 22 bytes that names the hash of the node's address, byte
/// by byte in its order. A wallet with many keys spends nothing and tells so.
pub proof fn outputs_are_spent_to_the_node(
    reaction: Reaction,
    handler: LightningEventHandler,
    outputs: Vec<SpendableOutput>,
)
    requires
        crate::ln_events::reacts(reaction, handler, Event::SpendableOutputs { outputs }),
    ensures
        reaction.reports@[0].level == Level::Info,
        reaction.reports@[0].text@ == "Handling SpendableOutputs event!"@,
        handler.platform.derivation_method matches DerivationMethod::Iguana(hash) ==> {
            &&& reaction.reports@.len() == 1
            &&& reaction.task matches Task::Spend(task)
            &&& task.outputs@ == outputs@
            &&& task.confirmation_target == ConfirmationTarget::Normal
            &&& task.change_destination_script@.len() == 22
            &&& task.change_destination_script@[0] == 0x00
            &&& task.change_destination_script@[1] == 0x14
            &&& forall|i: int|
                0 <= i < 20 ==> task.change_destination_script@[2 + i] == #[trigger] hash@[i]
        },
        handler.platform.derivation_method is HDWallet ==> {
            &&& reaction.task is Nothing
            &&& reaction.reports@.len() == 2
            &&& reaction.reports@[1].level == Level::Error
            &&& reaction.reports@[1].text@ == "Iguana private key is unavailable"@
        },
{
    crate::ln_events::report::report_views_hide_nothing(reaction.reports@);
    if let DerivationMethod::Iguana(hash) = handler.platform.derivation_method {
        crate::platform::witness_program_names_the_whole_hash(hash@);
    }
}

/// A forwarded payment is told with its fee, which counts as none where it is
/// not known, with the coin, and with whether it was claimed on the chain.
pub proof fn forwarded_payment_is_told(
    reaction: Reaction,
    handler: LightningEventHandler,
    fee_earned_msat: Option<u64>,
    claim_from_onchain_tx: bool,
    fee: u64,
)
    requires
        crate::ln_events::reacts(
            reaction,
            handler,
            Event::PaymentForwarded { fee_earned_msat, claim_from_onchain_tx },
        ),
        fee_earned_msat == Some(fee) || (fee_earned_msat is None && fee == 0),
    ensures
        reaction.task is Nothing,
        reaction.reports@.len() == 1,
        reaction.reports@[0].level == Level::Info,
        reaction.reports@[0].text@ == "Recieved a fee of "@ + crate::text::decimal_text(fee as nat)
            + " milli-satoshis for a successfully forwarded payment through our "@
            + handler.platform.ticker@
            + " lightning node. Was the forwarded HTLC claimed by our counterparty via an on-chain transaction?: "@
            + (if claim_from_onchain_tx {
            "true"@
        } else {
            "false"@
        }),
{
    crate::ln_events::report::report_views_hide_nothing(reaction.reports@);
}

/// A closed channel is told with its id and the whole reason. It is seen to
/// exactly where the node has an id of its own for it, with that id and that
/// reason.
pub proof fn closed_channel_is_seen_to(
    reaction: Reaction,
    handler: LightningEventHandler,
    channel_id: [u8; 32],
    user_channel_id: u64,
    reason: String,
)
    requires
        crate::ln_events::reacts(
            reaction,
            handler,
            Event::ChannelClosed { channel_id, user_channel_id, reason },
        ),
    ensures
        reaction.reports@.len() == 1,
        reaction.reports@[0].level == Level::Info,
        reaction.reports@[0].text@ == "Channel: "@ + crate::text::hex_text(channel_id@)
            + " closed for the following reason: "@ + reason@,
        user_channel_id == 0 ==> reaction.task is Nothing,
        user_channel_id != 0 ==> {
            &&& reaction.task matches Task::Close(closure)
            &&& closure.user_channel_id == user_channel_id
            &&& closure.state matches ClosureState::MarkClosed { reason: noted }
            &&& noted@ == reason@
        },
{
    crate::ln_events::report::report_views_hide_nothing(reaction.reports@);
}

/// A funding transaction that is given up is told by its id, with the last
/// byte first, and with the channel.
pub proof fn discarded_funding_is_told(
    reaction: Reaction,
    handler: LightningEventHandler,
    channel_id: [u8; 32],
    txid: [u8; 32],
)
    requires
        crate::ln_events::reacts(reaction, handler, Event::DiscardFunding { channel_id, txid }),
    ensures
        reaction.task is Nothing,
        reaction.reports@.len() == 1,
        reaction.reports@[0].level == Level::Info,
        reaction.reports@[0].text@ == "Discarding funding tx: "@ + crate::text::hex_text(
            txid@.reverse(),
        ) + " for channel "@ + crate::text::hex_text(channel_id@),
{
    crate::ln_events::report::report_views_hide_nothing(reaction.reports@);
}

/// A path along which a payment went is told node by node, with the hash of the
/// payment where it is known, and its id.
pub proof fn successful_path_is_told(
    reaction: Reaction,
    handler: LightningEventHandler,
    payment_id: [u8; 32],
    payment_hash: Option<PaymentHash>,
    path: Vec<NodeId>,
)
    requires
        crate::ln_events::reacts(
            reaction,
            handler,
            Event::PaymentPathSuccessful { payment_id, payment_hash, path },
        ),
    ensures
        reaction.task is Nothing,
        reaction.reports@.len() == 1,
        reaction.reports@[0].level == Level::Info,
        reaction.reports@[0].text@ == "Payment path: ["@ + crate::text::quoted(
            Seq::new(path@.len(), |i: int| crate::text::hex_text(path@[i]@)),
        ) + "], successful for payment hash: "@ + (match payment_hash {
            Some(hash) => crate::text::hex_text(hash.0@),
            None => Seq::empty(),
        }) + ", payment id: "@ + crate::text::hex_text(payment_id@),
{
    crate::ln_events::report::report_views_hide_nothing(reaction.reports@);
    crate::ln_events::report::paths_are_told_in_full(path@);
    reveal_strlit("Payment path: [");
    reveal_strlit("Payment path: ");
    reveal_strlit("[");
    reveal_strlit("]");
    reveal_strlit(", successful for payment hash: ");
    reveal_strlit("], successful for payment hash: ");
    assert("Payment path: ["@ =~= "Payment path: "@ + "["@);
    assert("], successful for payment hash: "@ =~= "]"@ + ", successful for payment hash: "@);
    let keys = crate::text::quoted(
        Seq::new(path@.len(), |i: int| crate::text::hex_text(path@[i]@)),
    );
    let hash = match payment_hash {
        Some(hash) => crate::text::hex_text(hash.0@),
        None => Seq::empty(),
    };
    let id = crate::text::hex_text(payment_id@);
    assert(reaction.reports@[0].text@ == "Payment path: "@ + ("["@ + keys + "]"@)
        + ", successful for payment hash: "@ + hash + ", payment id: "@ + id);
    assert("Payment path: "@ + ("["@ + keys + "]"@) + ", successful for payment hash: "@ + hash
        + ", payment id: "@ + id =~= "Payment path: ["@ + keys
        + "], successful for payment hash: "@ + hash + ", payment id: "@ + id);
}

/// A path along which a payment did not go is told node by node, with the hash
/// of the payment and with whether its destination refused it and whether all
/// paths failed.
pub proof fn failed_path_is_told(
    reaction: Reaction,
    handler: LightningEventHandler,
    payment_hash: PaymentHash,
    rejected_by_dest: bool,
    all_paths_failed: bool,
    path: Vec<NodeId>,
)
    requires
        crate::ln_events::reacts(
            reaction,
            handler,
            Event::PaymentPathFailed { payment_hash, rejected_by_dest, all_paths_failed, path },
        ),
    ensures
        reaction.task is Nothing,
        reaction.reports@.len() == 1,
        reaction.reports@[0].level == Level::Info,
        reaction.reports@[0].text@ == "Payment path: "@ + ("["@ + crate::text::quoted(
            Seq::new(path@.len(), |i: int| crate::text::hex_text(path@[i]@)),
        ) + "]"@) + ", failed for payment hash: "@ + crate::text::hex_text(payment_hash.0@)
            + ", Was rejected by destination?: "@ + (if rejected_by_dest {
            "true"@
        } else {
            "false"@
        }) + ", All paths failed?: "@ + (if all_paths_failed {
            "true"@
        } else {
            "false"@
        }),
{
    crate::ln_events::report::report_views_hide_nothing(reaction.reports@);
    crate::ln_events::report::paths_are_told_in_full(path@);
}

/// A channel that is ready is funded exactly where its transaction is there,
/// the coin has a single address and the node holds the key itself. It is then
/// funded with its own value, under its own ids. Otherwise the reason is told.
pub proof fn ready_channel_is_funded(
    reaction: Reaction,
    handler: LightningEventHandler,
    temporary_channel_id: [u8; 32],
    channel_value_satoshis: u64,
    output_script: Vec<u8>,
    user_channel_id: u64,
)
    requires
        crate::ln_events::reacts(
            reaction,
            handler,
            Event::FundingGenerationReady {
                temporary_channel_id,
                channel_value_satoshis,
                output_script,
                user_channel_id,
            },
        ),
        handler.platform.pays_for(user_channel_id),
    ensures
        ({
            let platform = handler.platform;
            let stored = platform.unsigned_funding_txs@[user_channel_id];
            let there = platform.unsigned_funding_txs@.contains_key(user_channel_id);
            let single = platform.derivation_method is Iguana;
            let failed = "Error generating funding transaction for internal channel id "@
                + crate::text::decimal_text(user_channel_id as nat) + ": "@;
            &&& reaction.reports@[0].level == Level::Info
            &&& reaction.reports@[0].text@
                == "Handling FundingGenerationReady event for internal channel id: "@
                + crate::text::decimal_text(user_channel_id as nat)
            &&& there && single && platform.priv_key_policy == PrivKeyPolicy::KeyPair ==> {
                &&& reaction.reports@.len() == 1
                &&& reaction.task matches Task::Fund(task)
                &&& task.temporary_channel_id == temporary_channel_id
                &&& task.channel_value_satoshis == channel_value_satoshis
                &&& task.user_channel_id == user_channel_id
                &&& task.request.unsigned.outputs@.len() == stored.outputs@.len()
                &&& task.request.unsigned.outputs@[0].script_pubkey@ == output_script@
                &&& forall|i: int|
                    0 <= i < stored.outputs@.len() ==> (
                    #[trigger] task.request.unsigned.outputs@[i]).value == stored.outputs@[i].value
                &&& forall|i: int|
                    1 <= i < stored.outputs@.len() ==> (
                    #[trigger] task.request.unsigned.outputs@[i]).script_pubkey@
                        == stored.outputs@[i].script_pubkey@
                &&& task.request.unsigned.rest@ == stored.rest@
            }
            &&& !(there && single && platform.priv_key_policy == PrivKeyPolicy::KeyPair) ==> {
                &&& reaction.task is Nothing
                &&& reaction.reports@.len() == 2
                &&& reaction.reports@[1].level == Level::Error
            }
            &&& !there ==> reaction.reports@[1].text@ == failed + ("Internal error: "@ + (
            "Unsigned funding tx not found for internal channel id: "@
                + crate::text::decimal_text(user_channel_id as nat)))
            &&& there && !single ==> reaction.reports@[1].text@ == failed + (
            "Derivation method error: "@ + "Iguana private key is unavailable"@)
            &&& there && single && platform.priv_key_policy == PrivKeyPolicy::HardwareWallet
                ==> reaction.reports@[1].text@ == failed + ("Private key error: "@
                + "Hardware Wallet is not supported"@)
        }),
{
    crate::ln_events::report::report_views_hide_nothing(reaction.reports@);
    let platform = handler.platform;
    if let Task::Fund(task) = reaction.task {
        if platform.unsigned_funding_txs@.contains_key(user_channel_id) {
            crate::ln_events::funding::funding_changes_the_first_script_only(
                task.request,
                platform,
                user_channel_id,
                output_script@,
            );
        }
    }
}

} // verus!
