//! The handling of Lightning events.

use crate::keyed_map::KeyedMap;
use crate::ln_events::closure::{Closure, ClosureState};
use crate::ln_events::funding::{sign_funding_transaction, tell_funding_error, FundingTask};
use crate::ln_events::report::{
    no_reports, tell, tell_forwarded, tell_path_failed, tell_path_successful, told, with_hex,
    with_number, Level, Report,
};
use crate::ln_events::spending::{ConfirmationTarget, SpendableOutput, SpendingTask};
use crate::platform::{build_witness_script, Platform};
use crate::storage::{
    HTLCStatus, NodeId, PaymentHash, PaymentInfo, PaymentPreimage, PaymentSecret,
};
use crate::text::{hex_encode, txid_text};
use rand::Rng;
use vstd::prelude::*;

pub mod closure;
pub mod funding;
pub mod laws;
pub mod report;
pub mod spending;

verus! {

/// What a payment that was received is for.
#[derive(Debug, Clone, Copy)]
pub enum PaymentPurpose {
    /// An invoice of this node. Its preimage is missing where it is kept
    /// elsewhere.
    InvoicePayment { payment_preimage: Option<PaymentPreimage>, payment_secret: PaymentSecret },
    /// Something that the sender chose to pay for.
    SpontaneousPayment(PaymentPreimage),
}

/// What happened to the node's channels and payments.
#[derive(Debug)]
pub enum Event {
    FundingGenerationReady {
        temporary_channel_id: [u8; 32],
        channel_value_satoshis: u64,
        output_script: Vec<u8>,
        user_channel_id: u64,
    },
    PaymentReceived { payment_hash: PaymentHash, amt: u64, purpose: PaymentPurpose },
    PaymentSent {
        payment_preimage: PaymentPreimage,
        payment_hash: PaymentHash,
        fee_paid_msat: Option<u64>,
    },
    PaymentFailed { payment_hash: PaymentHash },
    /// The time is in milliseconds.
    PendingHTLCsForwardable { time_forwardable: u128 },
    SpendableOutputs { outputs: Vec<SpendableOutput> },
    PaymentForwarded { fee_earned_msat: Option<u64>, claim_from_onchain_tx: bool },
    ChannelClosed { channel_id: [u8; 32], user_channel_id: u64, reason: String },
    DiscardFunding { channel_id: [u8; 32], txid: [u8; 32] },
    PaymentPathSuccessful {
        payment_id: [u8; 32],
        payment_hash: Option<PaymentHash>,
        path: Vec<NodeId>,
    },
    PaymentPathFailed {
        payment_hash: PaymentHash,
        rejected_by_dest: bool,
        all_paths_failed: bool,
        path: Vec<NodeId>,
    },
}

/// A payment that can be claimed.
#[derive(Debug, Clone, Copy)]
pub struct ClaimTask {
    pub payment_hash: PaymentHash,
    pub amt: u64,
    pub payment_preimage: PaymentPreimage,
    pub payment_secret: Option<PaymentSecret>,
}

/// What is left to do about an event.
#[derive(Debug)]
pub enum Task {
    Nothing,
    /// Have the funding transaction of a channel signed.
    Fund(FundingTask),
    /// Claim a payment.
    Claim(ClaimTask),
    /// Forward the pending payments after a while, that is at least so many
    /// milliseconds.
    Forward { min_wait_time: u32 },
    /// Spend outputs.
    Spend(SpendingTask),
    /// See to a channel that was closed.
    Close(Closure),
}

/// What the handler makes of an event.
#[derive(Debug)]
pub struct Reaction {
    pub reports: Vec<Report>,
    pub task: Task,
}

/// What is known of payments, by their hashes.
pub type PaymentsMap = KeyedMap<32, PaymentInfo>;

/// Handles the events of the Lightning node.
#[derive(Debug)]
pub struct LightningEventHandler {
    pub platform: Platform,
    pub inbound_payments: PaymentsMap,
    pub outbound_payments: PaymentsMap,
}

impl LightningEventHandler {
    pub open spec fn wf(self) -> bool {
        &&& self.inbound_payments.wf()
        &&& self.outbound_payments.wf()
    }
}

/// What is known of a payment once it was claimed, or the claim failed. Of a
/// payment that was known before the amount and the fee stay as they were.
pub open spec fn received_payment(
    known: Option<PaymentInfo>,
    task: ClaimTask,
    claimed: bool,
) -> PaymentInfo {
    let status = if claimed {
        HTLCStatus::Succeeded
    } else {
        HTLCStatus::Failed
    };
    match known {
        Some(payment) => PaymentInfo {
            preimage: Some(task.payment_preimage),
            secret: task.payment_secret,
            status,
            ..payment
        },
        None => PaymentInfo {
            payment_hash: task.payment_hash,
            preimage: Some(task.payment_preimage),
            secret: task.payment_secret,
            amt_msat: Some(task.amt),
            fee_paid_msat: None,
            status,
        },
    }
}

/// The inbound payments once a payment was claimed, or the claim failed.
pub open spec fn with_received(
    payments: Map<Seq<u8>, PaymentInfo>,
    task: ClaimTask,
    claimed: bool,
) -> Map<Seq<u8>, PaymentInfo> {
    let hash = task.payment_hash.0@;
    let known = if payments.contains_key(hash) {
        Some(payments[hash])
    } else {
        None
    };
    payments.insert(hash, received_payment(known, task, claimed))
}

/// The outbound payments once a payment went through. A payment that the node
/// knows nothing of stays unknown.
pub open spec fn with_sent(
    payments: Map<Seq<u8>, PaymentInfo>,
    preimage: PaymentPreimage,
    hash: PaymentHash,
    fee_paid_msat: Option<u64>,
) -> Map<Seq<u8>, PaymentInfo> {
    if payments.contains_key(hash.0@) {
        payments.insert(
            hash.0@,
            PaymentInfo {
                preimage: Some(preimage),
                status: HTLCStatus::Succeeded,
                fee_paid_msat,
                ..payments[hash.0@]
            },
        )
    } else {
        payments
    }
}

/// The outbound payments once a payment failed. A payment that the node knows
/// nothing of stays unknown.
pub open spec fn with_failed(payments: Map<Seq<u8>, PaymentInfo>, hash: PaymentHash) -> Map<
    Seq<u8>,
    PaymentInfo,
> {
    if payments.contains_key(hash.0@) {
        payments.insert(
            hash.0@,
            PaymentInfo { status: HTLCStatus::Failed, ..payments[hash.0@] },
        )
    } else {
        payments
    }
}

/// Whether the reaction has these reports.
pub open spec fn reports(reaction: Reaction, told: Seq<crate::ln_events::report::ReportView>) -> bool {
    crate::ln_events::report::reports_view(reaction.reports@) == told
}

/// What the handler makes of a channel that is ready to be funded.
pub open spec fn reacts_to_ready(
    reaction: Reaction,
    platform: Platform,
    temporary_channel_id: [u8; 32],
    channel_value_satoshis: u64,
    output_script: Seq<u8>,
    user_channel_id: u64,
) -> bool {
    let handling = crate::ln_events::report::info(
        "Handling FundingGenerationReady event for internal channel id: "@
            + crate::text::decimal_text(user_channel_id as nat),
    );
    match crate::ln_events::funding::funding_refusal(platform, user_channel_id) {
        Some(err) => {
            &&& reports(
                reaction,
                seq![handling, crate::ln_events::report::error(crate::ln_events::funding::funding_error_text(user_channel_id, err.text()))],
            )
            &&& reaction.task is Nothing
        },
        None => {
            &&& reports(reaction, seq![handling])
            &&& reaction.task matches Task::Fund(task)
            &&& task.temporary_channel_id == temporary_channel_id
            &&& task.channel_value_satoshis == channel_value_satoshis
            &&& task.user_channel_id == user_channel_id
            &&& crate::ln_events::funding::signs_funding(
                task.request,
                platform,
                user_channel_id,
                output_script,
            )
        },
    }
}

/// The claim of a payment that was received: none where the preimage of an
/// invoice is missing.
pub open spec fn claim_of(payment_hash: PaymentHash, amt: u64, purpose: PaymentPurpose) -> Option<
    ClaimTask,
> {
    match purpose {
        PaymentPurpose::InvoicePayment { payment_preimage, payment_secret } => {
            match payment_preimage {
                Some(preimage) => Some(
                    ClaimTask {
                        payment_hash,
                        amt,
                        payment_preimage: preimage,
                        payment_secret: Some(payment_secret),
                    },
                ),
                None => None,
            }
        },
        PaymentPurpose::SpontaneousPayment(preimage) => Some(
            ClaimTask { payment_hash, amt, payment_preimage: preimage, payment_secret: None },
        ),
    }
}

/// What the handler makes of a payment that was received.
pub open spec fn reacts_to_received(
    reaction: Reaction,
    payment_hash: PaymentHash,
    amt: u64,
    purpose: PaymentPurpose,
) -> bool {
    &&& reports(
        reaction,
        seq![crate::ln_events::report::info("Handling PaymentReceived event for payment_hash: "@ + crate::text::hex_text(payment_hash.0@))],
    )
    &&& match claim_of(payment_hash, amt, purpose) {
        Some(claim) => reaction.task == Task::Claim(claim),
        None => reaction.task is Nothing,
    }
}

/// What the handler tells of a payment that went through.
pub open spec fn reacts_to_sent(
    reaction: Reaction,
    payments: Map<Seq<u8>, PaymentInfo>,
    hash: PaymentHash,
) -> bool {
    let handling = crate::ln_events::report::info(
        "Handling PaymentSent event for payment_hash: "@ + crate::text::hex_text(hash.0@),
    );
    let amt: nat = match payments[hash.0@].amt_msat {
        Some(amt) => amt as nat,
        None => 0,
    };
    let sent = crate::ln_events::report::info(
        "Successfully sent payment of "@ + crate::text::decimal_text(amt)
            + " millisatoshis with payment hash "@ + crate::text::hex_text(hash.0@),
    );
    &&& reports(
        reaction,
        if payments.contains_key(hash.0@) {
            seq![handling, sent]
        } else {
            seq![handling]
        },
    )
    &&& reaction.task is Nothing
}

/// What the handler tells of a payment that failed.
pub open spec fn reacts_to_failed(reaction: Reaction, hash: PaymentHash) -> bool {
    &&& reports(
        reaction,
        seq![crate::ln_events::report::info("Handling PaymentFailed event for payment_hash: "@ + crate::text::hex_text(hash.0@))],
    )
    &&& reaction.task is Nothing
}

/// What the handler makes of payments that can be forwarded. Of the time, in
/// milliseconds, the lower 32 bits count.
pub open spec fn reacts_to_forwardable(reaction: Reaction, time_forwardable: u128) -> bool {
    &&& reports(
        reaction,
        seq![crate::ln_events::report::info("Handling PendingHTLCsForwardable event!"@)],
    )
    &&& reaction.task matches Task::Forward { min_wait_time }
    &&& min_wait_time == time_forwardable as int % 0x1_0000_0000
}

/// What the handler makes of outputs that can be spent.
pub open spec fn reacts_to_outputs(
    reaction: Reaction,
    platform: Platform,
    outputs: Seq<SpendableOutput>,
) -> bool {
    let handling = crate::ln_events::report::info("Handling SpendableOutputs event!"@);
    match platform.derivation_method {
        crate::platform::DerivationMethod::Iguana(hash) => {
            &&& reports(reaction, seq![handling])
            &&& reaction.task matches Task::Spend(task)
            &&& task.outputs@ == outputs
            &&& task.change_destination_script@ == crate::platform::witness_program(hash@)
            &&& task.confirmation_target == ConfirmationTarget::Normal
        },
        crate::platform::DerivationMethod::HDWallet => {
            &&& reports(
                reaction,
                seq![handling, crate::ln_events::report::error("Iguana private key is unavailable"@)],
            )
            &&& reaction.task is Nothing
        },
    }
}

/// What the handler makes of a channel that was closed. Only a channel that
/// this node opened has an id of its own.
pub open spec fn reacts_to_closed(
    reaction: Reaction,
    channel_id: [u8; 32],
    user_channel_id: u64,
    reason: Seq<char>,
) -> bool {
    &&& reports(
        reaction,
        seq![crate::ln_events::report::info("Channel: "@ + crate::text::hex_text(channel_id@) + " closed for the following reason: "@ + reason)],
    )
    &&& if user_channel_id == 0 {
        reaction.task is Nothing
    } else {
        &&& reaction.task matches Task::Close(closure)
        &&& closure.user_channel_id == user_channel_id
        &&& closure.state matches ClosureState::MarkClosed { reason: noted }
        &&& noted@ == reason
    }
}

/// Whether the reaction is a report to the user and nothing else.
pub open spec fn only_tells(reaction: Reaction, text: Seq<char>) -> bool {
    &&& reports(reaction, seq![crate::ln_events::report::info(text)])
    &&& reaction.task is Nothing
}

/// What the handler makes of an event.
pub open spec fn reacts(reaction: Reaction, handler: LightningEventHandler, event: Event) -> bool {
    match event {
        Event::FundingGenerationReady {
            temporary_channel_id,
            channel_value_satoshis,
            output_script,
            user_channel_id,
        } => reacts_to_ready(
            reaction,
            handler.platform,
            temporary_channel_id,
            channel_value_satoshis,
            output_script@,
            user_channel_id,
        ),
        Event::PaymentReceived { payment_hash, amt, purpose } => reacts_to_received(
            reaction,
            payment_hash,
            amt,
            purpose,
        ),
        Event::PaymentSent { payment_hash, .. } => reacts_to_sent(
            reaction,
            handler.outbound_payments@,
            payment_hash,
        ),
        Event::PaymentFailed { payment_hash } => reacts_to_failed(reaction, payment_hash),
        Event::PendingHTLCsForwardable { time_forwardable } => reacts_to_forwardable(
            reaction,
            time_forwardable,
        ),
        Event::SpendableOutputs { outputs } => reacts_to_outputs(
            reaction,
            handler.platform,
            outputs@,
        ),
        Event::PaymentForwarded { fee_earned_msat, claim_from_onchain_tx } => only_tells(
            reaction,
            crate::ln_events::report::forwarded_text(
                fee_earned_msat,
                handler.platform.ticker@,
                claim_from_onchain_tx,
            ),
        ),
        Event::ChannelClosed { channel_id, user_channel_id, reason } => reacts_to_closed(
            reaction,
            channel_id,
            user_channel_id,
            reason@,
        ),
        Event::DiscardFunding { channel_id, txid } => only_tells(
            reaction,
            "Discarding funding tx: "@ + crate::text::hex_text(txid@.reverse()) + " for channel "@
                + crate::text::hex_text(channel_id@),
        ),
        Event::PaymentPathSuccessful { payment_id, payment_hash, path } => only_tells(
            reaction,
            crate::ln_events::report::path_successful_text(
                path@,
                match payment_hash {
                    Some(hash) => Some(hash.0@),
                    None => None,
                },
                payment_id@,
            ),
        ),
        Event::PaymentPathFailed {
            payment_hash,
            rejected_by_dest,
            all_paths_failed,
            path,
        } => only_tells(
            reaction,
            crate::ln_events::report::path_failed_text(
                path@,
                payment_hash.0@,
                rejected_by_dest,
                all_paths_failed,
            ),
        ),
    }
}

/// The outbound payments once the handler took the event.
pub open spec fn outbound_after(payments: Map<Seq<u8>, PaymentInfo>, event: Event) -> Map<
    Seq<u8>,
    PaymentInfo,
> {
    match event {
        Event::PaymentSent { payment_preimage, payment_hash, fee_paid_msat } => with_sent(
            payments,
            payment_preimage,
            payment_hash,
            fee_paid_msat,
        ),
        Event::PaymentFailed { payment_hash } => with_failed(payments, payment_hash),
        _ => payments,
    }
}

/// Calls `rand::Rng::gen_range` on the generator of the thread. Claimed of it:
/// the number is in the range. Which one it is is left to chance.
#[verifier::external_body]
fn random_between(low: u32, high: u32) -> (number: u32)
    requires
        low < high,
    ensures
        low <= number < high,
{
    rand::thread_rng().gen_range(low, high)
}

/// Whether there is a range of times to choose from for a wait of at least
/// `min_wait_time`.
pub open spec fn can_wait(min_wait_time: u32) -> bool {
    0 < min_wait_time && min_wait_time * 5 <= u32::MAX
}

/// Chooses how many milliseconds to wait before pending payments are
/// forwarded: at least the given time and less than five times as long.
pub fn millis_to_sleep(min_wait_time: u32) -> (millis: u32)
    requires
        can_wait(min_wait_time),
    ensures
        min_wait_time <= millis < min_wait_time * 5,
{
    random_between(min_wait_time, min_wait_time * 5)
}

impl LightningEventHandler {
    pub fn new(
        platform: Platform,
        inbound_payments: PaymentsMap,
        outbound_payments: PaymentsMap,
    ) -> (handler: LightningEventHandler)
        requires
            inbound_payments.wf(),
            outbound_payments.wf(),
        ensures
            handler.wf(),
            handler.platform == platform,
            handler.inbound_payments == inbound_payments,
            handler.outbound_payments == outbound_payments,
    {
        LightningEventHandler { platform, inbound_payments, outbound_payments }
    }

    /// Takes an event: tells the user of it, takes note of it, and says what is
    /// left to do.
    pub fn handle_event(&mut self, event: Event) -> (reaction: Reaction)
        requires
            old(self).wf(),
            event matches Event::FundingGenerationReady { user_channel_id, .. } ==> old(
                self,
            ).platform.pays_for(user_channel_id),
        ensures
            final(self).wf(),
            final(self).platform == old(self).platform,
            final(self).inbound_payments == old(self).inbound_payments,
            final(self).outbound_payments@ == outbound_after(old(self).outbound_payments@, event),
            reacts(reaction, *old(self), event),
    {
        match event {
            Event::FundingGenerationReady {
                temporary_channel_id,
                channel_value_satoshis,
                output_script,
                user_channel_id,
            } => self.handle_funding_generation_ready(
                temporary_channel_id,
                channel_value_satoshis,
                output_script.as_slice(),
                user_channel_id,
            ),
            Event::PaymentReceived { payment_hash, amt, purpose } => self.handle_payment_received(
                payment_hash,
                amt,
                &purpose,
            ),
            Event::PaymentSent { payment_preimage, payment_hash, fee_paid_msat } => {
                self.handle_payment_sent(payment_preimage, payment_hash, fee_paid_msat)
            },
            Event::PaymentFailed { payment_hash } => self.handle_payment_failed(&payment_hash),
            Event::PendingHTLCsForwardable { time_forwardable } => {
                self.handle_pending_htlcs_forwards(time_forwardable)
            },
            Event::SpendableOutputs { outputs } => self.handle_spendable_outputs(outputs),
            Event::PaymentForwarded { fee_earned_msat, claim_from_onchain_tx } => tell_only(
                tell_forwarded(
                    fee_earned_msat,
                    self.platform.ticker.as_str(),
                    claim_from_onchain_tx,
                ),
            ),
            Event::ChannelClosed { channel_id, user_channel_id, reason } => {
                self.handle_channel_closed(channel_id, user_channel_id, reason)
            },
            Event::DiscardFunding { channel_id, txid } => {
                let mut text = "Discarding funding tx: ".to_owned();
                text.append(txid_text(&txid).as_str());
                text.append(" for channel ");
                text.append(hex_encode(channel_id.as_slice()).as_str());
                tell_only(text)
            },
            Event::PaymentPathSuccessful { payment_id, payment_hash, path } => {
                let hash = match &payment_hash {
                    Some(hash) => Some(hash.0.as_slice()),
                    None => None,
                };
                tell_only(tell_path_successful(path.as_slice(), hash, payment_id.as_slice()))
            },
            Event::PaymentPathFailed {
                payment_hash,
                rejected_by_dest,
                all_paths_failed,
                path,
            } => tell_only(
                tell_path_failed(
                    path.as_slice(),
                    payment_hash.0.as_slice(),
                    rejected_by_dest,
                    all_paths_failed,
                ),
            ),
        }
    }

    fn handle_funding_generation_ready(
        &self,
        temporary_channel_id: [u8; 32],
        channel_value_satoshis: u64,
        output_script: &[u8],
        user_channel_id: u64,
    ) -> (reaction: Reaction)
        requires
            self.platform.pays_for(user_channel_id),
        ensures
            reacts_to_ready(
                reaction,
                self.platform,
                temporary_channel_id,
                channel_value_satoshis,
                output_script@,
                user_channel_id,
            ),
    {
        let handling = with_number(
            "Handling FundingGenerationReady event for internal channel id: ",
            user_channel_id,
            "",
        );
        proof {
            reveal_strlit("");
            assert(handling@ =~= "Handling FundingGenerationReady event for internal channel id: "@
                + crate::text::decimal_text(user_channel_id as nat));
        }
        let mut reports = told(Level::Info, handling);
        match sign_funding_transaction(user_channel_id, output_script, &self.platform) {
            Ok(request) => Reaction {
                reports,
                task: Task::Fund(
                    FundingTask {
                        temporary_channel_id,
                        channel_value_satoshis,
                        user_channel_id,
                        request,
                    },
                ),
            },
            Err(err) => {
                let text = err.to_text();
                let ghost first = crate::ln_events::report::reports_view(reports@);
                tell(
                    &mut reports,
                    Level::Error,
                    tell_funding_error(user_channel_id, text.as_str()),
                );
                proof {
                    let second = crate::ln_events::report::reports_view(reports@)[1];
                    assert(crate::ln_events::report::reports_view(reports@) =~= seq![first[0], second]);
                }
                Reaction { reports, task: Task::Nothing }
            },
        }
    }

    fn handle_payment_received(
        &self,
        payment_hash: PaymentHash,
        amt: u64,
        purpose: &PaymentPurpose,
    ) -> (reaction: Reaction)
        ensures
            reacts_to_received(reaction, payment_hash, amt, *purpose),
    {
        let reports = told(
            Level::Info,
            with_hex(
                "Handling PaymentReceived event for payment_hash: ",
                payment_hash.0.as_slice(),
            ),
        );
        let (payment_preimage, payment_secret) = match purpose {
            PaymentPurpose::InvoicePayment {
                payment_preimage,
                payment_secret,
            } => match payment_preimage {
                Some(preimage) => (*preimage, Some(*payment_secret)),
                None => {
                    return Reaction { reports, task: Task::Nothing };
                },
            },
            PaymentPurpose::SpontaneousPayment(preimage) => (*preimage, None),
        };
        Reaction {
            reports,
            task: Task::Claim(ClaimTask { payment_hash, amt, payment_preimage, payment_secret }),
        }
    }

    /// Takes note of a payment that was claimed, or of a claim that failed.
    pub fn payment_claimed(&mut self, task: ClaimTask, claimed: bool) -> (reports: Vec<Report>)
        requires
            old(self).wf(),
        ensures
            final(self).wf(),
            final(self).platform == old(self).platform,
            final(self).inbound_payments@ == with_received(
                old(self).inbound_payments@,
                task,
                claimed,
            ),
            final(self).outbound_payments == old(self).outbound_payments,
            crate::ln_events::report::reports_view(reports@) == if claimed {
                seq![crate::ln_events::report::info("Received an amount of "@ + crate::text::decimal_text(task.amt as nat) + " millisatoshis for payment hash "@ + crate::text::hex_text(task.payment_hash.0@))]
            } else {
                Seq::empty()
            },
    {
        let (status, reports) = if claimed {
            let mut text = with_number(
                "Received an amount of ",
                task.amt,
                " millisatoshis for payment hash ",
            );
            text.append(hex_encode(task.payment_hash.0.as_slice()).as_str());
            (HTLCStatus::Succeeded, told(Level::Info, text))
        } else {
            (HTLCStatus::Failed, no_reports())
        };
        let payment = match self.inbound_payments.get(&task.payment_hash.0) {
            Some(payment) => PaymentInfo {
                preimage: Some(task.payment_preimage),
                secret: task.payment_secret,
                status,
                ..*payment
            },
            None => PaymentInfo {
                payment_hash: task.payment_hash,
                preimage: Some(task.payment_preimage),
                secret: task.payment_secret,
                status,
                amt_msat: Some(task.amt),
                fee_paid_msat: None,
            },
        };
        self.inbound_payments.insert(task.payment_hash.0, payment);
        reports
    }

    fn handle_payment_sent(
        &mut self,
        payment_preimage: PaymentPreimage,
        payment_hash: PaymentHash,
        fee_paid_msat: Option<u64>,
    ) -> (reaction: Reaction)
        requires
            old(self).wf(),
        ensures
            final(self).wf(),
            final(self).platform == old(self).platform,
            final(self).inbound_payments == old(self).inbound_payments,
            final(self).outbound_payments@ == with_sent(
                old(self).outbound_payments@,
                payment_preimage,
                payment_hash,
                fee_paid_msat,
            ),
            reacts_to_sent(reaction, old(self).outbound_payments@, payment_hash),
    {
        let mut reports = told(
            Level::Info,
            with_hex("Handling PaymentSent event for payment_hash: ", payment_hash.0.as_slice()),
        );
        let ghost first = crate::ln_events::report::reports_view(reports@);
        let known = match self.outbound_payments.get(&payment_hash.0) {
            Some(payment) => Some(*payment),
            None => None,
        };
        if let Some(known) = known {
            let payment = PaymentInfo {
                preimage: Some(payment_preimage),
                status: HTLCStatus::Succeeded,
                fee_paid_msat,
                ..known
            };
            self.outbound_payments.insert(payment_hash.0, payment);
            let amt: u64 = match payment.amt_msat {
                Some(amt) => amt,
                None => 0,
            };
            let mut text = with_number(
                "Successfully sent payment of ",
                amt,
                " millisatoshis with payment hash ",
            );
            text.append(hex_encode(payment_hash.0.as_slice()).as_str());
            tell(&mut reports, Level::Info, text);
            proof {
                let second = crate::ln_events::report::reports_view(reports@)[1];
                assert(crate::ln_events::report::reports_view(reports@) =~= seq![first[0], second]);
            }
        }
        Reaction { reports, task: Task::Nothing }
    }

    fn handle_channel_closed(
        &self,
        channel_id: [u8; 32],
        user_channel_id: u64,
        reason: String,
    ) -> (reaction: Reaction)
        ensures
            reacts_to_closed(reaction, channel_id, user_channel_id, reason@),
    {
        let mut text = with_hex("Channel: ", channel_id.as_slice());
        text.append(" closed for the following reason: ");
        text.append(reason.as_str());
        let reports = told(Level::Info, text);
        if user_channel_id != 0 {
            let state = ClosureState::MarkClosed { reason };
            Reaction { reports, task: Task::Close(Closure { user_channel_id, state }) }
        } else {
            Reaction { reports, task: Task::Nothing }
        }
    }

    fn handle_payment_failed(&mut self, payment_hash: &PaymentHash) -> (reaction: Reaction)
        requires
            old(self).wf(),
        ensures
            final(self).wf(),
            final(self).platform == old(self).platform,
            final(self).inbound_payments == old(self).inbound_payments,
            final(self).outbound_payments@ == with_failed(
                old(self).outbound_payments@,
                *payment_hash,
            ),
            reacts_to_failed(reaction, *payment_hash),
    {
        let reports = told(
            Level::Info,
            with_hex(
                "Handling PaymentFailed event for payment_hash: ",
                payment_hash.0.as_slice(),
            ),
        );
        let known = match self.outbound_payments.get(&payment_hash.0) {
            Some(payment) => Some(*payment),
            None => None,
        };
        if let Some(known) = known {
            let payment = PaymentInfo { status: HTLCStatus::Failed, ..known };
            self.outbound_payments.insert(payment_hash.0, payment);
        }
        Reaction { reports, task: Task::Nothing }
    }

    fn handle_pending_htlcs_forwards(&self, time_forwardable: u128) -> (reaction: Reaction)
        ensures
            reacts_to_forwardable(reaction, time_forwardable),
    {
        let min_wait_time: u32 = (time_forwardable % 0x1_0000_0000) as u32;
        Reaction {
            reports: told(Level::Info, "Handling PendingHTLCsForwardable event!".to_owned()),
            task: Task::Forward { min_wait_time },
        }
    }

    fn handle_spendable_outputs(&self, outputs: Vec<SpendableOutput>) -> (reaction: Reaction)
        ensures
            reacts_to_outputs(reaction, self.platform, outputs@),
    {
        let mut reports = told(Level::Info, "Handling SpendableOutputs event!".to_owned());
        let ghost first = crate::ln_events::report::reports_view(reports@);
        let my_address = match self.platform.derivation_method.iguana_or_err() {
            Ok(my_address) => my_address,
            Err(err) => {
                tell(&mut reports, Level::Error, err.to_text());
                proof {
                    let second = crate::ln_events::report::reports_view(reports@)[1];
                    assert(crate::ln_events::report::reports_view(reports@) =~= seq![first[0], second]);
                }
                return Reaction { reports, task: Task::Nothing };
            },
        };
        Reaction {
            reports,
            task: Task::Spend(
                SpendingTask {
                    outputs,
                    change_destination_script: build_witness_script(&my_address),
                    confirmation_target: ConfirmationTarget::Normal,
                },
            ),
        }
    }
}

/// Tells the user something and does nothing else.
fn tell_only(text: String) -> (reaction: Reaction)
    ensures
        only_tells(reaction, text@),
{
    Reaction { reports: told(Level::Info, text), task: Task::Nothing }
}

} // verus!
