use mm2::keyed_map::KeyedMap;
use mm2::ln_events::closure::{Closure, ClosureEvent, ClosureState};
use mm2::ln_events::funding::{sign_funding_transaction, OpenChannelError};
use mm2::ln_events::report::{Level, Report};
use mm2::ln_events::spending::{ConfirmationTarget, SpendableOutput, SpendingTask};
use mm2::ln_events::{
    millis_to_sleep, ClaimTask, Event, LightningEventHandler, PaymentPurpose, Task,
};
use mm2::platform::{
    build_p2pkh, build_witness_script, DerivationMethod, Platform, PrivKeyPolicy, SignatureVersion,
    TransactionOutput, UnsignedTransaction,
};
use mm2::storage::{
    HTLCStatus, NodeId, PaymentHash, PaymentInfo, PaymentPreimage, PaymentSecret, SqlChannelDetails,
};
use std::collections::HashMap;

const HASH_HEX: &str = "0101010101010101010101010101010101010101010101010101010101010101";
const HASH: PaymentHash = PaymentHash([1; 32]);
const PREIMAGE: PaymentPreimage = PaymentPreimage([2; 32]);
const SECRET: PaymentSecret = PaymentSecret([3; 32]);

fn platform(derivation_method: DerivationMethod, priv_key_policy: PrivKeyPolicy) -> Platform {
    let mut unsigned_funding_txs = HashMap::new();
    unsigned_funding_txs.insert(
        5,
        UnsignedTransaction {
            outputs: vec![
                TransactionOutput { value: 1000, script_pubkey: vec![0] },
                TransactionOutput { value: 50, script_pubkey: vec![7] },
            ],
            rest: vec![42],
        },
    );
    Platform {
        ticker: "BTC-lightning".to_string(),
        derivation_method,
        priv_key_policy,
        fork_id: 64,
        unsigned_funding_txs,
    }
}

fn handler() -> LightningEventHandler {
    let platform = platform(DerivationMethod::Iguana([4; 20]), PrivKeyPolicy::KeyPair);
    LightningEventHandler::new(platform, KeyedMap::new(), KeyedMap::new())
}

fn hd_handler() -> LightningEventHandler {
    let platform = platform(DerivationMethod::HDWallet, PrivKeyPolicy::KeyPair);
    LightningEventHandler::new(platform, KeyedMap::new(), KeyedMap::new())
}

fn texts(reports: &[Report]) -> Vec<String> {
    reports
        .iter()
        .map(|report| format!("{:?} {}", report.level, report.text))
        .collect()
}

fn payment(status: HTLCStatus) -> PaymentInfo {
    PaymentInfo {
        payment_hash: HASH,
        preimage: None,
        secret: None,
        amt_msat: Some(900),
        fee_paid_msat: None,
        status,
    }
}

fn node() -> NodeId {
    let mut key = [0u8; 33];
    hex::decode_to_slice(
        "0279be667ef9dcbbac55a06295ce870b07029bfcdb2dce28d959f2815b16f81798",
        &mut key,
    )
    .unwrap();
    NodeId::from_bytes(key).unwrap()
}

fn funding_event(user_channel_id: u64) -> Event {
    Event::FundingGenerationReady {
        temporary_channel_id: [8; 32],
        channel_value_satoshis: 1000,
        output_script: vec![0, 32, 9],
        user_channel_id,
    }
}

#[test]
fn channel_is_funded() {
    let mut handler = handler();
    let reaction = handler.handle_event(funding_event(5));
    assert_eq!(
        texts(&reaction.reports),
        vec!["Info Handling FundingGenerationReady event for internal channel id: 5"]
    );
    let task = match reaction.task {
        Task::Fund(task) => task,
        _ => panic!("nothing is signed"),
    };
    assert_eq!(task.temporary_channel_id, [8; 32]);
    assert_eq!(task.request.unsigned.outputs[0].script_pubkey, vec![0, 32, 9]);
    assert_eq!(task.request.unsigned.outputs[0].value, 1000);
    assert_eq!(task.request.unsigned.outputs[1].script_pubkey, vec![7]);
    assert_eq!(task.request.unsigned.rest, vec![42]);
    assert_eq!(task.request.prev_script, build_p2pkh(&[4; 20]));
    assert_eq!(task.request.signature_version, SignatureVersion::WitnessV0);
    assert_eq!(task.request.fork_id, 64);
    let mut txid = [0u8; 32];
    txid[0] = 0x12;
    txid[31] = 0xfe;
    let (reports, opening) = task.signed(Ok(txid));
    assert!(reports.is_empty());
    let (reports, recording) = opening.unwrap().opened(Ok(()));
    assert!(reports.is_empty());
    let record = recording.unwrap().record(Some(700_000));
    assert_eq!(record.rpc_id, 5);
    assert_eq!(
        record.funding_tx,
        "fe00000000000000000000000000000000000000000000000000000000000012"
    );
    assert_eq!(record.funding_value, 1000);
    assert_eq!(record.funding_generated_in_block, 700_000);
}

#[test]
fn funding_that_fails_is_reported() {
    let task = |reaction: mm2::ln_events::Reaction| match reaction.task {
        Task::Fund(task) => task,
        _ => panic!("nothing is signed"),
    };
    let signing = task(handler().handle_event(funding_event(5)));
    let (reports, opening) = signing.signed(Err(OpenChannelError::SignError("no key".to_string())));
    assert!(opening.is_none());
    assert_eq!(
        texts(&reports),
        vec!["Error Error generating funding transaction for internal channel id 5: Signing error: no key"]
    );
    let signing = task(handler().handle_event(funding_event(5)));
    let (_, opening) = signing.signed(Ok([0; 32]));
    let (reports, recording) = opening.unwrap().opened(Err("APIMisuseError".to_string()));
    assert!(recording.is_none());
    assert_eq!(texts(&reports), vec!["Error APIMisuseError"]);
    let signing = task(handler().handle_event(funding_event(5)));
    let (_, opening) = signing.signed(Ok([0; 32]));
    let (_, recording) = opening.unwrap().opened(Ok(()));
    assert_eq!(recording.unwrap().record(None).funding_generated_in_block, 0);
}

#[test]
fn unknown_channel_is_not_funded() {
    let mut handler = handler();
    let reaction = handler.handle_event(funding_event(12));
    assert!(matches!(reaction.task, Task::Nothing));
    assert_eq!(
        texts(&reaction.reports),
        vec![
            "Info Handling FundingGenerationReady event for internal channel id: 12",
            "Error Error generating funding transaction for internal channel id 12: \
             Internal error: Unsigned funding tx not found for internal channel id: 12",
        ]
    );
}

#[test]
fn channel_is_funded_by_the_one_key() {
    let hd = platform(DerivationMethod::HDWallet, PrivKeyPolicy::KeyPair);
    match sign_funding_transaction(5, &[], &hd) {
        Err(OpenChannelError::UnexpectedDerivationMethod(err)) => {
            assert_eq!(err, "Iguana private key is unavailable")
        }
        _ => panic!("a wallet with many keys signs"),
    }
    let hardware = platform(DerivationMethod::Iguana([4; 20]), PrivKeyPolicy::HardwareWallet);
    match sign_funding_transaction(5, &[], &hardware) {
        Err(OpenChannelError::PrivKeyNotAllowed(err)) => {
            assert_eq!(err, "Hardware Wallet is not supported")
        }
        _ => panic!("a hardware wallet signs"),
    }
    // The missing transaction is noticed first.
    assert!(matches!(
        sign_funding_transaction(6, &[], &hd),
        Err(OpenChannelError::InternalError(_))
    ));
    assert_eq!(
        OpenChannelError::ConvertTxErr("x".to_string()).to_text(),
        "Transaction conversion error: x"
    );
}

#[test]
fn scripts_pay_to_a_key_hash() {
    let hash = [0xaa; 20];
    assert_eq!(
        hex::encode(build_p2pkh(&hash)),
        "76a914aaaaaaaaaaaaaaaaaaaaaaaaaaaaaaaaaaaaaaaa88ac"
    );
    assert_eq!(
        hex::encode(build_witness_script(&hash)),
        "0014aaaaaaaaaaaaaaaaaaaaaaaaaaaaaaaaaaaaaaaa"
    );
}

fn received(purpose: PaymentPurpose) -> Task {
    let reaction =
        handler().handle_event(Event::PaymentReceived { payment_hash: HASH, amt: 77, purpose });
    assert_eq!(
        texts(&reaction.reports),
        vec![format!("Info Handling PaymentReceived event for payment_hash: {}", HASH_HEX)]
    );
    reaction.task
}

#[test]
fn payment_is_claimed_with_its_preimage() {
    let invoice =
        |payment_preimage| PaymentPurpose::InvoicePayment { payment_preimage, payment_secret: SECRET };
    match received(invoice(Some(PREIMAGE))) {
        Task::Claim(claim) => {
            assert_eq!(claim.payment_hash, HASH);
            assert_eq!(claim.amt, 77);
            assert_eq!(claim.payment_preimage, PREIMAGE);
            assert_eq!(claim.payment_secret, Some(SECRET));
        }
        _ => panic!("the payment is lost"),
    }
    match received(PaymentPurpose::SpontaneousPayment(PREIMAGE)) {
        Task::Claim(claim) => assert_eq!(claim.payment_secret, None),
        _ => panic!("the payment is lost"),
    }
    assert!(matches!(received(invoice(None)), Task::Nothing));
}

#[test]
fn claimed_payment_is_known() {
    let mut handler = handler();
    let claim = ClaimTask {
        payment_hash: HASH,
        amt: 77,
        payment_preimage: PREIMAGE,
        payment_secret: Some(SECRET),
    };
    let reports = handler.payment_claimed(claim, false);
    assert!(reports.is_empty());
    let known = *handler.inbound_payments.get(&HASH.0).unwrap();
    assert_eq!(known.status, HTLCStatus::Failed);
    assert_eq!(known.payment_hash, HASH);
    assert_eq!(known.preimage, Some(PREIMAGE));
    assert_eq!(known.secret, Some(SECRET));
    assert_eq!(known.amt_msat, Some(77));
    assert_eq!(known.fee_paid_msat, None);
    // A second claim keeps the amount of the first.
    let again = ClaimTask { amt: 78, payment_secret: None, payment_preimage: PaymentPreimage([9; 32]), ..claim };
    let reports = handler.payment_claimed(again, true);
    assert_eq!(
        texts(&reports),
        vec![format!("Info Received an amount of 78 millisatoshis for payment hash {}", HASH_HEX)]
    );
    let known = *handler.inbound_payments.get(&HASH.0).unwrap();
    assert_eq!(known.status, HTLCStatus::Succeeded);
    assert_eq!(known.amt_msat, Some(77));
    assert_eq!(known.secret, None);
    assert_eq!(known.preimage, Some(PaymentPreimage([9; 32])));
    assert!(handler.outbound_payments.get(&HASH.0).is_none());
}

#[test]
fn sent_and_failed_payments() {
    let mut handler = handler();
    handler.outbound_payments.insert(HASH.0, payment(HTLCStatus::Pending));
    let sent = || Event::PaymentSent {
        payment_preimage: PREIMAGE,
        payment_hash: HASH,
        fee_paid_msat: Some(3),
    };
    let reaction = handler.handle_event(sent());
    assert_eq!(
        texts(&reaction.reports),
        vec![
            format!("Info Handling PaymentSent event for payment_hash: {}", HASH_HEX),
            format!(
                "Info Successfully sent payment of 900 millisatoshis with payment hash {}",
                HASH_HEX
            ),
        ]
    );
    assert!(matches!(reaction.task, Task::Nothing));
    let known = *handler.outbound_payments.get(&HASH.0).unwrap();
    assert_eq!(known.status, HTLCStatus::Succeeded);
    assert_eq!(known.preimage, Some(PREIMAGE));
    assert_eq!(known.fee_paid_msat, Some(3));
    assert_eq!(known.amt_msat, Some(900));
    // The last word counts.
    let reaction = handler.handle_event(Event::PaymentFailed { payment_hash: HASH });
    assert_eq!(
        texts(&reaction.reports),
        vec![format!("Info Handling PaymentFailed event for payment_hash: {}", HASH_HEX)]
    );
    let known = *handler.outbound_payments.get(&HASH.0).unwrap();
    assert_eq!(known.status, HTLCStatus::Failed);
    assert_eq!(known.preimage, Some(PREIMAGE));
    // Payments that the node knows nothing of stay unknown.
    handler.handle_event(Event::PaymentFailed { payment_hash: PaymentHash([9; 32]) });
    assert!(handler.outbound_payments.get(&[9; 32]).is_none());
    let reaction = handler.handle_event(Event::PaymentSent {
        payment_preimage: PREIMAGE,
        payment_hash: PaymentHash([9; 32]),
        fee_paid_msat: None,
    });
    assert_eq!(reaction.reports.len(), 1);
    assert!(handler.outbound_payments.get(&[9; 32]).is_none());
}

#[test]
fn forwarding_waits_a_while() {
    let mut handler = handler();
    let reaction =
        handler.handle_event(Event::PendingHTLCsForwardable { time_forwardable: 0x1_0000_0064 });
    assert_eq!(texts(&reaction.reports), vec!["Info Handling PendingHTLCsForwardable event!"]);
    assert!(matches!(reaction.task, Task::Forward { min_wait_time: 100 }));
    let mut seen = std::collections::HashSet::new();
    for _ in 0..200 {
        let millis = millis_to_sleep(100);
        assert!((100..500).contains(&millis));
        seen.insert(millis);
    }
    assert!(seen.len() > 1);
    assert!((1..5).contains(&millis_to_sleep(1)));
    millis_to_sleep(u32::MAX / 5);
}

#[test]
fn outputs_are_spent_together() {
    let outputs = vec![
        SpendableOutput::StaticOutput { txid: [1; 32], value: 10 },
        SpendableOutput::DelayedPaymentOutput { txid: [2; 32], value: 20 },
        SpendableOutput::StaticPaymentOutput { txid: [3; 32], value: 30 },
    ];
    let reaction = handler().handle_event(Event::SpendableOutputs { outputs });
    assert_eq!(texts(&reaction.reports), vec!["Info Handling SpendableOutputs event!"]);
    let task = match reaction.task {
        Task::Spend(task) => task,
        _ => panic!("nothing is spent"),
    };
    assert_eq!(task.change_destination_script, build_witness_script(&[4; 20]));
    assert_eq!(task.confirmation_target, ConfirmationTarget::Normal);
    let mut claiming = [0u8; 32];
    claiming[31] = 0x77;
    let spending = task.spent(Some(claiming));
    assert!(spending.broadcast && spending.reports.is_empty());
    assert_eq!(spending.records.len(), 3);
    assert_eq!(spending.records[1].closing_tx, "02".repeat(32));
    assert_eq!(spending.records[1].claiming_tx, format!("77{}", "00".repeat(31)));
    let balances: Vec<u64> = spending.records.iter().map(|record| record.claimed_balance).collect();
    assert_eq!(balances, vec![10, 20, 30]);
}

#[test]
fn outputs_that_cannot_be_spent_are_reported() {
    let task = SpendingTask {
        outputs: vec![SpendableOutput::StaticOutput { txid: [1; 32], value: 10 }],
        change_destination_script: vec![],
        confirmation_target: ConfirmationTarget::Normal,
    };
    let spending = task.spent(None);
    assert!(!spending.broadcast && spending.records.is_empty());
    assert_eq!(texts(&spending.reports), vec!["Error Error spending spendable outputs"]);
    let reaction = hd_handler().handle_event(Event::SpendableOutputs { outputs: vec![] });
    assert!(matches!(reaction.task, Task::Nothing));
    assert_eq!(
        texts(&reaction.reports),
        vec![
            "Info Handling SpendableOutputs event!",
            "Error Iguana private key is unavailable",
        ]
    );
    assert_eq!(reaction.reports[1].level, Level::Error);
}

#[test]
fn events_that_are_only_told() {
    let mut handler = handler();
    let mut told = |event: Event| -> Vec<String> {
        let reaction = handler.handle_event(event);
        assert!(matches!(reaction.task, Task::Nothing));
        texts(&reaction.reports)
    };
    assert_eq!(
        told(Event::PaymentForwarded { fee_earned_msat: Some(21), claim_from_onchain_tx: true }),
        vec![
            "Info Recieved a fee of 21 milli-satoshis for a successfully forwarded payment through \
             our BTC-lightning lightning node. Was the forwarded HTLC claimed by our counterparty \
             via an on-chain transaction?: true"
        ]
    );
    assert_eq!(
        told(Event::PaymentForwarded { fee_earned_msat: None, claim_from_onchain_tx: false }),
        vec![
            "Info Recieved a fee of 0 milli-satoshis for a successfully forwarded payment through \
             our BTC-lightning lightning node. Was the forwarded HTLC claimed by our counterparty \
             via an on-chain transaction?: false"
        ]
    );
    let mut txid = [0u8; 32];
    txid[0] = 0xcd;
    assert_eq!(
        told(Event::DiscardFunding { channel_id: [1; 32], txid }),
        vec![format!("Info Discarding funding tx: {}cd for channel {}", "00".repeat(31), HASH_HEX)]
    );
    let path = || vec![node(), node()];
    let names: Vec<String> = path().iter().map(|node| node.to_text()).collect();
    assert_eq!(
        told(Event::PaymentPathSuccessful {
            payment_id: [2; 32],
            payment_hash: Some(HASH),
            path: path()
        }),
        vec![format!(
            "Info Payment path: {:?}, successful for payment hash: {}, payment id: {}",
            names,
            HASH_HEX,
            "02".repeat(32)
        )]
    );
    assert_eq!(
        told(Event::PaymentPathSuccessful { payment_id: [2; 32], payment_hash: None, path: vec![] }),
        vec![format!(
            "Info Payment path: [], successful for payment hash: , payment id: {}",
            "02".repeat(32)
        )]
    );
    assert_eq!(
        told(Event::PaymentPathFailed {
            payment_hash: HASH,
            rejected_by_dest: true,
            all_paths_failed: false,
            path: vec![node()],
        }),
        vec![format!(
            "Info Payment path: {:?}, failed for payment hash: {}, Was rejected by destination?: true, All paths failed?: false",
            &names[..1],
            HASH_HEX
        )]
    );
}

fn closed(user_channel_id: u64) -> Task {
    let reaction = handler().handle_event(Event::ChannelClosed {
        channel_id: [1; 32],
        user_channel_id,
        reason: "cooperative".to_string(),
    });
    assert_eq!(
        texts(&reaction.reports),
        vec![format!("Info Channel: {} closed for the following reason: cooperative", HASH_HEX)]
    );
    reaction.task
}

fn details(funding_tx: Option<&str>, block: Option<u64>) -> SqlChannelDetails {
    SqlChannelDetails {
        funding_tx: funding_tx.map(|tx| tx.to_string()),
        funding_generated_in_block: block,
        ..SqlChannelDetails::new(9, [1; 32], node(), true, true)
    }
}

#[test]
fn closing_transaction_is_recorded() {
    let closure = match closed(9) {
        Task::Close(closure) => closure,
        _ => panic!("the channel is forgotten"),
    };
    assert_eq!(closure.user_channel_id, 9);
    assert!(matches!(&closure.state, ClosureState::MarkClosed { reason } if reason == "cooperative"));
    let closure = closure.step(ClosureEvent::Marked);
    assert!(matches!(closure.state, ClosureState::ReadChannel));
    let closure = closure.step(ClosureEvent::ChannelRead(Some(details(Some("abcd"), Some(100)))));
    assert!(
        matches!(&closure.state, ClosureState::FetchFundingTx { tx_id, from_block: 100 } if tx_id == "abcd")
    );
    let closure = closure
        .step(ClosureEvent::FundingTxFetched { funding_tx: Some(vec![1, 2]), now_ms: 5_999 });
    match &closure.state {
        ClosureState::WaitForSpend { funding_tx, wait_until, from_block } => {
            assert_eq!(funding_tx, &vec![1, 2]);
            assert_eq!(*wait_until, 3605);
            assert_eq!(*from_block, 100);
        }
        _ => panic!("the closing transaction is not waited for"),
    }
    let mut hash = [0u8; 32];
    hash[31] = 0xee;
    let closure = closure.step(ClosureEvent::Spent { closing_tx_hash: Some(hash) });
    match &closure.state {
        ClosureState::RecordClosingTx { closing_tx } => {
            assert_eq!(closing_tx, &format!("ee{}", "00".repeat(31)))
        }
        _ => panic!("the closing transaction is not recorded"),
    }
    let closure = closure.step(ClosureEvent::Recorded);
    assert!(matches!(closure.state, ClosureState::Done));
    assert_eq!(closure.user_channel_id, 9);
}

#[test]
fn closure_ends_where_something_is_missing() {
    assert!(matches!(closed(0), Task::Nothing));
    let at = |state: ClosureState| Closure { user_channel_id: 9, state };
    let ends = |closure: Closure| matches!(closure.state, ClosureState::Done);
    assert!(ends(at(ClosureState::ReadChannel).step(ClosureEvent::ChannelRead(None))));
    assert!(ends(
        at(ClosureState::ReadChannel).step(ClosureEvent::ChannelRead(Some(details(None, Some(1)))))
    ));
    let fetching = || at(ClosureState::FetchFundingTx { tx_id: "ab".to_string(), from_block: 0 });
    assert!(ends(
        fetching().step(ClosureEvent::FundingTxFetched { funding_tx: None, now_ms: 0 })
    ));
    let waiting =
        at(ClosureState::WaitForSpend { funding_tx: vec![], wait_until: 0, from_block: 0 });
    assert!(ends(waiting.step(ClosureEvent::Spent { closing_tx_hash: None })));
    // A block that is not on record counts as the first one.
    let reading = at(ClosureState::ReadChannel);
    let next = reading.step(ClosureEvent::ChannelRead(Some(details(Some("ab"), None))));
    assert!(matches!(next.state, ClosureState::FetchFundingTx { from_block: 0, .. }));
}
