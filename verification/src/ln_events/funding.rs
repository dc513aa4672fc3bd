//! The funding of a channel that is about to be opened.

use crate::ln_events::report::{no_reports, told, with_number, Level, Report};
use crate::platform::{
    build_p2pkh, Platform, PrivKeyPolicy, SignatureVersion, UnsignedTransaction,
};
use crate::text::{copy_bytes, txid_text};
use vstd::prelude::*;

verus! {

/// Why a channel cannot be opened.
#[derive(Debug)]
pub enum OpenChannelError {
    InternalError(String),
    /// There is no single address that funds the channel.
    UnexpectedDerivationMethod(String),
    /// The node may not use its key.
    PrivKeyNotAllowed(String),
    SignError(String),
    ConvertTxErr(String),
}

/// What an `OpenChannelError` holds.
pub enum OpenChannelErrorView {
    InternalError(Seq<char>),
    UnexpectedDerivationMethod(Seq<char>),
    PrivKeyNotAllowed(Seq<char>),
    SignError(Seq<char>),
    ConvertTxErr(Seq<char>),
}

impl View for OpenChannelError {
    type V = OpenChannelErrorView;

    open spec fn view(&self) -> OpenChannelErrorView {
        match *self {
            OpenChannelError::InternalError(e) => OpenChannelErrorView::InternalError(e@),
            OpenChannelError::UnexpectedDerivationMethod(
                e,
            ) => OpenChannelErrorView::UnexpectedDerivationMethod(e@),
            OpenChannelError::PrivKeyNotAllowed(e) => OpenChannelErrorView::PrivKeyNotAllowed(e@),
            OpenChannelError::SignError(e) => OpenChannelErrorView::SignError(e@),
            OpenChannelError::ConvertTxErr(e) => OpenChannelErrorView::ConvertTxErr(e@),
        }
    }
}

impl OpenChannelErrorView {
    /// The error in words.
    pub open spec fn text(self) -> Seq<char> {
        match self {
            OpenChannelErrorView::InternalError(e) => "Internal error: "@ + e,
            OpenChannelErrorView::UnexpectedDerivationMethod(e) => "Derivation method error: "@ + e,
            OpenChannelErrorView::PrivKeyNotAllowed(e) => "Private key error: "@ + e,
            OpenChannelErrorView::SignError(e) => "Signing error: "@ + e,
            OpenChannelErrorView::ConvertTxErr(e) => "Transaction conversion error: "@ + e,
        }
    }
}

impl OpenChannelError {
    /// The error in words.
    pub fn to_text(&self) -> (text: String)
        ensures
            text@ == self@.text(),
    {
        match self {
            OpenChannelError::InternalError(e) => "Internal error: ".to_owned().concat(e.as_str()),
            OpenChannelError::UnexpectedDerivationMethod(
                e,
            ) => "Derivation method error: ".to_owned().concat(e.as_str()),
            OpenChannelError::PrivKeyNotAllowed(
                e,
            ) => "Private key error: ".to_owned().concat(e.as_str()),
            OpenChannelError::SignError(e) => "Signing error: ".to_owned().concat(e.as_str()),
            OpenChannelError::ConvertTxErr(
                e,
            ) => "Transaction conversion error: ".to_owned().concat(e.as_str()),
        }
    }
}

/// A transaction with what the signer has to know.
#[derive(Debug)]
pub struct SigningRequest {
    pub unsigned: UnsignedTransaction,
    /// The script of the outputs that the transaction spends.
    pub prev_script: Vec<u8>,
    pub signature_version: SignatureVersion,
    pub fork_id: u32,
}

/// The reason for which the transaction that funds the channel cannot be
/// signed.
pub open spec fn funding_refusal(platform: Platform, user_channel_id: u64) -> Option<
    OpenChannelErrorView,
> {
    if !platform.unsigned_funding_txs@.contains_key(user_channel_id) {
        Some(
            OpenChannelErrorView::InternalError(
                "Unsigned funding tx not found for internal channel id: "@
                    + crate::text::decimal_text(user_channel_id as nat),
            ),
        )
    } else if platform.derivation_method is HDWallet {
        Some(
            OpenChannelErrorView::UnexpectedDerivationMethod("Iguana private key is unavailable"@),
        )
    } else if platform.priv_key_policy == PrivKeyPolicy::HardwareWallet {
        Some(OpenChannelErrorView::PrivKeyNotAllowed("Hardware Wallet is not supported"@))
    } else {
        None
    }
}

/// Whether the request is to sign the transaction that funds the channel,
/// with the output that pays to `output_script`.
pub open spec fn signs_funding(
    request: SigningRequest,
    platform: Platform,
    user_channel_id: u64,
    output_script: Seq<u8>,
) -> bool {
    &&& request.unsigned@ == platform.unsigned_funding_txs@[user_channel_id]@.paying_to(
        output_script,
    )
    &&& request.prev_script@ == crate::platform::p2pkh(platform.derivation_method->Iguana_0@)
    &&& request.signature_version == SignatureVersion::WitnessV0
    &&& request.fork_id == platform.fork_id
}

/// Whether the transaction is `stored` with another script of the first output
/// and no other change.
pub open spec fn differs_in_the_first_script(
    tx: UnsignedTransaction,
    stored: UnsignedTransaction,
    script: Seq<u8>,
) -> bool {
    &&& tx.rest@ == stored.rest@
    &&& tx.outputs@.len() == stored.outputs@.len()
    &&& tx.outputs@[0].script_pubkey@ == script
    &&& forall|i: int|
        0 <= i < stored.outputs@.len() ==> (#[trigger] tx.outputs@[i]).value
            == stored.outputs@[i].value
    &&& forall|i: int|
        1 <= i < stored.outputs@.len() ==> (#[trigger] tx.outputs@[i]).script_pubkey@
            == stored.outputs@[i].script_pubkey@
}

/// Generates the raw funding transaction with one output equal to the channel
/// value: what remains is to sign it.
pub fn sign_funding_transaction(
    user_channel_id: u64,
    output_script: &[u8],
    platform: &Platform,
) -> (request: Result<SigningRequest, OpenChannelError>)
    requires
        platform.pays_for(user_channel_id),
    ensures
        match request {
            Ok(request) => {
                &&& funding_refusal(*platform, user_channel_id) is None
                &&& signs_funding(request, *platform, user_channel_id, output_script@)
                &&& differs_in_the_first_script(
                    request.unsigned,
                    platform.unsigned_funding_txs@[user_channel_id],
                    output_script@,
                )
            },
            Err(err) => funding_refusal(*platform, user_channel_id) == Some(err@),
        },
{
    let mut unsigned = match platform.unsigned_funding_txs.get(&user_channel_id) {
        Some(unsigned) => unsigned.copy(),
        None => {
            let message = with_number(
                "Unsigned funding tx not found for internal channel id: ",
                user_channel_id,
                "",
            );
            proof {
                reveal_strlit("");
                assert(message@ =~= "Unsigned funding tx not found for internal channel id: "@
                    + crate::text::decimal_text(user_channel_id as nat));
            }
            return Err(OpenChannelError::InternalError(message));
        },
    };
    let ghost found = unsigned@;
    unsigned.outputs[0].script_pubkey = copy_bytes(output_script);
    proof {
        assert(unsigned@.outputs =~= found.paying_to(output_script@).outputs);
    }
    let my_address = match platform.derivation_method.iguana_or_err() {
        Ok(my_address) => my_address,
        Err(e) => {
            return Err(OpenChannelError::UnexpectedDerivationMethod(e.to_text()));
        },
    };
    match platform.priv_key_policy {
        PrivKeyPolicy::KeyPair => {},
        PrivKeyPolicy::HardwareWallet => {
            return Err(
                OpenChannelError::PrivKeyNotAllowed("Hardware Wallet is not supported".to_owned()),
            );
        },
    }
    Ok(
        SigningRequest {
            unsigned,
            prev_script: build_p2pkh(&my_address),
            signature_version: SignatureVersion::WitnessV0,
            fork_id: platform.fork_id,
        },
    )
}

/// What the database is told of the funding of a channel.
#[derive(Debug)]
pub struct FundingRecord {
    pub rpc_id: u64,
    pub funding_tx: String,
    pub funding_value: u64,
    pub funding_generated_in_block: u64,
}

/// A channel whose funding transaction is to be signed.
#[derive(Debug)]
pub struct FundingTask {
    pub temporary_channel_id: [u8; 32],
    pub channel_value_satoshis: u64,
    pub user_channel_id: u64,
    pub request: SigningRequest,
}

/// A channel whose signed funding transaction is to be given back to LDK.
#[derive(Debug)]
pub struct OpeningTask {
    pub temporary_channel_id: [u8; 32],
    pub channel_value_satoshis: u64,
    pub user_channel_id: u64,
    pub funding_txid: [u8; 32],
}

/// A channel that is being opened, whose funding is to be put on record.
#[derive(Debug)]
pub struct RecordingTask {
    pub channel_value_satoshis: u64,
    pub user_channel_id: u64,
    pub funding_txid: [u8; 32],
}

/// What the user is told when a funding transaction cannot be made.
pub open spec fn funding_error_text(user_channel_id: u64, err: Seq<char>) -> Seq<char> {
    "Error generating funding transaction for internal channel id "@ + crate::text::decimal_text(
        user_channel_id as nat,
    ) + ": "@ + err
}

/// Tells the user that a funding transaction cannot be made.
pub(crate) fn tell_funding_error(user_channel_id: u64, err: &str) -> (text: String)
    ensures
        text@ == funding_error_text(user_channel_id, err@),
{
    with_number(
        "Error generating funding transaction for internal channel id ",
        user_channel_id,
        ": ",
    ).concat(err)
}

impl FundingTask {
    /// Takes what the signer answered: the id of the signed transaction.
    pub fn signed(self, outcome: Result<[u8; 32], OpenChannelError>) -> (next: (
        Vec<Report>,
        Option<OpeningTask>,
    ))
        ensures
            match outcome {
                Ok(txid) => {
                    &&& next.0@.len() == 0
                    &&& next.1 == Some(
                        OpeningTask {
                            temporary_channel_id: self.temporary_channel_id,
                            channel_value_satoshis: self.channel_value_satoshis,
                            user_channel_id: self.user_channel_id,
                            funding_txid: txid,
                        },
                    )
                },
                Err(err) => {
                    &&& crate::ln_events::report::reports_view(next.0@)
                        == seq![crate::ln_events::report::error(funding_error_text(self.user_channel_id, err@.text()))]
                    &&& next.1 is None
                },
            },
    {
        match outcome {
            Ok(funding_txid) => (
                no_reports(),
                Some(
                    OpeningTask {
                        temporary_channel_id: self.temporary_channel_id,
                        channel_value_satoshis: self.channel_value_satoshis,
                        user_channel_id: self.user_channel_id,
                        funding_txid,
                    },
                ),
            ),
            Err(err) => {
                let text = err.to_text();
                (told(Level::Error, tell_funding_error(self.user_channel_id, text.as_str())), None)
            },
        }
    }
}

impl OpeningTask {
    /// Takes what LDK answered to the funding transaction.
    pub fn opened(self, outcome: Result<(), String>) -> (next: (
        Vec<Report>,
        Option<RecordingTask>,
    ))
        ensures
            match outcome {
                Ok(_) => {
                    &&& next.0@.len() == 0
                    &&& next.1 == Some(
                        RecordingTask {
                            channel_value_satoshis: self.channel_value_satoshis,
                            user_channel_id: self.user_channel_id,
                            funding_txid: self.funding_txid,
                        },
                    )
                },
                Err(err) => {
                    &&& crate::ln_events::report::reports_view(next.0@)
                        == seq![crate::ln_events::report::error(err@)]
                    &&& next.1 is None
                },
            },
    {
        match outcome {
            Ok(_) => (
                no_reports(),
                Some(
                    RecordingTask {
                        channel_value_satoshis: self.channel_value_satoshis,
                        user_channel_id: self.user_channel_id,
                        funding_txid: self.funding_txid,
                    },
                ),
            ),
            Err(err) => (told(Level::Error, err), None),
        }
    }
}

impl RecordingTask {
    /// What goes on record when the chain has this many blocks; an unknown
    /// number counts as none.
    pub fn record(&self, current_block: Option<u64>) -> (record: FundingRecord)
        ensures
            record.rpc_id == self.user_channel_id,
            record.funding_tx@ == crate::text::hex_text(self.funding_txid@.reverse()),
            record.funding_value == self.channel_value_satoshis,
            record.funding_generated_in_block == match current_block {
                Some(block) => block,
                None => 0,
            },
    {
        FundingRecord {
            rpc_id: self.user_channel_id,
            funding_tx: txid_text(&self.funding_txid),
            funding_value: self.channel_value_satoshis,
            funding_generated_in_block: match current_block {
                Some(block) => block,
                None => 0,
            },
        }
    }
}

/// The sum of the values of the outputs.
pub open spec fn total_value(outputs: Seq<crate::platform::TransactionOutput>) -> int
    decreases outputs.len(),
{
    if outputs.len() == 0 {
        0
    } else {
        total_value(outputs.drop_last()) + outputs.last().value
    }
}

proof fn same_values_have_one_total(
    left: Seq<crate::platform::TransactionOutput>,
    right: Seq<crate::platform::TransactionOutput>,
)
    requires
        left.len() == right.len(),
        forall|i: int| 0 <= i < left.len() ==> (#[trigger] left[i]).value == right[i].value,
    ensures
        total_value(left) == total_value(right),
    decreases left.len(),
{
    if left.len() > 0 {
        same_values_have_one_total(left.drop_last(), right.drop_last());
    }
}

/// The transaction that is signed is the stored one with the script of its
/// first output replaced by that of the channel. Nothing else of it changes:
/// neither how many outputs it has nor the value of any, nor the script of any
/// other output, nor the rest. So the values add up to the same sum, and what
/// is left for the fee stays what it was.
pub proof fn funding_changes_the_first_script_only(
    request: SigningRequest,
    platform: Platform,
    user_channel_id: u64,
    output_script: Seq<u8>,
)
    requires
        platform.unsigned_funding_txs@.contains_key(user_channel_id),
        platform.unsigned_funding_txs@[user_channel_id].outputs@.len() > 0,
        signs_funding(request, platform, user_channel_id, output_script),
    ensures
        ({
            let stored = platform.unsigned_funding_txs@[user_channel_id];
            let signed = request.unsigned;
            &&& signed.rest@ == stored.rest@
            &&& signed.outputs@.len() == stored.outputs@.len()
            &&& signed.outputs@[0].script_pubkey@ == output_script
            &&& forall|i: int|
                0 <= i < stored.outputs@.len() ==> (#[trigger] signed.outputs@[i]).value
                    == stored.outputs@[i].value
            &&& forall|i: int|
                1 <= i < stored.outputs@.len() ==> (#[trigger] signed.outputs@[i]).script_pubkey@
                    == stored.outputs@[i].script_pubkey@
            &&& total_value(signed.outputs@) == total_value(stored.outputs@)
        }),
{
    let stored = platform.unsigned_funding_txs@[user_channel_id];
    let signed = request.unsigned;
    assert(signed@.outputs.len() == stored@.outputs.len());
    assert forall|i: int| 0 <= i < stored.outputs@.len() implies (#[trigger] signed.outputs@[i]).value
        == stored.outputs@[i].value && (i > 0 ==> signed.outputs@[i].script_pubkey@
        == stored.outputs@[i].script_pubkey@) by {
        assert(signed.outputs@[i]@ == signed@.outputs[i]);
        assert(stored.outputs@[i]@ == stored@.outputs[i]);
    }
    assert(signed.outputs@[0]@ == signed@.outputs[0]);
    same_values_have_one_total(signed.outputs@, stored.outputs@);
}

/// What is signed spends outputs that pay to the key of the node, and is laid
/// out and marked as the coin has it.
pub proof fn funding_spends_what_the_node_owns(
    request: SigningRequest,
    platform: Platform,
    user_channel_id: u64,
    output_script: Seq<u8>,
    hash: [u8; 20],
)
    requires
        platform.derivation_method == crate::platform::DerivationMethod::Iguana(hash),
        signs_funding(request, platform, user_channel_id, output_script),
    ensures
        request.prev_script@.len() == 25,
        request.prev_script@[0] == 0x76,
        request.prev_script@[1] == 0xa9,
        request.prev_script@[2] == 20,
        forall|i: int| 0 <= i < 20 ==> request.prev_script@[3 + i] == #[trigger] hash@[i],
        request.prev_script@[23] == 0x88,
        request.prev_script@[24] == 0xac,
        request.signature_version == SignatureVersion::WitnessV0,
        request.fork_id == platform.fork_id,
{
    crate::platform::p2pkh_names_the_whole_hash(hash@);
}

/// A channel can be funded exactly where its transaction is there, the coin
/// has a single address, and the node holds the key itself. Of several
/// reasons against it the first in this order is given.
pub proof fn funding_needs_a_transaction_an_address_and_a_key(platform: Platform, id: u64)
    ensures
        ({
            let there = platform.unsigned_funding_txs@.contains_key(id);
            let single = platform.derivation_method is Iguana;
            let refusal = funding_refusal(platform, id);
            &&& refusal is None <==> there && single && platform.priv_key_policy
                == PrivKeyPolicy::KeyPair
            &&& !there ==> refusal == Some(
                OpenChannelErrorView::InternalError(
                    "Unsigned funding tx not found for internal channel id: "@
                        + crate::text::decimal_text(id as nat),
                ),
            )
            &&& there && !single ==> refusal == Some(
                OpenChannelErrorView::UnexpectedDerivationMethod(
                    "Iguana private key is unavailable"@,
                ),
            )
            &&& there && single && platform.priv_key_policy == PrivKeyPolicy::HardwareWallet
                ==> refusal == Some(
                OpenChannelErrorView::PrivKeyNotAllowed("Hardware Wallet is not supported"@),
            )
        }),
{
}

/// What stands against a channel is told in full, with what kind of error it
/// is and for which channel.
pub proof fn funding_errors_are_told_in_full(id: u64, e: String)
    ensures
        OpenChannelError::InternalError(e)@.text() == "Internal error: "@ + e@,
        OpenChannelError::UnexpectedDerivationMethod(e)@.text() == "Derivation method error: "@
            + e@,
        OpenChannelError::PrivKeyNotAllowed(e)@.text() == "Private key error: "@ + e@,
        OpenChannelError::SignError(e)@.text() == "Signing error: "@ + e@,
        OpenChannelError::ConvertTxErr(e)@.text() == "Transaction conversion error: "@ + e@,
        funding_error_text(id, e@)
            == "Error generating funding transaction for internal channel id "@
            + crate::text::decimal_text(id as nat) + ": "@ + e@,
{
}

} // verus!
