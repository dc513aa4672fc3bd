//! The coin that the Lightning node runs on: its keys, its scripts and the
//! transactions that wait to be signed.

use crate::text::copy_bytes;
use std::collections::HashMap;
use vstd::prelude::*;

verus! {

/// The hash of a public key, which its address is made from.
pub type AddressHash = [u8; 20];

/// Where the addresses of the coin come from.
#[derive(Debug, Clone, Copy)]
pub enum DerivationMethod {
    /// One private key, with the address of this hash.
    Iguana(AddressHash),
    /// A hardware wallet or another wallet with many keys.
    HDWallet,
}

/// Why there is no such address.
#[derive(Debug, Clone, Copy, PartialEq, Eq, Structural)]
pub enum UnexpectedDerivationMethod {
    IguanaPrivKeyUnavailable,
}

impl UnexpectedDerivationMethod {
    /// The error in words.
    pub open spec fn text(self) -> Seq<char> {
        "Iguana private key is unavailable"@
    }

    /// The error in words.
    pub fn to_text(&self) -> (text: String)
        ensures
            text@ == self.text(),
    {
        "Iguana private key is unavailable".to_owned()
    }
}

impl DerivationMethod {
    /// The hash of the one address.
    pub fn iguana_or_err(&self) -> (hash: Result<AddressHash, UnexpectedDerivationMethod>)
        ensures
            match *self {
                DerivationMethod::Iguana(address) => hash == Ok::<
                    AddressHash,
                    UnexpectedDerivationMethod,
                >(address),
                DerivationMethod::HDWallet => hash == Err::<
                    AddressHash,
                    UnexpectedDerivationMethod,
                >(UnexpectedDerivationMethod::IguanaPrivKeyUnavailable),
            },
    {
        match self {
            DerivationMethod::Iguana(address) => Ok(*address),
            DerivationMethod::HDWallet => Err(
                UnexpectedDerivationMethod::IguanaPrivKeyUnavailable,
            ),
        }
    }
}

/// The chain that the coin is on.
#[derive(Debug, Clone, Copy, PartialEq, Eq, Structural)]
pub enum Network {
    Bitcoin,
    Testnet,
    Signet,
    Regtest,
}

/// Who signs for the coin.
#[derive(Debug, Clone, Copy, PartialEq, Eq, Structural)]
pub enum PrivKeyPolicy {
    /// The key pair of the node.
    KeyPair,
    /// A device that keeps its keys to itself.
    HardwareWallet,
}

/// How the bytes that an input signs are laid out.
#[derive(Debug, Clone, Copy, PartialEq, Eq, Structural)]
pub enum SignatureVersion {
    WitnessV0,
}

/// An output of a transaction.
#[derive(Debug)]
pub struct TransactionOutput {
    /// In satoshis.
    pub value: u64,
    pub script_pubkey: Vec<u8>,
}

/// What a `TransactionOutput` holds.
pub struct TransactionOutputView {
    pub value: u64,
    pub script_pubkey: Seq<u8>,
}

impl View for TransactionOutput {
    type V = TransactionOutputView;

    open spec fn view(&self) -> TransactionOutputView {
        TransactionOutputView { value: self.value, script_pubkey: self.script_pubkey@ }
    }
}

/// A transaction that nobody signed yet.
#[derive(Debug)]
pub struct UnsignedTransaction {
    pub outputs: Vec<TransactionOutput>,
    /// All but the outputs, in a form that the signer understands.
    pub rest: Vec<u8>,
}

/// What an `UnsignedTransaction` holds.
pub struct UnsignedTransactionView {
    pub outputs: Seq<TransactionOutputView>,
    pub rest: Seq<u8>,
}

impl View for UnsignedTransaction {
    type V = UnsignedTransactionView;

    open spec fn view(&self) -> UnsignedTransactionView {
        UnsignedTransactionView {
            outputs: Seq::new(self.outputs@.len(), |i: int| self.outputs@[i]@),
            rest: self.rest@,
        }
    }
}

impl UnsignedTransactionView {
    /// The transaction with the script of its first output replaced.
    pub open spec fn paying_to(self, script: Seq<u8>) -> UnsignedTransactionView {
        UnsignedTransactionView {
            outputs: self.outputs.update(
                0,
                TransactionOutputView { script_pubkey: script, ..self.outputs[0] },
            ),
            ..self
        }
    }
}

impl UnsignedTransaction {
    /// A copy of the transaction.
    pub fn copy(&self) -> (copy: UnsignedTransaction)
        ensures
            copy@ == self@,
            copy.rest@ == self.rest@,
            copy.outputs@.len() == self.outputs@.len(),
            forall|i: int|
                0 <= i < self.outputs@.len() ==> {
                    &&& (#[trigger] copy.outputs@[i]).value == self.outputs@[i].value
                    &&& copy.outputs@[i].script_pubkey@ == self.outputs@[i].script_pubkey@
                },
    {
        let mut outputs: Vec<TransactionOutput> = Vec::new();
        let mut i: usize = 0;
        while i < self.outputs.len()
            invariant
                i <= self.outputs@.len(),
                outputs@.len() == i,
                forall|j: int| 0 <= j < i ==> (#[trigger] outputs@[j])@ == self.outputs@[j]@,
                forall|j: int|
                    0 <= j < i ==> {
                        &&& (#[trigger] outputs@[j]).value == self.outputs@[j].value
                        &&& outputs@[j].script_pubkey@ == self.outputs@[j].script_pubkey@
                    },
            decreases self.outputs@.len() - i,
        {
            outputs.push(
                TransactionOutput {
                    value: self.outputs[i].value,
                    script_pubkey: copy_bytes(self.outputs[i].script_pubkey.as_slice()),
                },
            );
            i = i + 1;
        }
        let copy = UnsignedTransaction { outputs, rest: copy_bytes(self.rest.as_slice()) };
        assert(copy@.outputs =~= self@.outputs);
        copy
    }
}

/// The coin that the Lightning node runs on.
#[derive(Debug)]
pub struct Platform {
    pub ticker: String,
    pub derivation_method: DerivationMethod,
    pub priv_key_policy: PrivKeyPolicy,
    pub fork_id: u32,
    /// The transactions that fund channels, by the internal ids of the
    /// channels.
    pub unsigned_funding_txs: HashMap<u64, UnsignedTransaction>,
}

impl Platform {
    /// The transaction that funds the channel `id`, where there is one, pays at
    /// least one output.
    pub open spec fn pays_for(self, id: u64) -> bool {
        self.unsigned_funding_txs@.contains_key(id)
            ==> self.unsigned_funding_txs@[id]@.outputs.len() > 0
    }
}

/// The script by which the owner of the key with the hash `hash` is paid:
/// `OP_DUP OP_HASH160 <hash> OP_EQUALVERIFY OP_CHECKSIG`.
pub open spec fn p2pkh(hash: Seq<u8>) -> Seq<u8> {
    seq![0x76u8, 0xa9u8, 0x14u8] + hash + seq![0x88u8, 0xacu8]
}

/// The script by which the owner of the key with the hash `hash` is paid, who
/// signs in the witness: `OP_0 <hash>`.
pub open spec fn witness_program(hash: Seq<u8>) -> Seq<u8> {
    seq![0x00u8, 0x14u8] + hash
}

/// Appends the bytes.
fn push_bytes(buf: &mut Vec<u8>, bytes: &[u8])
    ensures
        final(buf)@ == old(buf)@ + bytes@,
{
    let mut i: usize = 0;
    assert(buf@ =~= old(buf)@ + bytes@.take(0));
    while i < bytes.len()
        invariant
            i <= bytes@.len(),
            buf@ == old(buf)@ + bytes@.take(i as int),
        decreases bytes@.len() - i,
    {
        buf.push(bytes[i]);
        i = i + 1;
        assert(buf@ =~= old(buf)@ + bytes@.take(i as int));
    }
    assert(bytes@.take(i as int) =~= bytes@);
}

/// Builds the script by which the owner of a key is paid.
pub fn build_p2pkh(hash: &AddressHash) -> (script: Vec<u8>)
    ensures
        script@ == p2pkh(hash@),
        script@.len() == 25,
        forall|i: int| 0 <= i < 20 ==> script@[3 + i] == #[trigger] hash@[i],
{
    let mut script: Vec<u8> = vec![0x76u8, 0xa9u8, 0x14u8];
    push_bytes(&mut script, hash.as_slice());
    script.push(0x88);
    script.push(0xac);
    assert(script@ =~= p2pkh(hash@));
    script
}

/// Builds the script by which the owner of a key is paid, who signs in the
/// witness.
pub fn build_witness_script(hash: &AddressHash) -> (script: Vec<u8>)
    ensures
        script@ == witness_program(hash@),
        script@.len() == 22,
        forall|i: int| 0 <= i < 20 ==> script@[2 + i] == #[trigger] hash@[i],
{
    let mut script: Vec<u8> = vec![0x00u8, 0x14u8];
    push_bytes(&mut script, hash.as_slice());
    assert(script@ =~= witness_program(hash@));
    script
}

/// The script that pays to a key names the whole hash of the key, byte by byte
/// in its order, between `OP_DUP OP_HASH160`, the length of the hash, and
/// `OP_EQUALVERIFY OP_CHECKSIG`.
pub proof fn p2pkh_names_the_whole_hash(hash: Seq<u8>)
    requires
        hash.len() == 20,
    ensures
        p2pkh(hash).len() == 25,
        p2pkh(hash)[0] == 0x76,
        p2pkh(hash)[1] == 0xa9,
        p2pkh(hash)[2] == 20,
        forall|i: int| 0 <= i < 20 ==> p2pkh(hash)[3 + i] == #[trigger] hash[i],
        p2pkh(hash)[23] == 0x88,
        p2pkh(hash)[24] == 0xac,
{
}

/// The script that pays to a key whose owner signs in the witness names the
/// whole hash of the key, byte by byte in its order, behind the version and
/// the length of the hash.
pub proof fn witness_program_names_the_whole_hash(hash: Seq<u8>)
    requires
        hash.len() == 20,
    ensures
        witness_program(hash).len() == 22,
        witness_program(hash)[0] == 0,
        witness_program(hash)[1] == 20,
        forall|i: int| 0 <= i < 20 ==> witness_program(hash)[2 + i] == #[trigger] hash[i],
{
}

/// A view shows all that a transaction has.
pub proof fn transaction_views_hide_nothing(tx: UnsignedTransaction)
    ensures
        tx@.rest == tx.rest@,
        tx@.outputs.len() == tx.outputs@.len(),
        forall|i: int|
            0 <= i < tx.outputs@.len() ==> {
                &&& (#[trigger] tx@.outputs[i]).value == tx.outputs@[i].value
                &&& tx@.outputs[i].script_pubkey == tx.outputs@[i].script_pubkey@
            },
{
}

/// What is asked of the platform before a channel is funded: that the
/// transaction that is to fund it has an output.
pub proof fn only_a_transaction_without_outputs_is_unfit(platform: Platform, id: u64)
    ensures
        !platform.unsigned_funding_txs@.contains_key(id) ==> platform.pays_for(id),
        platform.unsigned_funding_txs@.contains_key(id) ==> (platform.pays_for(id) <==> (
        platform.unsigned_funding_txs@[id]).outputs@.len() > 0),
{
}

/// A wallet with many keys has no single address, and says so.
pub proof fn missing_address_is_told(err: UnexpectedDerivationMethod)
    ensures
        err.text() == "Iguana private key is unavailable"@,
{
}

} // verus!
