//! What the Lightning node keeps of its channels, payments and peers.

use crate::keyed_map::KeyedMap;
use crate::text::{hex_encode, same_text};
use vstd::prelude::*;

verus! {

/// Whether 33 bytes are a point of the curve in compressed form.
pub uninterp spec fn is_public_key(bytes: Seq<u8>) -> bool;

/// Calls `secp256k1::PublicKey::from_slice` and writes the key down. Claimed
/// of it: whether the bytes are a key depends on them alone, and a key in
/// compressed form is written as those same bytes in hexadecimal.
#[verifier::external_body]
fn public_key_text(bytes: &[u8; 33]) -> (text: Option<String>)
    ensures
        match text {
            Some(text) => is_public_key(bytes@) && text@ == crate::text::hex_text(bytes@),
            None => !is_public_key(bytes@),
        },
{
    match secp256k1::PublicKey::from_slice(bytes) {
        Ok(key) => Some(key.to_string()),
        Err(_) => None,
    }
}

/// The public key by which a node of the network is known.
#[derive(Debug, Clone, Copy)]
pub struct NodeId {
    key: [u8; 33],
}

impl View for NodeId {
    type V = Seq<u8>;

    closed spec fn view(&self) -> Seq<u8> {
        self.key@
    }
}

impl NodeId {
    #[verifier::type_invariant]
    spec fn is_key(self) -> bool {
        is_public_key(self.key@)
    }

    /// The node with the key `key`, given in compressed form.
    pub fn from_bytes(key: [u8; 33]) -> (node: Option<NodeId>)
        ensures
            match node {
                Some(node) => is_public_key(key@) && node@ == key@,
                None => !is_public_key(key@),
            },
    {
        match public_key_text(&key) {
            Some(_) => Some(NodeId { key }),
            None => None,
        }
    }

    /// The key in compressed form.
    pub fn to_bytes(&self) -> (key: [u8; 33])
        ensures
            key@ == self@,
    {
        self.key
    }

    /// The key in hexadecimal.
    pub fn to_text(&self) -> (text: String)
        ensures
            text@ == crate::text::hex_text(self@),
    {
        proof {
            use_type_invariant(self);
        }
        match public_key_text(&self.key) {
            Some(text) => text,
            None => String::new(),
        }
    }
}

/// The addresses of the nodes, by their public keys.
pub type NodesAddressesMap = KeyedMap<33, String>;

/// A channel as the database keeps it.
#[derive(Debug, Clone, PartialEq)]
pub struct SqlChannelDetails {
    pub rpc_id: u64,
    pub channel_id: String,
    pub counterparty_node_id: String,
    pub funding_tx: Option<String>,
    pub funding_value: Option<u64>,
    pub closing_tx: Option<String>,
    pub closure_reason: Option<String>,
    pub claiming_tx: Option<String>,
    /// In satoshis.
    pub claimed_balance: Option<u64>,
    pub funding_generated_in_block: Option<u64>,
    pub is_outbound: bool,
    pub is_public: bool,
    pub is_closed: bool,
}

impl SqlChannelDetails {
    /// A channel that was just opened: nothing is known yet of the
    /// transactions that fund and close it.
    pub fn new(
        rpc_id: u64,
        channel_id: [u8; 32],
        counterparty_node_id: NodeId,
        is_outbound: bool,
        is_public: bool,
    ) -> (details: SqlChannelDetails)
        ensures
            details.rpc_id == rpc_id,
            details.channel_id@ == crate::text::hex_text(channel_id@),
            details.counterparty_node_id@ == crate::text::hex_text(counterparty_node_id@),
            details.funding_tx is None,
            details.funding_value is None,
            details.funding_generated_in_block is None,
            details.closing_tx is None,
            details.closure_reason is None,
            details.claiming_tx is None,
            details.claimed_balance is None,
            details.is_outbound == is_outbound,
            details.is_public == is_public,
            !details.is_closed,
    {
        SqlChannelDetails {
            rpc_id,
            channel_id: hex_encode(channel_id.as_slice()),
            counterparty_node_id: counterparty_node_id.to_text(),
            funding_tx: None,
            funding_value: None,
            funding_generated_in_block: None,
            closing_tx: None,
            closure_reason: None,
            claiming_tx: None,
            claimed_balance: None,
            is_outbound,
            is_public,
            is_closed: false,
        }
    }
}

/// How far a payment got.
#[derive(Debug, Clone, Copy, PartialEq, Eq, Structural)]
pub enum HTLCStatus {
    Pending,
    Succeeded,
    Failed,
}

/// Why a column of the database does not hold what it should.
#[derive(Debug, Clone, Copy, PartialEq, Eq, Structural)]
pub enum FromSqlError {
    InvalidType,
}

/// The text in lower case.
pub uninterp spec fn lowercase(text: Seq<char>) -> Seq<char>;

/// The lower case of an ASCII character.
pub open spec fn ascii_lower(c: char) -> char {
    if 'A' <= c && c <= 'Z' {
        (c as int + 32) as char
    } else {
        c
    }
}

/// The lower case of an ASCII text.
pub open spec fn ascii_lowercase(text: Seq<char>) -> Seq<char> {
    Seq::new(text.len(), |i: int| ascii_lower(text[i]))
}

/// Calls `str::to_lowercase`. Claimed of it: the result depends on the text
/// alone, and of an ASCII text it changes the letters `A` to `Z` and nothing
/// else.
#[verifier::external_body]
fn to_lowercase(text: &str) -> (lower: String)
    ensures
        lower@ == lowercase(text@),
        vstd::string::is_ascii(text) ==> lower@ == ascii_lowercase(text@),
{
    text.to_lowercase()
}

/// The status with the name `name` in lower case.
pub open spec fn status_named(name: Seq<char>) -> Option<HTLCStatus> {
    if name == "pending"@ {
        Some(HTLCStatus::Pending)
    } else if name == "succeeded"@ {
        Some(HTLCStatus::Succeeded)
    } else if name == "failed"@ {
        Some(HTLCStatus::Failed)
    } else {
        None
    }
}

/// Reads the status with the name `name` in lower case.
pub fn read_status(name: &str) -> (status: Result<HTLCStatus, FromSqlError>)
    ensures
        match status {
            Ok(status) => status_named(name@) == Some(status),
            Err(_) => status_named(name@) is None,
        },
{
    if same_text(name, "pending") {
        Ok(HTLCStatus::Pending)
    } else if same_text(name, "succeeded") {
        Ok(HTLCStatus::Succeeded)
    } else if same_text(name, "failed") {
        Ok(HTLCStatus::Failed)
    } else {
        Err(FromSqlError::InvalidType)
    }
}

impl HTLCStatus {
    /// The name of the status.
    pub open spec fn name(self) -> Seq<char> {
        match self {
            HTLCStatus::Pending => "Pending"@,
            HTLCStatus::Succeeded => "Succeeded"@,
            HTLCStatus::Failed => "Failed"@,
        }
    }

    /// The name of the status.
    pub fn to_text(&self) -> (text: String)
        ensures
            text@ == self.name(),
    {
        match self {
            HTLCStatus::Pending => "Pending".to_owned(),
            HTLCStatus::Succeeded => "Succeeded".to_owned(),
            HTLCStatus::Failed => "Failed".to_owned(),
        }
    }
}

impl core::str::FromStr for HTLCStatus {
    type Err = FromSqlError;

    /// Reads the name of a status, in whatever case.
    fn from_str(s: &str) -> (status: Result<HTLCStatus, FromSqlError>)
        ensures
            match status {
                Ok(status) => status_named(lowercase(s@)) == Some(status),
                Err(_) => status_named(lowercase(s@)) is None,
            },
            vstd::string::is_ascii(s) ==> match status {
                Ok(status) => status_named(ascii_lowercase(s@)) == Some(status),
                Err(_) => status_named(ascii_lowercase(s@)) is None,
            },
    {
        let lower = to_lowercase(s);
        read_status(lower.as_str())
    }
}

/// A status that was written down by its name, in whatever case, is read back.
pub proof fn written_status_is_read_back(status: HTLCStatus, written: Seq<char>)
    requires
        ascii_lowercase(written) == ascii_lowercase(status.name()),
    ensures
        vstd::utf8::is_ascii_chars(written),
        status_named(ascii_lowercase(written)) == Some(status),
{
    reveal_strlit("Pending");
    reveal_strlit("Succeeded");
    reveal_strlit("Failed");
    reveal_strlit("pending");
    reveal_strlit("succeeded");
    reveal_strlit("failed");
    match status {
        HTLCStatus::Pending => assert(ascii_lowercase("Pending"@) =~= "pending"@),
        HTLCStatus::Succeeded => assert(ascii_lowercase("Succeeded"@) =~= "succeeded"@),
        HTLCStatus::Failed => assert(ascii_lowercase("Failed"@) =~= "failed"@),
    }
    assert("pending"@.len() == 7 && "succeeded"@.len() == 9 && "failed"@.len() == 6);
    assert forall|i: int| 0 <= i < written.len() implies '\0' <= #[trigger] written[i] <= '\u{7f}' by {
        assert(ascii_lowercase(written)[i] == ascii_lower(written[i]));
    }
}

/// Which way a payment goes.
#[derive(Debug, Clone, Copy, PartialEq, Eq, Structural)]
pub enum PaymentType {
    OutboundPayment,
    InboundPayment,
}

/// The hash that a payment is known by.
#[derive(Debug, Clone, Copy, PartialEq, Eq)]
pub struct PaymentHash(pub [u8; 32]);

/// What the payment hash is the hash of. Who knows it can claim the payment.
#[derive(Debug, Clone, Copy, PartialEq, Eq)]
pub struct PaymentPreimage(pub [u8; 32]);

/// What shows that a sender has seen the invoice.
#[derive(Debug, Clone, Copy, PartialEq, Eq)]
pub struct PaymentSecret(pub [u8; 32]);

/// What is known of a payment.
#[derive(Debug, Clone, Copy, PartialEq, Eq)]
pub struct PaymentInfo {
    pub payment_hash: PaymentHash,
    pub preimage: Option<PaymentPreimage>,
    pub secret: Option<PaymentSecret>,
    pub amt_msat: Option<u64>,
    pub fee_paid_msat: Option<u64>,
    pub status: HTLCStatus,
}

/// A text names a status exactly where it is the lower-case name of that
/// status, and no text names two.
pub proof fn only_names_of_a_status_name_it(name: Seq<char>)
    ensures
        status_named(name) == Some(HTLCStatus::Pending) <==> name == "pending"@,
        status_named(name) == Some(HTLCStatus::Succeeded) <==> name == "succeeded"@,
        status_named(name) == Some(HTLCStatus::Failed) <==> name == "failed"@,
{
    reveal_strlit("pending");
    reveal_strlit("succeeded");
    reveal_strlit("failed");
    assert("pending"@.len() == 7 && "succeeded"@.len() == 9 && "failed"@.len() == 6);
}

/// A status is written by its name.
pub proof fn statuses_are_written_by_name(status: HTLCStatus)
    ensures
        status == HTLCStatus::Pending ==> status.name() == "Pending"@,
        status == HTLCStatus::Succeeded ==> status.name() == "Succeeded"@,
        status == HTLCStatus::Failed ==> status.name() == "Failed"@,
{
}

/// The lower case of an ASCII text is as long as the text, has none of the
/// letters `A` to `Z`, and differs from the text only where it has one.
pub proof fn lower_case_changes_capital_letters_only(text: Seq<char>, i: int)
    requires
        0 <= i < text.len(),
    ensures
        ascii_lowercase(text).len() == text.len(),
        'A' <= text[i] <= 'Z' ==> ascii_lowercase(text)[i] as int == text[i] as int + 32,
        !('A' <= text[i] <= 'Z') ==> ascii_lowercase(text)[i] == text[i],
{
}

} // verus!
