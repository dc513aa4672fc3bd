//! Requests to sign a message with the node's key and to verify a signature.

use crate::json::member_text;
use vstd::prelude::*;

verus! {

/// Why a message is not signed.
#[derive(Debug)]
pub enum SignatureError {
    InvalidRequest(String),
}

/// Why a signature is not verified.
#[derive(Debug)]
pub enum VerificationError {
    InvalidRequest(String),
}

/// The answer to a request to sign.
#[derive(Debug)]
pub struct SignatureResponse {
    pub signature: String,
}

/// The answer to a request to verify.
#[derive(Debug)]
pub struct VerificationResponse {
    pub is_valid: bool,
    pub address: String,
    pub pubkey: String,
}

/// The SHA-256 hash of the SHA-256 hash of the bytes.
pub uninterp spec fn double_sha256(bytes: Seq<u8>) -> Seq<u8>;

/// Calls `bitcoin_hashes::sha256d::Hash::hash`. Claimed of it: the hash
/// depends on the bytes alone.
#[verifier::external_body]
fn sha256d(bytes: &[u8]) -> (hash: [u8; 32])
    ensures
        hash@ == double_sha256(bytes@),
{
    let hash = <bitcoin_hashes::sha256d::Hash as bitcoin_hashes::Hash>::hash(bytes);
    bitcoin_hashes::Hash::into_inner(hash)
}

/// Reads the number of `http::StatusCode::BAD_REQUEST`. Claimed of it: it is
/// 400.
#[verifier::external_body]
fn bad_request() -> (code: u16)
    ensures
        code == 400,
{
    http::StatusCode::BAD_REQUEST.as_u16()
}

/// The text of a refusal.
pub open spec fn refusal_text(reason: Seq<char>) -> Seq<char> {
    "Invalid request: "@ + reason
}

impl SignatureError {
    /// The reason for the refusal.
    pub open spec fn reason(self) -> Seq<char> {
        match self {
            SignatureError::InvalidRequest(reason) => reason@,
        }
    }

    /// The HTTP status of the answer.
    pub fn status_code(&self) -> (code: u16)
        ensures
            code == 400,
    {
        match self {
            SignatureError::InvalidRequest(_) => bad_request(),
        }
    }

    /// The error in words.
    pub fn to_text(&self) -> (text: String)
        ensures
            text@ == refusal_text(self.reason()),
    {
        match self {
            SignatureError::InvalidRequest(reason) => {
                "Invalid request: ".to_owned().concat(reason.as_str())
            },
        }
    }
}

impl VerificationError {
    /// The reason for the refusal.
    pub open spec fn reason(self) -> Seq<char> {
        match self {
            VerificationError::InvalidRequest(reason) => reason@,
        }
    }

    /// The HTTP status of the answer.
    pub fn status_code(&self) -> (code: u16)
        ensures
            code == 400,
    {
        match self {
            VerificationError::InvalidRequest(_) => bad_request(),
        }
    }

    /// The error in words.
    pub fn to_text(&self) -> (text: String)
        ensures
            text@ == refusal_text(self.reason()),
    {
        match self {
            VerificationError::InvalidRequest(reason) => {
                "Invalid request: ".to_owned().concat(reason.as_str())
            },
        }
    }
}

/// The hash of a message that is signed: that of its UTF-8 bytes.
pub open spec fn message_hash(message: Seq<char>) -> Seq<u8> {
    double_sha256(vstd::utf8::encode_utf8(message))
}

/// The text of the member of a request, where it is a string.
pub open spec fn field(req: serde_json::Value, name: Seq<char>) -> Option<Seq<char>> {
    if crate::json::json_members(req).contains_key(name) {
        crate::json::json_members(req)[name]
    } else {
        None
    }
}

/// The reason for which a request to sign this message is refused.
pub open spec fn sign_refusal(message: Option<Seq<char>>) -> Option<Seq<char>> {
    match message {
        Some(_) => None,
        None => Some("No message field"@),
    }
}

/// The reason for which a request to verify this signature of this message is
/// refused.
pub open spec fn verify_refusal(
    message: Option<Seq<char>>,
    signature: Option<Seq<char>>,
) -> Option<Seq<char>> {
    match (message, signature) {
        (None, _) => Some("No message field"@),
        (Some(_), None) => Some("No signature field"@),
        (Some(_), Some(_)) => None,
    }
}

/// What is left to do for a request to sign.
#[derive(Debug)]
pub struct SigningTask {
    /// The hash that the node's private key is to sign.
    pub message_hash: [u8; 32],
}

/// What is left to do for a request to verify.
#[derive(Debug)]
pub struct VerificationTask {
    /// The hash that the node's public key is to verify.
    pub message_hash: [u8; 32],
    /// The signature of that hash.
    pub signature: String,
}

/// The text of the member of a request, where it is a string.
fn read_field(req: &serde_json::Value, name: &str) -> (text: Option<String>)
    ensures
        crate::text::optional_text(text) == field(*req, name@),
{
    match member_text(req, name) {
        Ok(text) => Some(text),
        Err(_) => None,
    }
}

/// Takes the message of a request to sign: tells which hash is to be signed.
pub fn signing_task(message: Option<String>) -> (task: Result<SigningTask, SignatureError>)
    ensures
        match task {
            Ok(task) => {
                &&& message is Some && task.message_hash@ == message_hash((message->0)@)
                &&& task.message_hash@ == double_sha256(vstd::utf8::encode_utf8((message->0)@))
            },
            Err(err) => sign_refusal(crate::text::optional_text(message)) == Some(err.reason()),
        },
{
    match message {
        Some(message) => Ok(
            SigningTask { message_hash: sha256d(message.as_str().as_bytes()) },
        ),
        None => Err(SignatureError::InvalidRequest("No message field".to_owned())),
    }
}

/// Takes the message and the signature of a request to verify: tells which
/// hash and signature are to be verified.
pub fn verification_task(message: Option<String>, signature: Option<String>) -> (task: Result<
    VerificationTask,
    VerificationError,
>)
    ensures
        match task {
            Ok(task) => {
                &&& message is Some && task.message_hash@ == message_hash((message->0)@)
                &&& task.message_hash@ == double_sha256(vstd::utf8::encode_utf8((message->0)@))
                &&& signature is Some && task.signature@ == (signature->0)@
            },
            Err(err) => verify_refusal(
                crate::text::optional_text(message),
                crate::text::optional_text(signature),
            ) == Some(err.reason()),
        },
{
    let message = match message {
        Some(message) => message,
        None => {
            return Err(VerificationError::InvalidRequest("No message field".to_owned()));
        },
    };
    let signature = match signature {
        Some(signature) => signature,
        None => {
            return Err(VerificationError::InvalidRequest("No signature field".to_owned()));
        },
    };
    Ok(VerificationTask { message_hash: sha256d(message.as_str().as_bytes()), signature })
}

/// Takes a request to sign a message: tells which hash is to be signed.
pub fn sign_message(req: &serde_json::Value) -> (task: Result<SigningTask, SignatureError>)
    ensures
        match task {
            Ok(task) => {
                &&& field(*req, "message"@) is Some
                &&& task.message_hash@ == message_hash(field(*req, "message"@)->0)
                &&& task.message_hash@ == double_sha256(
                    vstd::utf8::encode_utf8(field(*req, "message"@)->0),
                )
            },
            Err(err) => sign_refusal(field(*req, "message"@)) == Some(err.reason()),
        },
{
    signing_task(read_field(req, "message"))
}

/// Takes a request to verify the signature of a message: tells which hash and
/// signature are to be verified.
pub fn verify_message(req: &serde_json::Value) -> (task: Result<VerificationTask, VerificationError>)
    ensures
        match task {
            Ok(task) => {
                &&& field(*req, "message"@) is Some
                &&& task.message_hash@ == message_hash(field(*req, "message"@)->0)
                &&& task.message_hash@ == double_sha256(
                    vstd::utf8::encode_utf8(field(*req, "message"@)->0),
                )
                &&& field(*req, "signature"@) == Some(task.signature@)
            },
            Err(err) => verify_refusal(field(*req, "message"@), field(*req, "signature"@)) == Some(
                err.reason(),
            ),
        },
{
    verification_task(read_field(req, "message"), read_field(req, "signature"))
}

/// How the address of a signer is guarded against typing errors.
#[derive(Debug, Clone, Copy, PartialEq, Eq, Structural)]
pub enum ChecksumType {
    DSHA256,
}

/// How the address of a signer is written.
#[derive(Debug, Clone, Copy, PartialEq, Eq, Structural)]
pub enum AddressFormat {
    Standard,
}

/// The address of a signer.
#[derive(Debug)]
pub struct Address {
    pub prefix: u8,
    pub t_addr_prefix: u8,
    /// The hash of the public key.
    pub hash: [u8; 20],
    pub checksum_type: ChecksumType,
    /// The human-readable part.
    pub hrp: Option<String>,
    pub addr_format: AddressFormat,
}

/// The address that the answer to a request to verify shows: that of the
/// public key with the hash `hash`.
pub fn signer_address(hash: [u8; 20]) -> (address: Address)
    ensures
        address.prefix == 0,
        address.t_addr_prefix == 0,
        address.hash == hash,
        address.checksum_type == ChecksumType::DSHA256,
        address.hrp is None,
        address.addr_format == AddressFormat::Standard,
{
    Address {
        prefix: 0,
        t_addr_prefix: 0,
        hash,
        checksum_type: ChecksumType::DSHA256,
        hrp: None,
        addr_format: AddressFormat::Standard,
    }
}

impl SigningTask {
    /// The answer to the request, once the key gave its signature.
    pub fn answer(self, signature: String) -> (response: SignatureResponse)
        ensures
            response.signature@ == signature@,
    {
        SignatureResponse { signature }
    }
}

impl VerificationTask {
    /// The answer to the request, once the key told whether the signature is
    /// valid: it shows the key and its address too.
    pub fn answer(self, is_valid: bool, address: String, pubkey: String) -> (response:
        VerificationResponse)
        ensures
            response.is_valid == is_valid,
            response.address@ == address@,
            response.pubkey@ == pubkey@,
    {
        VerificationResponse { is_valid, address, pubkey }
    }
}

/// What is verified is what was signed: a request to sign and a request to
/// verify that name the same message are about the same hash.
pub proof fn verifying_hashes_what_was_signed(
    sign_req: serde_json::Value,
    verify_req: serde_json::Value,
    signing: SigningTask,
    verification: VerificationTask,
)
    requires
        field(sign_req, "message"@) == field(verify_req, "message"@),
        signing.message_hash@ == message_hash(field(sign_req, "message"@)->0),
        verification.message_hash@ == message_hash(field(verify_req, "message"@)->0),
    ensures
        signing.message_hash@ == verification.message_hash@,
{
}

/// A message that is not signed is not verified either, for the same reason,
/// and a request that can be verified can be signed.
pub proof fn refusals_agree(message: Option<Seq<char>>, signature: Option<Seq<char>>)
    ensures
        sign_refusal(message) is Some ==> verify_refusal(message, signature) == sign_refusal(
            message,
        ),
        verify_refusal(message, signature) is None ==> sign_refusal(message) is None,
{
}

/// What is signed and what is verified is the hash of the whole message: of
/// every byte of its UTF-8 text. Two messages have one hash only where the
/// double SHA-256 of their bytes is the same.
pub proof fn the_whole_message_is_hashed(message: Seq<char>, other: Seq<char>)
    ensures
        message_hash(message) == double_sha256(vstd::utf8::encode_utf8(message)),
        message_hash(message) == message_hash(other) ==> double_sha256(
            vstd::utf8::encode_utf8(message),
        ) == double_sha256(vstd::utf8::encode_utf8(other)),
        vstd::utf8::encode_utf8(message) == vstd::utf8::encode_utf8(other) ==> message == other,
{
    vstd::utf8::encode_utf8_decode_utf8(message);
    vstd::utf8::encode_utf8_decode_utf8(other);
}

/// A field of a request is the string that the request has under that name;
/// whatever is no string counts as missing.
pub proof fn fields_are_the_strings_of_the_request(
    req: serde_json::Value,
    name: Seq<char>,
    text: Seq<char>,
)
    ensures
        field(req, name) == Some(text) <==> crate::json::json_members(req).contains_key(name)
            && crate::json::json_members(req)[name] == Some(text),
        field(req, name) is None <==> !crate::json::json_members(req).contains_key(name)
            || crate::json::json_members(req)[name] is None,
{
}

/// A request to sign is refused exactly where it has no message, and one to
/// verify exactly where it has no message or no signature; the message is
/// missed first.
pub proof fn only_missing_fields_are_refused(
    message: Option<Seq<char>>,
    signature: Option<Seq<char>>,
)
    ensures
        sign_refusal(message) is None <==> message is Some,
        message is None ==> sign_refusal(message) == Some("No message field"@),
        verify_refusal(message, signature) is None <==> message is Some && signature is Some,
        message is None ==> verify_refusal(message, signature) == Some("No message field"@),
        message is Some && signature is None ==> verify_refusal(message, signature) == Some(
            "No signature field"@,
        ),
{
}

/// A refusal is told with its whole reason.
pub proof fn refusals_tell_their_reason(reason: String)
    ensures
        SignatureError::InvalidRequest(reason).reason() == reason@,
        VerificationError::InvalidRequest(reason).reason() == reason@,
        refusal_text(reason@) == "Invalid request: "@ + reason@,
{
}

} // verus!
