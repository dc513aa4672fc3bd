use mm2::signature::{
    sign_message, signer_address, signing_task, verification_task, verify_message, AddressFormat,
    ChecksumType, SignatureError, VerificationError,
};

const HELLO_HASH: &str = "9595c9df90075148eb06860365df33584b75bff782a510c6cd4883a419833d50";

fn req(text: &str) -> serde_json::Value {
    serde_json::from_str(text).unwrap()
}

#[test]
fn message_is_hashed_twice() {
    let task = sign_message(&req("{\"message\": \"hello\"}")).unwrap();
    assert_eq!(hex::encode(task.message_hash), HELLO_HASH);
    let task = sign_message(&req("{\"message\": \"\"}")).unwrap();
    assert_eq!(
        hex::encode(task.message_hash),
        "5df6e0e2761359d30a8275058e299fcc0381534545f55cf43e41983f5d4c9456"
    );
    assert_eq!(task.answer("30440220".to_string()).signature, "30440220");
}

#[test]
fn message_must_be_a_string() {
    for bad in ["{}", "{\"message\": 1}", "{\"message\": null}", "[]", "\"message\"", "null"] {
        let err = sign_message(&req(bad)).unwrap_err();
        assert!(matches!(&err, SignatureError::InvalidRequest(reason) if reason == "No message field"));
        assert_eq!(err.to_text(), "Invalid request: No message field");
        assert_eq!(err.status_code(), 400);
        let err = verify_message(&req(bad)).unwrap_err();
        assert!(matches!(&err, VerificationError::InvalidRequest(reason) if reason == "No message field"));
    }
    assert!(signing_task(None).is_err());
}

#[test]
fn signature_must_be_a_string() {
    for bad in ["{\"message\": \"hello\"}", "{\"message\": \"hello\", \"signature\": 7}"] {
        let err = verify_message(&req(bad)).unwrap_err();
        assert!(matches!(&err, VerificationError::InvalidRequest(reason) if reason == "No signature field"));
        assert_eq!(err.to_text(), "Invalid request: No signature field");
        assert_eq!(err.status_code(), 400);
    }
    // The message is looked for first.
    let err = verification_task(None, Some("00".to_string())).unwrap_err();
    assert_eq!(err.to_text(), "Invalid request: No message field");
}

#[test]
fn verified_hash_is_the_signed_one() {
    let signed = sign_message(&req("{\"message\": \"hello\", \"x\": 1}")).unwrap();
    let verified = verify_message(&req("{\"signature\": \"30\", \"message\": \"hello\"}")).unwrap();
    assert_eq!(signed.message_hash, verified.message_hash);
    assert_eq!(hex::encode(verified.message_hash), HELLO_HASH);
    assert_eq!(verified.signature, "30");
    let answer = verified.answer(true, "R".to_string(), "02".to_string());
    assert!(answer.is_valid);
    assert_eq!(answer.address, "R");
    assert_eq!(answer.pubkey, "02");
}

#[test]
fn address_of_the_signer_has_no_prefix() {
    let address = signer_address([9; 20]);
    assert_eq!(address.prefix, 0);
    assert_eq!(address.t_addr_prefix, 0);
    assert_eq!(address.hash, [9; 20]);
    assert_eq!(address.checksum_type, ChecksumType::DSHA256);
    assert_eq!(address.hrp, None);
    assert_eq!(address.addr_format, AddressFormat::Standard);
}
