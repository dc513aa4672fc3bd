use mm2::keyed_map::KeyedMap;
use mm2::storage::{FromSqlError, HTLCStatus, NodeId, SqlChannelDetails};
use mm2::text::{copy_bytes, push_bool, push_decimal, same_bytes, same_text};
use std::str::FromStr;

const GENERATOR: &str = "0279be667ef9dcbbac55a06295ce870b07029bfcdb2dce28d959f2815b16f81798";

fn generator() -> [u8; 33] {
    let mut key = [0u8; 33];
    hex::decode_to_slice(GENERATOR, &mut key).unwrap();
    key
}

#[test]
fn new_channel_knows_its_ends() {
    let node = NodeId::from_bytes(generator()).unwrap();
    let mut channel_id = [0u8; 32];
    channel_id[0] = 0xab;
    channel_id[31] = 0x0f;
    let details = SqlChannelDetails::new(7, channel_id, node, true, false);
    assert_eq!(details.rpc_id, 7);
    assert_eq!(
        details.channel_id,
        "ab0000000000000000000000000000000000000000000000000000000000000f"
    );
    assert_eq!(details.counterparty_node_id, GENERATOR);
    assert!(details.is_outbound && !details.is_public && !details.is_closed);
    assert_eq!(details.funding_tx, None);
    assert_eq!(details.funding_value, None);
    assert_eq!(details.funding_generated_in_block, None);
    assert_eq!(details.closing_tx, None);
    assert_eq!(details.closure_reason, None);
    assert_eq!(details.claiming_tx, None);
    assert_eq!(details.claimed_balance, None);
}

#[test]
fn node_id_is_a_public_key() {
    let node = NodeId::from_bytes(generator()).unwrap();
    assert_eq!(node.to_bytes(), generator());
    assert_eq!(node.to_text(), GENERATOR);
    assert!(NodeId::from_bytes([0; 33]).is_none());
    let mut off_curve = [0xff; 33];
    off_curve[0] = 2;
    assert!(NodeId::from_bytes(off_curve).is_none());
}

#[test]
fn status_is_read_in_any_case() {
    assert_eq!(HTLCStatus::from_str("pending"), Ok(HTLCStatus::Pending));
    assert_eq!(HTLCStatus::from_str("Succeeded"), Ok(HTLCStatus::Succeeded));
    assert_eq!("FAILED".parse::<HTLCStatus>(), Ok(HTLCStatus::Failed));
    for bad in ["", "pend", "pending ", "успех", "PENDINGÉ"] {
        assert_eq!(HTLCStatus::from_str(bad), Err(FromSqlError::InvalidType));
    }
}

#[test]
fn written_status_comes_back() {
    for status in [HTLCStatus::Pending, HTLCStatus::Succeeded, HTLCStatus::Failed] {
        assert_eq!(HTLCStatus::from_str(&status.to_text()), Ok(status));
    }
    assert_eq!(HTLCStatus::Succeeded.to_text(), "Succeeded");
}

#[test]
fn keyed_map_keeps_one_value_for_a_key() {
    let mut map: KeyedMap<2, u8> = KeyedMap::new();
    assert_eq!(map.get(&[1, 2]), None);
    map.insert([1, 2], 10);
    map.insert([1, 3], 20);
    map.insert([1, 2], 30);
    assert_eq!(map.get(&[1, 2]), Some(&30));
    assert_eq!(map.get(&[1, 3]), Some(&20));
    assert_eq!(map.get(&[3, 1]), None);
    let kept = map.retain_listed(&[[1, 3], [9, 9], [1, 3]]);
    assert_eq!(kept.get(&[1, 2]), None);
    assert_eq!(kept.entries().to_vec(), vec![([1, 3], 20)]);
}

#[test]
fn texts_and_bytes() {
    let mut text = String::new();
    push_decimal(0, &mut text);
    text.push(' ');
    push_decimal(u64::MAX, &mut text);
    text.push(' ');
    push_decimal(1050, &mut text);
    push_bool(true, &mut text);
    push_bool(false, &mut text);
    assert_eq!(text, "0 18446744073709551615 1050truefalse");
    assert!(same_text("añb", "añb"));
    assert!(!same_text("anb", "añb"));
    assert!(same_bytes(&[], &[]));
    assert!(!same_bytes(&[1], &[1, 2]));
    assert_eq!(copy_bytes(&[3, 4]), vec![3, 4]);
}

#[test]
fn status_is_read_by_its_lower_case_name() {
    assert_eq!(mm2::storage::read_status("pending"), Ok(HTLCStatus::Pending));
    assert_eq!(mm2::storage::read_status("succeeded"), Ok(HTLCStatus::Succeeded));
    assert_eq!(mm2::storage::read_status("failed"), Ok(HTLCStatus::Failed));
    assert!(mm2::storage::read_status("Failed").is_err());
    assert!(mm2::storage::read_status("").is_err());
}
