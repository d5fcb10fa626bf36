use prost::encoding::{encode_key, encode_varint, int32, string, WireType};
use rithmic_rs::text::str_equals;
use rithmic_rs::wire::decode_envelope;

#[test]
fn header_read_skips_strings() {
    let mut buf = Vec::new();
    string::encode(132760, &"u".to_string(), &mut buf);
    int32::encode(154467, &101, &mut buf);
    string::encode(132766, &"0".to_string(), &mut buf);
    let header = decode_envelope(&buf, 0, false).unwrap();
    assert_eq!(header.template_id, 101);
    assert!(header.user_msg.is_empty());
    assert!(header.rp_code.is_empty());
    let full = decode_envelope(&buf, 0, true).unwrap();
    assert_eq!(full.template_id, 101);
    assert_eq!(full.user_msg, vec!["u".to_string()]);
    assert_eq!(full.rp_code, vec!["0".to_string()]);
    assert!(full.rq_handler_rp_code.is_empty());
}

#[test]
fn repeated_strings_keep_their_order() {
    let mut buf = Vec::new();
    for s in ["a", "b", "c"] {
        string::encode(132764, &s.to_string(), &mut buf);
    }
    let env = decode_envelope(&buf, 0, true).unwrap();
    assert_eq!(env.rq_handler_rp_code, vec!["a".to_string(), "b".to_string(), "c".to_string()]);
}

#[test]
fn reading_starts_at_offset() {
    let mut buf = vec![0xff, 0xff];
    int32::encode(154467, &19, &mut buf);
    assert_eq!(decode_envelope(&buf, 2, false).unwrap().template_id, 19);
    assert!(decode_envelope(&buf, 0, false).is_err());
    assert_eq!(decode_envelope(&buf, buf.len(), true).unwrap().template_id, 0);
}

#[test]
fn negative_template_id_round_trips() {
    let mut buf = Vec::new();
    int32::encode(154467, &-7, &mut buf);
    assert_eq!(decode_envelope(&buf, 0, false).unwrap().template_id, -7);
}

#[test]
fn wrong_wire_type_for_template_id_fails() {
    let mut buf = Vec::new();
    encode_key(154467, WireType::ThirtyTwoBit, &mut buf);
    buf.extend_from_slice(&[1, 0, 0, 0]);
    assert!(decode_envelope(&buf, 0, false).is_err());
}

#[test]
fn unmatched_end_group_fails() {
    let mut buf = Vec::new();
    encode_key(9, WireType::StartGroup, &mut buf);
    encode_key(8, WireType::EndGroup, &mut buf);
    assert!(decode_envelope(&buf, 0, false).is_err());
}

#[test]
fn zero_tag_fails() {
    let mut buf = Vec::new();
    encode_varint(0, &mut buf);
    assert!(decode_envelope(&buf, 0, false).is_err());
}

#[test]
fn truncated_fixed_field_fails() {
    let mut buf = Vec::new();
    encode_key(4, WireType::SixtyFourBit, &mut buf);
    buf.extend_from_slice(&[1, 2, 3]);
    assert!(decode_envelope(&buf, 0, false).is_err());
}

#[test]
fn text_equality() {
    assert!(str_equals("abc", "abc"));
    assert!(!str_equals("abc", "abd"));
    assert!(!str_equals("abc", "ab"));
    assert!(str_equals("", ""));
    assert!(str_equals("é", "é"));
}
