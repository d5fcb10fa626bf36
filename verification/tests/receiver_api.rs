use prost::encoding::{encode_key, encode_varint, int32, string, WireType};
use rithmic_rs::api::receiver_api::{
    check_message_error, get_error, has_multiple, template_class, RithmicReceiverApi,
    TemplateClass,
};
use rithmic_rs::rti::messages::RithmicMessage;
use rithmic_rs::RithmicResponse;

const TEMPLATE_ID: u32 = 154467;
const USER_MSG: u32 = 132760;
const RQ_HANDLER_RP_CODE: u32 = 132764;
const RP_CODE: u32 = 132766;

fn strings(v: &[&str]) -> Vec<String> {
    v.iter().map(|s| s.to_string()).collect()
}

fn message(template_id: Option<i32>, user_msg: &[&str], rq: &[&str], rp: &[&str]) -> Vec<u8> {
    let mut buf = Vec::new();
    if let Some(t) = template_id {
        int32::encode(TEMPLATE_ID, &t, &mut buf);
    }
    for s in user_msg {
        string::encode(USER_MSG, &s.to_string(), &mut buf);
    }
    for s in rq {
        string::encode(RQ_HANDLER_RP_CODE, &s.to_string(), &mut buf);
    }
    for s in rp {
        string::encode(RP_CODE, &s.to_string(), &mut buf);
    }
    buf
}

fn frame(payload: &[u8]) -> Vec<u8> {
    let mut data = (payload.len() as u32).to_be_bytes().to_vec();
    data.extend_from_slice(payload);
    data
}

fn api(source: &str) -> RithmicReceiverApi {
    RithmicReceiverApi { source: source.to_string() }
}

#[test]
fn has_multiple_reads_first_code() {
    assert!(has_multiple(&strings(&["0"])));
    assert!(has_multiple(&strings(&["0", "done"])));
    assert!(!has_multiple(&strings(&[])));
    assert!(!has_multiple(&strings(&["1"])));
    assert!(!has_multiple(&strings(&["00"])));
}

#[test]
fn get_error_none_for_success_codes() {
    assert_eq!(get_error(&strings(&[])), None);
    assert_eq!(get_error(&strings(&["0"])), None);
}

#[test]
fn get_error_returns_description() {
    assert_eq!(
        get_error(&strings(&["3", "bad request"])),
        Some("bad request".to_string())
    );
    assert_eq!(get_error(&strings(&["0", "ok"])), Some("ok".to_string()));
}

#[test]
fn get_error_reports_lone_failure_code() {
    assert_eq!(get_error(&strings(&["5"])), Some("5".to_string()));
}

#[test]
fn template_classes() {
    assert!(matches!(template_class(11), Some(TemplateClass::Response)));
    assert!(matches!(template_class(19), Some(TemplateClass::HeartbeatResponse)));
    assert!(matches!(template_class(103), Some(TemplateClass::MultiResponse)));
    assert!(matches!(template_class(118), Some(TemplateClass::SingleMultiResponse)));
    assert!(matches!(template_class(150), Some(TemplateClass::Update)));
    assert!(matches!(template_class(77), Some(TemplateClass::ForcedLogout)));
    assert!(template_class(12).is_none());
    assert!(template_class(-1).is_none());
}

#[test]
fn login_response_is_delivered() {
    let payload = message(Some(11), &["req-1"], &[], &["0"]);
    let r = api("ticker_plant").buf_to_message(&frame(&payload)).unwrap();
    assert_eq!(r.request_id, "req-1");
    assert!(matches!(r.message, RithmicMessage::ResponseLogin(_)));
    assert!(!r.is_update);
    assert!(!r.has_more);
    assert!(!r.multi_response);
    assert_eq!(r.error, None);
    assert_eq!(r.source, "ticker_plant");
    match &r.message {
        RithmicMessage::ResponseLogin(p) => {
            assert_eq!(p.raw, payload);
            assert_eq!(p.envelope.template_id, 11);
            assert_eq!(p.envelope.user_msg, strings(&["req-1"]));
            assert_eq!(p.envelope.rp_code, strings(&["0"]));
        }
        _ => panic!("not a login response"),
    }
}

#[test]
fn rejected_login_is_an_error() {
    let payload = message(Some(11), &["req-2"], &[], &["13", "permission denied"]);
    let r = api("order_plant").buf_to_message(&frame(&payload)).unwrap_err();
    assert_eq!(r.request_id, "req-2");
    assert!(matches!(r.message, RithmicMessage::ResponseLogin(_)));
    assert_eq!(r.error, Some("permission denied".to_string()));
    assert_eq!(check_message_error(&r), Some("permission denied".to_string()));
    assert_eq!(r.source, "order_plant");
}

#[test]
fn reject_message_carries_error() {
    let payload = message(Some(75), &["r"], &[], &["7", "no such request"]);
    let r = api("p").buf_to_message(&frame(&payload)).unwrap_err();
    assert!(matches!(r.message, RithmicMessage::Reject(_)));
    assert_eq!(r.error, Some("no such request".to_string()));
}

#[test]
fn multi_response_with_more_to_come() {
    let payload = message(Some(103), &["q"], &["0"], &[]);
    let r = api("ticker_plant").buf_to_message(&frame(&payload)).unwrap();
    assert!(matches!(r.message, RithmicMessage::ResponseGetInstrumentByUnderlying(_)));
    assert!(r.has_more);
    assert!(r.multi_response);
    assert!(!r.is_update);
    assert_eq!(r.request_id, "q");
}

#[test]
fn multi_response_last_one() {
    let payload = message(Some(103), &["q"], &[], &["0"]);
    let r = api("ticker_plant").buf_to_message(&frame(&payload)).unwrap();
    assert!(!r.has_more);
    assert!(r.multi_response);
}

#[test]
fn single_multi_response() {
    let payload = message(Some(118), &["d"], &["0"], &[]);
    let r = api("ticker_plant").buf_to_message(&frame(&payload)).unwrap();
    assert!(matches!(r.message, RithmicMessage::ResponseDepthByOrderUpdates(_)));
    assert!(r.multi_response);
    assert!(!r.has_more);
}

#[test]
fn update_has_no_request_id() {
    let payload = message(Some(150), &["ignored"], &[], &["9"]);
    let r = api("ticker_plant").buf_to_message(&frame(&payload)).unwrap();
    assert!(matches!(r.message, RithmicMessage::LastTrade(_)));
    assert!(r.is_update);
    assert_eq!(r.request_id, "");
    assert_eq!(r.error, None);
}

#[test]
fn forced_logout_is_an_error_update() {
    let payload = message(Some(77), &[], &[], &[]);
    let r = api("order_plant").buf_to_message(&frame(&payload)).unwrap_err();
    assert!(matches!(r.message, RithmicMessage::ForcedLogout(_)));
    assert!(r.is_update);
    assert_eq!(r.error, Some("forced logout from server".to_string()));
    assert_eq!(r.request_id, "");
}

#[test]
fn heartbeat_response_is_an_update() {
    let payload = message(Some(19), &["hb-1"], &[], &["0"]);
    let r = api("ticker_plant").buf_to_message(&frame(&payload)).unwrap();
    assert!(matches!(r.message, RithmicMessage::ResponseHeartbeat(_)));
    assert!(r.message.is_heartbeat_response());
    assert!(r.is_update);
    assert_eq!(r.request_id, "");
}

#[test]
fn unknown_template_is_reported() {
    let payload = message(Some(9999), &["x"], &[], &[]);
    let r = api("history_plant").buf_to_message(&frame(&payload)).unwrap_err();
    assert!(matches!(r.message, RithmicMessage::Unknown));
    assert_eq!(r.error, Some("Unknown message type: template_id=9999".to_string()));
    assert_eq!(r.source, "history_plant");
    assert_eq!(r.request_id, "");
}

#[test]
fn negative_template_is_reported() {
    let payload = message(Some(-42), &[], &[], &[]);
    let r = api("p").buf_to_message(&frame(&payload)).unwrap_err();
    assert_eq!(r.error, Some("Unknown message type: template_id=-42".to_string()));
}

#[test]
fn missing_template_id_is_zero() {
    let r = api("p").buf_to_message(&frame(&[])).unwrap_err();
    assert_eq!(r.error, Some("Unknown message type: template_id=0".to_string()));
}

#[test]
fn undecodable_frame_is_reported() {
    // A key whose varint never ends.
    let r = api("p").buf_to_message(&frame(&[0xff])).unwrap_err();
    assert!(matches!(r.message, RithmicMessage::Unknown));
    assert!(r
        .error
        .as_ref()
        .unwrap()
        .starts_with("Failed to decode message: "));
    assert!(!r.is_update);
    assert_eq!(r.source, "p");
}

#[test]
fn truncated_string_is_a_decode_failure() {
    let mut payload = Vec::new();
    int32::encode(TEMPLATE_ID, &11, &mut payload);
    encode_key(USER_MSG, WireType::LengthDelimited, &mut payload);
    encode_varint(10, &mut payload);
    payload.extend_from_slice(b"abc");
    let r = api("p").buf_to_message(&frame(&payload)).unwrap_err();
    assert!(r.error.unwrap().starts_with("Failed to decode message: "));
}

#[test]
fn short_frame_is_a_decode_failure() {
    for data in [vec![0u8, 0, 1], vec![]] {
        let r = api("p").buf_to_message(&data).unwrap_err();
        assert!(matches!(r.message, RithmicMessage::Unknown));
        assert!(r.error.unwrap().starts_with("Failed to decode message: "));
        assert_eq!(r.source, "p");
    }
}

#[test]
fn lone_failure_code_is_reported() {
    let payload = message(Some(11), &["r"], &[], &["5"]);
    let r = api("p").buf_to_message(&frame(&payload)).unwrap_err();
    assert!(matches!(r.message, RithmicMessage::ResponseLogin(_)));
    assert_eq!(r.error, Some("5".to_string()));
    assert_eq!(r.request_id, "r");
}

#[test]
fn lone_failure_code_in_update_is_ignored() {
    let payload = message(Some(151), &[], &[], &["5"]);
    let r = api("p").buf_to_message(&frame(&payload)).unwrap();
    assert!(matches!(r.message, RithmicMessage::BestBidOffer(_)));
    assert_eq!(r.error, None);
}

#[test]
fn invalid_utf8_in_known_message_is_a_decode_failure() {
    let mut payload = Vec::new();
    int32::encode(TEMPLATE_ID, &11, &mut payload);
    encode_key(USER_MSG, WireType::LengthDelimited, &mut payload);
    encode_varint(2, &mut payload);
    payload.extend_from_slice(&[0xc3, 0x28]);
    let r = api("p").buf_to_message(&frame(&payload)).unwrap_err();
    assert!(matches!(r.message, RithmicMessage::Unknown));
    assert!(r.error.unwrap().starts_with("Failed to decode message: "));
}

#[test]
fn unknown_fields_are_skipped() {
    let mut payload = Vec::new();
    int32::encode(7, &5, &mut payload);
    string::encode(3, &"other".to_string(), &mut payload);
    int32::encode(TEMPLATE_ID, &13, &mut payload);
    encode_key(4, WireType::SixtyFourBit, &mut payload);
    payload.extend_from_slice(&[1, 2, 3, 4, 5, 6, 7, 8]);
    encode_key(5, WireType::ThirtyTwoBit, &mut payload);
    payload.extend_from_slice(&[1, 2, 3, 4]);
    string::encode(USER_MSG, &"logout".to_string(), &mut payload);
    encode_key(9, WireType::StartGroup, &mut payload);
    int32::encode(1, &1, &mut payload);
    encode_key(9, WireType::EndGroup, &mut payload);
    let r = api("p").buf_to_message(&frame(&payload)).unwrap();
    assert!(matches!(r.message, RithmicMessage::ResponseLogout(_)));
    assert_eq!(r.request_id, "logout");
}

#[test]
fn last_template_id_wins() {
    let mut payload = Vec::new();
    int32::encode(TEMPLATE_ID, &9999, &mut payload);
    int32::encode(TEMPLATE_ID, &13, &mut payload);
    let r = api("p").buf_to_message(&frame(&payload)).unwrap();
    assert!(matches!(r.message, RithmicMessage::ResponseLogout(_)));
}

#[test]
fn first_user_msg_is_the_request_id() {
    let payload = message(Some(11), &["first", "second"], &[], &[]);
    let r = api("p").buf_to_message(&frame(&payload)).unwrap();
    assert_eq!(r.request_id, "first");
}

#[test]
fn header_length_is_not_checked() {
    let payload = message(Some(13), &["x"], &[], &[]);
    let mut data = vec![9, 9, 9, 9];
    data.extend_from_slice(&payload);
    let r = api("p").buf_to_message(&data).unwrap();
    assert!(matches!(r.message, RithmicMessage::ResponseLogout(_)));
}

#[test]
fn check_message_error_reads_error_field() {
    let ok = RithmicResponse {
        request_id: String::new(),
        message: RithmicMessage::Unknown,
        is_update: false,
        has_more: false,
        multi_response: false,
        error: None,
        source: "s".to_string(),
    };
    assert_eq!(check_message_error(&ok), None);
    let mut bad = ok.clone();
    bad.error = Some("boom".to_string());
    assert_eq!(check_message_error(&bad), Some("boom".to_string()));
}
