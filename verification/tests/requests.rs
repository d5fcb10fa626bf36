use rithmic_rs::plants::requests::PendingRequests;
use rithmic_rs::rti::messages::RithmicMessage;
use rithmic_rs::RithmicResponse;

fn response(request_id: &str, has_more: bool) -> RithmicResponse {
    RithmicResponse {
        request_id: request_id.to_string(),
        message: RithmicMessage::Unknown,
        is_update: false,
        has_more,
        multi_response: true,
        error: None,
        source: "p".to_string(),
    }
}

#[test]
fn single_answer_completes_request() {
    let mut p: PendingRequests<u32> = PendingRequests::new();
    p.register("1".to_string(), 7);
    match p.handle_response(response("1", false)) {
        Ok(Some((responder, responses))) => {
            assert_eq!(responder, 7);
            assert_eq!(responses.len(), 1);
            assert_eq!(responses[0].request_id, "1");
        }
        _ => panic!("request not completed"),
    }
    assert!(p.entries.is_empty());
}

#[test]
fn answers_are_gathered_until_the_last() {
    let mut p: PendingRequests<u32> = PendingRequests::new();
    p.register("a".to_string(), 1);
    p.register("b".to_string(), 2);
    assert!(matches!(p.handle_response(response("b", true)), Ok(None)));
    assert!(matches!(p.handle_response(response("b", true)), Ok(None)));
    assert_eq!(p.entries.len(), 2);
    assert_eq!(p.entries[1].responses.len(), 2);
    match p.handle_response(response("b", false)) {
        Ok(Some((responder, responses))) => {
            assert_eq!(responder, 2);
            assert_eq!(responses.len(), 3);
            assert!(!responses[2].has_more);
        }
        _ => panic!("request not completed"),
    }
    assert_eq!(p.entries.len(), 1);
    assert_eq!(p.entries[0].request_id, "a");
}

#[test]
fn unknown_request_id_is_returned() {
    let mut p: PendingRequests<u32> = PendingRequests::new();
    p.register("a".to_string(), 1);
    match p.handle_response(response("z", false)) {
        Err(r) => assert_eq!(r.request_id, "z"),
        _ => panic!("filed under the wrong request"),
    }
    assert_eq!(p.entries.len(), 1);
}
