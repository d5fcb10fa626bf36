use prost::encoding::{int32, string};
use rithmic_rs::plants::actor::{
    login_reply, login_result, single_response, PlantCore, SocketEvent,
};
use rithmic_rs::rti::messages::RithmicMessage;
use rithmic_rs::RithmicResponse;

fn frame(template_id: i32, user_msg: &str, rp: &[&str]) -> Vec<u8> {
    let mut payload = Vec::new();
    int32::encode(154467, &template_id, &mut payload);
    string::encode(132760, &user_msg.to_string(), &mut payload);
    for s in rp {
        string::encode(132766, &s.to_string(), &mut payload);
    }
    let mut data = vec![0, 0, 0, 0];
    data.extend_from_slice(&payload);
    data
}

fn response(error: Option<&str>, request_id: &str) -> RithmicResponse {
    RithmicResponse {
        request_id: request_id.to_string(),
        message: RithmicMessage::Unknown,
        is_update: false,
        has_more: false,
        multi_response: false,
        error: error.map(|e| e.to_string()),
        source: "order_plant".to_string(),
    }
}

#[test]
fn new_plant_is_not_logged_in() {
    let core = PlantCore::new("ticker_plant".to_string());
    assert!(!core.logged_in);
    assert!(!core.heartbeat_due());
    assert_eq!(core.receiver_api.source, "ticker_plant");
}

#[test]
fn heartbeat_due_after_login() {
    let mut core = PlantCore::new("ticker_plant".to_string());
    core.set_login();
    assert!(core.logged_in);
    assert!(core.heartbeat_due());
    assert_eq!(core.receiver_api.source, "ticker_plant");
}

#[test]
fn close_frame_stops() {
    let core = PlantCore::new("p".to_string());
    let a = core.handle_socket_event(SocketEvent::Close);
    assert!(a.stop);
    assert!(a.to_subscribers.is_none());
    assert!(a.to_requests.is_none());
    assert!(!a.pong_received);
}

#[test]
fn pong_is_recorded() {
    let core = PlantCore::new("p".to_string());
    let a = core.handle_socket_event(SocketEvent::Pong);
    assert!(a.pong_received);
    assert!(!a.stop);
    assert!(a.to_subscribers.is_none());
    assert!(a.to_requests.is_none());
}

#[test]
fn other_messages_are_ignored() {
    let core = PlantCore::new("p".to_string());
    let a = core.handle_socket_event(SocketEvent::Other);
    assert!(!a.pong_received);
    assert!(!a.stop);
    assert!(a.to_subscribers.is_none());
    assert!(a.to_requests.is_none());
}

#[test]
fn request_response_goes_to_requests() {
    let core = PlantCore::new("order_plant".to_string());
    let a = core
        .handle_socket_event(SocketEvent::Binary(frame(11, "login-1", &["0"])));
    let r = a.to_requests.unwrap();
    assert_eq!(r.request_id, "login-1");
    assert!(matches!(r.message, RithmicMessage::ResponseLogin(_)));
    assert!(a.to_subscribers.is_none());
    assert!(!a.stop);
}

#[test]
fn rejected_request_goes_to_requests_with_error() {
    let core = PlantCore::new("order_plant".to_string());
    let a = core
        .handle_socket_event(SocketEvent::Binary(frame(11, "login-1", &["3", "bad"])));
    let r = a.to_requests.unwrap();
    assert_eq!(r.error, Some("bad".to_string()));
    assert!(a.to_subscribers.is_none());
}

#[test]
fn update_goes_to_subscribers() {
    let core = PlantCore::new("ticker_plant".to_string());
    let a = core
        .handle_socket_event(SocketEvent::Binary(frame(150, "", &[])));
    let r = a.to_subscribers.unwrap();
    assert!(matches!(r.message, RithmicMessage::LastTrade(_)));
    assert!(r.is_update);
    assert!(a.to_requests.is_none());
    assert!(!a.stop);
}

#[test]
fn forced_logout_goes_to_subscribers() {
    let core = PlantCore::new("order_plant".to_string());
    let a = core
        .handle_socket_event(SocketEvent::Binary(frame(77, "", &[])));
    let r = a.to_subscribers.unwrap();
    assert!(matches!(r.message, RithmicMessage::ForcedLogout(_)));
    assert_eq!(r.error, Some("forced logout from server".to_string()));
    assert!(!a.stop);
}

#[test]
fn successful_heartbeat_answer_is_dropped() {
    let core = PlantCore::new("ticker_plant".to_string());
    let a = core
        .handle_socket_event(SocketEvent::Binary(frame(19, "hb", &["0"])));
    assert!(a.to_subscribers.is_none());
    assert!(a.to_requests.is_none());
    assert!(!a.stop);
}

#[test]
fn failed_heartbeat_answer_is_a_heartbeat_timeout() {
    let core = PlantCore::new("ticker_plant".to_string());
    let a = core
        .handle_socket_event(SocketEvent::Binary(frame(19, "hb-7", &["1", "heartbeat failed"])));
    let r = a.to_subscribers.unwrap();
    assert!(matches!(r.message, RithmicMessage::HeartbeatTimeout));
    assert_eq!(r.request_id, "");
    assert_eq!(r.error, Some("heartbeat failed".to_string()));
    assert!(r.is_update);
    assert_eq!(r.source, "ticker_plant");
    assert!(a.to_requests.is_none());
    assert!(!a.stop);
}

#[test]
fn unknown_template_goes_to_requests() {
    let core = PlantCore::new("p".to_string());
    let a = core
        .handle_socket_event(SocketEvent::Binary(frame(4242, "x", &[])));
    let r = a.to_requests.unwrap();
    assert_eq!(r.error, Some("Unknown message type: template_id=4242".to_string()));
    assert!(a.to_subscribers.is_none());
}

#[test]
fn undecodable_frame_goes_to_requests() {
    let core = PlantCore::new("p".to_string());
    let a = core
        .handle_socket_event(SocketEvent::Binary(vec![0, 0, 0, 0, 0xff]));
    let r = a.to_requests.unwrap();
    assert!(r.error.unwrap().starts_with("Failed to decode message: "));
    assert!(!a.stop);
}

#[test]
fn short_frame_is_reported_to_requests() {
    let core = PlantCore::new("p".to_string());
    let a = core.handle_socket_event(SocketEvent::Binary(vec![1, 2]));
    let r = a.to_requests.unwrap();
    assert!(r.error.unwrap().starts_with("Failed to decode message: "));
    assert!(a.to_subscribers.is_none());
    assert!(!a.stop);
}

#[test]
fn connection_closed_stops_with_error() {
    let core = PlantCore::new("order_plant".to_string());
    let a = core.handle_socket_event(SocketEvent::ConnectionClosed);
    assert!(a.stop);
    let r = a.to_subscribers.unwrap();
    assert!(matches!(r.message, RithmicMessage::ConnectionError));
    assert_eq!(r.error, Some("WebSocket connection closed".to_string()));
    assert!(r.is_update);
    assert_eq!(r.request_id, "");
    assert_eq!(r.source, "order_plant");
}

#[test]
fn connection_failures_name_their_cause() {
    let core = PlantCore::new("p".to_string());
    let cases = vec![
        (SocketEvent::AlreadyClosed, "WebSocket connection already closed"),
        (
            SocketEvent::Io("broken pipe".to_string()),
            "WebSocket I/O error: broken pipe",
        ),
        (
            SocketEvent::ResetWithoutClosingHandshake,
            "WebSocket connection reset without closing handshake",
        ),
        (SocketEvent::SendAfterClosing, "WebSocket attempted to send after closing"),
        (SocketEvent::ReceivedAfterClosing, "WebSocket received data after closing"),
    ];
    for (event, text) in cases {
        let a = core.handle_socket_event(event);
        assert!(a.stop);
        let r = a.to_subscribers.unwrap();
        assert!(matches!(r.message, RithmicMessage::ConnectionError));
        assert_eq!(r.error, Some(text.to_string()));
        assert!(a.to_requests.is_none());
    }
}

#[test]
fn ping_timeout_stops_the_plant() {
    let core = PlantCore::new("history_plant".to_string());
    let a = core.ping_timeout();
    assert!(a.stop);
    let r = a.to_subscribers.unwrap();
    assert!(matches!(r.message, RithmicMessage::HeartbeatTimeout));
    assert_eq!(r.request_id, "websocket_ping_timeout");
    assert_eq!(
        r.error,
        Some("WebSocket ping timeout - connection dead".to_string())
    );
    assert!(r.is_update);
    assert_eq!(r.source, "history_plant");
}

#[test]
fn login_result_ok_without_error() {
    let r = login_result(response(None, "l1")).unwrap();
    assert_eq!(r.request_id, "l1");
}

#[test]
fn login_result_err_with_error() {
    assert_eq!(
        login_result(response(Some("bad password"), "l1")).unwrap_err(),
        "bad password"
    );
}

#[test]
fn single_response_takes_first() {
    let v = vec![response(None, "a"), response(None, "b")];
    assert_eq!(single_response(Ok(v)).unwrap().request_id, "a");
}

#[test]
fn single_response_without_responses_is_an_error() {
    assert_eq!(single_response(Ok(vec![])).unwrap_err(), "no response received");
    assert_eq!(single_response(Err("closed".to_string())).unwrap_err(), "closed");
}

#[test]
fn login_reply_cases() {
    assert_eq!(login_reply(Ok(vec![response(None, "l")])).unwrap().request_id, "l");
    assert_eq!(
        login_reply(Ok(vec![response(Some("denied"), "l")])).unwrap_err(),
        "denied"
    );
    assert_eq!(login_reply(Ok(vec![])).unwrap_err(), "no response received");
    assert_eq!(login_reply(Err("gone".to_string())).unwrap_err(), "gone");
}
