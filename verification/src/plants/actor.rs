//! The decisions that every plant actor makes.
//!
//! A plant actor owns a WebSocket connection to one Rithmic plant. It forwards
//! subscription updates to a broadcast channel, hands request responses to the
//! handler that waits for them, and stops and tells its subscribers when the
//! connection fails. The functions here decide, from what the connection
//! delivered, what is forwarded where and whether the actor stops.

use vstd::prelude::*;
use vstd::string::*;
use crate::api::receiver_api::{
    decoded_view, frame_outcome, is_decode_failure_response, outcome_view, FrameOutcome, ResponseView,
    RithmicReceiverApi, RithmicResponse,
};
use crate::rti::messages::{MessageKind, RithmicMessage};

verus! {

/// What a plant's WebSocket connection delivered.
pub enum SocketEvent {
    /// A close frame.
    Close,
    /// The answer to a ping.
    Pong,
    /// A binary frame: a Rithmic message.
    Binary(Vec<u8>),
    /// The connection was closed.
    ConnectionClosed,
    /// The connection had already been closed.
    AlreadyClosed,
    /// An I/O error, with its description.
    Io(String),
    /// The peer reset the connection without a closing handshake.
    ResetWithoutClosingHandshake,
    /// Something was sent after the closing frame.
    SendAfterClosing,
    /// Something was received after the closing frame.
    ReceivedAfterClosing,
    /// Any other message or error.
    Other,
}

/// What a plant actor does with an event.
pub struct PlantAction {
    /// A response to broadcast to the subscribers.
    pub to_subscribers: Option<RithmicResponse>,
    /// A response to hand to the handler of pending requests.
    pub to_requests: Option<RithmicResponse>,
    /// Whether a ping was answered.
    pub pong_received: bool,
    /// Whether the actor stops.
    pub stop: bool,
}

/// The value of a [`PlantAction`].
#[verifier::ext_equal]
pub struct ActionView {
    pub to_subscribers: Option<ResponseView>,
    pub to_requests: Option<ResponseView>,
    pub pong_received: bool,
    pub stop: bool,
}

pub open spec fn opt_response_view(r: Option<RithmicResponse>) -> Option<ResponseView> {
    match r {
        Some(x) => Some(x@),
        None => None,
    }
}

impl View for PlantAction {
    type V = ActionView;

    open spec fn view(&self) -> ActionView {
        ActionView {
            to_subscribers: opt_response_view(self.to_subscribers),
            to_requests: opt_response_view(self.to_requests),
            pong_received: self.pong_received,
            stop: self.stop,
        }
    }
}

/// Doing nothing, and going on.
pub open spec fn no_action() -> ActionView {
    ActionView { to_subscribers: None, to_requests: None, pong_received: false, stop: false }
}

/// The update that tells subscribers of a failed heartbeat.
pub open spec fn heartbeat_timeout_view(
    request_id: Seq<char>,
    error: Seq<char>,
    source: Seq<char>,
) -> ResponseView {
    ResponseView {
        request_id,
        kind: MessageKind::HeartbeatTimeout,
        payload: None,
        is_update: true,
        has_more: false,
        multi_response: false,
        error: Some(error),
        source,
    }
}

/// The update that tells subscribers that the connection failed.
pub open spec fn connection_error_view(error: Seq<char>, source: Seq<char>) -> ResponseView {
    ResponseView {
        request_id: Seq::empty(),
        kind: MessageKind::ConnectionError,
        payload: None,
        is_update: true,
        has_more: false,
        multi_response: false,
        error: Some(error),
        source,
    }
}

/// Telling subscribers that the connection failed, and stopping.
pub open spec fn connection_error_action(error: Seq<char>, source: Seq<char>) -> ActionView {
    ActionView {
        to_subscribers: Some(connection_error_view(error, source)),
        to_requests: None,
        pong_received: false,
        stop: true,
    }
}

/// Where a decoded response goes: a heartbeat answer is dropped when it
/// carries no error, and turned into a heartbeat timeout for the subscribers
/// when it carries one; any other response goes to the subscribers when it is
/// an update and to the pending requests otherwise.
pub open spec fn route(v: ResponseView, source: Seq<char>) -> ActionView {
    if v.kind == MessageKind::Template(19) {
        match v.error {
            Some(e) => ActionView {
                to_subscribers: Some(heartbeat_timeout_view(v.request_id, e, source)),
                ..no_action()
            },
            None => no_action(),
        }
    } else if v.is_update {
        ActionView { to_subscribers: Some(v), ..no_action() }
    } else {
        ActionView { to_requests: Some(v), ..no_action() }
    }
}

/// Whether `r` is what a plant named `source` does with the event `e`.
pub open spec fn event_action_meets(source: Seq<char>, e: SocketEvent, r: PlantAction) -> bool {
    match e {
        SocketEvent::Close => r@ == ActionView { stop: true, ..no_action() },
        SocketEvent::Pong => r@ == ActionView { pong_received: true, ..no_action() },
        SocketEvent::Binary(data) => match frame_outcome(source, data@) {
            FrameOutcome::DecodeFailed => {
                &&& r@.to_subscribers is None
                &&& r@.to_requests matches Some(x) && is_decode_failure_response(x, source)
                &&& !r@.pong_received
                &&& !r@.stop
            },
            FrameOutcome::Decoded(Ok(v)) => r@ == route(v, source),
            FrameOutcome::Decoded(Err(v)) => r@ == route(v, source),
        },
        SocketEvent::ConnectionClosed => r@ == connection_error_action(
            "WebSocket connection closed"@,
            source,
        ),
        SocketEvent::AlreadyClosed => r@ == connection_error_action(
            "WebSocket connection already closed"@,
            source,
        ),
        SocketEvent::Io(d) => r@ == connection_error_action(
            "WebSocket I/O error: "@ + d@,
            source,
        ),
        SocketEvent::ResetWithoutClosingHandshake => r@ == connection_error_action(
            "WebSocket connection reset without closing handshake"@,
            source,
        ),
        SocketEvent::SendAfterClosing => r@ == connection_error_action(
            "WebSocket attempted to send after closing"@,
            source,
        ),
        SocketEvent::ReceivedAfterClosing => r@ == connection_error_action(
            "WebSocket received data after closing"@,
            source,
        ),
        SocketEvent::Other => r@ == no_action(),
    }
}

/// The state of a plant actor that its decisions read: the plant's receiver
/// and whether it has logged in.
#[derive(Debug)]
pub struct PlantCore {
    pub receiver_api: RithmicReceiverApi,
    pub logged_in: bool,
}

impl PlantCore {
    /// The state of a plant named `source` that has just connected.
    pub fn new(source: String) -> (r: PlantCore)
        ensures
            r.receiver_api.source@ == source@,
            !r.logged_in,
    {
        PlantCore { receiver_api: RithmicReceiverApi { source }, logged_in: false }
    }

    /// The plant has logged in.
    pub fn set_login(&mut self)
        ensures
            final(self).logged_in,
            final(self).receiver_api.source@ == old(self).receiver_api.source@,
    {
        self.logged_in = true;
    }

    /// Whether a heartbeat is sent when the heartbeat interval ticks: only
    /// after login.
    pub fn heartbeat_due(&self) -> (r: bool)
        ensures
            r == self.logged_in,
    {
        self.logged_in
    }

    fn connection_error(&self, error: String) -> (r: PlantAction)
        ensures
            r@ == connection_error_action(error@, self.receiver_api.source@),
    {
        PlantAction {
            to_subscribers: Some(
                RithmicResponse {
                    request_id: String::new(),
                    message: RithmicMessage::ConnectionError,
                    is_update: true,
                    has_more: false,
                    multi_response: false,
                    error: Some(error),
                    source: self.receiver_api.source.clone(),
                },
            ),
            to_requests: None,
            pong_received: false,
            stop: true,
        }
    }

    /// What the plant does with a response that a frame was decoded into,
    /// delivered or reported as an error.
    pub fn route_response(&self, response: RithmicResponse) -> (r: PlantAction)
        ensures
            r@ == route(response@, self.receiver_api.source@),
            response@.kind != MessageKind::Template(19) ==> r@ == (if response.is_update {
                ActionView { to_subscribers: Some(response@), ..no_action() }
            } else {
                ActionView { to_requests: Some(response@), ..no_action() }
            }),
    {
        if response.message.is_heartbeat_response() {
            match response.error {
                Some(error) => PlantAction {
                    to_subscribers: Some(
                        RithmicResponse {
                            request_id: response.request_id,
                            message: RithmicMessage::HeartbeatTimeout,
                            is_update: true,
                            has_more: false,
                            multi_response: false,
                            error: Some(error),
                            source: self.receiver_api.source.clone(),
                        },
                    ),
                    to_requests: None,
                    pong_received: false,
                    stop: false,
                },
                None => PlantAction {
                    to_subscribers: None,
                    to_requests: None,
                    pong_received: false,
                    stop: false,
                },
            }
        } else if response.is_update {
            PlantAction {
                to_subscribers: Some(response),
                to_requests: None,
                pong_received: false,
                stop: false,
            }
        } else {
            PlantAction {
                to_subscribers: None,
                to_requests: Some(response),
                pong_received: false,
                stop: false,
            }
        }
    }

    /// What the plant does with what its connection delivered.
    pub fn handle_socket_event(&self, event: SocketEvent) -> (r: PlantAction)
        ensures
            event_action_meets(self.receiver_api.source@, event, r),
    {
        match event {
            SocketEvent::Close => PlantAction {
                to_subscribers: None,
                to_requests: None,
                pong_received: false,
                stop: true,
            },
            SocketEvent::Pong => PlantAction {
                to_subscribers: None,
                to_requests: None,
                pong_received: true,
                stop: false,
            },
            SocketEvent::Binary(data) => match self.receiver_api.buf_to_message(data.as_slice()) {
                Ok(response) => self.route_response(response),
                Err(response) => self.route_response(response),
            },
            SocketEvent::ConnectionClosed => self.connection_error(
                String::from_str("WebSocket connection closed"),
            ),
            SocketEvent::AlreadyClosed => self.connection_error(
                String::from_str("WebSocket connection already closed"),
            ),
            SocketEvent::Io(description) => {
                let mut text = String::from_str("WebSocket I/O error: ");
                text.append(description.as_str());
                self.connection_error(text)
            },
            SocketEvent::ResetWithoutClosingHandshake => self.connection_error(
                String::from_str("WebSocket connection reset without closing handshake"),
            ),
            SocketEvent::SendAfterClosing => self.connection_error(
                String::from_str("WebSocket attempted to send after closing"),
            ),
            SocketEvent::ReceivedAfterClosing => self.connection_error(
                String::from_str("WebSocket received data after closing"),
            ),
            SocketEvent::Other => PlantAction {
                to_subscribers: None,
                to_requests: None,
                pong_received: false,
                stop: false,
            },
        }
    }

    /// What the plant does when a WebSocket ping goes unanswered: tells its
    /// subscribers that the connection is dead, and stops.
    pub fn ping_timeout(&self) -> (r: PlantAction)
        ensures
            r@ == (ActionView {
                to_subscribers: Some(
                    heartbeat_timeout_view(
                        "websocket_ping_timeout"@,
                        "WebSocket ping timeout - connection dead"@,
                        self.receiver_api.source@,
                    ),
                ),
                to_requests: None,
                pong_received: false,
                stop: true,
            }),
    {
        PlantAction {
            to_subscribers: Some(
                RithmicResponse {
                    request_id: String::from_str("websocket_ping_timeout"),
                    message: RithmicMessage::HeartbeatTimeout,
                    is_update: true,
                    has_more: false,
                    multi_response: false,
                    error: Some(String::from_str("WebSocket ping timeout - connection dead")),
                    source: self.receiver_api.source.clone(),
                },
            ),
            to_requests: None,
            pong_received: false,
            stop: true,
        }
    }
}

/// What a handle's login returns for the plant's answer to the login request:
/// the answer itself when it carries no error, and its error otherwise. A
/// handle marks its plant logged in exactly when this is `Ok`.
pub fn login_result(response: RithmicResponse) -> (r: Result<RithmicResponse, String>)
    ensures
        response.error is None ==> r == Ok::<RithmicResponse, String>(response),
        response.error matches Some(e) ==> r == Err::<RithmicResponse, String>(e),
{
    match response.error {
        None => Ok(response),
        Some(e) => Err(e),
    }
}

/// The error that a handle returns when the plant gathered no response for
/// its request.
pub open spec fn no_response_text() -> Seq<char> {
    "no response received"@
}

/// The response that a handle returns for a request that is answered once:
/// the first of the responses that the plant gathered for it; the plant's
/// error where it gathered none.
pub fn single_response(responses: Result<Vec<RithmicResponse>, String>) -> (r: Result<
    RithmicResponse,
    String,
>)
    ensures
        responses is Ok && responses->Ok_0@.len() > 0 ==> r == Ok::<RithmicResponse, String>(
            responses->Ok_0@[0],
        ),
        responses is Ok && responses->Ok_0@.len() == 0 ==> (r matches Err(e) && e@
            == no_response_text()),
        responses matches Err(e) ==> r == Err::<RithmicResponse, String>(e),
{
    match responses {
        Ok(mut v) => {
            if v.len() > 0 {
                Ok(v.remove(0))
            } else {
                Err(String::from_str("no response received"))
            }
        },
        Err(e) => Err(e),
    }
}

/// What a handle's login returns for the plant's reply to the login request:
/// the error of the reply or of its first response, or that response.
pub fn login_reply(responses: Result<Vec<RithmicResponse>, String>) -> (r: Result<
    RithmicResponse,
    String,
>)
    ensures
        responses is Ok && responses->Ok_0@.len() > 0 ==> (match responses->Ok_0@[0].error {
            None => r == Ok::<RithmicResponse, String>(responses->Ok_0@[0]),
            Some(e) => r == Err::<RithmicResponse, String>(e),
        }),
        responses is Ok && responses->Ok_0@.len() == 0 ==> (r matches Err(e) && e@
            == no_response_text()),
        responses matches Err(e) ==> r == Err::<RithmicResponse, String>(e),
{
    match single_response(responses) {
        Ok(response) => login_result(response),
        Err(e) => Err(e),
    }
}

/// Whether `e` reports that the connection failed.
pub open spec fn is_connection_failure(e: SocketEvent) -> bool {
    e is ConnectionClosed || e is AlreadyClosed || e is Io || e is ResetWithoutClosingHandshake
        || e is SendAfterClosing || e is ReceivedAfterClosing
}

/// A response that a frame becomes goes to the subscribers when it is an
/// update and to the pending requests otherwise, never to both, and a frame
/// never stops the plant.
pub proof fn lemma_frames_routed_by_update_flag(
    source: Seq<char>,
    data: Vec<u8>,
    r: PlantAction,
)
    requires
        event_action_meets(source, SocketEvent::Binary(data), r),
    ensures
        r@.to_subscribers matches Some(x) ==> x.is_update,
        r@.to_requests matches Some(x) ==> !x.is_update,
        !(r@.to_subscribers is Some && r@.to_requests is Some),
        !r@.stop,
{
}

/// Every response that a frame becomes, other than a heartbeat answer, is
/// handed on unchanged: an update to the subscribers, anything else to the
/// pending requests, partial answers of a multi-response request included.
/// A frame that cannot be decoded is reported to the pending requests.
pub proof fn lemma_responses_handed_on(source: Seq<char>, data: Vec<u8>, r: PlantAction)
    requires
        event_action_meets(source, SocketEvent::Binary(data), r),
    ensures
        decoded_view(frame_outcome(source, data@)) matches Some(v) ==> (v.kind
            != MessageKind::Template(19) ==> {
            &&& v.is_update ==> r@.to_subscribers == Some(v) && r@.to_requests is None
            &&& !v.is_update ==> r@.to_requests == Some(v) && r@.to_subscribers is None
        }),
        frame_outcome(source, data@) is DecodeFailed ==> r@.to_requests is Some
            && r@.to_subscribers is None,
        !r@.pong_received,
{
}

/// When the connection fails, the plant tells its subscribers with a
/// connection error update that names the plant and says what failed, and
/// stops.
pub proof fn lemma_connection_failure_stops(source: Seq<char>, e: SocketEvent, r: PlantAction)
    requires
        is_connection_failure(e),
        event_action_meets(source, e, r),
    ensures
        r@.stop,
        r@.to_requests is None,
        r@.to_subscribers matches Some(x) && x.kind == MessageKind::ConnectionError && x.is_update
            && x.error is Some && x.source == source,
{
}

/// A plant stops exactly on a close frame or a connection failure.
pub proof fn lemma_stops_only_on_close_or_failure(
    source: Seq<char>,
    e: SocketEvent,
    r: PlantAction,
)
    requires
        event_action_meets(source, e, r),
    ensures
        r@.stop <==> (e is Close || is_connection_failure(e)),
{
}

/// The answers to heartbeats are never handed to pending requests: one that
/// carries no error is dropped silently, and one that carries an error reaches
/// the subscribers as a heartbeat timeout with the answer's error and an empty request id.
pub proof fn lemma_heartbeat_answers(source: Seq<char>, data: Vec<u8>, r: PlantAction)
    requires
        event_action_meets(source, SocketEvent::Binary(data), r),
        decoded_view(frame_outcome(source, data@)) matches Some(v) && v.kind
            == MessageKind::Template(19),
    ensures
        ({
            let v = decoded_view(frame_outcome(source, data@))->Some_0;
            match v.error {
                None => r@ == no_action(),
                Some(e) => r@ == ActionView {
                    to_subscribers: Some(heartbeat_timeout_view(Seq::empty(), e, source)),
                    ..no_action()
                },
            }
        }),
{
}

} // verus!
