//! Decoding of the frames that a plant receives into [`RithmicResponse`]s.

use vstd::prelude::*;
use vstd::slice::{slice_subrange, slice_to_vec};
use vstd::string::*;
use prost::DecodeError;
use crate::rti::messages::{
    message_kind, message_payload, is_known_template, MessageKind, PayloadView, RithmicMessage,
    RithmicPayload,
};
use crate::wire::{decode_envelope, empty_envelope, scan_fields, EnvelopeView};

verus! {

/// Response from a Rithmic plant, either from a request or a subscription update.
///
/// - `request_id`: Unique identifier for matching responses to requests. Empty for updates.
/// - `message`: The actual Rithmic message data (see [`RithmicMessage`])
/// - `is_update`: `true` if this is a subscription update, `false` if it's a request response
/// - `has_more`: `true` if more responses are coming for this request
/// - `multi_response`: `true` if this request type can return multiple responses
/// - `error`: Error message if the operation failed or a connection error occurred
/// - `source`: Name of the plant that sent this response (e.g., "ticker_plant", "order_plant")
///
/// The `error` field is set when Rithmic rejects a request (its response code
/// carries a description), on a forced logout, and on connection errors, which
/// come as [`RithmicMessage::ConnectionError`] with `is_update: true`.
#[derive(Debug, Clone)]
pub struct RithmicResponse {
    pub request_id: String,
    pub message: RithmicMessage,
    pub is_update: bool,
    pub has_more: bool,
    pub multi_response: bool,
    pub error: Option<String>,
    pub source: String,
}

/// The value of a [`RithmicResponse`].
#[verifier::ext_equal]
pub struct ResponseView {
    pub request_id: Seq<char>,
    pub kind: MessageKind,
    pub payload: Option<PayloadView>,
    pub is_update: bool,
    pub has_more: bool,
    pub multi_response: bool,
    pub error: Option<Seq<char>>,
    pub source: Seq<char>,
}

pub open spec fn opt_string_view(s: Option<String>) -> Option<Seq<char>> {
    match s {
        Some(x) => Some(x@),
        None => None,
    }
}

pub open spec fn opt_payload_view(p: Option<RithmicPayload>) -> Option<PayloadView> {
    match p {
        Some(x) => Some(x@),
        None => None,
    }
}

impl View for RithmicResponse {
    type V = ResponseView;

    open spec fn view(&self) -> ResponseView {
        ResponseView {
            request_id: self.request_id@,
            kind: message_kind(self.message),
            payload: opt_payload_view(message_payload(self.message)),
            is_update: self.is_update,
            has_more: self.has_more,
            multi_response: self.multi_response,
            error: opt_string_view(self.error),
            source: self.source@,
        }
    }
}

/// The views of both sides of a decoding result.
pub open spec fn outcome_view(r: Result<RithmicResponse, RithmicResponse>) -> Result<
    ResponseView,
    ResponseView,
> {
    match r {
        Ok(x) => Ok(x@),
        Err(x) => Err(x@),
    }
}

/// How the client files a message, by its template id.
pub enum TemplateClass {
    /// The single answer to a request.
    Response,
    /// The answer to a heartbeat; delivered to subscribers.
    HeartbeatResponse,
    /// One of several answers to a request; `rq_handler_rp_code` tells whether more follow.
    MultiResponse,
    /// An answer to a request that may take several answers, sent alone.
    SingleMultiResponse,
    /// A subscription update.
    Update,
    /// The server logs the client out.
    ForcedLogout,
}

pub open spec fn spec_template_class(t: i32) -> Option<TemplateClass> {
    if t == 11 || t == 13 || t == 15 || t == 17 || t == 21 || t == 75 || t == 101 || t == 104 || t == 106 || t == 114 || t == 122 || t == 201 || t == 205 || t == 211 || t == 301 || t == 309 || t == 321 || t == 323 || t == 325 || t == 327 || t == 333 || t == 335 || t == 337 || t == 345 || t == 347 || t == 401 || t == 403 || t == 505 || t == 509 || t == 3501 || t == 3503 || t == 3507 || t == 3509 {
        Some(TemplateClass::Response)
    } else     if t == 19 {
        Some(TemplateClass::HeartbeatResponse)
    } else     if t == 103 || t == 108 || t == 110 || t == 112 || t == 116 || t == 120 || t == 203 || t == 207 || t == 209 || t == 303 || t == 305 || t == 307 || t == 311 || t == 313 || t == 315 || t == 317 || t == 319 || t == 329 || t == 331 || t == 339 || t == 341 || t == 343 || t == 349 || t == 501 || t == 503 || t == 507 || t == 3505 {
        Some(TemplateClass::MultiResponse)
    } else     if t == 118 {
        Some(TemplateClass::SingleMultiResponse)
    } else     if t == 76 || t == 150 || t == 151 || t == 152 || t == 153 || t == 154 || t == 155 || t == 156 || t == 157 || t == 158 || t == 159 || t == 160 || t == 161 || t == 162 || t == 163 || t == 250 || t == 251 || t == 350 || t == 351 || t == 352 || t == 353 || t == 354 || t == 355 || t == 356 || t == 450 || t == 451 {
        Some(TemplateClass::Update)
    } else     if t == 77 {
        Some(TemplateClass::ForcedLogout)
    } else {
        None
    }
}

/// How the client files a message with template id `t`; `None` for a
/// template id that it does not know.
pub fn template_class(t: i32) -> (r: Option<TemplateClass>)
    ensures
        r == spec_template_class(t),
{
    match t {
        11 | 13 | 15 | 17 | 21 | 75 | 101 | 104 | 106 | 114 | 122 | 201 | 205 | 211 | 301 | 309 | 321 | 323 | 325 | 327 | 333 | 335 | 337 | 345 | 347 | 401 | 403 | 505 | 509 | 3501 | 3503 | 3507 | 3509 => Some(TemplateClass::Response),
        19 => Some(TemplateClass::HeartbeatResponse),
        103 | 108 | 110 | 112 | 116 | 120 | 203 | 207 | 209 | 303 | 305 | 307 | 311 | 313 | 315 | 317 | 319 | 329 | 331 | 339 | 341 | 343 | 349 | 501 | 503 | 507 | 3505 => Some(TemplateClass::MultiResponse),
        118 => Some(TemplateClass::SingleMultiResponse),
        76 | 150 | 151 | 152 | 153 | 154 | 155 | 156 | 157 | 158 | 159 | 160 | 161 | 162 | 163 | 250 | 251 | 350 | 351 | 352 | 353 | 354 | 355 | 356 | 450 | 451 => Some(TemplateClass::Update),
        77 => Some(TemplateClass::ForcedLogout),
        _ => None,
    }
}

pub proof fn lemma_known_template(t: i32)
    ensures
        is_known_template(t) <==> spec_template_class(t) is Some,
{
}

/// The response code that reports success.
pub open spec fn zero_code() -> Seq<char> {
    seq!['0']
}

/// Whether the first `rq_handler_rp_code` entry reports that more responses follow.
pub open spec fn spec_has_multiple(rq_handler_rp_code: Seq<Seq<char>>) -> bool {
    rq_handler_rp_code.len() > 0 && rq_handler_rp_code[0] == zero_code()
}

/// The error that a response code reports: none for an empty code or a lone
/// `"0"`; the description that follows the code where there is one; and the
/// code itself for a lone failure code without a description.
pub open spec fn spec_get_error(rp_code: Seq<Seq<char>>) -> Option<Seq<char>> {
    if rp_code.len() == 0 || (rp_code.len() == 1 && rp_code[0] == zero_code()) {
        None
    } else if rp_code.len() == 1 {
        Some(rp_code[0])
    } else {
        Some(rp_code[1])
    }
}

fn is_zero_code(s: &String) -> (r: bool)
    ensures
        r == (s@ == zero_code()),
{
    let t = s.as_str();
    if t.unicode_len() != 1 {
        return false;
    }
    let c = t.get_char(0);
    proof {
        if c == '0' {
            assert(s@ =~= zero_code());
        }
    }
    c == '0'
}

/// Whether a multi-response request has more responses to come: the first
/// `rq_handler_rp_code` entry is `"0"`.
pub fn has_multiple(rq_handler_rp_code: &[String]) -> (r: bool)
    ensures
        r == spec_has_multiple(rq_handler_rp_code@.map_values(|s: String| s@)),
{
    !rq_handler_rp_code.is_empty() && is_zero_code(&rq_handler_rp_code[0])
}

/// The error that a response code reports: `None` for an empty code or a lone
/// `"0"`, the description in the second entry where there is one, and the
/// code itself for a lone failure code.
pub fn get_error(rp_code: &[String]) -> (r: Option<String>)
    ensures
        opt_string_view(r) == spec_get_error(rp_code@.map_values(|s: String| s@)),
{
    if rp_code.is_empty() || (rp_code.len() == 1 && is_zero_code(&rp_code[0])) {
        None
    } else if rp_code.len() == 1 {
        Some(rp_code[0].clone())
    } else {
        Some(rp_code[1].clone())
    }
}

/// The error that a response carries, if any.
pub fn check_message_error(message: &RithmicResponse) -> (r: Option<String>)
    ensures
        opt_string_view(r) == message@.error,
{
    match &message.error {
        Some(e) => Some(e.clone()),
        None => None,
    }
}

/// The decimal digit `d`.
pub open spec fn digit_char(d: nat) -> char {
    if d == 0 { '0' }
    else if d == 1 { '1' }
    else if d == 2 { '2' }
    else if d == 3 { '3' }
    else if d == 4 { '4' }
    else if d == 5 { '5' }
    else if d == 6 { '6' }
    else if d == 7 { '7' }
    else if d == 8 { '8' }
    else { '9' }
}

/// The decimal digits of `n`, most significant first.
pub open spec fn nat_decimal(n: nat) -> Seq<char>
    decreases n,
{
    if n < 10 {
        seq![digit_char(n)]
    } else {
        nat_decimal(n / 10).push(digit_char(n % 10))
    }
}

/// The decimal text of `x`, with a leading `-` when it is negative.
pub open spec fn int_decimal(x: int) -> Seq<char> {
    if x < 0 {
        seq!['-'] + nat_decimal((-x) as nat)
    } else {
        nat_decimal(x as nat)
    }
}

/// The text of the decimal digit `d`.
fn digit_text(d: u64) -> (r: &'static str)
    requires
        d < 10,
    ensures
        r@ == seq![digit_char(d as nat)],
{
    proof {
        reveal_strlit("0");
        reveal_strlit("1");
        reveal_strlit("2");
        reveal_strlit("3");
        reveal_strlit("4");
        reveal_strlit("5");
        reveal_strlit("6");
        reveal_strlit("7");
        reveal_strlit("8");
        reveal_strlit("9");
    }
    if d == 0 { "0" }
    else if d == 1 { "1" }
    else if d == 2 { "2" }
    else if d == 3 { "3" }
    else if d == 4 { "4" }
    else if d == 5 { "5" }
    else if d == 6 { "6" }
    else if d == 7 { "7" }
    else if d == 8 { "8" }
    else { "9" }
}

/// Appends the decimal digits of `n` to `s`.
fn append_decimal(s: &mut String, n: u64)
    ensures
        final(s)@ == old(s)@ + nat_decimal(n as nat),
    decreases n,
{
    if n >= 10 {
        append_decimal(s, n / 10);
    }
    let ghost before = s@;
    s.append(digit_text(n % 10));
    proof {
        if n >= 10 {
            assert(nat_decimal(n as nat) == nat_decimal((n / 10) as nat).push(digit_char((n % 10) as nat)));
            assert(s@ =~= old(s)@ + nat_decimal(n as nat));
        } else {
            assert(s@ =~= old(s)@ + nat_decimal(n as nat));
        }
    }
}

/// The decimal text of `x`, with a leading `-` when it is negative.
fn i32_decimal(x: i32) -> (r: String)
    ensures
        r@ == int_decimal(x as int),
{
    let mut s = String::new();
    if x < 0 {
        proof {
            reveal_strlit("-");
        }
        s.append("-");
        let magnitude: u64 = (0i64 - (x as i64)) as u64;
        append_decimal(&mut s, magnitude);
        proof {
            assert(s@ =~= int_decimal(x as int));
        }
    } else {
        append_decimal(&mut s, x as u64);
        proof {
            assert(s@ =~= int_decimal(x as int));
        }
    }
    s
}

/// Formats a `prost::DecodeError` with its `Display`.
///
/// Nothing is claimed of the text: a `DecodeError` is opaque here, with no
/// value by which its text could be named.
#[verifier::external_body]
fn decode_error_text(e: &DecodeError) -> String {
    e.to_string()
}

/// Whether a response of class `c` carries a response code that is read.
pub open spec fn class_reads_rp_code(c: TemplateClass) -> bool {
    !(c is Update || c is ForcedLogout)
}

/// Whether a response of class `c` is an update, delivered to subscribers.
pub open spec fn class_is_update(c: TemplateClass) -> bool {
    c is Update || c is ForcedLogout || c is HeartbeatResponse
}

/// The first entry of `s`, or the empty text.
pub open spec fn first_or_empty(s: Seq<Seq<char>>) -> Seq<char> {
    if s.len() > 0 { s[0] } else { Seq::empty() }
}

/// The response that a decoded message with template id `t` of class `class`
/// becomes, as the plant named `source` files it.
pub open spec fn decoded_response(
    source: Seq<char>,
    t: i32,
    class: TemplateClass,
    env: EnvelopeView,
    raw: Seq<u8>,
) -> ResponseView {
    ResponseView {
        request_id: if class_is_update(class) { Seq::empty() } else { first_or_empty(env.user_msg) },
        kind: MessageKind::Template(t),
        payload: Some(PayloadView { envelope: env, raw }),
        is_update: class_is_update(class),
        has_more: class is MultiResponse && spec_has_multiple(env.rq_handler_rp_code),
        multi_response: class is MultiResponse || class is SingleMultiResponse,
        error: if class is ForcedLogout {
            Some("forced logout from server"@)
        } else if class is Update {
            None
        } else {
            spec_get_error(env.rp_code)
        },
        source,
    }
}

/// The response to a message whose template id the client does not know.
pub open spec fn unknown_template_response(source: Seq<char>, t: i32) -> ResponseView {
    ResponseView {
        request_id: Seq::empty(),
        kind: MessageKind::Unknown,
        payload: None,
        is_update: false,
        has_more: false,
        multi_response: false,
        error: Some("Unknown message type: template_id="@ + int_decimal(t as int)),
        source,
    }
}

/// Whether `v` is the response to a frame that cannot be decoded: an unknown
/// message whose error starts with `Failed to decode message: `.
pub open spec fn is_decode_failure_response(v: ResponseView, source: Seq<char>) -> bool {
    &&& v.request_id == Seq::<char>::empty()
    &&& v.kind == MessageKind::Unknown
    &&& v.payload is None
    &&& !v.is_update && !v.has_more && !v.multi_response
    &&& v.source == source
    &&& v.error matches Some(e) && e.len() >= "Failed to decode message: "@.len()
        && e.take("Failed to decode message: "@.len() as int) == "Failed to decode message: "@
}

/// What becomes of a frame: it cannot be decoded, or it is decoded into a
/// response that is delivered (`Ok`) or reported as an error (`Err`).
pub enum FrameOutcome {
    DecodeFailed,
    Decoded(Result<ResponseView, ResponseView>),
}

/// What becomes of `data`, a four-byte length header followed by an encoded
/// message, when the plant named `source` receives it.
pub open spec fn frame_outcome(source: Seq<char>, data: Seq<u8>) -> FrameOutcome {
    if data.len() < 4 {
        FrameOutcome::DecodeFailed
    } else {
        let payload = data.skip(4);
        match scan_fields(payload, empty_envelope(), false) {
            None => FrameOutcome::DecodeFailed,
            Some(header) => match spec_template_class(header.template_id) {
                None => FrameOutcome::Decoded(
                    Err(unknown_template_response(source, header.template_id)),
                ),
                Some(class) => match scan_fields(payload, empty_envelope(), true) {
                    None => FrameOutcome::DecodeFailed,
                    Some(env) => {
                        let v = decoded_response(source, header.template_id, class, env, payload);
                        if v.error is Some {
                            FrameOutcome::Decoded(Err(v))
                        } else {
                            FrameOutcome::Decoded(Ok(v))
                        }
                    },
                },
            },
        }
    }
}

/// Whether the response `r` is what becomes of a frame with outcome `o`.
pub open spec fn meets_outcome(
    r: Result<RithmicResponse, RithmicResponse>,
    o: FrameOutcome,
    source: Seq<char>,
) -> bool {
    match o {
        FrameOutcome::DecodeFailed => r matches Err(x) && is_decode_failure_response(x@, source),
        FrameOutcome::Decoded(v) => outcome_view(r) == v,
    }
}

/// Receives the frames of one plant.
#[derive(Debug)]
pub struct RithmicReceiverApi {
    pub source: String,
}

impl RithmicReceiverApi {
    fn response_without_message(&self, error: String) -> (r: RithmicResponse)
        ensures
            r@ == (ResponseView {
                request_id: Seq::empty(),
                kind: MessageKind::Unknown,
                payload: None,
                is_update: false,
                has_more: false,
                multi_response: false,
                error: Some(error@),
                source: self.source@,
            }),
    {
        RithmicResponse {
            request_id: String::new(),
            message: RithmicMessage::Unknown,
            is_update: false,
            has_more: false,
            multi_response: false,
            error: Some(error),
            source: self.source.clone(),
        }
    }

    fn decoded(&self, t: i32, class: TemplateClass, env: crate::wire::MessageEnvelope, raw: Vec<u8>) -> (r: RithmicResponse)
        requires
            spec_template_class(t) == Some(class),
        ensures
            r@ == decoded_response(self.source@, t, class, env@, raw@),
    {
        let is_update = match class {
            TemplateClass::Update | TemplateClass::ForcedLogout | TemplateClass::HeartbeatResponse => true,
            _ => false,
        };
        let request_id = if !is_update && env.user_msg.len() > 0 {
            env.user_msg[0].clone()
        } else {
            String::new()
        };
        let error = match class {
            TemplateClass::ForcedLogout => Some(String::from_str("forced logout from server")),
            TemplateClass::Update => None,
            _ => get_error(env.rp_code.as_slice()),
        };
        let has_more = match class {
            TemplateClass::MultiResponse => has_multiple(env.rq_handler_rp_code.as_slice()),
            _ => false,
        };
        let multi_response = match class {
            TemplateClass::MultiResponse | TemplateClass::SingleMultiResponse => true,
            _ => false,
        };
        let payload = RithmicPayload { envelope: env, raw };
        proof {
            lemma_known_template(t);
        }
        let message = match RithmicMessage::from_template(t, payload) {
            Some(m) => m,
            None => RithmicMessage::Unknown,
        };
        RithmicResponse {
            request_id,
            message,
            is_update,
            has_more,
            multi_response,
            error,
            source: self.source.clone(),
        }
    }

    fn decode_failure(&self, detail: String) -> (r: RithmicResponse)
        ensures
            is_decode_failure_response(r@, self.source@),
    {
        let mut text = String::from_str("Failed to decode message: ");
        text.append(detail.as_str());
        let r = self.response_without_message(text);
        proof {
            assert(r@.error->Some_0.take("Failed to decode message: "@.len() as int)
                =~= "Failed to decode message: "@);
        }
        r
    }

    /// Decodes a frame: a four-byte length header followed by an encoded
    /// message.
    ///
    /// The result is `Ok` for a response that carries no error and `Err` for
    /// one that carries an error, for an unknown template id, and for a frame
    /// that cannot be decoded: shorter than its header, or with fields that
    /// cannot be read.
    pub fn buf_to_message(&self, data: &[u8]) -> (r: Result<RithmicResponse, RithmicResponse>)
        ensures
            meets_outcome(r, frame_outcome(self.source@, data@), self.source@),
    {
        if data.len() < 4 {
            return Err(self.decode_failure(String::from_str("frame shorter than its 4-byte header")));
        }
        let header = match decode_envelope(data, 4, false) {
            Ok(h) => h,
            Err(e) => return Err(self.decode_failure(decode_error_text(&e))),
        };
        let t = header.template_id;
        let class = match template_class(t) {
            Some(c) => c,
            None => {
                let mut text = String::from_str("Unknown message type: template_id=");
                let digits = i32_decimal(t);
                text.append(digits.as_str());
                return Err(self.response_without_message(text));
            },
        };
        let env = match decode_envelope(data, 4, true) {
            Ok(e) => e,
            Err(e) => return Err(self.decode_failure(decode_error_text(&e))),
        };
        let raw = slice_to_vec(slice_subrange(data, 4, data.len()));
        proof {
            assert(raw@ =~= data@.skip(4));
        }
        let response = self.decoded(t, class, env, raw);
        if check_message_error(&response).is_some() {
            Err(response)
        } else {
            Ok(response)
        }
    }
}

/// The response, delivered or reported as an error, that a decoded frame becomes.
pub open spec fn decoded_view(o: FrameOutcome) -> Option<ResponseView> {
    match o {
        FrameOutcome::Decoded(Ok(v)) => Some(v),
        FrameOutcome::Decoded(Err(v)) => Some(v),
        _ => None,
    }
}

/// A decoded frame is delivered exactly when its response carries no error;
/// a frame whose template id cannot be decoded is reported with an error.
pub proof fn lemma_delivered_iff_no_error(source: Seq<char>, data: Seq<u8>)
    ensures
        frame_outcome(source, data) matches FrameOutcome::Decoded(Ok(v)) ==> v.error is None,
        frame_outcome(source, data) matches FrameOutcome::Decoded(Err(v)) ==> v.error is Some,
{
}

/// Every response names the plant that received it.
pub proof fn lemma_response_names_plant(source: Seq<char>, data: Seq<u8>)
    ensures
        decoded_view(frame_outcome(source, data)) matches Some(v) ==> v.source == source,
{
}

/// Only a request that may be answered several times says that more answers
/// follow.
pub proof fn lemma_more_only_for_multi_response(source: Seq<char>, data: Seq<u8>)
    ensures
        decoded_view(frame_outcome(source, data)) matches Some(v) ==> (v.has_more
            ==> v.multi_response),
{
}

/// Updates carry an empty request id.
pub proof fn lemma_updates_have_no_request_id(source: Seq<char>, data: Seq<u8>)
    ensures
        frame_outcome(source, data) matches FrameOutcome::Decoded(r) ==> (match r {
            Ok(v) => v.is_update ==> v.request_id == Seq::<char>::empty(),
            Err(v) => v.is_update ==> v.request_id == Seq::<char>::empty(),
        }),
{
}

/// Heartbeat answers and forced logouts are connection health events: they go
/// to the subscribers. A forced logout is always reported as an error.
pub proof fn lemma_health_events_are_updates(source: Seq<char>, data: Seq<u8>)
    ensures
        decoded_view(frame_outcome(source, data)) matches Some(v) ==> ((v.kind
            == MessageKind::Template(19) || v.kind == MessageKind::Template(77)) ==> v.is_update),
        frame_outcome(source, data) matches FrameOutcome::Decoded(r) ==> (decoded_view(
            frame_outcome(source, data),
        )->Some_0.kind == MessageKind::Template(77) ==> r == Err::<ResponseView, ResponseView>(
            decoded_view(frame_outcome(source, data))->Some_0,
        ) && r->Err_0.error == Some("forced logout from server"@)),
{
}

/// A frame with a template id that the client does not know is reported as
/// an unknown message that names the template id.
pub proof fn lemma_unknown_template_reported(source: Seq<char>, data: Seq<u8>)
    requires
        data.len() >= 4,
        scan_fields(data.skip(4), empty_envelope(), false) matches Some(h)
            && !is_known_template(h.template_id),
    ensures
        frame_outcome(source, data) == FrameOutcome::Decoded(
            Err(
                unknown_template_response(
                    source,
                    scan_fields(data.skip(4), empty_envelope(), false)->Some_0.template_id,
                ),
            ),
        ),
{
    lemma_known_template(scan_fields(data.skip(4), empty_envelope(), false)->Some_0.template_id);
}

/// A decoded response carries the message that the frame holds: the message
/// named by its template id, with the frame's fields and encoded bytes; only
/// a frame with an unknown template id becomes a response without a message.
pub proof fn lemma_response_carries_frame(source: Seq<char>, data: Seq<u8>)
    ensures
        decoded_view(frame_outcome(source, data)) matches Some(v) ==> ({
            let header = scan_fields(data.skip(4), empty_envelope(), false)->Some_0;
            &&& v.kind is Template ==> v.kind == MessageKind::Template(header.template_id)
                && is_known_template(header.template_id) && v.payload == Some(
                PayloadView {
                    envelope: scan_fields(data.skip(4), empty_envelope(), true)->Some_0,
                    raw: data.skip(4),
                },
            )
            &&& v.kind is Unknown ==> v.payload is None && !is_known_template(header.template_id)
            &&& (v.kind is Template || v.kind is Unknown)
        }),
{
    if data.len() >= 4 {
        if let Some(h) = scan_fields(data.skip(4), empty_envelope(), false) {
            lemma_known_template(h.template_id);
        }
    }
}

/// What `buf_to_message` returns is `Ok` exactly when the response carries no
/// error, and every response names the plant that received it; no frame makes
/// it fail otherwise.
pub proof fn lemma_result_reflects_error(
    source: Seq<char>,
    data: Seq<u8>,
    r: Result<RithmicResponse, RithmicResponse>,
)
    requires
        meets_outcome(r, frame_outcome(source, data), source),
    ensures
        r matches Ok(x) ==> x@.error is None && x@.source == source,
        r matches Err(x) ==> x@.error is Some && x@.source == source,
{
}

/// A decoded frame is an update exactly when its template id is a
/// subscription update, a forced logout or a heartbeat answer; a request
/// response carries the first `user_msg` entry (or nothing) as its request id;
/// and a multi-response other than template 118 says whether more follow by
/// its first `rq_handler_rp_code` entry.
pub proof fn lemma_flags_follow_template(source: Seq<char>, data: Seq<u8>)
    ensures
        decoded_view(frame_outcome(source, data)) matches Some(v) ==> (v.kind is Template ==> ({
            let t = scan_fields(data.skip(4), empty_envelope(), false)->Some_0.template_id;
            let env = scan_fields(data.skip(4), empty_envelope(), true)->Some_0;
            let c = spec_template_class(t)->Some_0;
            &&& v.kind == MessageKind::Template(t)
            &&& v.is_update <==> (c is Update || c is ForcedLogout || c is HeartbeatResponse)
            &&& !v.is_update ==> v.request_id == first_or_empty(env.user_msg)
            &&& (v.multi_response && t != 118) ==> v.has_more == spec_has_multiple(
                env.rq_handler_rp_code,
            )
        })),
{
}

/// The protocol's table of template ids, response by response: a single
/// answer, one of several answers whose first `rq_handler_rp_code`
/// entry says whether more follow, the depth-by-order answer 118 (several
/// answers, none saying more follow), the heartbeat answer 19, the forced
/// logout 77, and the subscription updates.
pub proof fn lemma_response_flags_by_template(source: Seq<char>, data: Seq<u8>)
    ensures
        decoded_view(frame_outcome(source, data)) matches Some(v) ==> (v.kind matches MessageKind::Template(t) ==> {
            let env = scan_fields(data.skip(4), empty_envelope(), true)->Some_0;
            let single = t == 11 || t == 13 || t == 15 || t == 17 || t == 21 || t == 75 || t == 101
                || t == 104 || t == 106 || t == 114 || t == 122 || t == 201 || t == 205 || t == 211
                || t == 301 || t == 309 || t == 321 || t == 323 || t == 325 || t == 327 || t == 333
                || t == 335 || t == 337 || t == 345 || t == 347 || t == 401 || t == 403 || t == 505
                || t == 509 || t == 3501 || t == 3503 || t == 3507 || t == 3509;
            let multi = t == 103 || t == 108 || t == 110 || t == 112 || t == 116 || t == 120 || t == 203
                || t == 207 || t == 209 || t == 303 || t == 305 || t == 307 || t == 311 || t == 313
                || t == 315 || t == 317 || t == 319 || t == 329 || t == 331 || t == 339 || t == 341
                || t == 343 || t == 349 || t == 501 || t == 503 || t == 507 || t == 3505;
            let update = t == 76 || t == 150 || t == 151 || t == 152 || t == 153 || t == 154 || t == 155
                || t == 156 || t == 157 || t == 158 || t == 159 || t == 160 || t == 161 || t == 162
                || t == 163 || t == 250 || t == 251 || t == 350 || t == 351 || t == 352 || t == 353
                || t == 354 || t == 355 || t == 356 || t == 450 || t == 451;
            &&& single || multi || update || t == 118 || t == 19 || t == 77
            &&& v.multi_response <==> (multi || t == 118)
            &&& v.has_more <==> (multi && env.rq_handler_rp_code.len() > 0
                && env.rq_handler_rp_code[0] == seq!['0'])
            &&& v.is_update <==> (update || t == 19 || t == 77)
            &&& update ==> v.error is None
            &&& t == 77 ==> v.error == Some("forced logout from server"@)
            &&& (single || multi || t == 118 || t == 19) ==> v.error == spec_get_error(env.rp_code)
        }),
{
}

/// How each template id of the protocol is filed; every other id is unknown.
pub proof fn lemma_template_classes(t: i32)
    ensures
        (t == 11 || t == 13 || t == 15 || t == 17 || t == 21 || t == 75 || t == 101
            || t == 104 || t == 106 || t == 114 || t == 122 || t == 201 || t == 205 || t == 211
            || t == 301 || t == 309 || t == 321 || t == 323 || t == 325 || t == 327 || t == 333
            || t == 335 || t == 337 || t == 345 || t == 347 || t == 401 || t == 403 || t == 505
            || t == 509 || t == 3501 || t == 3503 || t == 3507 || t == 3509) <==> spec_template_class(t) == Some(TemplateClass::Response),
        (t == 103 || t == 108 || t == 110 || t == 112 || t == 116 || t == 120 || t == 203
            || t == 207 || t == 209 || t == 303 || t == 305 || t == 307 || t == 311 || t == 313
            || t == 315 || t == 317 || t == 319 || t == 329 || t == 331 || t == 339 || t == 341
            || t == 343 || t == 349 || t == 501 || t == 503 || t == 507 || t == 3505) <==> spec_template_class(t) == Some(TemplateClass::MultiResponse),
        (t == 76 || t == 150 || t == 151 || t == 152 || t == 153 || t == 154 || t == 155
            || t == 156 || t == 157 || t == 158 || t == 159 || t == 160 || t == 161 || t == 162
            || t == 163 || t == 250 || t == 251 || t == 350 || t == 351 || t == 352 || t == 353
            || t == 354 || t == 355 || t == 356 || t == 450 || t == 451) <==> spec_template_class(t) == Some(TemplateClass::Update),
        t == 118 <==> spec_template_class(t) == Some(TemplateClass::SingleMultiResponse),
        t == 19 <==> spec_template_class(t) == Some(TemplateClass::HeartbeatResponse),
        t == 77 <==> spec_template_class(t) == Some(TemplateClass::ForcedLogout),
{
}

} // verus!
