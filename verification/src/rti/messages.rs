//! The messages that the Rithmic plants deliver.

use vstd::prelude::*;
use crate::wire::{EnvelopeView, MessageEnvelope};

verus! {

/// A decoded Rithmic message: the fields that the client reads and the
/// encoded protobuf message itself, from which the other fields of the
/// message can be decoded.
#[derive(Debug, Clone)]
pub struct RithmicPayload {
    pub envelope: MessageEnvelope,
    pub raw: Vec<u8>,
}

/// The value of a [`RithmicPayload`].
#[verifier::ext_equal]
pub struct PayloadView {
    pub envelope: EnvelopeView,
    pub raw: Seq<u8>,
}

impl View for RithmicPayload {
    type V = PayloadView;

    open spec fn view(&self) -> PayloadView {
        PayloadView { envelope: self.envelope@, raw: self.raw@ }
    }
}

/// Which message a [`RithmicMessage`] is: a protocol message by its template
/// id, or one of the events that the client itself raises.
pub enum MessageKind {
    Template(i32),
    HeartbeatTimeout,
    ConnectionError,
    Unknown,
}

#[allow(clippy::large_enum_variant)]
#[derive(Debug, Clone)]
pub enum RithmicMessage {
    ResponseLogin(RithmicPayload),
    ResponseLogout(RithmicPayload),
    ResponseReferenceData(RithmicPayload),
    ResponseRithmicSystemInfo(RithmicPayload),
    ResponseHeartbeat(RithmicPayload),
    ResponseRithmicSystemGatewayInfo(RithmicPayload),
    Reject(RithmicPayload),
    UserAccountUpdate(RithmicPayload),
    ForcedLogout(RithmicPayload),
    ResponseMarketDataUpdate(RithmicPayload),
    ResponseGetInstrumentByUnderlying(RithmicPayload),
    ResponseGetInstrumentByUnderlyingKeys(RithmicPayload),
    ResponseMarketDataUpdateByUnderlying(RithmicPayload),
    ResponseGiveTickSizeTypeTable(RithmicPayload),
    ResponseSearchSymbols(RithmicPayload),
    ResponseProductCodes(RithmicPayload),
    ResponseFrontMonthContract(RithmicPayload),
    ResponseDepthByOrderSnapshot(RithmicPayload),
    ResponseDepthByOrderUpdates(RithmicPayload),
    ResponseGetVolumeAtPrice(RithmicPayload),
    ResponseAuxilliaryReferenceData(RithmicPayload),
    LastTrade(RithmicPayload),
    BestBidOffer(RithmicPayload),
    TradeStatistics(RithmicPayload),
    QuoteStatistics(RithmicPayload),
    IndicatorPrices(RithmicPayload),
    EndOfDayPrices(RithmicPayload),
    OrderBook(RithmicPayload),
    MarketMode(RithmicPayload),
    OpenInterest(RithmicPayload),
    FrontMonthContractUpdate(RithmicPayload),
    DepthByOrder(RithmicPayload),
    DepthByOrderEndEvent(RithmicPayload),
    SymbolMarginRate(RithmicPayload),
    OrderPriceLimits(RithmicPayload),
    ResponseTimeBarUpdate(RithmicPayload),
    ResponseTimeBarReplay(RithmicPayload),
    ResponseTickBarUpdate(RithmicPayload),
    ResponseTickBarReplay(RithmicPayload),
    ResponseVolumeProfileMinuteBars(RithmicPayload),
    ResponseResumeBars(RithmicPayload),
    TimeBar(RithmicPayload),
    TickBar(RithmicPayload),
    ResponseLoginInfo(RithmicPayload),
    ResponseAccountList(RithmicPayload),
    ResponseAccountRmsInfo(RithmicPayload),
    ResponseProductRmsInfo(RithmicPayload),
    ResponseSubscribeForOrderUpdates(RithmicPayload),
    ResponseTradeRoutes(RithmicPayload),
    ResponseNewOrder(RithmicPayload),
    ResponseModifyOrder(RithmicPayload),
    ResponseCancelOrder(RithmicPayload),
    ResponseShowOrderHistoryDates(RithmicPayload),
    ResponseShowOrders(RithmicPayload),
    ResponseShowOrderHistory(RithmicPayload),
    ResponseShowOrderHistorySummary(RithmicPayload),
    ResponseShowOrderHistoryDetail(RithmicPayload),
    ResponseOcoOrder(RithmicPayload),
    ResponseBracketOrder(RithmicPayload),
    ResponseUpdateTargetBracketLevel(RithmicPayload),
    ResponseUpdateStopBracketLevel(RithmicPayload),
    ResponseSubscribeToBracketUpdates(RithmicPayload),
    ResponseShowBrackets(RithmicPayload),
    ResponseShowBracketStops(RithmicPayload),
    ResponseListExchangePermissions(RithmicPayload),
    ResponseLinkOrders(RithmicPayload),
    ResponseCancelAllOrders(RithmicPayload),
    ResponseEasyToBorrowList(RithmicPayload),
    TradeRoute(RithmicPayload),
    RithmicOrderNotification(RithmicPayload),
    ExchangeOrderNotification(RithmicPayload),
    BracketUpdates(RithmicPayload),
    AccountListUpdates(RithmicPayload),
    UpdateEasyToBorrowList(RithmicPayload),
    AccountRmsUpdates(RithmicPayload),
    ResponsePnLPositionUpdates(RithmicPayload),
    ResponsePnLPositionSnapshot(RithmicPayload),
    InstrumentPnLPositionUpdate(RithmicPayload),
    AccountPnLPositionUpdate(RithmicPayload),
    ResponseListUnacceptedAgreements(RithmicPayload),
    ResponseListAcceptedAgreements(RithmicPayload),
    ResponseAcceptAgreement(RithmicPayload),
    ResponseShowAgreement(RithmicPayload),
    ResponseSetRithmicMrktDataSelfCertStatus(RithmicPayload),
    ResponseModifyOrderReferenceData(RithmicPayload),
    ResponseOrderSessionConfig(RithmicPayload),
    ResponseExitPosition(RithmicPayload),
    ResponseReplayExecutions(RithmicPayload),
    ResponseAccountRmsUpdates(RithmicPayload),
    /// A heartbeat failed: the server answered a heartbeat with an error, or
    /// the WebSocket ping was not answered in time.
    HeartbeatTimeout,
    /// WebSocket connection error.
    ///
    /// This variant is sent when a plant's WebSocket connection experiences a fatal error
    /// and the plant is shutting down. The specific error details are in the `error` field
    /// of the response.
    ///
    /// - **ConnectionClosed**: Normal WebSocket closure
    /// - **AlreadyClosed**: Attempted to use an already-closed connection
    /// - **Io errors**: Network/socket I/O failures (e.g., connection lost, timeout)
    /// - **ResetWithoutClosingHandshake**: Connection reset without proper WebSocket close
    /// - **SendAfterClosing**: Attempted to send data after closing frame sent
    /// - **ReceivedAfterClosing**: Received data after closing frame sent
    ///
    /// This message always has `is_update: true` and routes to the subscription
    /// channel; the plant has stopped when it is sent.
    ConnectionError,
    Unknown,
}

/// Which message `m` is.
pub open spec fn message_kind(m: RithmicMessage) -> MessageKind {
    match m {
        RithmicMessage::ResponseLogin(_) => MessageKind::Template(11),
        RithmicMessage::ResponseLogout(_) => MessageKind::Template(13),
        RithmicMessage::ResponseReferenceData(_) => MessageKind::Template(15),
        RithmicMessage::ResponseRithmicSystemInfo(_) => MessageKind::Template(17),
        RithmicMessage::ResponseHeartbeat(_) => MessageKind::Template(19),
        RithmicMessage::ResponseRithmicSystemGatewayInfo(_) => MessageKind::Template(21),
        RithmicMessage::Reject(_) => MessageKind::Template(75),
        RithmicMessage::UserAccountUpdate(_) => MessageKind::Template(76),
        RithmicMessage::ForcedLogout(_) => MessageKind::Template(77),
        RithmicMessage::ResponseMarketDataUpdate(_) => MessageKind::Template(101),
        RithmicMessage::ResponseGetInstrumentByUnderlying(_) => MessageKind::Template(103),
        RithmicMessage::ResponseGetInstrumentByUnderlyingKeys(_) => MessageKind::Template(104),
        RithmicMessage::ResponseMarketDataUpdateByUnderlying(_) => MessageKind::Template(106),
        RithmicMessage::ResponseGiveTickSizeTypeTable(_) => MessageKind::Template(108),
        RithmicMessage::ResponseSearchSymbols(_) => MessageKind::Template(110),
        RithmicMessage::ResponseProductCodes(_) => MessageKind::Template(112),
        RithmicMessage::ResponseFrontMonthContract(_) => MessageKind::Template(114),
        RithmicMessage::ResponseDepthByOrderSnapshot(_) => MessageKind::Template(116),
        RithmicMessage::ResponseDepthByOrderUpdates(_) => MessageKind::Template(118),
        RithmicMessage::ResponseGetVolumeAtPrice(_) => MessageKind::Template(120),
        RithmicMessage::ResponseAuxilliaryReferenceData(_) => MessageKind::Template(122),
        RithmicMessage::LastTrade(_) => MessageKind::Template(150),
        RithmicMessage::BestBidOffer(_) => MessageKind::Template(151),
        RithmicMessage::TradeStatistics(_) => MessageKind::Template(152),
        RithmicMessage::QuoteStatistics(_) => MessageKind::Template(153),
        RithmicMessage::IndicatorPrices(_) => MessageKind::Template(154),
        RithmicMessage::EndOfDayPrices(_) => MessageKind::Template(155),
        RithmicMessage::OrderBook(_) => MessageKind::Template(156),
        RithmicMessage::MarketMode(_) => MessageKind::Template(157),
        RithmicMessage::OpenInterest(_) => MessageKind::Template(158),
        RithmicMessage::FrontMonthContractUpdate(_) => MessageKind::Template(159),
        RithmicMessage::DepthByOrder(_) => MessageKind::Template(160),
        RithmicMessage::DepthByOrderEndEvent(_) => MessageKind::Template(161),
        RithmicMessage::SymbolMarginRate(_) => MessageKind::Template(162),
        RithmicMessage::OrderPriceLimits(_) => MessageKind::Template(163),
        RithmicMessage::ResponseTimeBarUpdate(_) => MessageKind::Template(201),
        RithmicMessage::ResponseTimeBarReplay(_) => MessageKind::Template(203),
        RithmicMessage::ResponseTickBarUpdate(_) => MessageKind::Template(205),
        RithmicMessage::ResponseTickBarReplay(_) => MessageKind::Template(207),
        RithmicMessage::ResponseVolumeProfileMinuteBars(_) => MessageKind::Template(209),
        RithmicMessage::ResponseResumeBars(_) => MessageKind::Template(211),
        RithmicMessage::TimeBar(_) => MessageKind::Template(250),
        RithmicMessage::TickBar(_) => MessageKind::Template(251),
        RithmicMessage::ResponseLoginInfo(_) => MessageKind::Template(301),
        RithmicMessage::ResponseAccountList(_) => MessageKind::Template(303),
        RithmicMessage::ResponseAccountRmsInfo(_) => MessageKind::Template(305),
        RithmicMessage::ResponseProductRmsInfo(_) => MessageKind::Template(307),
        RithmicMessage::ResponseSubscribeForOrderUpdates(_) => MessageKind::Template(309),
        RithmicMessage::ResponseTradeRoutes(_) => MessageKind::Template(311),
        RithmicMessage::ResponseNewOrder(_) => MessageKind::Template(313),
        RithmicMessage::ResponseModifyOrder(_) => MessageKind::Template(315),
        RithmicMessage::ResponseCancelOrder(_) => MessageKind::Template(317),
        RithmicMessage::ResponseShowOrderHistoryDates(_) => MessageKind::Template(319),
        RithmicMessage::ResponseShowOrders(_) => MessageKind::Template(321),
        RithmicMessage::ResponseShowOrderHistory(_) => MessageKind::Template(323),
        RithmicMessage::ResponseShowOrderHistorySummary(_) => MessageKind::Template(325),
        RithmicMessage::ResponseShowOrderHistoryDetail(_) => MessageKind::Template(327),
        RithmicMessage::ResponseOcoOrder(_) => MessageKind::Template(329),
        RithmicMessage::ResponseBracketOrder(_) => MessageKind::Template(331),
        RithmicMessage::ResponseUpdateTargetBracketLevel(_) => MessageKind::Template(333),
        RithmicMessage::ResponseUpdateStopBracketLevel(_) => MessageKind::Template(335),
        RithmicMessage::ResponseSubscribeToBracketUpdates(_) => MessageKind::Template(337),
        RithmicMessage::ResponseShowBrackets(_) => MessageKind::Template(339),
        RithmicMessage::ResponseShowBracketStops(_) => MessageKind::Template(341),
        RithmicMessage::ResponseListExchangePermissions(_) => MessageKind::Template(343),
        RithmicMessage::ResponseLinkOrders(_) => MessageKind::Template(345),
        RithmicMessage::ResponseCancelAllOrders(_) => MessageKind::Template(347),
        RithmicMessage::ResponseEasyToBorrowList(_) => MessageKind::Template(349),
        RithmicMessage::TradeRoute(_) => MessageKind::Template(350),
        RithmicMessage::RithmicOrderNotification(_) => MessageKind::Template(351),
        RithmicMessage::ExchangeOrderNotification(_) => MessageKind::Template(352),
        RithmicMessage::BracketUpdates(_) => MessageKind::Template(353),
        RithmicMessage::AccountListUpdates(_) => MessageKind::Template(354),
        RithmicMessage::UpdateEasyToBorrowList(_) => MessageKind::Template(355),
        RithmicMessage::AccountRmsUpdates(_) => MessageKind::Template(356),
        RithmicMessage::ResponsePnLPositionUpdates(_) => MessageKind::Template(401),
        RithmicMessage::ResponsePnLPositionSnapshot(_) => MessageKind::Template(403),
        RithmicMessage::InstrumentPnLPositionUpdate(_) => MessageKind::Template(450),
        RithmicMessage::AccountPnLPositionUpdate(_) => MessageKind::Template(451),
        RithmicMessage::ResponseListUnacceptedAgreements(_) => MessageKind::Template(501),
        RithmicMessage::ResponseListAcceptedAgreements(_) => MessageKind::Template(503),
        RithmicMessage::ResponseAcceptAgreement(_) => MessageKind::Template(505),
        RithmicMessage::ResponseShowAgreement(_) => MessageKind::Template(507),
        RithmicMessage::ResponseSetRithmicMrktDataSelfCertStatus(_) => MessageKind::Template(509),
        RithmicMessage::ResponseModifyOrderReferenceData(_) => MessageKind::Template(3501),
        RithmicMessage::ResponseOrderSessionConfig(_) => MessageKind::Template(3503),
        RithmicMessage::ResponseExitPosition(_) => MessageKind::Template(3505),
        RithmicMessage::ResponseReplayExecutions(_) => MessageKind::Template(3507),
        RithmicMessage::ResponseAccountRmsUpdates(_) => MessageKind::Template(3509),
        RithmicMessage::HeartbeatTimeout => MessageKind::HeartbeatTimeout,
        RithmicMessage::ConnectionError => MessageKind::ConnectionError,
        RithmicMessage::Unknown => MessageKind::Unknown,
    }
}

/// The payload that `m` carries, if it is a protocol message.
pub open spec fn message_payload(m: RithmicMessage) -> Option<RithmicPayload> {
    match m {
        RithmicMessage::ResponseLogin(p)
        | RithmicMessage::ResponseLogout(p)
        | RithmicMessage::ResponseReferenceData(p)
        | RithmicMessage::ResponseRithmicSystemInfo(p)
        | RithmicMessage::ResponseHeartbeat(p)
        | RithmicMessage::ResponseRithmicSystemGatewayInfo(p)
        | RithmicMessage::Reject(p)
        | RithmicMessage::UserAccountUpdate(p)
        | RithmicMessage::ForcedLogout(p)
        | RithmicMessage::ResponseMarketDataUpdate(p)
        | RithmicMessage::ResponseGetInstrumentByUnderlying(p)
        | RithmicMessage::ResponseGetInstrumentByUnderlyingKeys(p)
        | RithmicMessage::ResponseMarketDataUpdateByUnderlying(p)
        | RithmicMessage::ResponseGiveTickSizeTypeTable(p)
        | RithmicMessage::ResponseSearchSymbols(p)
        | RithmicMessage::ResponseProductCodes(p)
        | RithmicMessage::ResponseFrontMonthContract(p)
        | RithmicMessage::ResponseDepthByOrderSnapshot(p)
        | RithmicMessage::ResponseDepthByOrderUpdates(p)
        | RithmicMessage::ResponseGetVolumeAtPrice(p)
        | RithmicMessage::ResponseAuxilliaryReferenceData(p)
        | RithmicMessage::LastTrade(p)
        | RithmicMessage::BestBidOffer(p)
        | RithmicMessage::TradeStatistics(p)
        | RithmicMessage::QuoteStatistics(p)
        | RithmicMessage::IndicatorPrices(p)
        | RithmicMessage::EndOfDayPrices(p)
        | RithmicMessage::OrderBook(p)
        | RithmicMessage::MarketMode(p)
        | RithmicMessage::OpenInterest(p)
        | RithmicMessage::FrontMonthContractUpdate(p)
        | RithmicMessage::DepthByOrder(p)
        | RithmicMessage::DepthByOrderEndEvent(p)
        | RithmicMessage::SymbolMarginRate(p)
        | RithmicMessage::OrderPriceLimits(p)
        | RithmicMessage::ResponseTimeBarUpdate(p)
        | RithmicMessage::ResponseTimeBarReplay(p)
        | RithmicMessage::ResponseTickBarUpdate(p)
        | RithmicMessage::ResponseTickBarReplay(p)
        | RithmicMessage::ResponseVolumeProfileMinuteBars(p)
        | RithmicMessage::ResponseResumeBars(p)
        | RithmicMessage::TimeBar(p)
        | RithmicMessage::TickBar(p)
        | RithmicMessage::ResponseLoginInfo(p)
        | RithmicMessage::ResponseAccountList(p)
        | RithmicMessage::ResponseAccountRmsInfo(p)
        | RithmicMessage::ResponseProductRmsInfo(p)
        | RithmicMessage::ResponseSubscribeForOrderUpdates(p)
        | RithmicMessage::ResponseTradeRoutes(p)
        | RithmicMessage::ResponseNewOrder(p)
        | RithmicMessage::ResponseModifyOrder(p)
        | RithmicMessage::ResponseCancelOrder(p)
        | RithmicMessage::ResponseShowOrderHistoryDates(p)
        | RithmicMessage::ResponseShowOrders(p)
        | RithmicMessage::ResponseShowOrderHistory(p)
        | RithmicMessage::ResponseShowOrderHistorySummary(p)
        | RithmicMessage::ResponseShowOrderHistoryDetail(p)
        | RithmicMessage::ResponseOcoOrder(p)
        | RithmicMessage::ResponseBracketOrder(p)
        | RithmicMessage::ResponseUpdateTargetBracketLevel(p)
        | RithmicMessage::ResponseUpdateStopBracketLevel(p)
        | RithmicMessage::ResponseSubscribeToBracketUpdates(p)
        | RithmicMessage::ResponseShowBrackets(p)
        | RithmicMessage::ResponseShowBracketStops(p)
        | RithmicMessage::ResponseListExchangePermissions(p)
        | RithmicMessage::ResponseLinkOrders(p)
        | RithmicMessage::ResponseCancelAllOrders(p)
        | RithmicMessage::ResponseEasyToBorrowList(p)
        | RithmicMessage::TradeRoute(p)
        | RithmicMessage::RithmicOrderNotification(p)
        | RithmicMessage::ExchangeOrderNotification(p)
        | RithmicMessage::BracketUpdates(p)
        | RithmicMessage::AccountListUpdates(p)
        | RithmicMessage::UpdateEasyToBorrowList(p)
        | RithmicMessage::AccountRmsUpdates(p)
        | RithmicMessage::ResponsePnLPositionUpdates(p)
        | RithmicMessage::ResponsePnLPositionSnapshot(p)
        | RithmicMessage::InstrumentPnLPositionUpdate(p)
        | RithmicMessage::AccountPnLPositionUpdate(p)
        | RithmicMessage::ResponseListUnacceptedAgreements(p)
        | RithmicMessage::ResponseListAcceptedAgreements(p)
        | RithmicMessage::ResponseAcceptAgreement(p)
        | RithmicMessage::ResponseShowAgreement(p)
        | RithmicMessage::ResponseSetRithmicMrktDataSelfCertStatus(p)
        | RithmicMessage::ResponseModifyOrderReferenceData(p)
        | RithmicMessage::ResponseOrderSessionConfig(p)
        | RithmicMessage::ResponseExitPosition(p)
        | RithmicMessage::ResponseReplayExecutions(p)
        | RithmicMessage::ResponseAccountRmsUpdates(p) => Some(p),
        _ => None,
    }
}

/// Whether `t` is the template id of a message that the client knows.
pub open spec fn is_known_template(t: i32) -> bool {
    t == 11
    || t == 13
    || t == 15
    || t == 17
    || t == 19
    || t == 21
    || t == 75
    || t == 76
    || t == 77
    || t == 101
    || t == 103
    || t == 104
    || t == 106
    || t == 108
    || t == 110
    || t == 112
    || t == 114
    || t == 116
    || t == 118
    || t == 120
    || t == 122
    || t == 150
    || t == 151
    || t == 152
    || t == 153
    || t == 154
    || t == 155
    || t == 156
    || t == 157
    || t == 158
    || t == 159
    || t == 160
    || t == 161
    || t == 162
    || t == 163
    || t == 201
    || t == 203
    || t == 205
    || t == 207
    || t == 209
    || t == 211
    || t == 250
    || t == 251
    || t == 301
    || t == 303
    || t == 305
    || t == 307
    || t == 309
    || t == 311
    || t == 313
    || t == 315
    || t == 317
    || t == 319
    || t == 321
    || t == 323
    || t == 325
    || t == 327
    || t == 329
    || t == 331
    || t == 333
    || t == 335
    || t == 337
    || t == 339
    || t == 341
    || t == 343
    || t == 345
    || t == 347
    || t == 349
    || t == 350
    || t == 351
    || t == 352
    || t == 353
    || t == 354
    || t == 355
    || t == 356
    || t == 401
    || t == 403
    || t == 450
    || t == 451
    || t == 501
    || t == 503
    || t == 505
    || t == 507
    || t == 509
    || t == 3501
    || t == 3503
    || t == 3505
    || t == 3507
    || t == 3509
}

impl RithmicMessage {
    /// The protocol message with template id `template_id` that carries
    /// `payload`, or `None` for a template id that the client does not know.
    pub fn from_template(template_id: i32, payload: RithmicPayload) -> (r: Option<RithmicMessage>)
        ensures
            r is Some <==> is_known_template(template_id),
            r matches Some(m) ==> message_kind(m) == MessageKind::Template(template_id)
                && message_payload(m) == Some(payload),
    {
        match template_id {
            11 => Some(RithmicMessage::ResponseLogin(payload)),
            13 => Some(RithmicMessage::ResponseLogout(payload)),
            15 => Some(RithmicMessage::ResponseReferenceData(payload)),
            17 => Some(RithmicMessage::ResponseRithmicSystemInfo(payload)),
            19 => Some(RithmicMessage::ResponseHeartbeat(payload)),
            21 => Some(RithmicMessage::ResponseRithmicSystemGatewayInfo(payload)),
            75 => Some(RithmicMessage::Reject(payload)),
            76 => Some(RithmicMessage::UserAccountUpdate(payload)),
            77 => Some(RithmicMessage::ForcedLogout(payload)),
            101 => Some(RithmicMessage::ResponseMarketDataUpdate(payload)),
            103 => Some(RithmicMessage::ResponseGetInstrumentByUnderlying(payload)),
            104 => Some(RithmicMessage::ResponseGetInstrumentByUnderlyingKeys(payload)),
            106 => Some(RithmicMessage::ResponseMarketDataUpdateByUnderlying(payload)),
            108 => Some(RithmicMessage::ResponseGiveTickSizeTypeTable(payload)),
            110 => Some(RithmicMessage::ResponseSearchSymbols(payload)),
            112 => Some(RithmicMessage::ResponseProductCodes(payload)),
            114 => Some(RithmicMessage::ResponseFrontMonthContract(payload)),
            116 => Some(RithmicMessage::ResponseDepthByOrderSnapshot(payload)),
            118 => Some(RithmicMessage::ResponseDepthByOrderUpdates(payload)),
            120 => Some(RithmicMessage::ResponseGetVolumeAtPrice(payload)),
            122 => Some(RithmicMessage::ResponseAuxilliaryReferenceData(payload)),
            150 => Some(RithmicMessage::LastTrade(payload)),
            151 => Some(RithmicMessage::BestBidOffer(payload)),
            152 => Some(RithmicMessage::TradeStatistics(payload)),
            153 => Some(RithmicMessage::QuoteStatistics(payload)),
            154 => Some(RithmicMessage::IndicatorPrices(payload)),
            155 => Some(RithmicMessage::EndOfDayPrices(payload)),
            156 => Some(RithmicMessage::OrderBook(payload)),
            157 => Some(RithmicMessage::MarketMode(payload)),
            158 => Some(RithmicMessage::OpenInterest(payload)),
            159 => Some(RithmicMessage::FrontMonthContractUpdate(payload)),
            160 => Some(RithmicMessage::DepthByOrder(payload)),
            161 => Some(RithmicMessage::DepthByOrderEndEvent(payload)),
            162 => Some(RithmicMessage::SymbolMarginRate(payload)),
            163 => Some(RithmicMessage::OrderPriceLimits(payload)),
            201 => Some(RithmicMessage::ResponseTimeBarUpdate(payload)),
            203 => Some(RithmicMessage::ResponseTimeBarReplay(payload)),
            205 => Some(RithmicMessage::ResponseTickBarUpdate(payload)),
            207 => Some(RithmicMessage::ResponseTickBarReplay(payload)),
            209 => Some(RithmicMessage::ResponseVolumeProfileMinuteBars(payload)),
            211 => Some(RithmicMessage::ResponseResumeBars(payload)),
            250 => Some(RithmicMessage::TimeBar(payload)),
            251 => Some(RithmicMessage::TickBar(payload)),
            301 => Some(RithmicMessage::ResponseLoginInfo(payload)),
            303 => Some(RithmicMessage::ResponseAccountList(payload)),
            305 => Some(RithmicMessage::ResponseAccountRmsInfo(payload)),
            307 => Some(RithmicMessage::ResponseProductRmsInfo(payload)),
            309 => Some(RithmicMessage::ResponseSubscribeForOrderUpdates(payload)),
            311 => Some(RithmicMessage::ResponseTradeRoutes(payload)),
            313 => Some(RithmicMessage::ResponseNewOrder(payload)),
            315 => Some(RithmicMessage::ResponseModifyOrder(payload)),
            317 => Some(RithmicMessage::ResponseCancelOrder(payload)),
            319 => Some(RithmicMessage::ResponseShowOrderHistoryDates(payload)),
            321 => Some(RithmicMessage::ResponseShowOrders(payload)),
            323 => Some(RithmicMessage::ResponseShowOrderHistory(payload)),
            325 => Some(RithmicMessage::ResponseShowOrderHistorySummary(payload)),
            327 => Some(RithmicMessage::ResponseShowOrderHistoryDetail(payload)),
            329 => Some(RithmicMessage::ResponseOcoOrder(payload)),
            331 => Some(RithmicMessage::ResponseBracketOrder(payload)),
            333 => Some(RithmicMessage::ResponseUpdateTargetBracketLevel(payload)),
            335 => Some(RithmicMessage::ResponseUpdateStopBracketLevel(payload)),
            337 => Some(RithmicMessage::ResponseSubscribeToBracketUpdates(payload)),
            339 => Some(RithmicMessage::ResponseShowBrackets(payload)),
            341 => Some(RithmicMessage::ResponseShowBracketStops(payload)),
            343 => Some(RithmicMessage::ResponseListExchangePermissions(payload)),
            345 => Some(RithmicMessage::ResponseLinkOrders(payload)),
            347 => Some(RithmicMessage::ResponseCancelAllOrders(payload)),
            349 => Some(RithmicMessage::ResponseEasyToBorrowList(payload)),
            350 => Some(RithmicMessage::TradeRoute(payload)),
            351 => Some(RithmicMessage::RithmicOrderNotification(payload)),
            352 => Some(RithmicMessage::ExchangeOrderNotification(payload)),
            353 => Some(RithmicMessage::BracketUpdates(payload)),
            354 => Some(RithmicMessage::AccountListUpdates(payload)),
            355 => Some(RithmicMessage::UpdateEasyToBorrowList(payload)),
            356 => Some(RithmicMessage::AccountRmsUpdates(payload)),
            401 => Some(RithmicMessage::ResponsePnLPositionUpdates(payload)),
            403 => Some(RithmicMessage::ResponsePnLPositionSnapshot(payload)),
            450 => Some(RithmicMessage::InstrumentPnLPositionUpdate(payload)),
            451 => Some(RithmicMessage::AccountPnLPositionUpdate(payload)),
            501 => Some(RithmicMessage::ResponseListUnacceptedAgreements(payload)),
            503 => Some(RithmicMessage::ResponseListAcceptedAgreements(payload)),
            505 => Some(RithmicMessage::ResponseAcceptAgreement(payload)),
            507 => Some(RithmicMessage::ResponseShowAgreement(payload)),
            509 => Some(RithmicMessage::ResponseSetRithmicMrktDataSelfCertStatus(payload)),
            3501 => Some(RithmicMessage::ResponseModifyOrderReferenceData(payload)),
            3503 => Some(RithmicMessage::ResponseOrderSessionConfig(payload)),
            3505 => Some(RithmicMessage::ResponseExitPosition(payload)),
            3507 => Some(RithmicMessage::ResponseReplayExecutions(payload)),
            3509 => Some(RithmicMessage::ResponseAccountRmsUpdates(payload)),
            _ => None,
        }
    }

    /// The payload of a protocol message; `None` for the events that the
    /// client raises itself.
    pub fn payload(&self) -> (r: Option<&RithmicPayload>)
        ensures
            r matches Some(p) ==> message_payload(*self) == Some(*p),
            r is None <==> message_payload(*self) is None,
    {
        match self {
            RithmicMessage::ResponseLogin(p)
            | RithmicMessage::ResponseLogout(p)
            | RithmicMessage::ResponseReferenceData(p)
            | RithmicMessage::ResponseRithmicSystemInfo(p)
            | RithmicMessage::ResponseHeartbeat(p)
            | RithmicMessage::ResponseRithmicSystemGatewayInfo(p)
            | RithmicMessage::Reject(p)
            | RithmicMessage::UserAccountUpdate(p)
            | RithmicMessage::ForcedLogout(p)
            | RithmicMessage::ResponseMarketDataUpdate(p)
            | RithmicMessage::ResponseGetInstrumentByUnderlying(p)
            | RithmicMessage::ResponseGetInstrumentByUnderlyingKeys(p)
            | RithmicMessage::ResponseMarketDataUpdateByUnderlying(p)
            | RithmicMessage::ResponseGiveTickSizeTypeTable(p)
            | RithmicMessage::ResponseSearchSymbols(p)
            | RithmicMessage::ResponseProductCodes(p)
            | RithmicMessage::ResponseFrontMonthContract(p)
            | RithmicMessage::ResponseDepthByOrderSnapshot(p)
            | RithmicMessage::ResponseDepthByOrderUpdates(p)
            | RithmicMessage::ResponseGetVolumeAtPrice(p)
            | RithmicMessage::ResponseAuxilliaryReferenceData(p)
            | RithmicMessage::LastTrade(p)
            | RithmicMessage::BestBidOffer(p)
            | RithmicMessage::TradeStatistics(p)
            | RithmicMessage::QuoteStatistics(p)
            | RithmicMessage::IndicatorPrices(p)
            | RithmicMessage::EndOfDayPrices(p)
            | RithmicMessage::OrderBook(p)
            | RithmicMessage::MarketMode(p)
            | RithmicMessage::OpenInterest(p)
            | RithmicMessage::FrontMonthContractUpdate(p)
            | RithmicMessage::DepthByOrder(p)
            | RithmicMessage::DepthByOrderEndEvent(p)
            | RithmicMessage::SymbolMarginRate(p)
            | RithmicMessage::OrderPriceLimits(p)
            | RithmicMessage::ResponseTimeBarUpdate(p)
            | RithmicMessage::ResponseTimeBarReplay(p)
            | RithmicMessage::ResponseTickBarUpdate(p)
            | RithmicMessage::ResponseTickBarReplay(p)
            | RithmicMessage::ResponseVolumeProfileMinuteBars(p)
            | RithmicMessage::ResponseResumeBars(p)
            | RithmicMessage::TimeBar(p)
            | RithmicMessage::TickBar(p)
            | RithmicMessage::ResponseLoginInfo(p)
            | RithmicMessage::ResponseAccountList(p)
            | RithmicMessage::ResponseAccountRmsInfo(p)
            | RithmicMessage::ResponseProductRmsInfo(p)
            | RithmicMessage::ResponseSubscribeForOrderUpdates(p)
            | RithmicMessage::ResponseTradeRoutes(p)
            | RithmicMessage::ResponseNewOrder(p)
            | RithmicMessage::ResponseModifyOrder(p)
            | RithmicMessage::ResponseCancelOrder(p)
            | RithmicMessage::ResponseShowOrderHistoryDates(p)
            | RithmicMessage::ResponseShowOrders(p)
            | RithmicMessage::ResponseShowOrderHistory(p)
            | RithmicMessage::ResponseShowOrderHistorySummary(p)
            | RithmicMessage::ResponseShowOrderHistoryDetail(p)
            | RithmicMessage::ResponseOcoOrder(p)
            | RithmicMessage::ResponseBracketOrder(p)
            | RithmicMessage::ResponseUpdateTargetBracketLevel(p)
            | RithmicMessage::ResponseUpdateStopBracketLevel(p)
            | RithmicMessage::ResponseSubscribeToBracketUpdates(p)
            | RithmicMessage::ResponseShowBrackets(p)
            | RithmicMessage::ResponseShowBracketStops(p)
            | RithmicMessage::ResponseListExchangePermissions(p)
            | RithmicMessage::ResponseLinkOrders(p)
            | RithmicMessage::ResponseCancelAllOrders(p)
            | RithmicMessage::ResponseEasyToBorrowList(p)
            | RithmicMessage::TradeRoute(p)
            | RithmicMessage::RithmicOrderNotification(p)
            | RithmicMessage::ExchangeOrderNotification(p)
            | RithmicMessage::BracketUpdates(p)
            | RithmicMessage::AccountListUpdates(p)
            | RithmicMessage::UpdateEasyToBorrowList(p)
            | RithmicMessage::AccountRmsUpdates(p)
            | RithmicMessage::ResponsePnLPositionUpdates(p)
            | RithmicMessage::ResponsePnLPositionSnapshot(p)
            | RithmicMessage::InstrumentPnLPositionUpdate(p)
            | RithmicMessage::AccountPnLPositionUpdate(p)
            | RithmicMessage::ResponseListUnacceptedAgreements(p)
            | RithmicMessage::ResponseListAcceptedAgreements(p)
            | RithmicMessage::ResponseAcceptAgreement(p)
            | RithmicMessage::ResponseShowAgreement(p)
            | RithmicMessage::ResponseSetRithmicMrktDataSelfCertStatus(p)
            | RithmicMessage::ResponseModifyOrderReferenceData(p)
            | RithmicMessage::ResponseOrderSessionConfig(p)
            | RithmicMessage::ResponseExitPosition(p)
            | RithmicMessage::ResponseReplayExecutions(p)
            | RithmicMessage::ResponseAccountRmsUpdates(p) => Some(p),
            _ => None,
        }
    }

    /// Whether this is the server's answer to a heartbeat.
    pub fn is_heartbeat_response(&self) -> (r: bool)
        ensures
            r <==> message_kind(*self) == MessageKind::Template(19),
    {
        matches!(self, RithmicMessage::ResponseHeartbeat(_))
    }
}

} // verus!
