//! The decisions of a plant on the commands that its handles send it.
//!
//! A handle asks its plant for something by sending a command. The plant
//! decides what to write to its connection, whether the responder that waits
//! for the answer is registered under the request's id (before the frame is
//! written), what a failed write does, and how its own state changes. The
//! requests are encoded by the plant's request encoder; here a request is the
//! list of values that the encoder takes, in the order in which it takes them.

use vstd::prelude::*;
use vstd::string::*;
use crate::config::RithmicConfig;
use crate::plants::actor::PlantCore;

verus! {

/// The infrastructure that a plant logs in to.
#[derive(Clone, Copy, Debug, PartialEq, Eq, Structural)]
pub enum PlantKind {
    TickerPlant,
    OrderPlant,
    HistoryPlant,
    PnlPlant,
}

/// A market data field that a subscription asks for.
#[derive(Clone, Copy, Debug, PartialEq, Eq, Structural)]
pub enum MarketDataField {
    LastTrade,
    Bbo,
}

/// Whether a subscription request starts or ends a subscription.
#[derive(Clone, Copy, Debug, PartialEq, Eq, Structural)]
pub enum SubscriptionRequest {
    Subscribe,
    Unsubscribe,
}

/// One leg of an OCO (one cancels other) order pair. A price is carried by
/// the bits of its IEEE 754 double (`f64::to_bits`); protobuf enumerations
/// are carried by their numbers.
#[derive(Clone, Debug)]
pub struct OcoLeg {
    pub symbol: String,
    pub exchange: String,
    pub quantity: i32,
    pub price_bits: u64,
    pub trigger_price_bits: Option<u64>,
    pub transaction_type: i32,
    pub duration: i32,
    pub price_type: i32,
    pub user_tag: String,
}

/// A request that a plant encodes and writes to its connection. The fields
/// stand in the order in which the request encoder takes them; protobuf
/// enumerations are carried by their numbers, and a price by the bits of its
/// IEEE 754 double (`f64::to_bits`).
#[derive(Clone, Debug)]
pub enum OutgoingRequest {
    Login { system_name: String, infra_type: PlantKind, user: String, password: String },
    Logout,
    RithmicSystemInfo,
    Heartbeat,
    MarketDataUpdate {
        symbol: String,
        exchange: String,
        fields: Vec<MarketDataField>,
        request: SubscriptionRequest,
    },
    DepthByOrderUpdate { symbol: String, exchange: String, request: SubscriptionRequest },
    DepthByOrderSnapshot { symbol: String, exchange: String },
    SearchSymbols {
        search_text: String,
        exchange: Option<String>,
        product_code: Option<String>,
        instrument_type: Option<i32>,
        pattern: Option<i32>,
    },
    ListExchanges { user: String },
    TickBarReplay { symbol: String, exchange: String, start_time_sec: i32, end_time_sec: i32 },
    TimeBarReplay {
        symbol: String,
        exchange: String,
        bar_type: i32,
        bar_type_period: i32,
        start_time_sec: i32,
        end_time_sec: i32,
    },
    VolumeProfileMinuteBars {
        symbol: String,
        exchange: String,
        bar_type_period: i32,
        start_time_sec: i32,
        end_time_sec: i32,
        user_max_count: Option<i32>,
        resume_bars: Option<bool>,
    },
    ResumeBars { request_key: String },
    TimeBarUpdate {
        symbol: String,
        exchange: String,
        bar_type: i32,
        bar_type_period: i32,
        request: SubscriptionRequest,
    },
    TickBarUpdate {
        symbol: String,
        exchange: String,
        bar_type: i32,
        bar_sub_type: i32,
        bar_type_specifier: String,
        request: SubscriptionRequest,
    },
    AccountList,
    SubscribeForOrderUpdates,
    SubscribeToBracketUpdates,
    BracketOrder {
        action: i32,
        duration: i32,
        exchange: String,
        localid: String,
        ordertype: i32,
        price_bits: Option<u64>,
        profit_ticks: i32,
        qty: i32,
        stop_ticks: i32,
        symbol: String,
    },
    ModifyOrder {
        id: String,
        exchange: String,
        symbol: String,
        qty: i32,
        price_bits: u64,
        price_type: i32,
    },
    NewOrder {
        exchange: String,
        symbol: String,
        qty: i32,
        price_bits: u64,
        transaction_type: i32,
        price_type: i32,
        localid: String,
        duration: Option<i32>,
    },
    OcoOrder { first: OcoLeg, second: OcoLeg },
    CancelOrder { order_id: String },
    UpdateStopBracketLevel { order_id: String, ticks: i32 },
    UpdateTargetBracketLevel { order_id: String, ticks: i32 },
    ShowOrders,
    CancelAllOrders,
    AccountRmsInfo,
    ProductRmsInfo,
    TradeRoutes { subscribe_for_updates: bool },
    ShowOrderHistoryDates,
    ShowOrderHistorySummary { date: String },
    ShowOrderHistoryDetail { basket_id: String, date: String },
    ShowOrderHistory { basket_id: Option<String> },
    ShowBrackets,
    ShowBracketStops,
    ExitPosition { symbol: String, exchange: String },
    LinkOrders { basket_ids: Vec<String> },
    EasyToBorrowList { request: i32 },
    ModifyOrderReferenceData { basket_id: String, user_tag: String },
    OrderSessionConfig { should_defer_request: Option<bool> },
    ReplayExecutions { start_index_sec: i32, finish_index_sec: i32 },
    AccountRmsUpdates { subscribe: bool },
    LoginInfo,
    ListUnacceptedAgreements,
    ListAcceptedAgreements,
    AcceptAgreement { agreement_id: String, market_data_usage_capacity: Option<String> },
    ShowAgreement { agreement_id: String },
    SetRithmicMrktDataSelfCertStatus { agreement_id: String, market_data_usage_capacity: String },
}

/// A command that a handle sends to its plant.
#[derive(Debug)]
pub enum PlantCommand {
    /// Close the connection.
    Close,
    /// The plant has logged in.
    SetLogin,
    /// Send a heartbeat.
    SendHeartbeat,
    /// Send heartbeats every `seconds` seconds from now on.
    UpdateHeartbeat { seconds: u64 },
    /// Log in with the plant's configuration.
    Login,
    /// Send a request and hand its answer to the handle.
    Request(OutgoingRequest),
}

/// A frame that a plant writes to its connection.
#[derive(Debug)]
pub enum OutgoingFrame {
    /// A close frame.
    Close,
    /// An encoded request.
    Request(OutgoingRequest),
}

/// What a plant does for a command.
#[derive(Debug)]
pub struct CommandAction {
    /// What is written to the connection.
    pub write: Option<OutgoingFrame>,
    /// Whether the command's responder is registered under the request's id,
    /// before the frame is written.
    pub register_responder: bool,
    /// Whether a failed write stops the plant; otherwise it is ignored.
    pub write_failure_stops: bool,
    /// The new heartbeat interval, in seconds.
    pub heartbeat_interval: Option<u64>,
}

/// Whether `r` is what a plant of kind `kind`, configured by `config`, does
/// for `command`.
pub open spec fn command_action_meets(
    kind: PlantKind,
    config: RithmicConfig,
    command: PlantCommand,
    r: CommandAction,
) -> bool {
    match command {
        PlantCommand::Close => {
            &&& r.write == Some(OutgoingFrame::Close)
            &&& !r.register_responder
            &&& r.write_failure_stops
            &&& r.heartbeat_interval is None
        },
        PlantCommand::SetLogin => {
            &&& r.write is None
            &&& !r.register_responder
            &&& r.heartbeat_interval is None
        },
        PlantCommand::SendHeartbeat => {
            &&& r.write == Some(OutgoingFrame::Request(OutgoingRequest::Heartbeat))
            &&& !r.register_responder
            &&& !r.write_failure_stops
            &&& r.heartbeat_interval is None
        },
        PlantCommand::UpdateHeartbeat { seconds } => {
            &&& r.write is None
            &&& !r.register_responder
            &&& r.heartbeat_interval == Some(seconds)
        },
        PlantCommand::Login => {
            &&& r.write == Some(
                OutgoingFrame::Request(
                    OutgoingRequest::Login {
                        system_name: config.system_name,
                        infra_type: kind,
                        user: config.user,
                        password: config.password,
                    },
                ),
            )
            &&& r.register_responder
            &&& r.write_failure_stops
            &&& r.heartbeat_interval is None
        },
        PlantCommand::Request(q) => {
            &&& r.write == Some(OutgoingFrame::Request(q))
            &&& r.register_responder
            &&& r.write_failure_stops
            &&& r.heartbeat_interval is None
        },
    }
}

impl PlantCore {
    /// What the plant does for a command of one of its handles: the plant is
    /// of kind `kind` and configured by `config`. Only `SetLogin` changes the
    /// plant's state, and it only marks the plant logged in.
    pub fn command_step(&mut self, kind: PlantKind, config: &RithmicConfig, command: PlantCommand) -> (r:
        CommandAction)
        ensures
            command_action_meets(kind, *config, command, r),
            (command is Request || command is Login) ==> r.register_responder
                && r.write_failure_stops && r.write is Some,
            r.register_responder ==> r.write matches Some(OutgoingFrame::Request(_)),
            final(self).logged_in == (old(self).logged_in || command is SetLogin),
            final(self).receiver_api == old(self).receiver_api,
    {
        match command {
            PlantCommand::Close => CommandAction {
                write: Some(OutgoingFrame::Close),
                register_responder: false,
                write_failure_stops: true,
                heartbeat_interval: None,
            },
            PlantCommand::SetLogin => {
                self.logged_in = true;
                CommandAction {
                    write: None,
                    register_responder: false,
                    write_failure_stops: false,
                    heartbeat_interval: None,
                }
            },
            PlantCommand::SendHeartbeat => CommandAction {
                write: Some(OutgoingFrame::Request(OutgoingRequest::Heartbeat)),
                register_responder: false,
                write_failure_stops: false,
                heartbeat_interval: None,
            },
            PlantCommand::UpdateHeartbeat { seconds } => CommandAction {
                write: None,
                register_responder: false,
                write_failure_stops: false,
                heartbeat_interval: Some(seconds),
            },
            PlantCommand::Login => CommandAction {
                write: Some(
                    OutgoingFrame::Request(
                        OutgoingRequest::Login {
                            system_name: config.system_name.clone(),
                            infra_type: kind,
                            user: config.user.clone(),
                            password: config.password.clone(),
                        },
                    ),
                ),
                register_responder: true,
                write_failure_stops: true,
                heartbeat_interval: None,
            },
            PlantCommand::Request(q) => CommandAction {
                write: Some(OutgoingFrame::Request(q)),
                register_responder: true,
                write_failure_stops: true,
                heartbeat_interval: None,
            },
        }
    }
}

/// The request with which a ticker plant's handle subscribes to the last
/// trades and the best bid and offer of `symbol` on `exchange`.
pub fn subscribe_request(symbol: &str, exchange: &str) -> (r: OutgoingRequest)
    ensures
        r matches OutgoingRequest::MarketDataUpdate { symbol: s, exchange: e, fields, request } && s@
            == symbol@ && e@ == exchange@ && fields@ == seq![
            MarketDataField::LastTrade,
            MarketDataField::Bbo,
        ] && request == SubscriptionRequest::Subscribe,
{
    let fields = vec![MarketDataField::LastTrade, MarketDataField::Bbo];
    OutgoingRequest::MarketDataUpdate {
        symbol: String::from_str(symbol),
        exchange: String::from_str(exchange),
        fields,
        request: SubscriptionRequest::Subscribe,
    }
}

/// The request with which a ticker plant's handle subscribes to the order
/// book (depth by order) of `symbol` on `exchange`.
pub fn order_book_request(symbol: &str, exchange: &str) -> (r: OutgoingRequest)
    ensures
        r matches OutgoingRequest::DepthByOrderUpdate { symbol: s, exchange: e, request } && s@
            == symbol@ && e@ == exchange@ && request == SubscriptionRequest::Subscribe,
{
    OutgoingRequest::DepthByOrderUpdate {
        symbol: String::from_str(symbol),
        exchange: String::from_str(exchange),
        request: SubscriptionRequest::Subscribe,
    }
}

/// Every request that a handle sends, whatever it is, is written with its
/// responder registered, and a failed write stops the plant; only a heartbeat
/// is written without a responder, and a failed heartbeat write is ignored.
/// A responder is registered only where a request is written.
pub proof fn lemma_requests_register_responder(
    kind: PlantKind,
    config: RithmicConfig,
    command: PlantCommand,
    r: CommandAction,
)
    requires
        command_action_meets(kind, config, command, r),
    ensures
        command matches PlantCommand::Request(q) ==> r.register_responder && r.write_failure_stops
            && r.write == Some(OutgoingFrame::Request(q)),
        command is Login ==> r.register_responder && r.write_failure_stops,
        command is SendHeartbeat ==> !r.register_responder && !r.write_failure_stops,
        r.register_responder ==> r.write matches Some(OutgoingFrame::Request(_)),
        r.write is None ==> command is SetLogin || command is UpdateHeartbeat,
{
}

} // verus!
