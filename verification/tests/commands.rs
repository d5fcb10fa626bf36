use rithmic_rs::plants::actor::PlantCore;
use rithmic_rs::plants::commands::{
    order_book_request, subscribe_request, MarketDataField, OutgoingFrame, OutgoingRequest,
    PlantCommand, PlantKind, SubscriptionRequest,
};
use rithmic_rs::{RithmicConfig, RithmicEnv};

fn config() -> RithmicConfig {
    RithmicConfig {
        account_id: "acct".to_string(),
        fcm_id: "fcm".to_string(),
        ib_id: "ib".to_string(),
        url: "wss://u".to_string(),
        beta_url: "wss://b".to_string(),
        user: "alice".to_string(),
        password: "secret".to_string(),
        system_name: "Rithmic Test".to_string(),
        env: RithmicEnv::Test,
    }
}

#[test]
fn login_uses_configuration_and_plant_kind() {
    let mut core = PlantCore::new("history_plant".to_string());
    let a = core.command_step(PlantKind::HistoryPlant, &config(), PlantCommand::Login);
    match a.write {
        Some(OutgoingFrame::Request(OutgoingRequest::Login {
            system_name,
            infra_type,
            user,
            password,
        })) => {
            assert_eq!(system_name, "Rithmic Test");
            assert_eq!(infra_type, PlantKind::HistoryPlant);
            assert_eq!(user, "alice");
            assert_eq!(password, "secret");
        }
        _ => panic!("not a login request"),
    }
    assert!(a.register_responder);
    assert!(a.write_failure_stops);
    assert!(!core.logged_in);
}

#[test]
fn set_login_only_sets_the_flag() {
    let mut core = PlantCore::new("p".to_string());
    let a = core.command_step(PlantKind::TickerPlant, &config(), PlantCommand::SetLogin);
    assert!(a.write.is_none());
    assert!(!a.register_responder);
    assert!(a.heartbeat_interval.is_none());
    assert!(core.logged_in);
    assert!(core.heartbeat_due());
}

#[test]
fn heartbeat_registers_nothing_and_ignores_failure() {
    let mut core = PlantCore::new("p".to_string());
    let a = core.command_step(PlantKind::OrderPlant, &config(), PlantCommand::SendHeartbeat);
    assert!(matches!(a.write, Some(OutgoingFrame::Request(OutgoingRequest::Heartbeat))));
    assert!(!a.register_responder);
    assert!(!a.write_failure_stops);
}

#[test]
fn update_heartbeat_sets_interval() {
    let mut core = PlantCore::new("p".to_string());
    let a = core.command_step(
        PlantKind::TickerPlant,
        &config(),
        PlantCommand::UpdateHeartbeat { seconds: 60 },
    );
    assert!(a.write.is_none());
    assert_eq!(a.heartbeat_interval, Some(60));
    assert!(!core.logged_in);
}

#[test]
fn close_writes_a_close_frame() {
    let mut core = PlantCore::new("p".to_string());
    let a = core.command_step(PlantKind::TickerPlant, &config(), PlantCommand::Close);
    assert!(matches!(a.write, Some(OutgoingFrame::Close)));
    assert!(!a.register_responder);
}

#[test]
fn request_is_written_and_registered() {
    let mut core = PlantCore::new("history_plant".to_string());
    let request = OutgoingRequest::TickBarReplay {
        symbol: "ESM5".to_string(),
        exchange: "CME".to_string(),
        start_time_sec: 100,
        end_time_sec: 200,
    };
    let a = core.command_step(
        PlantKind::HistoryPlant,
        &config(),
        PlantCommand::Request(request),
    );
    match a.write {
        Some(OutgoingFrame::Request(OutgoingRequest::TickBarReplay {
            symbol,
            exchange,
            start_time_sec,
            end_time_sec,
        })) => {
            assert_eq!(symbol, "ESM5");
            assert_eq!(exchange, "CME");
            assert_eq!(start_time_sec, 100);
            assert_eq!(end_time_sec, 200);
        }
        _ => panic!("not a tick replay"),
    }
    assert!(a.register_responder);
    assert!(a.write_failure_stops);
}

#[test]
fn subscribe_asks_for_last_trade_and_bbo() {
    match subscribe_request("ESM5", "CME") {
        OutgoingRequest::MarketDataUpdate { symbol, exchange, fields, request } => {
            assert_eq!(symbol, "ESM5");
            assert_eq!(exchange, "CME");
            assert_eq!(fields, vec![MarketDataField::LastTrade, MarketDataField::Bbo]);
            assert_eq!(request, SubscriptionRequest::Subscribe);
        }
        _ => panic!("not a market data subscription"),
    }
}

#[test]
fn order_book_subscription() {
    match order_book_request("NQM5", "CME") {
        OutgoingRequest::DepthByOrderUpdate { symbol, exchange, request } => {
            assert_eq!(symbol, "NQM5");
            assert_eq!(exchange, "CME");
            assert_eq!(request, SubscriptionRequest::Subscribe);
        }
        _ => panic!("not an order book subscription"),
    }
}
