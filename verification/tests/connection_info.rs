use rithmic_rs::connection_info::{
    connection_info_for, AccountInfo, RithmicConnectionInfo, RithmicConnectionSystem,
};
use rithmic_rs::{ConfigError, RithmicConfig, RithmicEnv};

fn account(env: RithmicConnectionSystem) -> AccountInfo {
    AccountInfo {
        account_id: "acct".to_string(),
        env,
        fcm_id: "fcm".to_string(),
        ib_id: "ib".to_string(),
    }
}

fn config(env: RithmicEnv) -> RithmicConfig {
    RithmicConfig {
        account_id: "acct".to_string(),
        fcm_id: "fcm".to_string(),
        ib_id: "ib".to_string(),
        url: "wss://u".to_string(),
        beta_url: "wss://b".to_string(),
        user: "user".to_string(),
        password: "pw".to_string(),
        system_name: "sys".to_string(),
        env,
    }
}

#[test]
fn system_names() {
    assert_eq!(RithmicConnectionSystem::Demo.to_string(), "demo");
    assert_eq!(RithmicConnectionSystem::Live.to_string(), "live");
    assert_eq!(RithmicConnectionSystem::Test.to_string(), "test");
}

#[test]
fn system_parse_accepts_aliases() {
    assert_eq!(RithmicConnectionSystem::parse("demo"), Ok(RithmicConnectionSystem::Demo));
    assert_eq!(
        RithmicConnectionSystem::parse("development"),
        Ok(RithmicConnectionSystem::Demo)
    );
    assert_eq!(RithmicConnectionSystem::parse("live"), Ok(RithmicConnectionSystem::Live));
    assert_eq!(
        RithmicConnectionSystem::parse("production"),
        Ok(RithmicConnectionSystem::Live)
    );
    assert_eq!(RithmicConnectionSystem::parse("test"), Ok(RithmicConnectionSystem::Test));
}

#[test]
fn system_parse_rejects_others() {
    assert_eq!(RithmicConnectionSystem::parse("Demo"), Err(()));
    assert_eq!(RithmicConnectionSystem::parse(""), Err(()));
    assert_eq!(RithmicConnectionSystem::parse("prod"), Err(()));
    assert_eq!(RithmicConnectionSystem::parse("test "), Err(()));
}

#[test]
fn system_from_str() {
    assert_eq!("live".parse::<RithmicConnectionSystem>(), Ok(RithmicConnectionSystem::Live));
    assert_eq!("x".parse::<RithmicConnectionSystem>(), Err(()));
}

#[test]
fn system_name_parses_back() {
    for s in [
        RithmicConnectionSystem::Demo,
        RithmicConnectionSystem::Live,
        RithmicConnectionSystem::Test,
    ] {
        assert_eq!(RithmicConnectionSystem::parse(&s.to_string()), Ok(s));
    }
}

#[test]
fn env_var_names() {
    assert_eq!(RithmicConnectionSystem::Demo.user_env_var(), "RITHMIC_DEMO_USER");
    assert_eq!(RithmicConnectionSystem::Demo.password_env_var(), "RITHMIC_DEMO_PW");
    assert_eq!(RithmicConnectionSystem::Live.user_env_var(), "RITHMIC_LIVE_USER");
    assert_eq!(RithmicConnectionSystem::Live.password_env_var(), "RITHMIC_LIVE_PW");
    assert_eq!(RithmicConnectionSystem::Test.user_env_var(), "RITHMIC_TEST_USER");
    assert_eq!(RithmicConnectionSystem::Test.password_env_var(), "RITHMIC_TEST_PW");
}

#[test]
fn connection_info_per_environment() {
    let demo = connection_info_for(&RithmicConnectionSystem::Demo, "u".to_string(), "p".to_string());
    assert_eq!(demo.url, "wss://rprotocol.rithmic.com:443");
    assert_eq!(demo.beta_url, "wss://rprotocol-beta.rithmic.com:443");
    assert_eq!(demo.user, "u");
    assert_eq!(demo.password, "p");
    assert_eq!(demo.system_name, "Rithmic Paper Trading");

    let live = connection_info_for(&RithmicConnectionSystem::Live, "u".to_string(), "p".to_string());
    assert_eq!(live.url, "wss://rprotocol.rithmic.com:443");
    assert_eq!(live.system_name, "Rithmic 01");

    let test = connection_info_for(&RithmicConnectionSystem::Test, "u".to_string(), "p".to_string());
    assert_eq!(test.url, "wss://rituz00100.rithmic.com:443");
    assert_eq!(test.beta_url, "wss://rprotocol-beta.rithmic.com:443");
    assert_eq!(test.system_name, "Rithmic Test");
}

#[test]
fn env_conversions_round_trip() {
    assert_eq!(RithmicEnv::from(RithmicConnectionSystem::Demo), RithmicEnv::Demo);
    assert_eq!(RithmicEnv::from(RithmicConnectionSystem::Live), RithmicEnv::Live);
    assert_eq!(RithmicEnv::from(RithmicConnectionSystem::Test), RithmicEnv::Test);
    for e in [RithmicEnv::Demo, RithmicEnv::Live, RithmicEnv::Test] {
        assert_eq!(RithmicEnv::from(RithmicConnectionSystem::from(e)), e);
    }
}

#[test]
fn config_to_account_info() {
    let info = AccountInfo::from(config(RithmicEnv::Live));
    assert_eq!(info.account_id, "acct");
    assert_eq!(info.env, RithmicConnectionSystem::Live);
    assert_eq!(info.fcm_id, "fcm");
    assert_eq!(info.ib_id, "ib");
    let c = config(RithmicEnv::Test);
    let by_ref = AccountInfo::from(&c);
    assert_eq!(by_ref.env, RithmicConnectionSystem::Test);
    assert_eq!(by_ref.account_id, "acct");
}

#[test]
fn config_to_connection_info() {
    let info = RithmicConnectionInfo::from(config(RithmicEnv::Demo));
    assert_eq!(info.url, "wss://u");
    assert_eq!(info.beta_url, "wss://b");
    assert_eq!(info.user, "user");
    assert_eq!(info.password, "pw");
    assert_eq!(info.system_name, "sys");
    let c = config(RithmicEnv::Demo);
    let by_ref = RithmicConnectionInfo::from(&c);
    assert_eq!(by_ref.url, "wss://u");
    assert_eq!(by_ref.system_name, "sys");
}

#[test]
fn account_info_to_config() {
    let c = RithmicConfig::from_account_info(
        account(RithmicConnectionSystem::Test),
        Some("alice".to_string()),
        Some("secret".to_string()),
    )
    .unwrap();
    assert_eq!(c.account_id, "acct");
    assert_eq!(c.fcm_id, "fcm");
    assert_eq!(c.ib_id, "ib");
    assert_eq!(c.url, "wss://rituz00100.rithmic.com:443");
    assert_eq!(c.beta_url, "wss://rprotocol-beta.rithmic.com:443");
    assert_eq!(c.user, "alice");
    assert_eq!(c.password, "secret");
    assert_eq!(c.system_name, "Rithmic Test");
    assert_eq!(c.env, RithmicEnv::Test);
    let back = AccountInfo::from(c);
    assert_eq!(back.env, RithmicConnectionSystem::Test);
    assert_eq!(back.account_id, "acct");
}

#[test]
fn missing_user_is_reported_first() {
    let r = RithmicConfig::from_account_info(account(RithmicConnectionSystem::Demo), None, None);
    assert!(matches!(r, Err(ConfigError::MissingEnvVar(v)) if v == "RITHMIC_DEMO_USER"));
}

#[test]
fn missing_password_is_reported() {
    let r = RithmicConfig::from_account_info(
        account(RithmicConnectionSystem::Live),
        Some("bob".to_string()),
        None,
    );
    assert!(matches!(r, Err(ConfigError::MissingEnvVar(v)) if v == "RITHMIC_LIVE_PW"));
}
