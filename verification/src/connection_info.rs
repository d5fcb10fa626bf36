//! Deprecated configuration types, kept for backward compatibility.
//!
//! New code should use the [`crate::config`] module instead. The types here
//! convert to and from [`RithmicConfig`] and [`RithmicEnv`].

use vstd::prelude::*;
use vstd::string::*;
use crate::config::{ConfigError, RithmicConfig, RithmicEnv};
use crate::text::str_equals;

verus! {

/// Deprecated: connection information (URLs, credentials, system name).
///
/// Use [`RithmicConfig`] instead.
#[derive(Clone, Debug)]
pub struct RithmicConnectionInfo {
    pub url: String,
    pub beta_url: String,
    pub user: String,
    pub password: String,
    pub system_name: String,
}

/// Deprecated: trading environment selector.
///
/// Use [`RithmicEnv`] instead.
#[derive(Clone, Copy, Debug, PartialEq, Eq, Structural)]
pub enum RithmicConnectionSystem {
    Demo,
    Live,
    Test,
}

/// Deprecated: account information.
///
/// Use [`RithmicConfig`] instead, which holds both the account and the
/// connection information.
#[derive(Clone, Debug)]
pub struct AccountInfo {
    pub account_id: String,
    pub env: RithmicConnectionSystem,
    pub fcm_id: String,
    pub ib_id: String,
}

/// The name under which an environment is written.
pub open spec fn system_text(s: RithmicConnectionSystem) -> Seq<char> {
    match s {
        RithmicConnectionSystem::Demo => "demo"@,
        RithmicConnectionSystem::Live => "live"@,
        RithmicConnectionSystem::Test => "test"@,
    }
}

/// The environment that a name selects: `demo` or `development`, `live` or
/// `production`, and `test`.
pub open spec fn spec_parse_system(s: Seq<char>) -> Result<RithmicConnectionSystem, ()> {
    if s == "demo"@ || s == "development"@ {
        Ok(RithmicConnectionSystem::Demo)
    } else if s == "live"@ || s == "production"@ {
        Ok(RithmicConnectionSystem::Live)
    } else if s == "test"@ {
        Ok(RithmicConnectionSystem::Test)
    } else {
        Err(())
    }
}

/// The primary server URL of an environment.
pub open spec fn system_url(s: RithmicConnectionSystem) -> Seq<char> {
    match s {
        RithmicConnectionSystem::Test => "wss://rituz00100.rithmic.com:443"@,
        _ => "wss://rprotocol.rithmic.com:443"@,
    }
}

/// The beta server URL, the same for every environment.
pub open spec fn beta_url_text() -> Seq<char> {
    "wss://rprotocol-beta.rithmic.com:443"@
}

/// The Rithmic system name of an environment.
pub open spec fn system_name_text(s: RithmicConnectionSystem) -> Seq<char> {
    match s {
        RithmicConnectionSystem::Demo => "Rithmic Paper Trading"@,
        RithmicConnectionSystem::Live => "Rithmic 01"@,
        RithmicConnectionSystem::Test => "Rithmic Test"@,
    }
}

/// The environment variable that holds the user name for an environment.
pub open spec fn user_var_text(s: RithmicConnectionSystem) -> Seq<char> {
    match s {
        RithmicConnectionSystem::Demo => "RITHMIC_DEMO_USER"@,
        RithmicConnectionSystem::Live => "RITHMIC_LIVE_USER"@,
        RithmicConnectionSystem::Test => "RITHMIC_TEST_USER"@,
    }
}

/// The environment variable that holds the password for an environment.
pub open spec fn password_var_text(s: RithmicConnectionSystem) -> Seq<char> {
    match s {
        RithmicConnectionSystem::Demo => "RITHMIC_DEMO_PW"@,
        RithmicConnectionSystem::Live => "RITHMIC_LIVE_PW"@,
        RithmicConnectionSystem::Test => "RITHMIC_TEST_PW"@,
    }
}

impl RithmicConnectionSystem {
    /// The name of the environment: `demo`, `live` or `test`.
    pub fn to_string(&self) -> (r: String)
        ensures
            r@ == system_text(*self),
    {
        match self {
            RithmicConnectionSystem::Demo => String::from_str("demo"),
            RithmicConnectionSystem::Live => String::from_str("live"),
            RithmicConnectionSystem::Test => String::from_str("test"),
        }
    }

    /// The environment that `s` names; `demo` and `development` select the
    /// demo environment, `live` and `production` the live one, `test` the test one.
    pub fn parse(s: &str) -> (r: Result<RithmicConnectionSystem, ()>)
        ensures
            r == spec_parse_system(s@),
    {
        if str_equals(s, "demo") || str_equals(s, "development") {
            Ok(RithmicConnectionSystem::Demo)
        } else if str_equals(s, "live") || str_equals(s, "production") {
            Ok(RithmicConnectionSystem::Live)
        } else if str_equals(s, "test") {
            Ok(RithmicConnectionSystem::Test)
        } else {
            Err(())
        }
    }

    /// The environment variable that holds the user name for this environment.
    pub fn user_env_var(&self) -> (r: String)
        ensures
            r@ == user_var_text(*self),
    {
        match self {
            RithmicConnectionSystem::Demo => String::from_str("RITHMIC_DEMO_USER"),
            RithmicConnectionSystem::Live => String::from_str("RITHMIC_LIVE_USER"),
            RithmicConnectionSystem::Test => String::from_str("RITHMIC_TEST_USER"),
        }
    }

    /// The environment variable that holds the password for this environment.
    pub fn password_env_var(&self) -> (r: String)
        ensures
            r@ == password_var_text(*self),
    {
        match self {
            RithmicConnectionSystem::Demo => String::from_str("RITHMIC_DEMO_PW"),
            RithmicConnectionSystem::Live => String::from_str("RITHMIC_LIVE_PW"),
            RithmicConnectionSystem::Test => String::from_str("RITHMIC_TEST_PW"),
        }
    }
}

impl std::str::FromStr for RithmicConnectionSystem {
    type Err = ();

    fn from_str(s: &str) -> (r: Result<Self, Self::Err>)
        ensures
            r == spec_parse_system(s@),
    {
        RithmicConnectionSystem::parse(s)
    }
}

/// The connection information of an environment, with the given credentials:
/// its server URL, the beta URL and its system name.
pub fn connection_info_for(env: &RithmicConnectionSystem, user: String, password: String) -> (r:
    RithmicConnectionInfo)
    ensures
        r.url@ == system_url(*env),
        r.beta_url@ == beta_url_text(),
        r.user@ == user@,
        r.password@ == password@,
        r.system_name@ == system_name_text(*env),
{
    let (url, system_name) = match env {
        RithmicConnectionSystem::Demo => (
            String::from_str("wss://rprotocol.rithmic.com:443"),
            String::from_str("Rithmic Paper Trading"),
        ),
        RithmicConnectionSystem::Live => (
            String::from_str("wss://rprotocol.rithmic.com:443"),
            String::from_str("Rithmic 01"),
        ),
        RithmicConnectionSystem::Test => (
            String::from_str("wss://rituz00100.rithmic.com:443"),
            String::from_str("Rithmic Test"),
        ),
    };
    RithmicConnectionInfo {
        url,
        beta_url: String::from_str("wss://rprotocol-beta.rithmic.com:443"),
        user,
        password,
        system_name,
    }
}

/// The environment selector of the configuration API that an old selector names.
pub open spec fn env_of(s: RithmicConnectionSystem) -> RithmicEnv {
    match s {
        RithmicConnectionSystem::Demo => RithmicEnv::Demo,
        RithmicConnectionSystem::Live => RithmicEnv::Live,
        RithmicConnectionSystem::Test => RithmicEnv::Test,
    }
}

/// The old environment selector that names an environment of the configuration API.
pub open spec fn system_of(e: RithmicEnv) -> RithmicConnectionSystem {
    match e {
        RithmicEnv::Demo => RithmicConnectionSystem::Demo,
        RithmicEnv::Live => RithmicConnectionSystem::Live,
        RithmicEnv::Test => RithmicConnectionSystem::Test,
    }
}

/// Convert from old RithmicConnectionSystem to new RithmicEnv
impl From<RithmicConnectionSystem> for RithmicEnv {
    fn from(old: RithmicConnectionSystem) -> Self {
        match old {
            RithmicConnectionSystem::Demo => RithmicEnv::Demo,
            RithmicConnectionSystem::Live => RithmicEnv::Live,
            RithmicConnectionSystem::Test => RithmicEnv::Test,
        }
    }
}

impl vstd::std_specs::convert::FromSpecImpl<RithmicConnectionSystem> for RithmicEnv {
    open spec fn obeys_from_spec() -> bool {
        true
    }

    open spec fn from_spec(old: RithmicConnectionSystem) -> Self {
        env_of(old)
    }
}

/// Convert from new RithmicEnv to old RithmicConnectionSystem
impl From<RithmicEnv> for RithmicConnectionSystem {
    fn from(new: RithmicEnv) -> Self {
        match new {
            RithmicEnv::Demo => RithmicConnectionSystem::Demo,
            RithmicEnv::Live => RithmicConnectionSystem::Live,
            RithmicEnv::Test => RithmicConnectionSystem::Test,
        }
    }
}

impl vstd::std_specs::convert::FromSpecImpl<RithmicEnv> for RithmicConnectionSystem {
    open spec fn obeys_from_spec() -> bool {
        true
    }

    open spec fn from_spec(new: RithmicEnv) -> Self {
        system_of(new)
    }
}

/// Convert from new RithmicConfig to old AccountInfo
///
/// This extracts only the account-related fields. Connection information is lost.
impl From<RithmicConfig> for AccountInfo {
    fn from(new: RithmicConfig) -> Self {
        AccountInfo {
            account_id: new.account_id,
            env: RithmicConnectionSystem::from(new.env),
            fcm_id: new.fcm_id,
            ib_id: new.ib_id,
        }
    }
}

impl vstd::std_specs::convert::FromSpecImpl<RithmicConfig> for AccountInfo {
    open spec fn obeys_from_spec() -> bool {
        true
    }

    open spec fn from_spec(new: RithmicConfig) -> Self {
        AccountInfo {
            account_id: new.account_id,
            env: system_of(new.env),
            fcm_id: new.fcm_id,
            ib_id: new.ib_id,
        }
    }
}

/// Convert from RithmicConfig reference to old AccountInfo
impl From<&RithmicConfig> for AccountInfo {
    fn from(new: &RithmicConfig) -> Self {
        AccountInfo {
            account_id: new.account_id.clone(),
            env: RithmicConnectionSystem::from(new.env),
            fcm_id: new.fcm_id.clone(),
            ib_id: new.ib_id.clone(),
        }
    }
}

impl vstd::std_specs::convert::FromSpecImpl<&RithmicConfig> for AccountInfo {
    open spec fn obeys_from_spec() -> bool {
        true
    }

    open spec fn from_spec(new: &RithmicConfig) -> Self {
        AccountInfo {
            account_id: new.account_id,
            env: system_of(new.env),
            fcm_id: new.fcm_id,
            ib_id: new.ib_id,
        }
    }
}

/// Convert from new RithmicConfig to old RithmicConnectionInfo
///
/// This extracts only the connection-related fields. Account information is lost.
impl From<RithmicConfig> for RithmicConnectionInfo {
    fn from(new: RithmicConfig) -> Self {
        RithmicConnectionInfo {
            url: new.url,
            beta_url: new.beta_url,
            user: new.user,
            password: new.password,
            system_name: new.system_name,
        }
    }
}

impl vstd::std_specs::convert::FromSpecImpl<RithmicConfig> for RithmicConnectionInfo {
    open spec fn obeys_from_spec() -> bool {
        true
    }

    open spec fn from_spec(new: RithmicConfig) -> Self {
        RithmicConnectionInfo {
            url: new.url,
            beta_url: new.beta_url,
            user: new.user,
            password: new.password,
            system_name: new.system_name,
        }
    }
}

/// Convert from RithmicConfig reference to old RithmicConnectionInfo
impl From<&RithmicConfig> for RithmicConnectionInfo {
    fn from(new: &RithmicConfig) -> Self {
        RithmicConnectionInfo {
            url: new.url.clone(),
            beta_url: new.beta_url.clone(),
            user: new.user.clone(),
            password: new.password.clone(),
            system_name: new.system_name.clone(),
        }
    }
}

impl vstd::std_specs::convert::FromSpecImpl<&RithmicConfig> for RithmicConnectionInfo {
    open spec fn obeys_from_spec() -> bool {
        true
    }

    open spec fn from_spec(new: &RithmicConfig) -> Self {
        RithmicConnectionInfo {
            url: new.url,
            beta_url: new.beta_url,
            user: new.user,
            password: new.password,
            system_name: new.system_name,
        }
    }
}

/// Whether `c` is the configuration made of the old account information
/// `old` and the credentials `user` and `password`.
pub open spec fn is_config_of_account(
    c: RithmicConfig,
    old: AccountInfo,
    user: String,
    password: String,
) -> bool {
    &&& c.account_id == old.account_id
    &&& c.fcm_id == old.fcm_id
    &&& c.ib_id == old.ib_id
    &&& c.url@ == system_url(old.env)
    &&& c.beta_url@ == beta_url_text()
    &&& c.user@ == user@
    &&& c.password@ == password@
    &&& c.system_name@ == system_name_text(old.env)
    &&& c.env == env_of(old.env)
}

impl RithmicConfig {
    /// The configuration for the old account information `old`, where `user`
    /// and `password` are the values, if set, of the environment variables
    /// that hold the credentials for its environment. A missing user name is
    /// reported before a missing password; the error names the variable.
    pub fn from_account_info(old: AccountInfo, user: Option<String>, password: Option<String>) -> (r:
        Result<RithmicConfig, ConfigError>)
        ensures
            user is None ==> (r matches Err(ConfigError::MissingEnvVar(v)) && v@ == user_var_text(
                old.env,
            )),
            user is Some && password is None ==> (r matches Err(ConfigError::MissingEnvVar(v))
                && v@ == password_var_text(old.env)),
            user is Some && password is Some ==> (r matches Ok(c) && is_config_of_account(
                c,
                old,
                user->Some_0,
                password->Some_0,
            )),
    {
        let user = match user {
            Some(u) => u,
            None => return Err(ConfigError::MissingEnvVar(old.env.user_env_var())),
        };
        let password = match password {
            Some(p) => p,
            None => return Err(ConfigError::MissingEnvVar(old.env.password_env_var())),
        };
        let info = connection_info_for(&old.env, user, password);
        let config = RithmicConfig {
            account_id: old.account_id,
            fcm_id: old.fcm_id,
            ib_id: old.ib_id,
            url: info.url,
            beta_url: info.beta_url,
            user: info.user,
            password: info.password,
            system_name: info.system_name,
            env: RithmicEnv::from(old.env),
        };
        Ok(config)
    }
}

/// The name under which an environment is written selects that environment
/// again.
pub proof fn lemma_system_text_parses_back(s: RithmicConnectionSystem)
    ensures
        spec_parse_system(system_text(s)) == Ok::<RithmicConnectionSystem, ()>(s),
{
    reveal_strlit("demo");
    reveal_strlit("development");
    reveal_strlit("live");
    reveal_strlit("production");
    reveal_strlit("test");
    assert("live"@[0] != "demo"@[0]);
    assert("test"@[0] != "demo"@[0]);
    assert("test"@[0] != "live"@[0]);
    assert("live"@.len() != "development"@.len());
    assert("test"@.len() != "development"@.len());
    assert("test"@.len() != "production"@.len());
}

/// Converting an environment selector to the other API and back gives it
/// back, both ways.
pub proof fn lemma_env_conversions_inverse(s: RithmicConnectionSystem, e: RithmicEnv)
    ensures
        system_of(env_of(s)) == s,
        env_of(system_of(e)) == e,
{
}

/// Old account information made into a configuration and converted back is
/// the account information it was made of.
pub proof fn lemma_account_info_round_trip(
    c: RithmicConfig,
    old: AccountInfo,
    user: String,
    password: String,
)
    requires
        is_config_of_account(c, old, user, password),
    ensures
        <AccountInfo as vstd::std_specs::convert::FromSpec<RithmicConfig>>::from_spec(c) == old,
{
}

/// The connection information of a configuration made of old account
/// information is the connection information of its environment, with the
/// same credentials.
pub proof fn lemma_config_connection_info(
    c: RithmicConfig,
    old: AccountInfo,
    user: String,
    password: String,
)
    requires
        is_config_of_account(c, old, user, password),
    ensures
        ({
            let info = <RithmicConnectionInfo as vstd::std_specs::convert::FromSpec<
                RithmicConfig,
            >>::from_spec(c);
            &&& info.url@ == system_url(old.env)
            &&& info.beta_url@ == beta_url_text()
            &&& info.user@ == user@
            &&& info.password@ == password@
            &&& info.system_name@ == system_name_text(old.env)
        }),
{
}

} // verus!
