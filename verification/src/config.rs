//! Configuration for connecting to Rithmic.

use vstd::prelude::*;

verus! {

/// The Rithmic environment to connect to.
#[derive(Clone, Copy, Debug, PartialEq, Eq, Structural)]
pub enum RithmicEnv {
    Demo,
    Live,
    Test,
}

/// Connection and account settings for one Rithmic environment.
#[derive(Clone, Debug)]
pub struct RithmicConfig {
    pub account_id: String,
    pub fcm_id: String,
    pub ib_id: String,
    pub url: String,
    pub beta_url: String,
    pub user: String,
    pub password: String,
    pub system_name: String,
    pub env: RithmicEnv,
}

/// Errors of the configuration.
#[derive(Clone, Debug)]
pub enum ConfigError {
    /// A required environment variable is not set; it carries the variable's name.
    MissingEnvVar(String),
}

} // verus!
