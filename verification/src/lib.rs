//! Client-side logic of the Rithmic R | Protocol API: decoding of the frames
//! that the plants receive, the routing decisions of the plant actors, the
//! heartbeat bookkeeping and the connection configuration types.

pub mod text;
pub mod wire;
pub mod rti;
pub mod api;
pub mod heartbeat_manager;
pub mod plants;
pub mod config;
pub mod connection_info;

pub use api::receiver_api::RithmicResponse;
pub use config::{ConfigError, RithmicConfig, RithmicEnv};
