//! Receiving side of the Rithmic API and the command types of the order plant.

pub mod receiver_api;
pub mod rithmic_command_types;

pub use rithmic_command_types::RithmicCancelOrder;
