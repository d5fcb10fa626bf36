//! Definitions of the Rithmic protocol messages.

pub mod messages;
