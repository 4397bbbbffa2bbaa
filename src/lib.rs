//! Bridges a schema compiler's subprocess plugin contract to an in-process
//! callback: a schema-free field scanner over protobuf wire bytes, the
//! stand-in plugin's key extraction, and the host session's decision logic.

pub mod plugin;
pub mod session;
pub mod wire;
