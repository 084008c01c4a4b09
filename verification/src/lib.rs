//! Remote control of an avatar over Open Sound Control: the wire messages of
//! the avatar's input surface, the plan of writes that an action unfolds into,
//! and the text forms of the configuration.

pub mod utils;
pub mod osc;
pub mod input;
pub mod client;
pub mod dispatch;
pub mod config;
