//! Notification bridge core: classify an inbound discussion event, extract the
//! fields a notification needs from its loosely typed payload, and format the
//! outbound message. Subscribing to events and delivering messages are left to
//! the surrounding program; this crate holds the decision logic.

pub mod config;
pub mod handler;
pub mod laws;
pub mod message;
pub mod value;

pub use config::Config;
pub use handler::{handle, ExtractError, Extraction, Outcome};
pub use value::Json;
