//! Chat-service backend core: domain records, the realtime gateway's session
//! registry, handshake state machine and event fan-out, and the wire encoding
//! of gateway events.

pub mod auth;
pub mod channel;
pub mod client;
pub mod database;
pub mod error;
pub mod event;
pub mod guild;
pub mod ids;
pub mod json;
pub mod message;
pub mod registry;
pub mod restricted_string;
pub mod text;
pub mod user;
