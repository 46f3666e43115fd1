//! TURN (RFC 5766) relay logic over STUN: the frame codec that shares one transport between
//! STUN messages and ChannelData, long-term credentials, and the client and server state
//! machines, with their contracts proved.
pub mod allocate;
pub mod attributes;
pub mod auth;
pub mod channel_data;
pub mod client;
pub mod error;
pub mod errors;
pub mod message;
pub mod methods;
pub mod server;
pub mod table;
pub mod transport;
pub mod turn_message;
pub mod types;
