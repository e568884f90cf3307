//! Messages of the remote-access forwarder and their conversion to and from
//! the wire.

pub mod error;
pub mod headers;
pub mod http_msg;
pub mod id;
pub mod laws;
pub mod messages;
pub mod order;
pub mod route;
pub mod session;
pub mod wire;
pub mod ws_msg;
