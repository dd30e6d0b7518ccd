//! Wire format and message handling of a small libp2p chat node.
//!
//! The verified part of the node: how chat requests and responses are framed
//! on a request/response substream, and how the node answers a chat request.
pub mod utils;
