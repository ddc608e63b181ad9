//! The request-dispatch core of an RPC/HTTP serving framework: routing by
//! path pattern, response bodies, the dispatch adapter and the message
//! envelope contract, each with its contract proved.

pub mod context;
pub mod error;
pub mod full;
pub mod head;
pub mod matcher;
pub mod message;
pub mod response;
pub mod route;
pub mod server;
pub mod service;
