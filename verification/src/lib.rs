//! The task runner's HTTP service: GraphQL over HTTP and over WebSockets.
//!
//! The library decides; it neither opens sockets nor waits. A request without
//! its body goes to [`service::dispatch`], which answers it or hands it on: to
//! [`juniper_hyper::parse_req`] where it is a GraphQL request, to the relay of
//! [`serve`] where it upgrades to a WebSocket.
pub mod headers;
pub mod http;
pub mod json;
pub mod juniper_hyper;
pub mod laws;
pub mod params;
pub mod request;
pub mod schema;
pub mod serve;
pub mod service;
pub mod text;
