//! Client-side model of an electricity-pricing API: which requests to send,
//! how a reply is judged, and what the decoded records hold.
//!
//! Nothing here touches the network. A caller sends each request, reads the
//! reply, and hands status, body and decoded rows back to these functions.

pub mod app_config;
pub mod endpoints;
pub mod rest_client;
