//! What the HTTP client and the listeners decide: the requests they send,
//! how they read a response, when they retry, and how they route and answer
//! the requests that Slack sends. The transport runs around these decisions.

pub mod connector;
pub mod hyper_reqresp;
pub mod listener;
pub mod socket_mode;
