//! Slack Morphism: models of the Slack Web/Events API and Block Kit,
//! together with the request rate control and the text formats that the
//! client builds and reads.

pub mod decimal;
pub mod models;
pub mod multipart_form;
pub mod ratectl;
pub mod hyper_tokio;
