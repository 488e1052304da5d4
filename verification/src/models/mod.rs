//! Models of the Slack API.

pub mod apps;
pub mod blocks;
pub mod common;
pub mod events;
pub mod files;
pub mod messages;
pub mod socket_mode;
