//! Block Kit: the blocks, elements and texts of messages and views.

pub mod datetime;
pub mod kit;
pub mod conversions;
pub mod view;
pub mod workflow;
