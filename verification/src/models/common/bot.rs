//! Bots.

use vstd::prelude::*;

use crate::models::common::icon::SlackIconImages;
use crate::models::common::{SlackBotId, SlackDateTime};

verus! {

/// A bot.
#[derive(Debug, Clone, PartialEq)]
pub struct SlackBotInfo {
    pub id: Option<SlackBotId>,
    pub name: String,
    pub updated: Option<SlackDateTime>,
    pub app_id: String,
    pub user_id: String,
    pub icons: Option<SlackIconImages>,
}

impl SlackBotInfo {
    /// A value with these fields; the optional ones are absent.
    pub fn new(name: String, app_id: String, user_id: String) -> (r: Self)
        ensures
            r == (SlackBotInfo { id: None, name, updated: None, app_id, user_id, icons: None }),
    {
        SlackBotInfo { id: None, name, updated: None, app_id, user_id, icons: None }
    }
}

} // verus!
