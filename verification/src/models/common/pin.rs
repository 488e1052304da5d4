//! Pinned messages.

use vstd::prelude::*;

use crate::models::common::{SlackChannelId, SlackDateTime, SlackUserId};
use crate::models::messages::SlackMessage;

verus! {

/// A message pinned to a channel.
#[derive(Debug, Clone, PartialEq)]
pub struct SlackPin {
    pub channel: SlackChannelId,
    pub created: SlackDateTime,
    pub created_by: SlackUserId,
    pub message: Option<SlackMessage>,
}

impl SlackPin {
    /// A value with these fields; the optional ones are absent.
    pub fn new(channel: SlackChannelId, created: SlackDateTime, created_by: SlackUserId) -> (r: Self)
        ensures
            r == (SlackPin { channel, created, created_by, message: None }),
    {
        SlackPin { channel, created, created_by, message: None }
    }
}

} // verus!
