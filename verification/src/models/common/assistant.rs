//! The threads and prompts of assistant apps.

use vstd::prelude::*;

use crate::models::common::{SlackChannelId, SlackEnterpriseId, SlackTeamId, SlackTs, SlackUserId};

verus! {

/// A thread of an assistant with a user.
#[derive(Debug, Clone, PartialEq)]
pub struct SlackAssistantThread {
    pub user_id: SlackUserId,
    pub context: SlackAssistantThreadContext,
    pub channel_id: SlackChannelId,
    pub thread_ts: SlackTs,
}

impl SlackAssistantThread {
    /// A value with these fields; the optional ones are absent.
    pub fn new(user_id: SlackUserId, context: SlackAssistantThreadContext, channel_id: SlackChannelId, thread_ts: SlackTs) -> (r: Self)
        ensures
            r == (SlackAssistantThread { user_id, context, channel_id, thread_ts }),
    {
        SlackAssistantThread { user_id, context, channel_id, thread_ts }
    }
}

/// Where the user was when the thread started.
#[derive(Debug, Clone, PartialEq)]
pub struct SlackAssistantThreadContext {
    pub channel_id: Option<SlackChannelId>,
    pub team_id: Option<SlackTeamId>,
    pub enterprise_id: Option<SlackEnterpriseId>,
}

impl SlackAssistantThreadContext {
    /// A value whose fields are all absent.
    pub fn new() -> (r: Self)
        ensures
            r == (SlackAssistantThreadContext {
                channel_id: None,
                team_id: None,
                enterprise_id: None,
            }),
    {
        SlackAssistantThreadContext {
            channel_id: None,
            team_id: None,
            enterprise_id: None,
        }
    }
}

/// A suggested prompt of an assistant.
#[derive(Debug, Clone, PartialEq)]
pub struct SlackAssistantPrompt {
    pub title: String,
    pub message: String,
}

impl SlackAssistantPrompt {
    /// A value with these fields; the optional ones are absent.
    pub fn new(title: String, message: String) -> (r: Self)
        ensures
            r == (SlackAssistantPrompt { title, message }),
    {
        SlackAssistantPrompt { title, message }
    }
}

} // verus!
