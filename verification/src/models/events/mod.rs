//! Events that Slack sends to apps.

pub mod interaction;
pub mod push;

use vstd::prelude::*;

use crate::models::messages::{SlackMessageContent, SlackMessageResponseType};
use crate::models::common::{SlackChannelId, SlackCommandId, SlackTeamId, SlackTriggerId, SlackUserId};

verus! {

/// The id of an event.
#[derive(Debug, Clone, PartialEq, Eq, Hash)]
pub struct SlackEventId(pub String);

impl SlackEventId {
    pub fn new(value: String) -> (r: Self)
        ensures
            r.0 == value,
    {
        SlackEventId(value)
    }

    pub fn value(&self) -> (r: &String)
        ensures
            *r == self.0,
    {
        &self.0
    }
}

/// The context of an event.
#[derive(Debug, Clone, PartialEq, Eq, Hash)]
pub struct SlackEventContext(pub String);

impl SlackEventContext {
    pub fn new(value: String) -> (r: Self)
        ensures
            r.0 == value,
    {
        SlackEventContext(value)
    }

    pub fn value(&self) -> (r: &String)
        ensures
            *r == self.0,
    {
        &self.0
    }
}

/// An installation that an event is visible to.
#[derive(Debug, Clone, PartialEq)]
pub struct SlackEventAuthorization {
    pub team_id: SlackTeamId,
    pub user_id: SlackUserId,
    pub is_bot: Option<bool>,
}

impl SlackEventAuthorization {
    /// A value with these fields; the optional ones are absent.
    pub fn new(team_id: SlackTeamId, user_id: SlackUserId) -> (r: Self)
        ensures
            r == (SlackEventAuthorization { team_id, user_id, is_bot: None }),
    {
        SlackEventAuthorization { team_id, user_id, is_bot: None }
    }
}

/// A slash command that a user ran.
#[derive(Debug, Clone, PartialEq)]
pub struct SlackCommandEvent {
    pub team_id: SlackTeamId,
    pub channel_id: SlackChannelId,
    pub user_id: SlackUserId,
    pub command: SlackCommandId,
    pub text: Option<String>,
    pub response_url: String,
    pub trigger_id: SlackTriggerId,
}

impl SlackCommandEvent {
    /// A value with these fields; the optional ones are absent.
    pub fn new(team_id: SlackTeamId, channel_id: SlackChannelId, user_id: SlackUserId, command: SlackCommandId, response_url: String, trigger_id: SlackTriggerId) -> (r: Self)
        ensures
            r == (SlackCommandEvent {
                team_id,
                channel_id,
                user_id,
                command,
                text: None,
                response_url,
                trigger_id,
            }),
    {
        SlackCommandEvent {
            team_id,
            channel_id,
            user_id,
            command,
            text: None,
            response_url,
            trigger_id,
        }
    }
}

/// The answer to a slash command.
#[derive(Debug, Clone, PartialEq)]
pub struct SlackCommandEventResponse {
    pub content: SlackMessageContent,
    pub response_type: Option<SlackMessageResponseType>,
}

impl SlackCommandEventResponse {
    /// An answer with this content; who sees it is left to Slack.
    pub fn new(content: SlackMessageContent) -> (r: Self)
        ensures
            r == (SlackCommandEventResponse { content, response_type: None }),
    {
        SlackCommandEventResponse { content, response_type: None }
    }
}

} // verus!
