//! Events of the Events API.

use vstd::prelude::*;

use crate::models::blocks::view::SlackView;
use crate::models::common::user::SlackUser;
use crate::models::common::{
    SlackChannelId, SlackChannelType, SlackDateTime, SlackTeamId, SlackTs, SlackUnfurlId, SlackUserId,
};
use crate::models::messages::{SlackMessageContent, SlackMessageEdited, SlackMessageOrigin, SlackMessageSender};

verus! {

/// Slack's verification of a request URL: the challenge to answer with.
#[derive(Debug, Clone, PartialEq)]
pub struct SlackUrlVerificationEvent {
    pub challenge: String,
}

impl SlackUrlVerificationEvent {
    /// A value with these fields; the optional ones are absent.
    pub fn new(challenge: String) -> (r: Self)
        ensures
            r == (SlackUrlVerificationEvent { challenge }),
    {
        SlackUrlVerificationEvent { challenge }
    }
}

/// The app was uninstalled.
#[derive(Debug, Clone, PartialEq)]
pub struct SlackAppUninstalledEvent {
}

/// A user joined a channel.
#[derive(Debug, Clone, PartialEq)]
pub struct SlackMemberJoinedChannelEvent {
    pub user: SlackUserId,
    pub channel: SlackChannelId,
    pub channel_type: SlackChannelType,
    pub team: SlackTeamId,
    pub inviter: Option<SlackUserId>,
}

impl SlackMemberJoinedChannelEvent {
    /// A value with these fields; the optional ones are absent.
    pub fn new(user: SlackUserId, channel: SlackChannelId, channel_type: SlackChannelType, team: SlackTeamId) -> (r: Self)
        ensures
            r == (SlackMemberJoinedChannelEvent {
                user,
                channel,
                channel_type,
                team,
                inviter: None,
            }),
    {
        SlackMemberJoinedChannelEvent {
            user,
            channel,
            channel_type,
            team,
            inviter: None,
        }
    }
}

/// A user left a channel.
#[derive(Debug, Clone, PartialEq)]
pub struct SlackMemberLeftChannelEvent {
    pub user: SlackUserId,
    pub channel: SlackChannelId,
    pub channel_type: SlackChannelType,
    pub team: SlackTeamId,
}

impl SlackMemberLeftChannelEvent {
    /// A value with these fields; the optional ones are absent.
    pub fn new(user: SlackUserId, channel: SlackChannelId, channel_type: SlackChannelType, team: SlackTeamId) -> (r: Self)
        ensures
            r == (SlackMemberLeftChannelEvent { user, channel, channel_type, team }),
    {
        SlackMemberLeftChannelEvent { user, channel, channel_type, team }
    }
}

/// A channel was deleted.
#[derive(Debug, Clone, PartialEq)]
pub struct SlackChannelDeletedEvent {
    pub channel: SlackChannelId,
}

impl SlackChannelDeletedEvent {
    /// A value with these fields; the optional ones are absent.
    pub fn new(channel: SlackChannelId) -> (r: Self)
        ensures
            r == (SlackChannelDeletedEvent { channel }),
    {
        SlackChannelDeletedEvent { channel }
    }
}

/// A channel was archived.
#[derive(Debug, Clone, PartialEq)]
pub struct SlackChannelArchiveEvent {
    pub channel: SlackChannelId,
    pub user: SlackUserId,
}

impl SlackChannelArchiveEvent {
    /// A value with these fields; the optional ones are absent.
    pub fn new(channel: SlackChannelId, user: SlackUserId) -> (r: Self)
        ensures
            r == (SlackChannelArchiveEvent { channel, user }),
    {
        SlackChannelArchiveEvent { channel, user }
    }
}

/// A channel was unarchived.
#[derive(Debug, Clone, PartialEq)]
pub struct SlackChannelUnarchiveEvent {
    pub channel: SlackChannelId,
    pub user: SlackUserId,
}

impl SlackChannelUnarchiveEvent {
    /// A value with these fields; the optional ones are absent.
    pub fn new(channel: SlackChannelId, user: SlackUserId) -> (r: Self)
        ensures
            r == (SlackChannelUnarchiveEvent { channel, user }),
    {
        SlackChannelUnarchiveEvent { channel, user }
    }
}

impl SlackAppUninstalledEvent {
    pub fn new() -> (r: Self)
        ensures
            r == (SlackAppUninstalledEvent {}),
    {
        SlackAppUninstalledEvent {}
    }
}

/// Slack limited the events it sends to the app for a minute.
#[derive(Debug, Clone, PartialEq)]
pub struct SlackAppRateLimitedEvent {
    pub team_id: String,
    pub minute_rate_limited: SlackDateTime,
    pub api_app_id: String,
}

impl SlackAppRateLimitedEvent {
    /// A value with these fields; the optional ones are absent.
    pub fn new(team_id: String, minute_rate_limited: SlackDateTime, api_app_id: String) -> (r: Self)
        ensures
            r == (SlackAppRateLimitedEvent { team_id, minute_rate_limited, api_app_id }),
    {
        SlackAppRateLimitedEvent { team_id, minute_rate_limited, api_app_id }
    }
}

/// A message was posted, changed or deleted.
#[derive(Debug, Clone, PartialEq)]
pub struct SlackMessageEvent {
    pub origin: SlackMessageOrigin,
    pub content: Option<SlackMessageContent>,
    pub sender: SlackMessageSender,
    pub subtype: Option<SlackMessageEventType>,
    pub hidden: Option<bool>,
    pub edited: Option<SlackMessageEdited>,
    pub deleted_ts: Option<SlackTs>,
}

impl SlackMessageEvent {
    /// A value with these fields; the optional ones are absent.
    pub fn new(origin: SlackMessageOrigin, sender: SlackMessageSender) -> (r: Self)
        ensures
            r == (SlackMessageEvent {
                origin,
                content: None,
                sender,
                subtype: None,
                hidden: None,
                edited: None,
                deleted_ts: None,
            }),
    {
        SlackMessageEvent {
            origin,
            content: None,
            sender,
            subtype: None,
            hidden: None,
            edited: None,
            deleted_ts: None,
        }
    }
}

/// A user opened the app's home.
#[derive(Debug, Clone, PartialEq)]
pub struct SlackAppHomeOpenedEvent {
    pub user: SlackUserId,
    pub channel: SlackChannelId,
    pub tab: String,
    pub view: Option<SlackView>,
}

impl SlackAppHomeOpenedEvent {
    /// A value with these fields; the optional ones are absent.
    pub fn new(user: SlackUserId, channel: SlackChannelId, tab: String) -> (r: Self)
        ensures
            r == (SlackAppHomeOpenedEvent { user, channel, tab, view: None }),
    {
        SlackAppHomeOpenedEvent { user, channel, tab, view: None }
    }
}

/// A message mentioned the app.
#[derive(Debug, Clone, PartialEq)]
pub struct SlackAppMentionEvent {
    pub user: SlackUserId,
    pub channel: SlackChannelId,
    pub content: SlackMessageContent,
    pub origin: SlackMessageOrigin,
}

impl SlackAppMentionEvent {
    /// A value with these fields; the optional ones are absent.
    pub fn new(user: SlackUserId, channel: SlackChannelId, content: SlackMessageContent, origin: SlackMessageOrigin) -> (r: Self)
        ensures
            r == (SlackAppMentionEvent { user, channel, content, origin }),
    {
        SlackAppMentionEvent { user, channel, content, origin }
    }
}

/// A message shared links of a domain that the app unfurls.
#[derive(Debug, Clone, PartialEq)]
pub struct SlackLinkSharedEvent {
    pub channel: SlackChannelId,
    pub event_ts: SlackTs,
    pub is_bot_user_member: bool,
    pub links: Vec<SlackLinkObject>,
    pub message_ts: SlackTs,
    pub source: String,
    pub unfurl_id: SlackUnfurlId,
    pub user: SlackUserId,
}

impl SlackLinkSharedEvent {
    /// A value with these fields; the optional ones are absent.
    pub fn new(channel: SlackChannelId, event_ts: SlackTs, is_bot_user_member: bool, links: Vec<SlackLinkObject>, message_ts: SlackTs, source: String, unfurl_id: SlackUnfurlId, user: SlackUserId) -> (r: Self)
        ensures
            r == (SlackLinkSharedEvent {
                channel,
                event_ts,
                is_bot_user_member,
                links,
                message_ts,
                source,
                unfurl_id,
                user,
            }),
    {
        SlackLinkSharedEvent {
            channel,
            event_ts,
            is_bot_user_member,
            links,
            message_ts,
            source,
            unfurl_id,
            user,
        }
    }
}

/// A custom emoji was added, removed or renamed.
#[derive(Debug, Clone, PartialEq)]
pub struct SlackEmojiChangedEvent {
    pub subtype: SlackEmojiEventType,
    pub name: Option<String>,
    pub names: Option<Vec<String>>,
    pub old_name: Option<String>,
    pub new_name: Option<String>,
    pub value: Option<url::Url>,
    pub event_ts: SlackTs,
}

impl SlackEmojiChangedEvent {
    /// A value with these fields; the optional ones are absent.
    pub fn new(subtype: SlackEmojiEventType, event_ts: SlackTs) -> (r: Self)
        ensures
            r == (SlackEmojiChangedEvent {
                subtype,
                name: None,
                names: None,
                old_name: None,
                new_name: None,
                value: None,
                event_ts,
            }),
    {
        SlackEmojiChangedEvent {
            subtype,
            name: None,
            names: None,
            old_name: None,
            new_name: None,
            value: None,
            event_ts,
        }
    }
}

/// A shared link.
#[derive(Debug, Clone, PartialEq)]
pub struct SlackLinkObject {
    pub domain: String,
    pub url: url::Url,
}

impl SlackLinkObject {
    /// A value with these fields; the optional ones are absent.
    pub fn new(domain: String, url: url::Url) -> (r: Self)
        ensures
            r == (SlackLinkObject { domain, url }),
    {
        SlackLinkObject { domain, url }
    }
}

/// A user joined the workspace.
#[derive(Debug, Clone, PartialEq)]
pub struct SlackTeamJoinEvent {
    pub user: SlackUser,
}

impl SlackTeamJoinEvent {
    /// A value with these fields; the optional ones are absent.
    pub fn new(user: SlackUser) -> (r: Self)
        ensures
            r == (SlackTeamJoinEvent { user }),
    {
        SlackTeamJoinEvent { user }
    }
}

/// The subtypes of message events.
#[derive(Debug, Clone, Copy, PartialEq, Eq)]
pub enum SlackMessageEventType {
    BotMessage,
    MeMessage,
    ChannelJoin,
    ChannelLeave,
    BotAdd,
    BotRemove,
    ChannelTopic,
    ChannelPurpose,
    ChannelName,
    FileShare,
    MessageChanged,
    MessageDeleted,
    ThreadBroadcast,
    Tombstone,
    JoinerNotification,
    SlackbotResponse,
    EmojiChanged,
}

/// The subtypes of emoji events.
#[derive(Debug, Clone, Copy, PartialEq, Eq)]
pub enum SlackEmojiEventType {
    EmojiRemoved,
    EmojiAdded,
    EmojiRenamed,
}

} // verus!
