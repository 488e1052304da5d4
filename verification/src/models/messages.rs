//! Messages: where they are, who sent them, and their attachments.

use vstd::prelude::*;

use crate::models::blocks::kit::SlackBlock;
use crate::models::common::reaction::SlackReaction;
use crate::models::events::push::SlackMessageEventType;
use crate::models::files::SlackFile;
use crate::models::common::{SlackBotId, SlackChannelId, SlackChannelType, SlackClientMessageId, SlackTs, SlackUserId};

verus! {

/// Where a message is.
#[derive(Debug, Clone, PartialEq)]
pub struct SlackMessageOrigin {
    pub ts: SlackTs,
    pub channel: Option<SlackChannelId>,
    pub channel_type: Option<SlackChannelType>,
    pub thread_ts: Option<SlackTs>,
    pub client_msg_id: Option<SlackClientMessageId>,
}

impl SlackMessageOrigin {
    /// A value with these fields; the optional ones are absent.
    pub fn new(ts: SlackTs) -> (r: Self)
        ensures
            r == (SlackMessageOrigin {
                ts,
                channel: None,
                channel_type: None,
                thread_ts: None,
                client_msg_id: None,
            }),
    {
        SlackMessageOrigin {
            ts,
            channel: None,
            channel_type: None,
            thread_ts: None,
            client_msg_id: None,
        }
    }
}

/// Who sent a message.
#[derive(Debug, Clone, PartialEq)]
pub struct SlackMessageSender {
    pub user: Option<SlackUserId>,
    pub bot_id: Option<SlackBotId>,
    pub username: Option<String>,
    pub display_as_bot: Option<bool>,
}

impl SlackMessageSender {
    /// A value whose fields are all absent.
    pub fn new() -> (r: Self)
        ensures
            r == (SlackMessageSender {
                user: None,
                bot_id: None,
                username: None,
                display_as_bot: None,
            }),
    {
        SlackMessageSender {
            user: None,
            bot_id: None,
            username: None,
            display_as_bot: None,
        }
    }
}

/// The replies to a message.
#[derive(Debug, Clone, PartialEq)]
pub struct SlackParentMessageParams {
    pub reply_count: Option<usize>,
    pub reply_users_count: Option<usize>,
    pub latest_reply: Option<SlackTs>,
    pub reply_users: Option<Vec<SlackUserId>>,
}

impl SlackParentMessageParams {
    /// A value whose fields are all absent.
    pub fn new() -> (r: Self)
        ensures
            r == (SlackParentMessageParams {
                reply_count: None,
                reply_users_count: None,
                latest_reply: None,
                reply_users: None,
            }),
    {
        SlackParentMessageParams {
            reply_count: None,
            reply_users_count: None,
            latest_reply: None,
            reply_users: None,
        }
    }
}

/// Who edited a message, and when.
#[derive(Debug, Clone, PartialEq)]
pub struct SlackMessageEdited {
    pub user: SlackUserId,
    pub ts: SlackTs,
}

impl SlackMessageEdited {
    /// A value with these fields; the optional ones are absent.
    pub fn new(user: SlackUserId, ts: SlackTs) -> (r: Self)
        ensures
            r == (SlackMessageEdited { user, ts }),
    {
        SlackMessageEdited { user, ts }
    }
}

/// A legacy attachment of a message.
#[derive(Debug, Clone, PartialEq)]
pub struct SlackMessageAttachment {
    pub id: Option<i64>,
    pub color: Option<String>,
    pub fallback: Option<String>,
    pub title: Option<String>,
    pub fields: Option<Vec<SlackMessageAttachmentFieldObject>>,
    pub mrkdwn_in: Option<Vec<String>>,
}

impl SlackMessageAttachment {
    /// A value whose fields are all absent.
    pub fn new() -> (r: Self)
        ensures
            r == (SlackMessageAttachment {
                id: None,
                color: None,
                fallback: None,
                title: None,
                fields: None,
                mrkdwn_in: None,
            }),
    {
        SlackMessageAttachment {
            id: None,
            color: None,
            fallback: None,
            title: None,
            fields: None,
            mrkdwn_in: None,
        }
    }
}

/// A field of a legacy attachment.
#[derive(Debug, Clone, PartialEq)]
pub struct SlackMessageAttachmentFieldObject {
    pub title: Option<String>,
    pub value: Option<String>,
    pub short: Option<bool>,
}

impl SlackMessageAttachmentFieldObject {
    /// A value whose fields are all absent.
    pub fn new() -> (r: Self)
        ensures
            r == (SlackMessageAttachmentFieldObject { title: None, value: None, short: None }),
    {
        SlackMessageAttachmentFieldObject { title: None, value: None, short: None }
    }
}

/// Who sees the answer to a command.
#[derive(Debug, Clone, Copy, PartialEq, Eq)]
pub enum SlackMessageResponseType {
    InChannel,
    Ephemeral,
}

/// What a message holds.
#[derive(Debug, Clone, PartialEq)]
pub struct SlackMessageContent {
    pub text: Option<String>,
    pub blocks: Option<Vec<SlackBlock>>,
    pub attachments: Option<Vec<SlackMessageAttachment>>,
    pub upload: Option<bool>,
    pub files: Option<Vec<SlackFile>>,
    pub reactions: Option<Vec<SlackReaction>>,
}

impl SlackMessageContent {
    /// A value whose fields are all absent.
    pub fn new() -> (r: Self)
        ensures
            r == (SlackMessageContent {
                text: None,
                blocks: None,
                attachments: None,
                upload: None,
                files: None,
                reactions: None,
            }),
    {
        SlackMessageContent {
            text: None,
            blocks: None,
            attachments: None,
            upload: None,
            files: None,
            reactions: None,
        }
    }
}

/// A message: where it is, what it holds and its replies.
#[derive(Debug, Clone, PartialEq)]
pub struct SlackMessage {
    pub origin: SlackMessageOrigin,
    pub content: SlackMessageContent,
    pub parent: SlackParentMessageParams,
}

impl SlackMessage {
    /// A value with these fields; the optional ones are absent.
    pub fn new(origin: SlackMessageOrigin, content: SlackMessageContent, parent: SlackParentMessageParams) -> (r: Self)
        ensures
            r == (SlackMessage { origin, content, parent }),
    {
        SlackMessage { origin, content, parent }
    }
}

/// A message of a conversation's history.
#[derive(Debug, Clone, PartialEq)]
pub struct SlackHistoryMessage {
    pub origin: SlackMessageOrigin,
    pub content: SlackMessageContent,
    pub sender: SlackMessageSender,
    pub parent: SlackParentMessageParams,
    pub subtype: Option<SlackMessageEventType>,
}

impl SlackHistoryMessage {
    /// A value with these fields; the optional ones are absent.
    pub fn new(origin: SlackMessageOrigin, content: SlackMessageContent, sender: SlackMessageSender, parent: SlackParentMessageParams) -> (r: Self)
        ensures
            r == (SlackHistoryMessage { origin, content, sender, parent, subtype: None }),
    {
        SlackHistoryMessage { origin, content, sender, parent, subtype: None }
    }
}

/// A message after an update.
#[derive(Debug, Clone, PartialEq)]
pub struct SlackUpdatedMessage {
    pub sender: SlackMessageSender,
    pub content: SlackMessageContent,
    pub edited: Option<SlackMessageEdited>,
}

impl SlackUpdatedMessage {
    /// A value with these fields; the optional ones are absent.
    pub fn new(sender: SlackMessageSender, content: SlackMessageContent) -> (r: Self)
        ensures
            r == (SlackUpdatedMessage { sender, content, edited: None }),
    {
        SlackUpdatedMessage { sender, content, edited: None }
    }
}

/// Something that renders as the content of a message.
pub trait SlackMessageTemplate {
    /// The content.
    fn render_template(&self) -> SlackMessageContent;
}

/// Something that renders as blocks of a message.
pub trait SlackBlocksTemplate {
    /// The blocks.
    fn render_template(&self) -> Vec<SlackBlock>;
}

/// The id of an attachment in a message.
#[derive(Debug, Clone, Copy, PartialEq, Eq, Hash)]
pub struct SlackMessageAttachmentId(pub i64);

} // verus!
