//! Saved items.

use vstd::prelude::*;

use crate::models::common::{SlackChannelId, SlackDateTime};
use crate::models::files::SlackFile;
use crate::models::messages::SlackHistoryMessage;

verus! {

/// A saved message.
#[derive(Debug, Clone, PartialEq)]
pub struct SlackStarsItemMessage {
    pub message: SlackHistoryMessage,
    pub channel: SlackChannelId,
    pub date_create: SlackDateTime,
}

impl SlackStarsItemMessage {
    /// A value with these fields; the optional ones are absent.
    pub fn new(message: SlackHistoryMessage, channel: SlackChannelId, date_create: SlackDateTime) -> (r: Self)
        ensures
            r == (SlackStarsItemMessage { message, channel, date_create }),
    {
        SlackStarsItemMessage { message, channel, date_create }
    }
}

/// A saved file.
#[derive(Debug, Clone, PartialEq)]
pub struct SlackStarsItemFile {
    pub file: SlackFile,
    pub channel: SlackChannelId,
    pub date_create: SlackDateTime,
}

impl SlackStarsItemFile {
    /// A value with these fields; the optional ones are absent.
    pub fn new(file: SlackFile, channel: SlackChannelId, date_create: SlackDateTime) -> (r: Self)
        ensures
            r == (SlackStarsItemFile { file, channel, date_create }),
    {
        SlackStarsItemFile { file, channel, date_create }
    }
}

/// A saved comment on a file.
#[derive(Debug, Clone, PartialEq)]
pub struct SlackStarsItemFileComment {
    pub file: SlackFile,
    pub comment: String,
    pub channel: SlackChannelId,
    pub date_create: SlackDateTime,
}

impl SlackStarsItemFileComment {
    /// A value with these fields; the optional ones are absent.
    pub fn new(file: SlackFile, comment: String, channel: SlackChannelId, date_create: SlackDateTime) -> (r: Self)
        ensures
            r == (SlackStarsItemFileComment { file, comment, channel, date_create }),
    {
        SlackStarsItemFileComment { file, comment, channel, date_create }
    }
}

/// A saved channel.
#[derive(Debug, Clone, PartialEq)]
pub struct SlackStarsItemChannel {
    pub channel: SlackChannelId,
    pub date_create: SlackDateTime,
}

impl SlackStarsItemChannel {
    /// A value with these fields; the optional ones are absent.
    pub fn new(channel: SlackChannelId, date_create: SlackDateTime) -> (r: Self)
        ensures
            r == (SlackStarsItemChannel { channel, date_create }),
    {
        SlackStarsItemChannel { channel, date_create }
    }
}

/// A saved direct message conversation.
#[derive(Debug, Clone, PartialEq)]
pub struct SlackStarsItemIm {
    pub channel: SlackChannelId,
    pub date_create: SlackDateTime,
}

impl SlackStarsItemIm {
    /// A value with these fields; the optional ones are absent.
    pub fn new(channel: SlackChannelId, date_create: SlackDateTime) -> (r: Self)
        ensures
            r == (SlackStarsItemIm { channel, date_create }),
    {
        SlackStarsItemIm { channel, date_create }
    }
}

/// A saved private group.
#[derive(Debug, Clone, PartialEq)]
pub struct SlackStarsItemGroup {
    pub group: SlackChannelId,
    pub date_create: SlackDateTime,
}

impl SlackStarsItemGroup {
    /// A value with these fields; the optional ones are absent.
    pub fn new(group: SlackChannelId, date_create: SlackDateTime) -> (r: Self)
        ensures
            r == (SlackStarsItemGroup { group, date_create }),
    {
        SlackStarsItemGroup { group, date_create }
    }
}

/// A saved item.
#[derive(Debug, Clone, PartialEq)]
pub enum SlackStarsItem {
    Message(SlackStarsItemMessage),
    File(SlackStarsItemFile),
    FileComment(SlackStarsItemFileComment),
    Channel(SlackStarsItemChannel),
    Im(SlackStarsItemIm),
    Group(SlackStarsItemGroup),
}

} // verus!
