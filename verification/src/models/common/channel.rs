//! Channels.

use vstd::prelude::*;

use crate::models::common::{SlackChannelId, SlackDateTime, SlackTs, SlackUserId};

verus! {

/// What a channel is: the flags that Slack sets on it.
#[derive(Debug, Clone, PartialEq)]
pub struct SlackChannelFlags {
    pub is_channel: Option<bool>,
    pub is_group: Option<bool>,
    pub is_im: Option<bool>,
    pub is_archived: Option<bool>,
    pub is_general: Option<bool>,
    pub is_shared: Option<bool>,
    pub is_org_shared: Option<bool>,
    pub is_member: Option<bool>,
    pub is_private: Option<bool>,
    pub is_mpim: Option<bool>,
    pub is_user_deleted: Option<bool>,
}

impl SlackChannelFlags {
    /// A value whose fields are all absent.
    pub fn new() -> (r: Self)
        ensures
            r == (SlackChannelFlags {
                is_channel: None,
                is_group: None,
                is_im: None,
                is_archived: None,
                is_general: None,
                is_shared: None,
                is_org_shared: None,
                is_member: None,
                is_private: None,
                is_mpim: None,
                is_user_deleted: None,
            }),
    {
        SlackChannelFlags {
            is_channel: None,
            is_group: None,
            is_im: None,
            is_archived: None,
            is_general: None,
            is_shared: None,
            is_org_shared: None,
            is_member: None,
            is_private: None,
            is_mpim: None,
            is_user_deleted: None,
        }
    }
}

/// How far the user has read a channel.
#[derive(Debug, Clone, PartialEq)]
pub struct SlackChannelCurrentState {
    pub last_read: Option<SlackTs>,
    pub unread_count: Option<u64>,
    pub unread_count_display: Option<u64>,
}

impl SlackChannelCurrentState {
    /// A value whose fields are all absent.
    pub fn new() -> (r: Self)
        ensures
            r == (SlackChannelCurrentState {
                last_read: None,
                unread_count: None,
                unread_count_display: None,
            }),
    {
        SlackChannelCurrentState {
            last_read: None,
            unread_count: None,
            unread_count_display: None,
        }
    }
}

/// A channel by id and name.
#[derive(Debug, Clone, PartialEq)]
pub struct SlackBasicChannelInfo {
    pub id: SlackChannelId,
    pub name: Option<String>,
}

impl SlackBasicChannelInfo {
    /// A value with these fields; the optional ones are absent.
    pub fn new(id: SlackChannelId) -> (r: Self)
        ensures
            r == (SlackBasicChannelInfo { id, name: None }),
    {
        SlackBasicChannelInfo { id, name: None }
    }
}

/// The topic or the purpose of a channel, and who set it when.
#[derive(Debug, Clone, PartialEq)]
pub struct SlackChannelDetails {
    pub value: String,
    pub creator: Option<SlackUserId>,
    pub last_set: Option<SlackDateTime>,
}

impl SlackChannelDetails {
    /// A value with these fields; the optional ones are absent.
    pub fn new(value: String) -> (r: Self)
        ensures
            r == (SlackChannelDetails { value, creator: None, last_set: None }),
    {
        SlackChannelDetails { value, creator: None, last_set: None }
    }
}

/// A model that belongs to a channel.
pub trait HasChannelInfo {
    /// The id of the channel.
    fn get_channel_id(&self) -> &SlackChannelId;
}

impl HasChannelInfo for SlackBasicChannelInfo {
    fn get_channel_id(&self) -> (r: &SlackChannelId)
        ensures
            *r == self.id,
    {
        &self.id
    }
}

} // verus!
