//! Users and user groups.

use vstd::prelude::*;

use crate::models::common::icon::SlackIcon;
use crate::models::common::{
    EmailAddress, SlackChannelId, SlackColor, SlackDateTime, SlackEmoji, SlackEnterpriseId, SlackEnterpriseSubteamId,
    SlackLocale, SlackTeamId, SlackUserGroupId, SlackUserId,
};

verus! {

/// A user.
#[derive(Debug, Clone, PartialEq)]
pub struct SlackUser {
    pub id: SlackUserId,
    pub team_id: Option<SlackTeamId>,
    pub teams: Option<Vec<SlackTeamId>>,
    pub name: Option<String>,
    pub locale: Option<SlackLocale>,
    pub profile: Option<SlackUserProfile>,
    pub flags: SlackUserFlags,
    pub tz: Option<String>,
    pub tz_label: Option<String>,
    pub tz_offset: Option<i32>,
    pub updated: Option<SlackDateTime>,
    pub deleted: Option<bool>,
    pub color: Option<SlackColor>,
    pub real_name: Option<String>,
    pub enterprise_user: Option<SlackEnterpriseUser>,
}

impl SlackUser {
    /// A value with these fields; the optional ones are absent.
    pub fn new(id: SlackUserId, flags: SlackUserFlags) -> (r: Self)
        ensures
            r == (SlackUser {
                id,
                team_id: None,
                teams: None,
                name: None,
                locale: None,
                profile: None,
                flags,
                tz: None,
                tz_label: None,
                tz_offset: None,
                updated: None,
                deleted: None,
                color: None,
                real_name: None,
                enterprise_user: None,
            }),
    {
        SlackUser {
            id,
            team_id: None,
            teams: None,
            name: None,
            locale: None,
            profile: None,
            flags,
            tz: None,
            tz_label: None,
            tz_offset: None,
            updated: None,
            deleted: None,
            color: None,
            real_name: None,
            enterprise_user: None,
        }
    }
}

/// The profile of a user.
#[derive(Debug, Clone, PartialEq)]
pub struct SlackUserProfile {
    pub id: Option<SlackUserId>,
    pub display_name: Option<String>,
    pub real_name: Option<String>,
    pub real_name_normalized: Option<String>,
    pub avatar_hash: Option<SlackAvatarHash>,
    pub status_text: Option<String>,
    pub status_expiration: Option<SlackDateTime>,
    pub status_emoji: Option<SlackEmoji>,
    pub display_name_normalized: Option<String>,
    pub email: Option<EmailAddress>,
    pub icon: Option<SlackIcon>,
    pub team: Option<SlackTeamId>,
}

impl SlackUserProfile {
    /// A value whose fields are all absent.
    pub fn new() -> (r: Self)
        ensures
            r == (SlackUserProfile {
                id: None,
                display_name: None,
                real_name: None,
                real_name_normalized: None,
                avatar_hash: None,
                status_text: None,
                status_expiration: None,
                status_emoji: None,
                display_name_normalized: None,
                email: None,
                icon: None,
                team: None,
            }),
    {
        SlackUserProfile {
            id: None,
            display_name: None,
            real_name: None,
            real_name_normalized: None,
            avatar_hash: None,
            status_text: None,
            status_expiration: None,
            status_emoji: None,
            display_name_normalized: None,
            email: None,
            icon: None,
            team: None,
        }
    }
}

/// What a user is: the flags that Slack sets on them.
#[derive(Debug, Clone, PartialEq)]
pub struct SlackUserFlags {
    pub is_admin: Option<bool>,
    pub is_app_user: Option<bool>,
    pub is_bot: Option<bool>,
    pub is_invited_user: Option<bool>,
    pub is_owner: Option<bool>,
    pub is_primary_owner: Option<bool>,
    pub is_restricted: Option<bool>,
    pub is_stranger: Option<bool>,
    pub is_ultra_restricted: Option<bool>,
    pub has_2fa: Option<bool>,
}

impl SlackUserFlags {
    /// A value whose fields are all absent.
    pub fn new() -> (r: Self)
        ensures
            r == (SlackUserFlags {
                is_admin: None,
                is_app_user: None,
                is_bot: None,
                is_invited_user: None,
                is_owner: None,
                is_primary_owner: None,
                is_restricted: None,
                is_stranger: None,
                is_ultra_restricted: None,
                has_2fa: None,
            }),
    {
        SlackUserFlags {
            is_admin: None,
            is_app_user: None,
            is_bot: None,
            is_invited_user: None,
            is_owner: None,
            is_primary_owner: None,
            is_restricted: None,
            is_stranger: None,
            is_ultra_restricted: None,
            has_2fa: None,
        }
    }
}

/// A user by id and names.
#[derive(Debug, Clone, PartialEq)]
pub struct SlackBasicUserInfo {
    pub id: SlackUserId,
    pub team_id: Option<SlackTeamId>,
    pub username: Option<String>,
    pub name: Option<String>,
}

impl SlackBasicUserInfo {
    /// A value with these fields; the optional ones are absent.
    pub fn new(id: SlackUserId) -> (r: Self)
        ensures
            r == (SlackBasicUserInfo { id, team_id: None, username: None, name: None }),
    {
        SlackBasicUserInfo { id, team_id: None, username: None, name: None }
    }
}

/// A user group.
#[derive(Debug, Clone, PartialEq)]
pub struct SlackUserGroup {
    pub id: SlackUserGroupId,
    pub team_id: SlackTeamId,
    pub enterprise_subteam_id: Option<SlackEnterpriseSubteamId>,
    pub is_usergroup: Option<bool>,
    pub is_subteam: Option<bool>,
    pub name: String,
    pub description: Option<String>,
    pub handle: String,
    pub is_external: bool,
    pub auto_provision: Option<bool>,
    pub date_create: SlackDateTime,
    pub date_update: Option<SlackDateTime>,
    pub date_delete: Option<SlackDateTime>,
    pub auto_type: Option<SlackAutoType>,
    pub created_by: SlackUserId,
    pub updated_by: Option<SlackUserId>,
    pub deleted_by: Option<SlackUserId>,
    pub prefs: SlackUserGroupPrefs,
    pub users: Option<Vec<SlackUserId>>,
    pub user_count: usize,
    pub channel_count: Option<u64>,
}

impl SlackUserGroup {
    /// A value with these fields; the optional ones are absent.
    pub fn new(id: SlackUserGroupId, team_id: SlackTeamId, name: String, handle: String, is_external: bool, date_create: SlackDateTime, created_by: SlackUserId, prefs: SlackUserGroupPrefs, user_count: usize) -> (r: Self)
        ensures
            r == (SlackUserGroup {
                id,
                team_id,
                enterprise_subteam_id: None,
                is_usergroup: None,
                is_subteam: None,
                name,
                description: None,
                handle,
                is_external,
                auto_provision: None,
                date_create,
                date_update: None,
                date_delete: None,
                auto_type: None,
                created_by,
                updated_by: None,
                deleted_by: None,
                prefs,
                users: None,
                user_count,
                channel_count: None,
            }),
    {
        SlackUserGroup {
            id,
            team_id,
            enterprise_subteam_id: None,
            is_usergroup: None,
            is_subteam: None,
            name,
            description: None,
            handle,
            is_external,
            auto_provision: None,
            date_create,
            date_update: None,
            date_delete: None,
            auto_type: None,
            created_by,
            updated_by: None,
            deleted_by: None,
            prefs,
            users: None,
            user_count,
            channel_count: None,
        }
    }
}

/// The default channels and groups of a user group.
#[derive(Debug, Clone, PartialEq)]
pub struct SlackUserGroupPrefs {
    pub channels: Vec<SlackChannelId>,
    pub groups: Vec<SlackUserGroupId>,
}

impl SlackUserGroupPrefs {
    /// A value with these fields; the optional ones are absent.
    pub fn new(channels: Vec<SlackChannelId>, groups: Vec<SlackUserGroupId>) -> (r: Self)
        ensures
            r == (SlackUserGroupPrefs { channels, groups }),
    {
        SlackUserGroupPrefs { channels, groups }
    }
}

/// The hash of a user's avatar.
#[derive(Debug, Clone, PartialEq, Eq, Hash)]
pub struct SlackAvatarHash(pub String);

impl SlackAvatarHash {
    pub fn new(value: String) -> (r: Self)
        ensures
            r.0 == value,
    {
        SlackAvatarHash(value)
    }

    pub fn value(&self) -> (r: &String)
        ensures
            *r == self.0,
    {
        &self.0
    }
}

/// A user of an enterprise grid organization.
#[derive(Debug, Clone, PartialEq)]
pub struct SlackEnterpriseUser {
    pub id: SlackUserId,
    pub enterprise_id: SlackEnterpriseId,
    pub enterprise_name: Option<String>,
    pub flags: SlackUserFlags,
    pub teams: Option<Vec<SlackTeamId>>,
}

impl SlackEnterpriseUser {
    /// A value with these fields; the optional ones are absent.
    pub fn new(id: SlackUserId, enterprise_id: SlackEnterpriseId, flags: SlackUserFlags) -> (r: Self)
        ensures
            r == (SlackEnterpriseUser {
                id,
                enterprise_id,
                enterprise_name: None,
                flags,
                teams: None,
            }),
    {
        SlackEnterpriseUser {
            id,
            enterprise_id,
            enterprise_name: None,
            flags,
            teams: None,
        }
    }
}

/// Who manages a user group automatically.
#[derive(Debug, Clone, Copy, PartialEq, Eq)]
pub enum SlackAutoType {
    Admin,
    Owner,
}

} // verus!
