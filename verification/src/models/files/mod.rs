//! Files.

use vstd::prelude::*;

use crate::models::common::reaction::SlackReaction;
use crate::models::common::{SlackDateTime, SlackMimeType, SlackUserId};

verus! {

/// The id of a file.
#[derive(Debug, Clone, PartialEq, Eq, Hash)]
pub struct SlackFileId(pub String);

impl SlackFileId {
    pub fn new(value: String) -> (r: Self)
        ensures
            r.0 == value,
    {
        SlackFileId(value)
    }

    pub fn value(&self) -> (r: &String)
        ensures
            *r == self.0,
    {
        &self.0
    }
}

/// The type of a file, such as `png`.
#[derive(Debug, Clone, PartialEq, Eq, Hash)]
pub struct SlackFileType(pub String);

impl SlackFileType {
    pub fn new(value: String) -> (r: Self)
        ensures
            r.0 == value,
    {
        SlackFileType(value)
    }

    pub fn value(&self) -> (r: &String)
        ensures
            *r == self.0,
    {
        &self.0
    }
}

/// The human-readable type of a file.
#[derive(Debug, Clone, PartialEq, Eq, Hash)]
pub struct SlackFilePrettyType(pub String);

impl SlackFilePrettyType {
    pub fn new(value: String) -> (r: Self)
        ensures
            r.0 == value,
    {
        SlackFilePrettyType(value)
    }

    pub fn value(&self) -> (r: &String)
        ensures
            *r == self.0,
    {
        &self.0
    }
}

/// The service that an external file lives in.
#[derive(Debug, Clone, PartialEq, Eq, Hash)]
pub struct SlackFileExternalType(pub String);

impl SlackFileExternalType {
    pub fn new(value: String) -> (r: Self)
        ensures
            r.0 == value,
    {
        SlackFileExternalType(value)
    }

    pub fn value(&self) -> (r: &String)
        ensures
            *r == self.0,
    {
        &self.0
    }
}

/// The id of a comment on a file.
#[derive(Debug, Clone, PartialEq, Eq, Hash)]
pub struct SlackFileCommentId(pub String);

impl SlackFileCommentId {
    pub fn new(value: String) -> (r: Self)
        ensures
            r.0 == value,
    {
        SlackFileCommentId(value)
    }

    pub fn value(&self) -> (r: &String)
        ensures
            *r == self.0,
    {
        &self.0
    }
}

/// A file.
#[derive(Debug, Clone, PartialEq)]
pub struct SlackFile {
    pub id: SlackFileId,
    pub created: SlackDateTime,
    pub timestamp: SlackDateTime,
    pub name: String,
    pub title: Option<String>,
    pub mimetype: Option<SlackMimeType>,
    pub filetype: Option<SlackFileType>,
    pub pretty_type: Option<SlackFilePrettyType>,
    pub external_type: Option<SlackFileExternalType>,
    pub user: Option<SlackUserId>,
    pub username: Option<String>,
    pub url_private: Option<url::Url>,
    pub url_private_download: Option<url::Url>,
    pub permalink: Option<url::Url>,
    pub permalink_public: Option<url::Url>,
    pub reactions: Option<Vec<SlackReaction>>,
    pub flags: SlackFileFlags,
}

impl SlackFile {
    /// A value with these fields; the optional ones are absent.
    pub fn new(id: SlackFileId, created: SlackDateTime, timestamp: SlackDateTime, name: String, flags: SlackFileFlags) -> (r: Self)
        ensures
            r == (SlackFile {
                id,
                created,
                timestamp,
                name,
                title: None,
                mimetype: None,
                filetype: None,
                pretty_type: None,
                external_type: None,
                user: None,
                username: None,
                url_private: None,
                url_private_download: None,
                permalink: None,
                permalink_public: None,
                reactions: None,
                flags,
            }),
    {
        SlackFile {
            id,
            created,
            timestamp,
            name,
            title: None,
            mimetype: None,
            filetype: None,
            pretty_type: None,
            external_type: None,
            user: None,
            username: None,
            url_private: None,
            url_private_download: None,
            permalink: None,
            permalink_public: None,
            reactions: None,
            flags,
        }
    }
}

/// What a file is: the flags that Slack sets on it.
#[derive(Debug, Clone, PartialEq)]
pub struct SlackFileFlags {
    pub editable: Option<bool>,
    pub is_external: Option<bool>,
    pub is_public: Option<bool>,
    pub public_url_shared: Option<bool>,
    pub display_as_bot: Option<bool>,
    pub is_starred: Option<bool>,
    pub has_rich_preview: Option<bool>,
}

impl SlackFileFlags {
    /// A value whose fields are all absent.
    pub fn new() -> (r: Self)
        ensures
            r == (SlackFileFlags {
                editable: None,
                is_external: None,
                is_public: None,
                public_url_shared: None,
                display_as_bot: None,
                is_starred: None,
                has_rich_preview: None,
            }),
    {
        SlackFileFlags {
            editable: None,
            is_external: None,
            is_public: None,
            public_url_shared: None,
            display_as_bot: None,
            is_starred: None,
            has_rich_preview: None,
        }
    }
}

} // verus!
