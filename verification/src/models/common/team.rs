//! Workspaces.

use vstd::prelude::*;

use crate::models::common::SlackTeamId;
use crate::models::common::icon::SlackIcon;

verus! {

/// A workspace.
#[derive(Debug, Clone, PartialEq)]
pub struct SlackTeamInfo {
    pub id: SlackTeamId,
    pub name: Option<String>,
    pub domain: Option<String>,
    pub email_domain: Option<String>,
    pub icon: Option<SlackIcon>,
}

impl SlackTeamInfo {
    /// A value with these fields; the optional ones are absent.
    pub fn new(id: SlackTeamId) -> (r: Self)
        ensures
            r == (SlackTeamInfo { id, name: None, domain: None, email_domain: None, icon: None }),
    {
        SlackTeamInfo { id, name: None, domain: None, email_domain: None, icon: None }
    }
}

/// A workspace by id and name.
#[derive(Debug, Clone, PartialEq)]
pub struct SlackBasicTeamInfo {
    pub id: SlackTeamId,
    pub name: Option<String>,
}

impl SlackBasicTeamInfo {
    /// A value with these fields; the optional ones are absent.
    pub fn new(id: SlackTeamId) -> (r: Self)
        ensures
            r == (SlackBasicTeamInfo { id, name: None }),
    {
        SlackBasicTeamInfo { id, name: None }
    }
}

/// The id of a field of a workspace's profiles.
#[derive(Debug, Clone, PartialEq, Eq, Hash)]
pub struct SlackTeamProfileFieldId(pub String);

impl SlackTeamProfileFieldId {
    pub fn new(value: String) -> (r: Self)
        ensures
            r.0 == value,
    {
        SlackTeamProfileFieldId(value)
    }

    pub fn value(&self) -> (r: &String)
        ensures
            *r == self.0,
    {
        &self.0
    }
}

/// The profile fields of a workspace.
#[derive(Debug, Clone, PartialEq)]
pub struct SlackTeamProfile {
    pub fields: Vec<SlackTeamProfileField>,
}

impl SlackTeamProfile {
    /// A profile with these fields.
    pub fn new(fields: Vec<SlackTeamProfileField>) -> (r: Self)
        ensures
            r == (SlackTeamProfile { fields }),
    {
        SlackTeamProfile { fields }
    }
}

/// A field of a workspace's profiles.
#[derive(Debug, Clone, PartialEq)]
pub struct SlackTeamProfileField {
    id: SlackTeamProfileFieldId,
    ordering: i64,
    label: String,
    hint: Option<String>,
    field_type: Option<String>,
    possible_values: Option<Vec<String>>,
    options: Option<serde_json::Value>,
}

impl SlackTeamProfileField {
    /// The field with this id, position and label, and nothing else set.
    pub closed spec fn made_of(id: SlackTeamProfileFieldId, ordering: i64, label: String) -> Self {
        SlackTeamProfileField { id, ordering, label, hint: None, field_type: None, possible_values: None, options: None }
    }

    /// A field with this id, position and label; the rest absent.
    pub fn new(id: SlackTeamProfileFieldId, ordering: i64, label: String) -> (r: Self)
        ensures
            r == Self::made_of(id, ordering, label),
    {
        SlackTeamProfileField { id, ordering, label, hint: None, field_type: None, possible_values: None, options: None }
    }
}

} // verus!
