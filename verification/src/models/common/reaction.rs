//! Emoji reactions.

use vstd::prelude::*;

use crate::models::common::SlackUserId;
use crate::models::files::SlackFile;
use crate::models::messages::SlackHistoryMessage;

verus! {

/// A reaction: its emoji, how many gave it, and who.
#[derive(Debug, Clone, PartialEq)]
pub struct SlackReaction {
    pub name: SlackReactionName,
    pub count: usize,
    pub users: Vec<SlackUserId>,
}

impl SlackReaction {
    /// A value with these fields; the optional ones are absent.
    pub fn new(name: SlackReactionName, count: usize, users: Vec<SlackUserId>) -> (r: Self)
        ensures
            r == (SlackReaction { name, count, users }),
    {
        SlackReaction { name, count, users }
    }
}

/// The name of a reaction's emoji.
#[derive(Debug, Clone, PartialEq, Eq, Hash)]
pub struct SlackReactionName(pub String);

impl SlackReactionName {
    pub fn new(value: String) -> (r: Self)
        ensures
            r.0 == value,
    {
        SlackReactionName(value)
    }

    pub fn value(&self) -> (r: &String)
        ensures
            *r == self.0,
    {
        &self.0
    }
}

/// An item that has reactions.
#[derive(Debug, Clone, PartialEq)]
pub enum SlackReactionsItem {
    Message(SlackHistoryMessage),
    File(SlackFile),
}

} // verus!
