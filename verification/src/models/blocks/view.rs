//! Views: home tabs and modals, and the answers to their submissions.

use vstd::prelude::*;

use std::collections::HashMap;

use crate::models::blocks::kit::{SlackBlock, SlackBlockId, SlackBlockPlainText, SlackBlockPlainTextOnly};
use crate::models::common::{
    SlackActionId, SlackActionType, SlackAppId, SlackBotId, SlackCallbackId, SlackChannelId, SlackConversationId,
    SlackDateTime, SlackTeamId, SlackUserId, SlackViewId,
};

verus! {

/// The home tab of an app.
#[derive(Debug, Clone, PartialEq)]
pub struct SlackHomeView {
    pub blocks: Vec<SlackBlock>,
    pub private_metadata: Option<String>,
    pub callback_id: Option<SlackCallbackId>,
    pub external_id: Option<String>,
}

impl SlackHomeView {
    /// A value with these fields; the optional ones are absent.
    pub fn new(blocks: Vec<SlackBlock>) -> (r: Self)
        ensures
            r == (SlackHomeView {
                blocks,
                private_metadata: None,
                callback_id: None,
                external_id: None,
            }),
    {
        SlackHomeView {
            blocks,
            private_metadata: None,
            callback_id: None,
            external_id: None,
        }
    }
}

/// A modal.
#[derive(Debug, Clone, PartialEq)]
pub struct SlackModalView {
    pub title: SlackBlockPlainTextOnly,
    pub blocks: Vec<SlackBlock>,
    pub close: Option<SlackBlockPlainTextOnly>,
    pub submit: Option<SlackBlockPlainTextOnly>,
    pub private_metadata: Option<String>,
    pub callback_id: Option<SlackCallbackId>,
    pub clear_on_close: Option<bool>,
    pub notify_on_close: Option<bool>,
    pub hash: Option<String>,
    pub external_id: Option<String>,
}

impl SlackModalView {
    /// A value with these fields; the optional ones are absent.
    pub fn new(title: SlackBlockPlainTextOnly, blocks: Vec<SlackBlock>) -> (r: Self)
        ensures
            r == (SlackModalView {
                title,
                blocks,
                close: None,
                submit: None,
                private_metadata: None,
                callback_id: None,
                clear_on_close: None,
                notify_on_close: None,
                hash: None,
                external_id: None,
            }),
    {
        SlackModalView {
            title,
            blocks,
            close: None,
            submit: None,
            private_metadata: None,
            callback_id: None,
            clear_on_close: None,
            notify_on_close: None,
            hash: None,
            external_id: None,
        }
    }
}

/// An option selected in the state of a view.
#[derive(Debug, Clone, PartialEq)]
pub struct SlackViewStateValueSelectedOption {
    pub text: SlackBlockPlainText,
    pub value: String,
}

impl SlackViewStateValueSelectedOption {
    /// A value with these fields; the optional ones are absent.
    pub fn new(text: SlackBlockPlainText, value: String) -> (r: Self)
        ensures
            r == (SlackViewStateValueSelectedOption { text, value }),
    {
        SlackViewStateValueSelectedOption { text, value }
    }
}

/// Closes all the views of the submission.
#[derive(Debug, Clone, PartialEq)]
pub struct SlackViewSubmissionClearResponse {
}

impl SlackViewSubmissionClearResponse {
    /// A value whose fields are all absent.
    pub fn new() -> (r: Self)
        ensures
            r == (SlackViewSubmissionClearResponse {}),
    {
        SlackViewSubmissionClearResponse {}
    }
}

/// Replaces the submitted view.
#[derive(Debug, Clone, PartialEq)]
pub struct SlackViewSubmissionUpdateResponse {
    pub view: SlackView,
}

impl SlackViewSubmissionUpdateResponse {
    /// A value with these fields; the optional ones are absent.
    pub fn new(view: SlackView) -> (r: Self)
        ensures
            r == (SlackViewSubmissionUpdateResponse { view }),
    {
        SlackViewSubmissionUpdateResponse { view }
    }
}

/// Pushes a view on top of the submitted one.
#[derive(Debug, Clone, PartialEq)]
pub struct SlackViewSubmissionPushResponse {
    pub view: SlackView,
}

impl SlackViewSubmissionPushResponse {
    /// A value with these fields; the optional ones are absent.
    pub fn new(view: SlackView) -> (r: Self)
        ensures
            r == (SlackViewSubmissionPushResponse { view }),
    {
        SlackViewSubmissionPushResponse { view }
    }
}

/// Shows errors by the block ids of the submitted view.
#[derive(Debug, Clone, PartialEq)]
pub struct SlackViewSubmissionErrorsResponse {
    pub errors: HashMap<String, String>,
}

impl SlackViewSubmissionErrorsResponse {
    /// A value with these fields; the optional ones are absent.
    pub fn new(errors: HashMap<String, String>) -> (r: Self)
        ensures
            r == (SlackViewSubmissionErrorsResponse { errors }),
    {
        SlackViewSubmissionErrorsResponse { errors }
    }
}

/// A view as Slack keeps it: its state and identity, and the view.
#[derive(Debug, Clone, PartialEq)]
pub struct SlackStatefulView {
    pub state_params: SlackStatefulStateParams,
    pub view: SlackView,
}

impl SlackStatefulView {
    /// A value with these fields; the optional ones are absent.
    pub fn new(state_params: SlackStatefulStateParams, view: SlackView) -> (r: Self)
        ensures
            r == (SlackStatefulView { state_params, view }),
    {
        SlackStatefulView { state_params, view }
    }
}

/// The state and identity of a view that Slack keeps.
#[derive(Debug, Clone, PartialEq)]
pub struct SlackStatefulStateParams {
    pub id: SlackViewId,
    pub team_id: SlackTeamId,
    pub state: Option<SlackViewState>,
    pub hash: String,
    pub previous_view_id: Option<SlackViewId>,
    pub root_view_id: Option<SlackViewId>,
    pub app_id: Option<SlackAppId>,
    pub bot_id: Option<SlackBotId>,
}

impl SlackStatefulStateParams {
    /// A value with these fields; the optional ones are absent.
    pub fn new(id: SlackViewId, team_id: SlackTeamId, hash: String) -> (r: Self)
        ensures
            r == (SlackStatefulStateParams {
                id,
                team_id,
                state: None,
                hash,
                previous_view_id: None,
                root_view_id: None,
                app_id: None,
                bot_id: None,
            }),
    {
        SlackStatefulStateParams {
            id,
            team_id,
            state: None,
            hash,
            previous_view_id: None,
            root_view_id: None,
            app_id: None,
            bot_id: None,
        }
    }
}

/// The values of the inputs of a view, by block and action.
#[derive(Debug, Clone, PartialEq)]
pub struct SlackViewState {
    pub values: HashMap<SlackBlockId, HashMap<SlackActionId, SlackViewStateValue>>,
}

impl SlackViewState {
    /// A value with these fields; the optional ones are absent.
    pub fn new(values: HashMap<SlackBlockId, HashMap<SlackActionId, SlackViewStateValue>>) -> (r: Self)
        ensures
            r == (SlackViewState { values }),
    {
        SlackViewState { values }
    }
}

/// The value of one input of a view.
#[derive(Debug, Clone, PartialEq)]
pub struct SlackViewStateValue {
    pub action_type: SlackActionType,
    pub value: Option<String>,
    pub selected_date: Option<String>,
    pub selected_time: Option<String>,
    pub selected_date_time: Option<SlackDateTime>,
    pub selected_conversation: Option<SlackConversationId>,
    pub selected_channel: Option<SlackChannelId>,
    pub selected_user: Option<SlackUserId>,
    pub selected_option: Option<SlackViewStateValueSelectedOption>,
    pub selected_conversations: Option<Vec<SlackConversationId>>,
    pub selected_users: Option<Vec<SlackUserId>>,
    pub selected_options: Option<Vec<SlackViewStateValueSelectedOption>>,
}

impl SlackViewStateValue {
    /// A value with these fields; the optional ones are absent.
    pub fn new(action_type: SlackActionType) -> (r: Self)
        ensures
            r == (SlackViewStateValue {
                action_type,
                value: None,
                selected_date: None,
                selected_time: None,
                selected_date_time: None,
                selected_conversation: None,
                selected_channel: None,
                selected_user: None,
                selected_option: None,
                selected_conversations: None,
                selected_users: None,
                selected_options: None,
            }),
    {
        SlackViewStateValue {
            action_type,
            value: None,
            selected_date: None,
            selected_time: None,
            selected_date_time: None,
            selected_conversation: None,
            selected_channel: None,
            selected_user: None,
            selected_option: None,
            selected_conversations: None,
            selected_users: None,
            selected_options: None,
        }
    }
}

/// A view.
#[derive(Debug, Clone, PartialEq)]
pub enum SlackView {
    Home(SlackHomeView),
    Modal(SlackModalView),
}

/// The answer to the submission of a view.
#[derive(Debug, Clone, PartialEq)]
pub enum SlackViewSubmissionResponse {
    Clear(SlackViewSubmissionClearResponse),
    Update(SlackViewSubmissionUpdateResponse),
    Push(SlackViewSubmissionPushResponse),
    Errors(SlackViewSubmissionErrorsResponse),
}

} // verus!
