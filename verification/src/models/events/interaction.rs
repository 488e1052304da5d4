//! Interactions of users with blocks and views, and what an app answers.

use vstd::prelude::*;
use vstd::std_specs::convert::FromSpecImpl;

use std::collections::HashMap;

use crate::models::blocks::kit::{
    SlackBlockChoiceItem, SlackBlockId, SlackBlockOptionGroup, SlackBlockPlainTextOnly, SlackBlockText,
};
use crate::models::blocks::view::{SlackStatefulView, SlackView, SlackViewState, SlackViewSubmissionResponse};
use crate::models::common::channel::SlackBasicChannelInfo;
use crate::models::common::team::SlackBasicTeamInfo;
use crate::models::common::urls::SlackResponseUrl;
use crate::models::common::user::SlackBasicUserInfo;
use crate::models::common::{
    SlackActionId, SlackActionType, SlackAppId, SlackCallbackId, SlackChannelId, SlackTriggerId, SlackTs, SlackViewId,
};
use crate::models::messages::SlackHistoryMessage;
use crate::models::messages::SlackMessageAttachmentId;

verus! {

/// An action in a message.
#[derive(Debug, Clone, PartialEq)]
pub struct SlackInteractionActionMessageContainer {
    pub message_ts: SlackTs,
    pub channel_id: Option<SlackChannelId>,
    pub is_ephemeral: Option<bool>,
    pub is_app_unfurl: Option<bool>,
}

impl SlackInteractionActionMessageContainer {
    /// A value with these fields; the optional ones are absent.
    pub fn new(message_ts: SlackTs) -> (r: Self)
        ensures
            r == (SlackInteractionActionMessageContainer {
                message_ts,
                channel_id: None,
                is_ephemeral: None,
                is_app_unfurl: None,
            }),
    {
        SlackInteractionActionMessageContainer {
            message_ts,
            channel_id: None,
            is_ephemeral: None,
            is_app_unfurl: None,
        }
    }
}

/// An action in an attachment of a message.
#[derive(Debug, Clone, PartialEq)]
pub struct SlackInteractionActionMessageAttachmentContainer {
    pub message_ts: SlackTs,
    pub attachment_id: SlackMessageAttachmentId,
    pub channel_id: Option<SlackChannelId>,
    pub is_ephemeral: Option<bool>,
    pub is_app_unfurl: Option<bool>,
}

impl SlackInteractionActionMessageAttachmentContainer {
    /// A value with these fields; the optional ones are absent.
    pub fn new(message_ts: SlackTs, attachment_id: SlackMessageAttachmentId) -> (r: Self)
        ensures
            r == (SlackInteractionActionMessageAttachmentContainer {
                message_ts,
                attachment_id,
                channel_id: None,
                is_ephemeral: None,
                is_app_unfurl: None,
            }),
    {
        SlackInteractionActionMessageAttachmentContainer {
            message_ts,
            attachment_id,
            channel_id: None,
            is_ephemeral: None,
            is_app_unfurl: None,
        }
    }
}

/// An action in a view.
#[derive(Debug, Clone, PartialEq)]
pub struct SlackInteractionActionViewContainer {
    pub view_id: SlackViewId,
}

impl SlackInteractionActionViewContainer {
    /// A value with these fields; the optional ones are absent.
    pub fn new(view_id: SlackViewId) -> (r: Self)
        ensures
            r == (SlackInteractionActionViewContainer { view_id }),
    {
        SlackInteractionActionViewContainer { view_id }
    }
}

/// The options an external select offers.
#[derive(Debug, Clone, PartialEq)]
pub struct SlackBlockSuggestionOptions {
    pub options: Vec<SlackBlockChoiceItem<SlackBlockPlainTextOnly>>,
}

impl SlackBlockSuggestionOptions {
    /// A value with these fields; the optional ones are absent.
    pub fn new(options: Vec<SlackBlockChoiceItem<SlackBlockPlainTextOnly>>) -> (r: Self)
        ensures
            r == (SlackBlockSuggestionOptions { options }),
    {
        SlackBlockSuggestionOptions { options }
    }
}

/// The groups of options an external select offers.
#[derive(Debug, Clone, PartialEq)]
pub struct SlackBlockSuggestionOptionGroups {
    pub option_groups: Vec<SlackBlockOptionGroup<SlackBlockPlainTextOnly>>,
}

impl SlackBlockSuggestionOptionGroups {
    /// A value with these fields; the optional ones are absent.
    pub fn new(option_groups: Vec<SlackBlockOptionGroup<SlackBlockPlainTextOnly>>) -> (r: Self)
        ensures
            r == (SlackBlockSuggestionOptionGroups { option_groups }),
    {
        SlackBlockSuggestionOptionGroups { option_groups }
    }
}

/// An interaction of a user.
#[derive(Debug, Clone, PartialEq)]
pub enum SlackInteractionEvent {
    BlockActions(SlackInteractionBlockActionsEvent),
    BlockSuggestion(SlackInteractionBlockSuggestionEvent),
    DialogSubmission(SlackInteractionDialogueSubmissionEvent),
    MessageAction(SlackInteractionMessageActionEvent),
    Shortcut(SlackInteractionShortcutEvent),
    ViewSubmission(SlackInteractionViewSubmissionEvent),
    ViewClosed(SlackInteractionViewClosedEvent),
}

/// A user acted on interactive blocks.
#[derive(Debug, Clone, PartialEq)]
pub struct SlackInteractionBlockActionsEvent {
    pub team: SlackBasicTeamInfo,
    pub user: Option<SlackBasicUserInfo>,
    pub api_app_id: SlackAppId,
    pub container: SlackInteractionActionContainer,
    pub trigger_id: SlackTriggerId,
    pub channel: Option<SlackBasicChannelInfo>,
    pub message: Option<SlackHistoryMessage>,
    pub view: Option<SlackView>,
    pub response_url: Option<SlackResponseUrl>,
    pub actions: Option<Vec<SlackInteractionActionInfo>>,
    pub state: Option<SlackViewState>,
}

impl SlackInteractionBlockActionsEvent {
    /// A value with these fields; the optional ones are absent.
    pub fn new(team: SlackBasicTeamInfo, api_app_id: SlackAppId, container: SlackInteractionActionContainer, trigger_id: SlackTriggerId) -> (r: Self)
        ensures
            r == (SlackInteractionBlockActionsEvent {
                team,
                user: None,
                api_app_id,
                container,
                trigger_id,
                channel: None,
                message: None,
                view: None,
                response_url: None,
                actions: None,
                state: None,
            }),
    {
        SlackInteractionBlockActionsEvent {
            team,
            user: None,
            api_app_id,
            container,
            trigger_id,
            channel: None,
            message: None,
            view: None,
            response_url: None,
            actions: None,
            state: None,
        }
    }
}

/// An external select asks for its options.
#[derive(Debug, Clone, PartialEq)]
pub struct SlackInteractionBlockSuggestionEvent {
    pub team: SlackBasicTeamInfo,
    pub user: SlackBasicUserInfo,
    pub api_app_id: SlackAppId,
    pub block_id: SlackBlockId,
    pub action_id: SlackActionId,
    pub container: SlackInteractionActionContainer,
    pub channel: Option<SlackBasicChannelInfo>,
    pub view: Option<SlackView>,
    pub value: String,
    pub message: Option<SlackHistoryMessage>,
}

impl SlackInteractionBlockSuggestionEvent {
    /// A value with these fields; the optional ones are absent.
    pub fn new(team: SlackBasicTeamInfo, user: SlackBasicUserInfo, api_app_id: SlackAppId, block_id: SlackBlockId, action_id: SlackActionId, container: SlackInteractionActionContainer, value: String) -> (r: Self)
        ensures
            r == (SlackInteractionBlockSuggestionEvent {
                team,
                user,
                api_app_id,
                block_id,
                action_id,
                container,
                channel: None,
                view: None,
                value,
                message: None,
            }),
    {
        SlackInteractionBlockSuggestionEvent {
            team,
            user,
            api_app_id,
            block_id,
            action_id,
            container,
            channel: None,
            view: None,
            value,
            message: None,
        }
    }
}

/// One action of a user.
#[derive(Debug, Clone, PartialEq)]
pub struct SlackInteractionActionInfo {
    pub action_type: SlackActionType,
    pub action_id: SlackActionId,
    pub block_id: Option<SlackBlockId>,
    pub text: Option<SlackBlockText>,
    pub value: Option<String>,
    pub selected_option: Option<SlackBlockChoiceItem<SlackBlockText>>,
    pub selected_options: Option<Vec<SlackBlockChoiceItem<SlackBlockText>>>,
    pub action_ts: Option<SlackTs>,
}

impl SlackInteractionActionInfo {
    /// A value with these fields; the optional ones are absent.
    pub fn new(action_type: SlackActionType, action_id: SlackActionId) -> (r: Self)
        ensures
            r == (SlackInteractionActionInfo {
                action_type,
                action_id,
                block_id: None,
                text: None,
                value: None,
                selected_option: None,
                selected_options: None,
                action_ts: None,
            }),
    {
        SlackInteractionActionInfo {
            action_type,
            action_id,
            block_id: None,
            text: None,
            value: None,
            selected_option: None,
            selected_options: None,
            action_ts: None,
        }
    }
}

/// A user submitted a dialog.
#[derive(Debug, Clone, PartialEq)]
pub struct SlackInteractionDialogueSubmissionEvent {
    pub team: SlackBasicTeamInfo,
    pub user: SlackBasicUserInfo,
    pub channel: Option<SlackBasicChannelInfo>,
    pub callback_id: Option<SlackCallbackId>,
    pub state: Option<String>,
    pub submission: HashMap<String, String>,
}

impl SlackInteractionDialogueSubmissionEvent {
    /// A value with these fields; the optional ones are absent.
    pub fn new(team: SlackBasicTeamInfo, user: SlackBasicUserInfo, submission: HashMap<String, String>) -> (r: Self)
        ensures
            r == (SlackInteractionDialogueSubmissionEvent {
                team,
                user,
                channel: None,
                callback_id: None,
                state: None,
                submission,
            }),
    {
        SlackInteractionDialogueSubmissionEvent {
            team,
            user,
            channel: None,
            callback_id: None,
            state: None,
            submission,
        }
    }
}

/// A user ran a message shortcut.
#[derive(Debug, Clone, PartialEq)]
pub struct SlackInteractionMessageActionEvent {
    pub team: SlackBasicTeamInfo,
    pub user: SlackBasicUserInfo,
    pub channel: Option<SlackBasicChannelInfo>,
    pub message: Option<SlackHistoryMessage>,
    pub callback_id: SlackCallbackId,
    pub trigger_id: SlackTriggerId,
    pub response_url: SlackResponseUrl,
    pub actions: Option<Vec<SlackInteractionActionInfo>>,
}

impl SlackInteractionMessageActionEvent {
    /// A value with these fields; the optional ones are absent.
    pub fn new(team: SlackBasicTeamInfo, user: SlackBasicUserInfo, callback_id: SlackCallbackId, trigger_id: SlackTriggerId, response_url: SlackResponseUrl) -> (r: Self)
        ensures
            r == (SlackInteractionMessageActionEvent {
                team,
                user,
                channel: None,
                message: None,
                callback_id,
                trigger_id,
                response_url,
                actions: None,
            }),
    {
        SlackInteractionMessageActionEvent {
            team,
            user,
            channel: None,
            message: None,
            callback_id,
            trigger_id,
            response_url,
            actions: None,
        }
    }
}

/// A user ran a global shortcut.
#[derive(Debug, Clone, PartialEq)]
pub struct SlackInteractionShortcutEvent {
    pub team: SlackBasicTeamInfo,
    pub user: SlackBasicUserInfo,
    pub callback_id: SlackCallbackId,
    pub trigger_id: SlackTriggerId,
    pub actions: Option<Vec<SlackInteractionActionInfo>>,
}

impl SlackInteractionShortcutEvent {
    /// A value with these fields; the optional ones are absent.
    pub fn new(team: SlackBasicTeamInfo, user: SlackBasicUserInfo, callback_id: SlackCallbackId, trigger_id: SlackTriggerId) -> (r: Self)
        ensures
            r == (SlackInteractionShortcutEvent {
                team,
                user,
                callback_id,
                trigger_id,
                actions: None,
            }),
    {
        SlackInteractionShortcutEvent {
            team,
            user,
            callback_id,
            trigger_id,
            actions: None,
        }
    }
}

/// A user submitted a view.
#[derive(Debug, Clone, PartialEq)]
pub struct SlackInteractionViewSubmissionEvent {
    pub team: SlackBasicTeamInfo,
    pub user: SlackBasicUserInfo,
    pub view: SlackStatefulView,
    pub trigger_id: Option<SlackTriggerId>,
}

impl SlackInteractionViewSubmissionEvent {
    /// A value with these fields; the optional ones are absent.
    pub fn new(team: SlackBasicTeamInfo, user: SlackBasicUserInfo, view: SlackStatefulView) -> (r: Self)
        ensures
            r == (SlackInteractionViewSubmissionEvent { team, user, view, trigger_id: None }),
    {
        SlackInteractionViewSubmissionEvent { team, user, view, trigger_id: None }
    }
}

/// A user closed a view.
#[derive(Debug, Clone, PartialEq)]
pub struct SlackInteractionViewClosedEvent {
    pub team: SlackBasicTeamInfo,
    pub user: SlackBasicUserInfo,
    pub view: SlackStatefulView,
    pub trigger_id: Option<SlackTriggerId>,
}

impl SlackInteractionViewClosedEvent {
    /// A value with these fields; the optional ones are absent.
    pub fn new(team: SlackBasicTeamInfo, user: SlackBasicUserInfo, view: SlackStatefulView) -> (r: Self)
        ensures
            r == (SlackInteractionViewClosedEvent { team, user, view, trigger_id: None }),
    {
        SlackInteractionViewClosedEvent { team, user, view, trigger_id: None }
    }
}

/// Where an action took place.
#[derive(Debug, Clone, PartialEq)]
pub enum SlackInteractionActionContainer {
    Message(SlackInteractionActionMessageContainer),
    MessageAttachment(SlackInteractionActionMessageAttachmentContainer),
    View(SlackInteractionActionViewContainer),
}

/// The answer to a `block_suggestion` event.
#[derive(Debug, Clone, PartialEq)]
pub enum SlackBlockSuggestionResponse {
    Options(SlackBlockSuggestionOptions),
    OptionGroups(SlackBlockSuggestionOptionGroups),
}

/// What an interaction handler answers: options for a `block_suggestion`, a
/// `response_action` for a `view_submission`, and a bare acknowledgement,
/// `Empty`, for everything else.
#[derive(Debug, Clone, PartialEq)]
pub enum SlackInteractionResponse {
    Empty,
    ViewSubmission(SlackViewSubmissionResponse),
    BlockSuggestion(SlackBlockSuggestionResponse),
}

impl From<()> for SlackInteractionResponse {
    fn from(value: ()) -> Self {
        SlackInteractionResponse::Empty
    }
}

impl FromSpecImpl<()> for SlackInteractionResponse {
    open spec fn obeys_from_spec() -> bool {
        true
    }

    open spec fn from_spec(value: ()) -> Self {
        SlackInteractionResponse::Empty
    }
}

impl From<SlackViewSubmissionResponse> for SlackInteractionResponse {
    fn from(value: SlackViewSubmissionResponse) -> Self {
        SlackInteractionResponse::ViewSubmission(value)
    }
}

impl FromSpecImpl<SlackViewSubmissionResponse> for SlackInteractionResponse {
    open spec fn obeys_from_spec() -> bool {
        true
    }

    open spec fn from_spec(value: SlackViewSubmissionResponse) -> Self {
        SlackInteractionResponse::ViewSubmission(value)
    }
}

impl From<SlackBlockSuggestionResponse> for SlackInteractionResponse {
    fn from(value: SlackBlockSuggestionResponse) -> Self {
        SlackInteractionResponse::BlockSuggestion(value)
    }
}

impl FromSpecImpl<SlackBlockSuggestionResponse> for SlackInteractionResponse {
    open spec fn obeys_from_spec() -> bool {
        true
    }

    open spec fn from_spec(value: SlackBlockSuggestionResponse) -> Self {
        SlackInteractionResponse::BlockSuggestion(value)
    }
}

} // verus!
