//! The blocks and block elements of Block Kit, and its text objects.

use vstd::prelude::*;
use vstd::std_specs::convert::FromSpecImpl;

use crate::models::common::{
    EmailAddress, SlackActionId, SlackChannelId, SlackConversationId, SlackDateTime, SlackUserGroupId,
    SlackUserId,
};
use crate::models::common::emoji::SlackEmojiName;
use crate::models::files::SlackFileId;

verus! {

/// `serde_json::Value`, carried as it is.
#[verifier::external_type_specification]
#[verifier::external_body]
pub struct ExJsonValue(serde_json::Value);

/// `serde_json::Value`'s `Clone` (derived): a value equal to the one cloned.
pub assume_specification [<serde_json::Value as Clone>::clone](v: &serde_json::Value) -> (r: serde_json::Value)
    ensures
        r == *v,
;

/// The id of a block.
#[derive(Debug, Clone, PartialEq, Eq, Hash)]
pub struct SlackBlockId(pub String);

impl SlackBlockId {
    pub fn new(value: String) -> (r: Self)
        ensures
            r.0 == value,
    {
        SlackBlockId(value)
    }

    pub fn value(&self) -> (r: &String)
        ensures
            *r == self.0,
    {
        &self.0
    }
}

/// A block of a message or a view.
#[derive(Debug, Clone, PartialEq)]
pub enum SlackBlock {
    Section(SlackSectionBlock),
    Header(SlackHeaderBlock),
    Divider(SlackDividerBlock),
    Image(SlackImageBlock),
    Actions(SlackActionsBlock),
    Context(SlackContextBlock),
    Input(SlackInputBlock),
    File(SlackFileBlock),
    Video(SlackVideoBlock),
    Markdown(SlackMarkdownBlock),
    RichText(SlackRichTextBlock),
    ShareShortcut(serde_json::Value),
    Event(serde_json::Value),
}

/// A section: a text, fields and an accessory.
#[derive(Debug, Clone, PartialEq)]
pub struct SlackSectionBlock {
    pub block_id: Option<SlackBlockId>,
    pub text: Option<SlackBlockText>,
    pub fields: Option<Vec<SlackBlockText>>,
    pub accessory: Option<SlackSectionBlockElement>,
}

impl SlackSectionBlock {
    pub fn new() -> (r: Self)
        ensures
            r.block_id is None,
            r.text is None,
            r.fields is None,
            r.accessory is None,
    {
        SlackSectionBlock { block_id: None, text: None, fields: None, accessory: None }
    }

    pub fn with_text(self, text: SlackBlockText) -> (r: Self)
        ensures
            r == (SlackSectionBlock { text: Some(text), ..self }),
    {
        SlackSectionBlock { text: Some(text), ..self }
    }

    pub fn with_accessory(self, accessory: SlackSectionBlockElement) -> (r: Self)
        ensures
            r == (SlackSectionBlock { accessory: Some(accessory), ..self }),
    {
        SlackSectionBlock { accessory: Some(accessory), ..self }
    }
}

/// A header with a plain text.
#[derive(Debug, Clone, PartialEq)]
pub struct SlackHeaderBlock {
    pub block_id: Option<SlackBlockId>,
    pub text: SlackBlockPlainTextOnly,
}

impl SlackHeaderBlock {
    pub fn new(text: SlackBlockPlainTextOnly) -> (r: Self)
        ensures
            r.block_id is None,
            r.text == text,
    {
        SlackHeaderBlock { block_id: None, text }
    }
}

/// A divider.
#[derive(Debug, Clone, PartialEq)]
pub struct SlackDividerBlock {
    pub block_id: Option<SlackBlockId>,
}

impl SlackDividerBlock {
    pub fn new() -> (r: Self)
        ensures
            r.block_id is None,
    {
        SlackDividerBlock { block_id: None }
    }

    pub fn with_block_id(self, block_id: SlackBlockId) -> (r: Self)
        ensures
            r.block_id == Some(block_id),
    {
        SlackDividerBlock { block_id: Some(block_id) }
    }
}

/// An image.
#[derive(Debug, Clone, PartialEq)]
pub struct SlackImageBlock {
    pub block_id: Option<SlackBlockId>,
    pub image_url_or_file: SlackImageUrlOrFile,
    pub alt_text: String,
    pub title: Option<SlackBlockPlainTextOnly>,
}

/// Interactive elements.
#[derive(Debug, Clone, PartialEq)]
pub struct SlackActionsBlock {
    pub block_id: Option<SlackBlockId>,
    pub elements: Vec<SlackActionBlockElement>,
}

impl SlackActionsBlock {
    pub fn new(elements: Vec<SlackActionBlockElement>) -> (r: Self)
        ensures
            r.block_id is None,
            r.elements@ == elements@,
    {
        SlackActionsBlock { block_id: None, elements }
    }
}

/// Small texts and images.
#[derive(Debug, Clone, PartialEq)]
pub struct SlackContextBlock {
    pub block_id: Option<SlackBlockId>,
    pub elements: Vec<SlackContextBlockElement>,
}

impl SlackContextBlock {
    pub fn new(elements: Vec<SlackContextBlockElement>) -> (r: Self)
        ensures
            r.block_id is None,
            r.elements@ == elements@,
    {
        SlackContextBlock { block_id: None, elements }
    }
}

/// An input of a view.
#[derive(Debug, Clone, PartialEq)]
pub struct SlackInputBlock {
    pub block_id: Option<SlackBlockId>,
    pub label: SlackBlockPlainTextOnly,
    pub element: SlackInputBlockElement,
    pub hint: Option<SlackBlockPlainTextOnly>,
    pub optional: Option<bool>,
    pub dispatch_action: Option<bool>,
}

/// The source of a file block when none is given.
pub const SLACK_FILE_BLOCK_SOURCE_DEFAULT: &'static str = "remote";

/// A remote file.
#[derive(Debug, Clone, PartialEq)]
pub struct SlackFileBlock {
    pub block_id: Option<SlackBlockId>,
    pub external_id: String,
    pub source: String,
}

impl SlackFileBlock {
    /// A block of the remote file with this external id; the source is
    /// `remote`.
    pub fn new(external_id: String) -> (r: Self)
        ensures
            r.block_id is None,
            r.external_id == external_id,
            r.source@ == SLACK_FILE_BLOCK_SOURCE_DEFAULT@,
    {
        SlackFileBlock { block_id: None, external_id, source: String::from_str(SLACK_FILE_BLOCK_SOURCE_DEFAULT) }
    }
}

/// The accessories of a section.
#[derive(Debug, Clone, PartialEq)]
pub enum SlackSectionBlockElement {
    Image(SlackBlockImageElement),
    Button(SlackBlockButtonElement),
    StaticSelect(SlackBlockStaticSelectElement),
    MultiStaticSelect(SlackBlockMultiStaticSelectElement),
    ExternalSelect(SlackBlockExternalSelectElement),
    MultiExternalSelect(SlackBlockMultiExternalSelectElement),
    UsersSelect(SlackBlockUsersSelectElement),
    MultiUsersSelect(SlackBlockMultiUsersSelectElement),
    ConversationsSelect(SlackBlockConversationsSelectElement),
    MultiConversationsSelect(SlackBlockMultiConversationsSelectElement),
    ChannelsSelect(SlackBlockChannelsSelectElement),
    MultiChannelsSelect(SlackBlockMultiChannelsSelectElement),
    Overflow(SlackBlockOverflowElement),
    DatePicker(SlackBlockDatePickerElement),
    TimePicker(SlackBlockTimePickerElement),
    PlainTextInput(SlackBlockPlainTextInputElement),
    NumberInput(SlackBlockNumberInputElement),
    UrlInput(SlackBlockUrlInputElement),
    RadioButtons(SlackBlockRadioButtonsElement),
    Checkboxes(SlackBlockCheckboxesElement),
}

/// The elements of an actions block.
#[derive(Debug, Clone, PartialEq)]
pub enum SlackActionBlockElement {
    Button(SlackBlockButtonElement),
    Overflow(SlackBlockOverflowElement),
    DatePicker(SlackBlockDatePickerElement),
    TimePicker(SlackBlockTimePickerElement),
    DateTimePicker(SlackBlockDateTimePickerElement),
    PlainTextInput(SlackBlockPlainTextInputElement),
    NumberInput(SlackBlockNumberInputElement),
    UrlInput(SlackBlockUrlInputElement),
    RadioButtons(SlackBlockRadioButtonsElement),
    Checkboxes(SlackBlockCheckboxesElement),
    StaticSelect(SlackBlockStaticSelectElement),
    ExternalSelect(SlackBlockExternalSelectElement),
    UsersSelect(SlackBlockUsersSelectElement),
    ConversationsSelect(SlackBlockConversationsSelectElement),
    ChannelsSelect(SlackBlockChannelsSelectElement),
}

/// The elements of a context block.
#[derive(Debug, Clone, PartialEq)]
pub enum SlackContextBlockElement {
    Image(SlackBlockImageElement),
    Plain(SlackBlockPlainText),
    MarkDown(SlackBlockMarkDownText),
}

/// The elements of an input block.
#[derive(Debug, Clone, PartialEq)]
pub enum SlackInputBlockElement {
    StaticSelect(SlackBlockStaticSelectElement),
    MultiStaticSelect(SlackBlockMultiStaticSelectElement),
    ExternalSelect(SlackBlockExternalSelectElement),
    MultiExternalSelect(SlackBlockMultiExternalSelectElement),
    UsersSelect(SlackBlockUsersSelectElement),
    MultiUsersSelect(SlackBlockMultiUsersSelectElement),
    ConversationsSelect(SlackBlockConversationsSelectElement),
    MultiConversationsSelect(SlackBlockMultiConversationsSelectElement),
    ChannelsSelect(SlackBlockChannelsSelectElement),
    MultiChannelsSelect(SlackBlockMultiChannelsSelectElement),
    DatePicker(SlackBlockDatePickerElement),
    TimePicker(SlackBlockTimePickerElement),
    DateTimePicker(SlackBlockDateTimePickerElement),
    PlainTextInput(SlackBlockPlainTextInputElement),
    NumberInput(SlackBlockNumberInputElement),
    UrlInput(SlackBlockUrlInputElement),
    RadioButtons(SlackBlockRadioButtonsElement),
    Checkboxes(SlackBlockCheckboxesElement),
    EmailInput(SlackBlockEmailInputElement),
    RichTextInput(SlackBlockRichTextInputElement),
}

/// An image element.
#[derive(Debug, Clone, PartialEq)]
pub struct SlackBlockImageElement {
    pub image_url_or_file: SlackImageUrlOrFile,
    pub alt_text: String,
}

/// A button.
#[derive(Debug, Clone, PartialEq)]
pub struct SlackBlockButtonElement {
    pub action_id: SlackActionId,
    pub text: SlackBlockPlainTextOnly,
    pub url: Option<url::Url>,
    pub value: Option<String>,
    pub style: Option<String>,
    pub confirm: Option<SlackBlockConfirmItem>,
}

impl SlackBlockButtonElement {
    pub fn new(action_id: SlackActionId, text: SlackBlockPlainTextOnly) -> (r: Self)
        ensures
            r.action_id == action_id,
            r.text == text,
            r.url is None,
            r.value is None,
            r.style is None,
            r.confirm is None,
    {
        SlackBlockButtonElement { action_id, text, url: None, value: None, style: None, confirm: None }
    }
}

/// A confirmation dialog.
#[derive(Debug, Clone, PartialEq)]
pub struct SlackBlockConfirmItem {
    pub title: SlackBlockPlainTextOnly,
    pub text: SlackBlockText,
    pub confirm: SlackBlockPlainTextOnly,
    pub deny: SlackBlockPlainTextOnly,
    pub style: Option<String>,
}

/// An option of a select, overflow, radio buttons or checkboxes element.
#[derive(Debug, Clone, PartialEq)]
pub struct SlackBlockChoiceItem<T> {
    pub text: T,
    pub value: String,
    pub url: Option<url::Url>,
}

impl<T> SlackBlockChoiceItem<T> {
    pub fn new(text: T, value: String) -> (r: Self)
        ensures
            r.text == text,
            r.value == value,
            r.url is None,
    {
        SlackBlockChoiceItem { text, value, url: None }
    }
}

/// A group of options.
#[derive(Debug, Clone, PartialEq)]
pub struct SlackBlockOptionGroup<T> {
    pub label: SlackBlockPlainTextOnly,
    pub options: Vec<SlackBlockChoiceItem<T>>,
}

impl<T> SlackBlockOptionGroup<T> {
    pub fn new(label: SlackBlockPlainTextOnly, options: Vec<SlackBlockChoiceItem<T>>) -> (r: Self)
        ensures
            r.label == label,
            r.options@ == options@,
    {
        SlackBlockOptionGroup { label, options }
    }
}

/// A select of static options.
#[derive(Debug, Clone, PartialEq)]
pub struct SlackBlockStaticSelectElement {
    pub action_id: SlackActionId,
    pub placeholder: Option<SlackBlockPlainTextOnly>,
    pub options: Option<Vec<SlackBlockChoiceItem<SlackBlockPlainTextOnly>>>,
    pub option_groups: Option<Vec<SlackBlockOptionGroup<SlackBlockPlainTextOnly>>>,
    pub initial_option: Option<SlackBlockChoiceItem<SlackBlockPlainTextOnly>>,
    pub confirm: Option<SlackBlockConfirmItem>,
    pub focus_on_load: Option<bool>,
}

/// A multi-select of static options.
#[derive(Debug, Clone, PartialEq)]
pub struct SlackBlockMultiStaticSelectElement {
    pub action_id: SlackActionId,
    pub placeholder: Option<SlackBlockPlainTextOnly>,
    pub options: Option<Vec<SlackBlockChoiceItem<SlackBlockPlainTextOnly>>>,
    pub option_groups: Option<Vec<SlackBlockOptionGroup<SlackBlockPlainTextOnly>>>,
    pub initial_options: Option<Vec<SlackBlockChoiceItem<SlackBlockPlainTextOnly>>>,
    pub confirm: Option<SlackBlockConfirmItem>,
    pub max_selected_items: Option<u64>,
    pub focus_on_load: Option<bool>,
}

/// A select of options that the app suggests.
#[derive(Debug, Clone, PartialEq)]
pub struct SlackBlockExternalSelectElement {
    pub action_id: SlackActionId,
    pub placeholder: Option<SlackBlockPlainTextOnly>,
    pub initial_option: Option<SlackBlockChoiceItem<SlackBlockPlainTextOnly>>,
    pub confirm: Option<SlackBlockConfirmItem>,
    pub focus_on_load: Option<bool>,
    pub min_query_length: Option<u64>,
}

/// A multi-select of options that the app suggests.
#[derive(Debug, Clone, PartialEq)]
pub struct SlackBlockMultiExternalSelectElement {
    pub action_id: SlackActionId,
    pub placeholder: Option<SlackBlockPlainTextOnly>,
    pub initial_options: Option<Vec<SlackBlockChoiceItem<SlackBlockPlainTextOnly>>>,
    pub confirm: Option<SlackBlockConfirmItem>,
    pub max_selected_items: Option<u64>,
    pub focus_on_load: Option<bool>,
    pub min_query_length: Option<u64>,
}

/// A select of users.
#[derive(Debug, Clone, PartialEq)]
pub struct SlackBlockUsersSelectElement {
    pub action_id: SlackActionId,
    pub placeholder: Option<SlackBlockPlainTextOnly>,
    pub initial_user: Option<String>,
    pub confirm: Option<SlackBlockConfirmItem>,
    pub focus_on_load: Option<bool>,
}

/// A multi-select of users.
#[derive(Debug, Clone, PartialEq)]
pub struct SlackBlockMultiUsersSelectElement {
    pub action_id: SlackActionId,
    pub placeholder: Option<SlackBlockPlainTextOnly>,
    pub initial_users: Option<Vec<String>>,
    pub confirm: Option<SlackBlockConfirmItem>,
    pub max_selected_items: Option<u64>,
    pub focus_on_load: Option<bool>,
}

/// The kinds of conversations that a conversations select lists.
#[derive(Debug, Clone, Copy, PartialEq, Eq)]
pub enum SlackConversationFilterInclude {
    Im,
    Mpim,
    Public,
    Private,
}

/// Which conversations a conversations select lists.
#[derive(Debug, Clone, PartialEq)]
pub struct SlackBlockConversationFilter {
    pub included: Option<Vec<SlackConversationFilterInclude>>,
    pub exclude_external_shared_channels: Option<bool>,
    pub exclude_bot_users: Option<bool>,
}

impl SlackBlockConversationFilter {
    pub fn new() -> (r: Self)
        ensures
            r.included is None,
            r.exclude_external_shared_channels is None,
            r.exclude_bot_users is None,
    {
        SlackBlockConversationFilter { included: None, exclude_external_shared_channels: None, exclude_bot_users: None }
    }

    pub fn with_included(self, included: Vec<SlackConversationFilterInclude>) -> (r: Self)
        ensures
            r == (SlackBlockConversationFilter { included: Some(included), ..self }),
    {
        SlackBlockConversationFilter { included: Some(included), ..self }
    }

    pub fn with_exclude_external_shared_channels(self, exclude: bool) -> (r: Self)
        ensures
            r == (SlackBlockConversationFilter { exclude_external_shared_channels: Some(exclude), ..self }),
    {
        SlackBlockConversationFilter { exclude_external_shared_channels: Some(exclude), ..self }
    }

    pub fn with_exclude_bot_users(self, exclude: bool) -> (r: Self)
        ensures
            r == (SlackBlockConversationFilter { exclude_bot_users: Some(exclude), ..self }),
    {
        SlackBlockConversationFilter { exclude_bot_users: Some(exclude), ..self }
    }
}

/// A select of conversations.
#[derive(Debug, Clone, PartialEq)]
pub struct SlackBlockConversationsSelectElement {
    pub action_id: SlackActionId,
    pub placeholder: Option<SlackBlockPlainTextOnly>,
    pub initial_conversation: Option<SlackConversationId>,
    pub default_to_current_conversation: Option<bool>,
    pub confirm: Option<SlackBlockConfirmItem>,
    pub response_url_enabled: Option<bool>,
    pub focus_on_load: Option<bool>,
    pub filter: Option<SlackBlockConversationFilter>,
}

impl SlackBlockConversationsSelectElement {
    pub fn new(action_id: SlackActionId) -> (r: Self)
        ensures
            r == (SlackBlockConversationsSelectElement {
                action_id,
                placeholder: None,
                initial_conversation: None,
                default_to_current_conversation: None,
                confirm: None,
                response_url_enabled: None,
                focus_on_load: None,
                filter: None,
            }),
    {
        SlackBlockConversationsSelectElement {
            action_id,
            placeholder: None,
            initial_conversation: None,
            default_to_current_conversation: None,
            confirm: None,
            response_url_enabled: None,
            focus_on_load: None,
            filter: None,
        }
    }

    pub fn with_filter(self, filter: SlackBlockConversationFilter) -> (r: Self)
        ensures
            r == (SlackBlockConversationsSelectElement { filter: Some(filter), ..self }),
    {
        SlackBlockConversationsSelectElement { filter: Some(filter), ..self }
    }
}

/// A multi-select of conversations.
#[derive(Debug, Clone, PartialEq)]
pub struct SlackBlockMultiConversationsSelectElement {
    pub action_id: SlackActionId,
    pub placeholder: Option<SlackBlockPlainTextOnly>,
    pub initial_conversations: Option<Vec<SlackConversationId>>,
    pub default_to_current_conversation: Option<bool>,
    pub confirm: Option<SlackBlockConfirmItem>,
    pub max_selected_items: Option<u64>,
    pub focus_on_load: Option<bool>,
    pub filter: Option<SlackBlockConversationFilter>,
}

impl SlackBlockMultiConversationsSelectElement {
    pub fn new(action_id: SlackActionId) -> (r: Self)
        ensures
            r == (SlackBlockMultiConversationsSelectElement {
                action_id,
                placeholder: None,
                initial_conversations: None,
                default_to_current_conversation: None,
                confirm: None,
                max_selected_items: None,
                focus_on_load: None,
                filter: None,
            }),
    {
        SlackBlockMultiConversationsSelectElement {
            action_id,
            placeholder: None,
            initial_conversations: None,
            default_to_current_conversation: None,
            confirm: None,
            max_selected_items: None,
            focus_on_load: None,
            filter: None,
        }
    }

    pub fn with_filter(self, filter: SlackBlockConversationFilter) -> (r: Self)
        ensures
            r == (SlackBlockMultiConversationsSelectElement { filter: Some(filter), ..self }),
    {
        SlackBlockMultiConversationsSelectElement { filter: Some(filter), ..self }
    }
}

/// A select of public channels.
#[derive(Debug, Clone, PartialEq)]
pub struct SlackBlockChannelsSelectElement {
    pub action_id: SlackActionId,
    pub placeholder: Option<SlackBlockPlainTextOnly>,
    pub initial_channel: Option<SlackChannelId>,
    pub confirm: Option<SlackBlockConfirmItem>,
    pub response_url_enabled: Option<bool>,
    pub focus_on_load: Option<bool>,
}

/// A multi-select of public channels.
#[derive(Debug, Clone, PartialEq)]
pub struct SlackBlockMultiChannelsSelectElement {
    pub action_id: SlackActionId,
    pub placeholder: Option<SlackBlockPlainTextOnly>,
    pub initial_channels: Option<Vec<SlackChannelId>>,
    pub confirm: Option<SlackBlockConfirmItem>,
    pub max_selected_items: Option<u64>,
    pub focus_on_load: Option<bool>,
}

/// An overflow menu.
#[derive(Debug, Clone, PartialEq)]
pub struct SlackBlockOverflowElement {
    pub action_id: SlackActionId,
    pub options: Vec<SlackBlockChoiceItem<SlackBlockPlainTextOnly>>,
    pub confirm: Option<SlackBlockConfirmItem>,
}

/// A date picker.
#[derive(Debug, Clone, PartialEq)]
pub struct SlackBlockDatePickerElement {
    pub action_id: SlackActionId,
    pub placeholder: Option<SlackBlockPlainTextOnly>,
    pub initial_date: Option<String>,
    pub confirm: Option<SlackBlockConfirmItem>,
    pub focus_on_load: Option<bool>,
}

/// A time picker.
#[derive(Debug, Clone, PartialEq)]
pub struct SlackBlockTimePickerElement {
    pub action_id: SlackActionId,
    pub initial_time: Option<String>,
    pub confirm: Option<SlackBlockConfirmItem>,
    pub focus_on_load: Option<bool>,
    pub placeholder: Option<SlackBlockPlainTextOnly>,
    pub timezone: Option<String>,
}

/// A date and time picker.
#[derive(Debug, Clone, PartialEq)]
pub struct SlackBlockDateTimePickerElement {
    pub action_id: SlackActionId,
    pub initial_date_time: Option<SlackDateTime>,
    pub confirm: Option<SlackBlockConfirmItem>,
    pub focus_on_load: Option<bool>,
}

/// A plain text input.
#[derive(Debug, Clone, PartialEq)]
pub struct SlackBlockPlainTextInputElement {
    pub action_id: SlackActionId,
    pub placeholder: Option<SlackBlockPlainTextOnly>,
    pub initial_value: Option<String>,
    pub multiline: Option<bool>,
    pub min_length: Option<u64>,
    pub max_length: Option<u64>,
    pub focus_on_load: Option<bool>,
}

/// A number input.
#[derive(Debug, Clone, PartialEq)]
pub struct SlackBlockNumberInputElement {
    pub action_id: SlackActionId,
    pub is_decimal_allowed: bool,
    pub focus_on_load: Option<bool>,
    pub placeholder: Option<SlackBlockPlainTextOnly>,
    pub initial_value: Option<String>,
    pub min_value: Option<String>,
    pub max_value: Option<String>,
}

/// A URL input.
#[derive(Debug, Clone, PartialEq)]
pub struct SlackBlockUrlInputElement {
    pub action_id: SlackActionId,
    pub placeholder: Option<SlackBlockPlainTextOnly>,
    pub initial_value: Option<String>,
}

/// An email input.
#[derive(Debug, Clone, PartialEq)]
pub struct SlackBlockEmailInputElement {
    pub action_id: SlackActionId,
    pub focus_on_load: Option<bool>,
    pub placeholder: Option<SlackBlockPlainTextOnly>,
    pub initial_value: Option<EmailAddress>,
}

/// Radio buttons.
#[derive(Debug, Clone, PartialEq)]
pub struct SlackBlockRadioButtonsElement {
    pub action_id: SlackActionId,
    pub options: Vec<SlackBlockChoiceItem<SlackBlockText>>,
    pub initial_option: Option<SlackBlockChoiceItem<SlackBlockText>>,
    pub confirm: Option<SlackBlockConfirmItem>,
    pub focus_on_load: Option<bool>,
}

/// Checkboxes.
#[derive(Debug, Clone, PartialEq)]
pub struct SlackBlockCheckboxesElement {
    pub action_id: SlackActionId,
    pub options: Vec<SlackBlockChoiceItem<SlackBlockText>>,
    pub initial_options: Option<Vec<SlackBlockChoiceItem<SlackBlockText>>>,
    pub confirm: Option<SlackBlockConfirmItem>,
    pub focus_on_load: Option<bool>,
}

/// A `plain_text` text object.
#[derive(Debug, Clone, PartialEq)]
pub struct SlackBlockPlainText {
    pub text: String,
    pub emoji: Option<bool>,
}

/// A `mrkdwn` text object.
#[derive(Debug, Clone, PartialEq)]
pub struct SlackBlockMarkDownText {
    pub text: String,
    pub verbatim: Option<bool>,
}

/// A text object.
#[derive(Debug, Clone, PartialEq)]
pub enum SlackBlockText {
    Plain(SlackBlockPlainText),
    MarkDown(SlackBlockMarkDownText),
}

/// A text object that can only be `plain_text`.
#[derive(Debug, Clone, PartialEq)]
pub struct SlackBlockPlainTextOnly {
    value: SlackBlockPlainText,
}

impl SlackBlockPlainTextOnly {
    /// The plain text object.
    pub closed spec fn plain_text(self) -> SlackBlockPlainText {
        self.value
    }

    /// The plain text object.
    pub fn value(&self) -> (r: &SlackBlockPlainText)
        ensures
            *r == self.plain_text(),
    {
        &self.value
    }

    /// The value that holds this plain text object.
    pub closed spec fn wrapping(text: SlackBlockPlainText) -> Self {
        SlackBlockPlainTextOnly { value: text }
    }

    /// Wrapping a plain text object keeps it, and a value is the wrapping
    /// of its plain text object.
    pub proof fn lemma_wrapping(text: SlackBlockPlainText, only: Self)
        ensures
            Self::wrapping(text).plain_text() == text,
            Self::wrapping(only.plain_text()) == only,
    {
    }
}

impl From<SlackBlockPlainText> for SlackBlockPlainTextOnly {
    fn from(value: SlackBlockPlainText) -> Self {
        SlackBlockPlainTextOnly { value }
    }
}

impl FromSpecImpl<SlackBlockPlainText> for SlackBlockPlainTextOnly {
    open spec fn obeys_from_spec() -> bool {
        true
    }

    open spec fn from_spec(value: SlackBlockPlainText) -> Self {
        SlackBlockPlainTextOnly::wrapping(value)
    }
}

impl From<String> for SlackBlockPlainTextOnly {
    fn from(value: String) -> Self {
        SlackBlockPlainTextOnly { value: SlackBlockPlainText::new(value) }
    }
}

impl FromSpecImpl<String> for SlackBlockPlainTextOnly {
    open spec fn obeys_from_spec() -> bool {
        true
    }

    open spec fn from_spec(value: String) -> Self {
        SlackBlockPlainTextOnly::wrapping(SlackBlockPlainText { text: value, emoji: None })
    }
}

impl From<&str> for SlackBlockPlainTextOnly {
    fn from(value: &str) -> (r: Self)
        ensures
            r.plain_text().text@ == value@,
            r.plain_text().emoji is None,
    {
        SlackBlockPlainTextOnly { value: SlackBlockPlainText::new(String::from_str(value)) }
    }
}

impl FromSpecImpl<&str> for SlackBlockPlainTextOnly {
    /// A `String` cannot be named from a `&str` in a spec; `from` states
    /// its result itself.
    open spec fn obeys_from_spec() -> bool {
        false
    }

    open spec fn from_spec(value: &str) -> Self {
        arbitrary()
    }
}

impl From<SlackBlockPlainTextOnly> for SlackBlockText {
    fn from(value: SlackBlockPlainTextOnly) -> Self {
        SlackBlockText::Plain(value.value)
    }
}

impl FromSpecImpl<SlackBlockPlainTextOnly> for SlackBlockText {
    open spec fn obeys_from_spec() -> bool {
        true
    }

    open spec fn from_spec(value: SlackBlockPlainTextOnly) -> Self {
        SlackBlockText::Plain(value.plain_text())
    }
}

impl SlackBlockPlainText {
    pub fn new(text: String) -> (r: Self)
        ensures
            r.text == text,
            r.emoji is None,
    {
        SlackBlockPlainText { text, emoji: None }
    }

    /// The text as a text object.
    pub fn as_block_text(&self) -> (r: SlackBlockText)
        ensures
            r == SlackBlockText::Plain(*self),
    {
        SlackBlockText::Plain(SlackBlockPlainText { text: self.text.clone(), emoji: self.emoji })
    }
}

impl SlackBlockMarkDownText {
    pub fn new(text: String) -> (r: Self)
        ensures
            r.text == text,
            r.verbatim is None,
    {
        SlackBlockMarkDownText { text, verbatim: None }
    }

    /// The text as a text object.
    pub fn as_block_text(&self) -> (r: SlackBlockText)
        ensures
            r == SlackBlockText::MarkDown(*self),
    {
        SlackBlockText::MarkDown(SlackBlockMarkDownText { text: self.text.clone(), verbatim: self.verbatim })
    }
}

/// A video.
#[derive(Debug, Clone, PartialEq)]
pub struct SlackVideoBlock {
    pub alt_text: String,
    pub author_name: Option<String>,
    pub block_id: Option<SlackBlockId>,
    pub description: Option<SlackBlockPlainTextOnly>,
    pub provider_icon_url: Option<url::Url>,
    pub provider_name: Option<String>,
    pub title: SlackBlockPlainTextOnly,
    pub title_url: Option<url::Url>,
    pub thumbnail_url: url::Url,
    pub video_url: url::Url,
}

/// Markdown.
#[derive(Debug, Clone, PartialEq)]
pub struct SlackMarkdownBlock {
    pub block_id: Option<SlackBlockId>,
    pub text: String,
}

impl SlackMarkdownBlock {
    pub fn new(text: String) -> (r: Self)
        ensures
            r.block_id is None,
            r.text == text,
    {
        SlackMarkdownBlock { block_id: None, text }
    }
}

/// Rich text.
#[derive(Debug, Clone, PartialEq)]
pub struct SlackRichTextBlock {
    pub block_id: Option<SlackBlockId>,
    pub elements: Vec<SlackRichTextElement>,
}

impl SlackRichTextBlock {
    pub fn new(elements: Vec<SlackRichTextElement>) -> (r: Self)
        ensures
            r.block_id is None,
            r.elements@ == elements@,
    {
        SlackRichTextBlock { block_id: None, elements }
    }
}

/// The elements of rich text.
#[derive(Debug, Clone, PartialEq)]
pub enum SlackRichTextElement {
    Section(SlackRichTextSection),
    List(SlackRichTextList),
    Preformatted(SlackRichTextPreformatted),
    Quote(SlackRichTextQuote),
}

/// A paragraph of rich text.
#[derive(Debug, Clone, PartialEq)]
pub struct SlackRichTextSection {
    pub elements: Vec<SlackRichTextInlineElement>,
}

/// A list of rich text.
#[derive(Debug, Clone, PartialEq)]
pub struct SlackRichTextList {
    pub style: SlackRichTextListStyle,
    pub elements: Vec<SlackRichTextSection>,
    pub indent: Option<u64>,
    pub offset: Option<u64>,
    pub border: Option<u64>,
}

/// The kinds of lists.
#[derive(Debug, Clone, Copy, PartialEq, Eq)]
pub enum SlackRichTextListStyle {
    Bullet,
    Ordered,
}

/// Preformatted rich text.
#[derive(Debug, Clone, PartialEq)]
pub struct SlackRichTextPreformatted {
    pub elements: Vec<SlackRichTextInlineElement>,
    pub border: Option<u64>,
    pub language: Option<String>,
}

/// A quote of rich text.
#[derive(Debug, Clone, PartialEq)]
pub struct SlackRichTextQuote {
    pub elements: Vec<SlackRichTextInlineElement>,
    pub border: Option<u64>,
}

/// The inline elements of rich text.
#[derive(Debug, Clone, PartialEq)]
pub enum SlackRichTextInlineElement {
    Text(SlackRichTextText),
    Link(SlackRichTextLink),
    User(SlackRichTextUser),
    Channel(SlackRichTextChannel),
    UserGroup(SlackRichTextUserGroup),
    Emoji(SlackRichTextEmoji),
    Date(SlackRichTextDate),
    Broadcast(SlackRichTextBroadcast),
    Color(SlackRichTextColor),
}

/// The style of inline rich text.
#[derive(Debug, Clone, Copy, PartialEq, Eq)]
pub struct SlackRichTextStyle {
    pub bold: Option<bool>,
    pub italic: Option<bool>,
    pub strike: Option<bool>,
    pub code: Option<bool>,
    pub underline: Option<bool>,
    pub highlight: Option<bool>,
    pub client_highlight: Option<bool>,
    pub unlink: Option<bool>,
}

/// Text in rich text.
#[derive(Debug, Clone, PartialEq)]
pub struct SlackRichTextText {
    pub text: String,
    pub style: Option<SlackRichTextStyle>,
}

/// A link in rich text.
#[derive(Debug, Clone, PartialEq)]
pub struct SlackRichTextLink {
    pub url: String,
    pub text: Option<String>,
    pub unsafe_: Option<bool>,
    pub style: Option<SlackRichTextStyle>,
}

/// A user mention in rich text.
#[derive(Debug, Clone, PartialEq)]
pub struct SlackRichTextUser {
    pub user_id: SlackUserId,
    pub style: Option<SlackRichTextStyle>,
}

/// A channel mention in rich text.
#[derive(Debug, Clone, PartialEq)]
pub struct SlackRichTextChannel {
    pub channel_id: SlackChannelId,
    pub style: Option<SlackRichTextStyle>,
}

/// A user group mention in rich text.
#[derive(Debug, Clone, PartialEq)]
pub struct SlackRichTextUserGroup {
    pub usergroup_id: SlackUserGroupId,
    pub style: Option<SlackRichTextStyle>,
}

/// An emoji in rich text.
#[derive(Debug, Clone, PartialEq)]
pub struct SlackRichTextEmoji {
    pub name: SlackEmojiName,
    pub unicode: Option<String>,
}

/// A date in rich text.
#[derive(Debug, Clone, PartialEq)]
pub struct SlackRichTextDate {
    pub timestamp: i64,
    pub format: String,
    pub fallback: Option<String>,
    pub style: Option<SlackRichTextStyle>,
}

/// Who a broadcast mention reaches.
#[derive(Debug, Clone, Copy, PartialEq, Eq)]
pub enum SlackRichTextBroadcastRange {
    Here,
    Channel,
    Everyone,
}

/// A broadcast mention in rich text.
#[derive(Debug, Clone, PartialEq)]
pub struct SlackRichTextBroadcast {
    pub range: SlackRichTextBroadcastRange,
    pub style: Option<SlackRichTextStyle>,
}

/// A color in rich text.
#[derive(Debug, Clone, PartialEq)]
pub struct SlackRichTextColor {
    pub value: String,
}

/// A rich text input.
#[derive(Debug, Clone, PartialEq)]
pub struct SlackBlockRichTextInputElement {
    pub action_id: SlackActionId,
    pub initial_value: Option<SlackRichTextBlock>,
    pub focus_on_load: Option<bool>,
    pub placeholder: Option<SlackBlockPlainTextOnly>,
}

/// An image given by URL or as a Slack file.
#[derive(Debug, Clone, PartialEq)]
pub enum SlackImageUrlOrFile {
    ImageUrl { image_url: url::Url },
    SlackFile { slack_file: SlackFileIdOrUrl },
}

impl SlackImageUrlOrFile {
    /// The URL of the image, when it is given by one.
    pub fn image_url(&self) -> (r: Option<&url::Url>)
        ensures
            r == match *self {
                SlackImageUrlOrFile::ImageUrl { image_url } => Some(&image_url),
                SlackImageUrlOrFile::SlackFile { slack_file } => match slack_file {
                    SlackFileIdOrUrl::Url { url } => Some(&url),
                    SlackFileIdOrUrl::Id { .. } => None,
                },
            },
    {
        match self {
            SlackImageUrlOrFile::ImageUrl { image_url } => Some(image_url),
            SlackImageUrlOrFile::SlackFile { slack_file } => match slack_file {
                SlackFileIdOrUrl::Url { url } => Some(url),
                _ => None,
            },
        }
    }
}

/// A Slack file given by id or by URL.
#[derive(Debug, Clone, PartialEq)]
pub enum SlackFileIdOrUrl {
    Id { id: SlackFileId },
    Url { url: url::Url },
}

} // verus!
