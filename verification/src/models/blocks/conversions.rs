//! Conversions between the blocks, elements and text objects of Block Kit:
//! each one wraps its argument in the matching variant.

use vstd::prelude::*;
use vstd::std_specs::convert::FromSpecImpl;

use crate::models::blocks::kit::{
    SlackActionBlockElement,
    SlackActionsBlock,
    SlackBlock,
    SlackBlockButtonElement,
    SlackBlockChannelsSelectElement,
    SlackBlockCheckboxesElement,
    SlackBlockConversationsSelectElement,
    SlackBlockDatePickerElement,
    SlackBlockDateTimePickerElement,
    SlackBlockEmailInputElement,
    SlackBlockExternalSelectElement,
    SlackBlockImageElement,
    SlackBlockMarkDownText,
    SlackBlockMultiChannelsSelectElement,
    SlackBlockMultiConversationsSelectElement,
    SlackBlockMultiExternalSelectElement,
    SlackBlockMultiStaticSelectElement,
    SlackBlockMultiUsersSelectElement,
    SlackBlockNumberInputElement,
    SlackBlockOverflowElement,
    SlackBlockPlainText,
    SlackBlockPlainTextInputElement,
    SlackBlockRadioButtonsElement,
    SlackBlockRichTextInputElement,
    SlackBlockStaticSelectElement,
    SlackBlockText,
    SlackBlockTimePickerElement,
    SlackBlockUrlInputElement,
    SlackBlockUsersSelectElement,
    SlackContextBlock,
    SlackContextBlockElement,
    SlackDividerBlock,
    SlackFileBlock,
    SlackHeaderBlock,
    SlackImageBlock,
    SlackInputBlock,
    SlackInputBlockElement,
    SlackMarkdownBlock,
    SlackRichTextBlock,
    SlackSectionBlock,
    SlackSectionBlockElement,
    SlackVideoBlock,
    SlackImageUrlOrFile,
    SlackFileIdOrUrl,
};
use crate::models::files::SlackFileId;

verus! {

impl From<SlackSectionBlock> for SlackBlock {
    fn from(value: SlackSectionBlock) -> Self {
        SlackBlock::Section(value)
    }
}

impl FromSpecImpl<SlackSectionBlock> for SlackBlock {
    open spec fn obeys_from_spec() -> bool {
        true
    }

    open spec fn from_spec(value: SlackSectionBlock) -> Self {
        SlackBlock::Section(value)
    }
}

impl From<SlackHeaderBlock> for SlackBlock {
    fn from(value: SlackHeaderBlock) -> Self {
        SlackBlock::Header(value)
    }
}

impl FromSpecImpl<SlackHeaderBlock> for SlackBlock {
    open spec fn obeys_from_spec() -> bool {
        true
    }

    open spec fn from_spec(value: SlackHeaderBlock) -> Self {
        SlackBlock::Header(value)
    }
}

impl From<SlackDividerBlock> for SlackBlock {
    fn from(value: SlackDividerBlock) -> Self {
        SlackBlock::Divider(value)
    }
}

impl FromSpecImpl<SlackDividerBlock> for SlackBlock {
    open spec fn obeys_from_spec() -> bool {
        true
    }

    open spec fn from_spec(value: SlackDividerBlock) -> Self {
        SlackBlock::Divider(value)
    }
}

impl From<SlackImageBlock> for SlackBlock {
    fn from(value: SlackImageBlock) -> Self {
        SlackBlock::Image(value)
    }
}

impl FromSpecImpl<SlackImageBlock> for SlackBlock {
    open spec fn obeys_from_spec() -> bool {
        true
    }

    open spec fn from_spec(value: SlackImageBlock) -> Self {
        SlackBlock::Image(value)
    }
}

impl From<SlackActionsBlock> for SlackBlock {
    fn from(value: SlackActionsBlock) -> Self {
        SlackBlock::Actions(value)
    }
}

impl FromSpecImpl<SlackActionsBlock> for SlackBlock {
    open spec fn obeys_from_spec() -> bool {
        true
    }

    open spec fn from_spec(value: SlackActionsBlock) -> Self {
        SlackBlock::Actions(value)
    }
}

impl From<SlackContextBlock> for SlackBlock {
    fn from(value: SlackContextBlock) -> Self {
        SlackBlock::Context(value)
    }
}

impl FromSpecImpl<SlackContextBlock> for SlackBlock {
    open spec fn obeys_from_spec() -> bool {
        true
    }

    open spec fn from_spec(value: SlackContextBlock) -> Self {
        SlackBlock::Context(value)
    }
}

impl From<SlackInputBlock> for SlackBlock {
    fn from(value: SlackInputBlock) -> Self {
        SlackBlock::Input(value)
    }
}

impl FromSpecImpl<SlackInputBlock> for SlackBlock {
    open spec fn obeys_from_spec() -> bool {
        true
    }

    open spec fn from_spec(value: SlackInputBlock) -> Self {
        SlackBlock::Input(value)
    }
}

impl From<SlackFileBlock> for SlackBlock {
    fn from(value: SlackFileBlock) -> Self {
        SlackBlock::File(value)
    }
}

impl FromSpecImpl<SlackFileBlock> for SlackBlock {
    open spec fn obeys_from_spec() -> bool {
        true
    }

    open spec fn from_spec(value: SlackFileBlock) -> Self {
        SlackBlock::File(value)
    }
}

impl From<SlackVideoBlock> for SlackBlock {
    fn from(value: SlackVideoBlock) -> Self {
        SlackBlock::Video(value)
    }
}

impl FromSpecImpl<SlackVideoBlock> for SlackBlock {
    open spec fn obeys_from_spec() -> bool {
        true
    }

    open spec fn from_spec(value: SlackVideoBlock) -> Self {
        SlackBlock::Video(value)
    }
}

impl From<SlackMarkdownBlock> for SlackBlock {
    fn from(value: SlackMarkdownBlock) -> Self {
        SlackBlock::Markdown(value)
    }
}

impl FromSpecImpl<SlackMarkdownBlock> for SlackBlock {
    open spec fn obeys_from_spec() -> bool {
        true
    }

    open spec fn from_spec(value: SlackMarkdownBlock) -> Self {
        SlackBlock::Markdown(value)
    }
}

impl From<SlackRichTextBlock> for SlackBlock {
    fn from(value: SlackRichTextBlock) -> Self {
        SlackBlock::RichText(value)
    }
}

impl FromSpecImpl<SlackRichTextBlock> for SlackBlock {
    open spec fn obeys_from_spec() -> bool {
        true
    }

    open spec fn from_spec(value: SlackRichTextBlock) -> Self {
        SlackBlock::RichText(value)
    }
}

impl From<SlackBlockImageElement> for SlackSectionBlockElement {
    fn from(value: SlackBlockImageElement) -> Self {
        SlackSectionBlockElement::Image(value)
    }
}

impl FromSpecImpl<SlackBlockImageElement> for SlackSectionBlockElement {
    open spec fn obeys_from_spec() -> bool {
        true
    }

    open spec fn from_spec(value: SlackBlockImageElement) -> Self {
        SlackSectionBlockElement::Image(value)
    }
}

impl From<SlackBlockImageElement> for SlackContextBlockElement {
    fn from(value: SlackBlockImageElement) -> Self {
        SlackContextBlockElement::Image(value)
    }
}

impl FromSpecImpl<SlackBlockImageElement> for SlackContextBlockElement {
    open spec fn obeys_from_spec() -> bool {
        true
    }

    open spec fn from_spec(value: SlackBlockImageElement) -> Self {
        SlackContextBlockElement::Image(value)
    }
}

impl From<SlackBlockButtonElement> for SlackSectionBlockElement {
    fn from(value: SlackBlockButtonElement) -> Self {
        SlackSectionBlockElement::Button(value)
    }
}

impl FromSpecImpl<SlackBlockButtonElement> for SlackSectionBlockElement {
    open spec fn obeys_from_spec() -> bool {
        true
    }

    open spec fn from_spec(value: SlackBlockButtonElement) -> Self {
        SlackSectionBlockElement::Button(value)
    }
}

impl From<SlackBlockButtonElement> for SlackActionBlockElement {
    fn from(value: SlackBlockButtonElement) -> Self {
        SlackActionBlockElement::Button(value)
    }
}

impl FromSpecImpl<SlackBlockButtonElement> for SlackActionBlockElement {
    open spec fn obeys_from_spec() -> bool {
        true
    }

    open spec fn from_spec(value: SlackBlockButtonElement) -> Self {
        SlackActionBlockElement::Button(value)
    }
}

impl From<SlackBlockStaticSelectElement> for SlackSectionBlockElement {
    fn from(value: SlackBlockStaticSelectElement) -> Self {
        SlackSectionBlockElement::StaticSelect(value)
    }
}

impl FromSpecImpl<SlackBlockStaticSelectElement> for SlackSectionBlockElement {
    open spec fn obeys_from_spec() -> bool {
        true
    }

    open spec fn from_spec(value: SlackBlockStaticSelectElement) -> Self {
        SlackSectionBlockElement::StaticSelect(value)
    }
}

impl From<SlackBlockStaticSelectElement> for SlackInputBlockElement {
    fn from(value: SlackBlockStaticSelectElement) -> Self {
        SlackInputBlockElement::StaticSelect(value)
    }
}

impl FromSpecImpl<SlackBlockStaticSelectElement> for SlackInputBlockElement {
    open spec fn obeys_from_spec() -> bool {
        true
    }

    open spec fn from_spec(value: SlackBlockStaticSelectElement) -> Self {
        SlackInputBlockElement::StaticSelect(value)
    }
}

impl From<SlackBlockStaticSelectElement> for SlackActionBlockElement {
    fn from(value: SlackBlockStaticSelectElement) -> Self {
        SlackActionBlockElement::StaticSelect(value)
    }
}

impl FromSpecImpl<SlackBlockStaticSelectElement> for SlackActionBlockElement {
    open spec fn obeys_from_spec() -> bool {
        true
    }

    open spec fn from_spec(value: SlackBlockStaticSelectElement) -> Self {
        SlackActionBlockElement::StaticSelect(value)
    }
}

impl From<SlackBlockMultiStaticSelectElement> for SlackSectionBlockElement {
    fn from(value: SlackBlockMultiStaticSelectElement) -> Self {
        SlackSectionBlockElement::MultiStaticSelect(value)
    }
}

impl FromSpecImpl<SlackBlockMultiStaticSelectElement> for SlackSectionBlockElement {
    open spec fn obeys_from_spec() -> bool {
        true
    }

    open spec fn from_spec(value: SlackBlockMultiStaticSelectElement) -> Self {
        SlackSectionBlockElement::MultiStaticSelect(value)
    }
}

impl From<SlackBlockMultiStaticSelectElement> for SlackInputBlockElement {
    fn from(value: SlackBlockMultiStaticSelectElement) -> Self {
        SlackInputBlockElement::MultiStaticSelect(value)
    }
}

impl FromSpecImpl<SlackBlockMultiStaticSelectElement> for SlackInputBlockElement {
    open spec fn obeys_from_spec() -> bool {
        true
    }

    open spec fn from_spec(value: SlackBlockMultiStaticSelectElement) -> Self {
        SlackInputBlockElement::MultiStaticSelect(value)
    }
}

impl From<SlackBlockExternalSelectElement> for SlackSectionBlockElement {
    fn from(value: SlackBlockExternalSelectElement) -> Self {
        SlackSectionBlockElement::ExternalSelect(value)
    }
}

impl FromSpecImpl<SlackBlockExternalSelectElement> for SlackSectionBlockElement {
    open spec fn obeys_from_spec() -> bool {
        true
    }

    open spec fn from_spec(value: SlackBlockExternalSelectElement) -> Self {
        SlackSectionBlockElement::ExternalSelect(value)
    }
}

impl From<SlackBlockExternalSelectElement> for SlackInputBlockElement {
    fn from(value: SlackBlockExternalSelectElement) -> Self {
        SlackInputBlockElement::ExternalSelect(value)
    }
}

impl FromSpecImpl<SlackBlockExternalSelectElement> for SlackInputBlockElement {
    open spec fn obeys_from_spec() -> bool {
        true
    }

    open spec fn from_spec(value: SlackBlockExternalSelectElement) -> Self {
        SlackInputBlockElement::ExternalSelect(value)
    }
}

impl From<SlackBlockExternalSelectElement> for SlackActionBlockElement {
    fn from(value: SlackBlockExternalSelectElement) -> Self {
        SlackActionBlockElement::ExternalSelect(value)
    }
}

impl FromSpecImpl<SlackBlockExternalSelectElement> for SlackActionBlockElement {
    open spec fn obeys_from_spec() -> bool {
        true
    }

    open spec fn from_spec(value: SlackBlockExternalSelectElement) -> Self {
        SlackActionBlockElement::ExternalSelect(value)
    }
}

impl From<SlackBlockMultiExternalSelectElement> for SlackSectionBlockElement {
    fn from(value: SlackBlockMultiExternalSelectElement) -> Self {
        SlackSectionBlockElement::MultiExternalSelect(value)
    }
}

impl FromSpecImpl<SlackBlockMultiExternalSelectElement> for SlackSectionBlockElement {
    open spec fn obeys_from_spec() -> bool {
        true
    }

    open spec fn from_spec(value: SlackBlockMultiExternalSelectElement) -> Self {
        SlackSectionBlockElement::MultiExternalSelect(value)
    }
}

impl From<SlackBlockMultiExternalSelectElement> for SlackInputBlockElement {
    fn from(value: SlackBlockMultiExternalSelectElement) -> Self {
        SlackInputBlockElement::MultiExternalSelect(value)
    }
}

impl FromSpecImpl<SlackBlockMultiExternalSelectElement> for SlackInputBlockElement {
    open spec fn obeys_from_spec() -> bool {
        true
    }

    open spec fn from_spec(value: SlackBlockMultiExternalSelectElement) -> Self {
        SlackInputBlockElement::MultiExternalSelect(value)
    }
}

impl From<SlackBlockUsersSelectElement> for SlackSectionBlockElement {
    fn from(value: SlackBlockUsersSelectElement) -> Self {
        SlackSectionBlockElement::UsersSelect(value)
    }
}

impl FromSpecImpl<SlackBlockUsersSelectElement> for SlackSectionBlockElement {
    open spec fn obeys_from_spec() -> bool {
        true
    }

    open spec fn from_spec(value: SlackBlockUsersSelectElement) -> Self {
        SlackSectionBlockElement::UsersSelect(value)
    }
}

impl From<SlackBlockUsersSelectElement> for SlackInputBlockElement {
    fn from(value: SlackBlockUsersSelectElement) -> Self {
        SlackInputBlockElement::UsersSelect(value)
    }
}

impl FromSpecImpl<SlackBlockUsersSelectElement> for SlackInputBlockElement {
    open spec fn obeys_from_spec() -> bool {
        true
    }

    open spec fn from_spec(value: SlackBlockUsersSelectElement) -> Self {
        SlackInputBlockElement::UsersSelect(value)
    }
}

impl From<SlackBlockUsersSelectElement> for SlackActionBlockElement {
    fn from(value: SlackBlockUsersSelectElement) -> Self {
        SlackActionBlockElement::UsersSelect(value)
    }
}

impl FromSpecImpl<SlackBlockUsersSelectElement> for SlackActionBlockElement {
    open spec fn obeys_from_spec() -> bool {
        true
    }

    open spec fn from_spec(value: SlackBlockUsersSelectElement) -> Self {
        SlackActionBlockElement::UsersSelect(value)
    }
}

impl From<SlackBlockMultiUsersSelectElement> for SlackSectionBlockElement {
    fn from(value: SlackBlockMultiUsersSelectElement) -> Self {
        SlackSectionBlockElement::MultiUsersSelect(value)
    }
}

impl FromSpecImpl<SlackBlockMultiUsersSelectElement> for SlackSectionBlockElement {
    open spec fn obeys_from_spec() -> bool {
        true
    }

    open spec fn from_spec(value: SlackBlockMultiUsersSelectElement) -> Self {
        SlackSectionBlockElement::MultiUsersSelect(value)
    }
}

impl From<SlackBlockMultiUsersSelectElement> for SlackInputBlockElement {
    fn from(value: SlackBlockMultiUsersSelectElement) -> Self {
        SlackInputBlockElement::MultiUsersSelect(value)
    }
}

impl FromSpecImpl<SlackBlockMultiUsersSelectElement> for SlackInputBlockElement {
    open spec fn obeys_from_spec() -> bool {
        true
    }

    open spec fn from_spec(value: SlackBlockMultiUsersSelectElement) -> Self {
        SlackInputBlockElement::MultiUsersSelect(value)
    }
}

impl From<SlackBlockConversationsSelectElement> for SlackSectionBlockElement {
    fn from(value: SlackBlockConversationsSelectElement) -> Self {
        SlackSectionBlockElement::ConversationsSelect(value)
    }
}

impl FromSpecImpl<SlackBlockConversationsSelectElement> for SlackSectionBlockElement {
    open spec fn obeys_from_spec() -> bool {
        true
    }

    open spec fn from_spec(value: SlackBlockConversationsSelectElement) -> Self {
        SlackSectionBlockElement::ConversationsSelect(value)
    }
}

impl From<SlackBlockConversationsSelectElement> for SlackInputBlockElement {
    fn from(value: SlackBlockConversationsSelectElement) -> Self {
        SlackInputBlockElement::ConversationsSelect(value)
    }
}

impl FromSpecImpl<SlackBlockConversationsSelectElement> for SlackInputBlockElement {
    open spec fn obeys_from_spec() -> bool {
        true
    }

    open spec fn from_spec(value: SlackBlockConversationsSelectElement) -> Self {
        SlackInputBlockElement::ConversationsSelect(value)
    }
}

impl From<SlackBlockConversationsSelectElement> for SlackActionBlockElement {
    fn from(value: SlackBlockConversationsSelectElement) -> Self {
        SlackActionBlockElement::ConversationsSelect(value)
    }
}

impl FromSpecImpl<SlackBlockConversationsSelectElement> for SlackActionBlockElement {
    open spec fn obeys_from_spec() -> bool {
        true
    }

    open spec fn from_spec(value: SlackBlockConversationsSelectElement) -> Self {
        SlackActionBlockElement::ConversationsSelect(value)
    }
}

impl From<SlackBlockMultiConversationsSelectElement> for SlackSectionBlockElement {
    fn from(value: SlackBlockMultiConversationsSelectElement) -> Self {
        SlackSectionBlockElement::MultiConversationsSelect(value)
    }
}

impl FromSpecImpl<SlackBlockMultiConversationsSelectElement> for SlackSectionBlockElement {
    open spec fn obeys_from_spec() -> bool {
        true
    }

    open spec fn from_spec(value: SlackBlockMultiConversationsSelectElement) -> Self {
        SlackSectionBlockElement::MultiConversationsSelect(value)
    }
}

impl From<SlackBlockMultiConversationsSelectElement> for SlackInputBlockElement {
    fn from(value: SlackBlockMultiConversationsSelectElement) -> Self {
        SlackInputBlockElement::MultiConversationsSelect(value)
    }
}

impl FromSpecImpl<SlackBlockMultiConversationsSelectElement> for SlackInputBlockElement {
    open spec fn obeys_from_spec() -> bool {
        true
    }

    open spec fn from_spec(value: SlackBlockMultiConversationsSelectElement) -> Self {
        SlackInputBlockElement::MultiConversationsSelect(value)
    }
}

impl From<SlackBlockChannelsSelectElement> for SlackSectionBlockElement {
    fn from(value: SlackBlockChannelsSelectElement) -> Self {
        SlackSectionBlockElement::ChannelsSelect(value)
    }
}

impl FromSpecImpl<SlackBlockChannelsSelectElement> for SlackSectionBlockElement {
    open spec fn obeys_from_spec() -> bool {
        true
    }

    open spec fn from_spec(value: SlackBlockChannelsSelectElement) -> Self {
        SlackSectionBlockElement::ChannelsSelect(value)
    }
}

impl From<SlackBlockChannelsSelectElement> for SlackInputBlockElement {
    fn from(value: SlackBlockChannelsSelectElement) -> Self {
        SlackInputBlockElement::ChannelsSelect(value)
    }
}

impl FromSpecImpl<SlackBlockChannelsSelectElement> for SlackInputBlockElement {
    open spec fn obeys_from_spec() -> bool {
        true
    }

    open spec fn from_spec(value: SlackBlockChannelsSelectElement) -> Self {
        SlackInputBlockElement::ChannelsSelect(value)
    }
}

impl From<SlackBlockChannelsSelectElement> for SlackActionBlockElement {
    fn from(value: SlackBlockChannelsSelectElement) -> Self {
        SlackActionBlockElement::ChannelsSelect(value)
    }
}

impl FromSpecImpl<SlackBlockChannelsSelectElement> for SlackActionBlockElement {
    open spec fn obeys_from_spec() -> bool {
        true
    }

    open spec fn from_spec(value: SlackBlockChannelsSelectElement) -> Self {
        SlackActionBlockElement::ChannelsSelect(value)
    }
}

impl From<SlackBlockMultiChannelsSelectElement> for SlackSectionBlockElement {
    fn from(value: SlackBlockMultiChannelsSelectElement) -> Self {
        SlackSectionBlockElement::MultiChannelsSelect(value)
    }
}

impl FromSpecImpl<SlackBlockMultiChannelsSelectElement> for SlackSectionBlockElement {
    open spec fn obeys_from_spec() -> bool {
        true
    }

    open spec fn from_spec(value: SlackBlockMultiChannelsSelectElement) -> Self {
        SlackSectionBlockElement::MultiChannelsSelect(value)
    }
}

impl From<SlackBlockMultiChannelsSelectElement> for SlackInputBlockElement {
    fn from(value: SlackBlockMultiChannelsSelectElement) -> Self {
        SlackInputBlockElement::MultiChannelsSelect(value)
    }
}

impl FromSpecImpl<SlackBlockMultiChannelsSelectElement> for SlackInputBlockElement {
    open spec fn obeys_from_spec() -> bool {
        true
    }

    open spec fn from_spec(value: SlackBlockMultiChannelsSelectElement) -> Self {
        SlackInputBlockElement::MultiChannelsSelect(value)
    }
}

impl From<SlackBlockOverflowElement> for SlackSectionBlockElement {
    fn from(value: SlackBlockOverflowElement) -> Self {
        SlackSectionBlockElement::Overflow(value)
    }
}

impl FromSpecImpl<SlackBlockOverflowElement> for SlackSectionBlockElement {
    open spec fn obeys_from_spec() -> bool {
        true
    }

    open spec fn from_spec(value: SlackBlockOverflowElement) -> Self {
        SlackSectionBlockElement::Overflow(value)
    }
}

impl From<SlackBlockOverflowElement> for SlackActionBlockElement {
    fn from(value: SlackBlockOverflowElement) -> Self {
        SlackActionBlockElement::Overflow(value)
    }
}

impl FromSpecImpl<SlackBlockOverflowElement> for SlackActionBlockElement {
    open spec fn obeys_from_spec() -> bool {
        true
    }

    open spec fn from_spec(value: SlackBlockOverflowElement) -> Self {
        SlackActionBlockElement::Overflow(value)
    }
}

impl From<SlackBlockDatePickerElement> for SlackSectionBlockElement {
    fn from(value: SlackBlockDatePickerElement) -> Self {
        SlackSectionBlockElement::DatePicker(value)
    }
}

impl FromSpecImpl<SlackBlockDatePickerElement> for SlackSectionBlockElement {
    open spec fn obeys_from_spec() -> bool {
        true
    }

    open spec fn from_spec(value: SlackBlockDatePickerElement) -> Self {
        SlackSectionBlockElement::DatePicker(value)
    }
}

impl From<SlackBlockDatePickerElement> for SlackInputBlockElement {
    fn from(value: SlackBlockDatePickerElement) -> Self {
        SlackInputBlockElement::DatePicker(value)
    }
}

impl FromSpecImpl<SlackBlockDatePickerElement> for SlackInputBlockElement {
    open spec fn obeys_from_spec() -> bool {
        true
    }

    open spec fn from_spec(value: SlackBlockDatePickerElement) -> Self {
        SlackInputBlockElement::DatePicker(value)
    }
}

impl From<SlackBlockDatePickerElement> for SlackActionBlockElement {
    fn from(value: SlackBlockDatePickerElement) -> Self {
        SlackActionBlockElement::DatePicker(value)
    }
}

impl FromSpecImpl<SlackBlockDatePickerElement> for SlackActionBlockElement {
    open spec fn obeys_from_spec() -> bool {
        true
    }

    open spec fn from_spec(value: SlackBlockDatePickerElement) -> Self {
        SlackActionBlockElement::DatePicker(value)
    }
}

impl From<SlackBlockTimePickerElement> for SlackSectionBlockElement {
    fn from(value: SlackBlockTimePickerElement) -> Self {
        SlackSectionBlockElement::TimePicker(value)
    }
}

impl FromSpecImpl<SlackBlockTimePickerElement> for SlackSectionBlockElement {
    open spec fn obeys_from_spec() -> bool {
        true
    }

    open spec fn from_spec(value: SlackBlockTimePickerElement) -> Self {
        SlackSectionBlockElement::TimePicker(value)
    }
}

impl From<SlackBlockTimePickerElement> for SlackInputBlockElement {
    fn from(value: SlackBlockTimePickerElement) -> Self {
        SlackInputBlockElement::TimePicker(value)
    }
}

impl FromSpecImpl<SlackBlockTimePickerElement> for SlackInputBlockElement {
    open spec fn obeys_from_spec() -> bool {
        true
    }

    open spec fn from_spec(value: SlackBlockTimePickerElement) -> Self {
        SlackInputBlockElement::TimePicker(value)
    }
}

impl From<SlackBlockTimePickerElement> for SlackActionBlockElement {
    fn from(value: SlackBlockTimePickerElement) -> Self {
        SlackActionBlockElement::TimePicker(value)
    }
}

impl FromSpecImpl<SlackBlockTimePickerElement> for SlackActionBlockElement {
    open spec fn obeys_from_spec() -> bool {
        true
    }

    open spec fn from_spec(value: SlackBlockTimePickerElement) -> Self {
        SlackActionBlockElement::TimePicker(value)
    }
}

impl From<SlackBlockDateTimePickerElement> for SlackInputBlockElement {
    fn from(value: SlackBlockDateTimePickerElement) -> Self {
        SlackInputBlockElement::DateTimePicker(value)
    }
}

impl FromSpecImpl<SlackBlockDateTimePickerElement> for SlackInputBlockElement {
    open spec fn obeys_from_spec() -> bool {
        true
    }

    open spec fn from_spec(value: SlackBlockDateTimePickerElement) -> Self {
        SlackInputBlockElement::DateTimePicker(value)
    }
}

impl From<SlackBlockDateTimePickerElement> for SlackActionBlockElement {
    fn from(value: SlackBlockDateTimePickerElement) -> Self {
        SlackActionBlockElement::DateTimePicker(value)
    }
}

impl FromSpecImpl<SlackBlockDateTimePickerElement> for SlackActionBlockElement {
    open spec fn obeys_from_spec() -> bool {
        true
    }

    open spec fn from_spec(value: SlackBlockDateTimePickerElement) -> Self {
        SlackActionBlockElement::DateTimePicker(value)
    }
}

impl From<SlackBlockPlainTextInputElement> for SlackSectionBlockElement {
    fn from(value: SlackBlockPlainTextInputElement) -> Self {
        SlackSectionBlockElement::PlainTextInput(value)
    }
}

impl FromSpecImpl<SlackBlockPlainTextInputElement> for SlackSectionBlockElement {
    open spec fn obeys_from_spec() -> bool {
        true
    }

    open spec fn from_spec(value: SlackBlockPlainTextInputElement) -> Self {
        SlackSectionBlockElement::PlainTextInput(value)
    }
}

impl From<SlackBlockPlainTextInputElement> for SlackInputBlockElement {
    fn from(value: SlackBlockPlainTextInputElement) -> Self {
        SlackInputBlockElement::PlainTextInput(value)
    }
}

impl FromSpecImpl<SlackBlockPlainTextInputElement> for SlackInputBlockElement {
    open spec fn obeys_from_spec() -> bool {
        true
    }

    open spec fn from_spec(value: SlackBlockPlainTextInputElement) -> Self {
        SlackInputBlockElement::PlainTextInput(value)
    }
}

impl From<SlackBlockPlainTextInputElement> for SlackActionBlockElement {
    fn from(value: SlackBlockPlainTextInputElement) -> Self {
        SlackActionBlockElement::PlainTextInput(value)
    }
}

impl FromSpecImpl<SlackBlockPlainTextInputElement> for SlackActionBlockElement {
    open spec fn obeys_from_spec() -> bool {
        true
    }

    open spec fn from_spec(value: SlackBlockPlainTextInputElement) -> Self {
        SlackActionBlockElement::PlainTextInput(value)
    }
}

impl From<SlackBlockNumberInputElement> for SlackSectionBlockElement {
    fn from(value: SlackBlockNumberInputElement) -> Self {
        SlackSectionBlockElement::NumberInput(value)
    }
}

impl FromSpecImpl<SlackBlockNumberInputElement> for SlackSectionBlockElement {
    open spec fn obeys_from_spec() -> bool {
        true
    }

    open spec fn from_spec(value: SlackBlockNumberInputElement) -> Self {
        SlackSectionBlockElement::NumberInput(value)
    }
}

impl From<SlackBlockNumberInputElement> for SlackInputBlockElement {
    fn from(value: SlackBlockNumberInputElement) -> Self {
        SlackInputBlockElement::NumberInput(value)
    }
}

impl FromSpecImpl<SlackBlockNumberInputElement> for SlackInputBlockElement {
    open spec fn obeys_from_spec() -> bool {
        true
    }

    open spec fn from_spec(value: SlackBlockNumberInputElement) -> Self {
        SlackInputBlockElement::NumberInput(value)
    }
}

impl From<SlackBlockNumberInputElement> for SlackActionBlockElement {
    fn from(value: SlackBlockNumberInputElement) -> Self {
        SlackActionBlockElement::NumberInput(value)
    }
}

impl FromSpecImpl<SlackBlockNumberInputElement> for SlackActionBlockElement {
    open spec fn obeys_from_spec() -> bool {
        true
    }

    open spec fn from_spec(value: SlackBlockNumberInputElement) -> Self {
        SlackActionBlockElement::NumberInput(value)
    }
}

impl From<SlackBlockUrlInputElement> for SlackSectionBlockElement {
    fn from(value: SlackBlockUrlInputElement) -> Self {
        SlackSectionBlockElement::UrlInput(value)
    }
}

impl FromSpecImpl<SlackBlockUrlInputElement> for SlackSectionBlockElement {
    open spec fn obeys_from_spec() -> bool {
        true
    }

    open spec fn from_spec(value: SlackBlockUrlInputElement) -> Self {
        SlackSectionBlockElement::UrlInput(value)
    }
}

impl From<SlackBlockUrlInputElement> for SlackInputBlockElement {
    fn from(value: SlackBlockUrlInputElement) -> Self {
        SlackInputBlockElement::UrlInput(value)
    }
}

impl FromSpecImpl<SlackBlockUrlInputElement> for SlackInputBlockElement {
    open spec fn obeys_from_spec() -> bool {
        true
    }

    open spec fn from_spec(value: SlackBlockUrlInputElement) -> Self {
        SlackInputBlockElement::UrlInput(value)
    }
}

impl From<SlackBlockUrlInputElement> for SlackActionBlockElement {
    fn from(value: SlackBlockUrlInputElement) -> Self {
        SlackActionBlockElement::UrlInput(value)
    }
}

impl FromSpecImpl<SlackBlockUrlInputElement> for SlackActionBlockElement {
    open spec fn obeys_from_spec() -> bool {
        true
    }

    open spec fn from_spec(value: SlackBlockUrlInputElement) -> Self {
        SlackActionBlockElement::UrlInput(value)
    }
}

impl From<SlackBlockEmailInputElement> for SlackInputBlockElement {
    fn from(value: SlackBlockEmailInputElement) -> Self {
        SlackInputBlockElement::EmailInput(value)
    }
}

impl FromSpecImpl<SlackBlockEmailInputElement> for SlackInputBlockElement {
    open spec fn obeys_from_spec() -> bool {
        true
    }

    open spec fn from_spec(value: SlackBlockEmailInputElement) -> Self {
        SlackInputBlockElement::EmailInput(value)
    }
}

impl From<SlackBlockRadioButtonsElement> for SlackSectionBlockElement {
    fn from(value: SlackBlockRadioButtonsElement) -> Self {
        SlackSectionBlockElement::RadioButtons(value)
    }
}

impl FromSpecImpl<SlackBlockRadioButtonsElement> for SlackSectionBlockElement {
    open spec fn obeys_from_spec() -> bool {
        true
    }

    open spec fn from_spec(value: SlackBlockRadioButtonsElement) -> Self {
        SlackSectionBlockElement::RadioButtons(value)
    }
}

impl From<SlackBlockRadioButtonsElement> for SlackInputBlockElement {
    fn from(value: SlackBlockRadioButtonsElement) -> Self {
        SlackInputBlockElement::RadioButtons(value)
    }
}

impl FromSpecImpl<SlackBlockRadioButtonsElement> for SlackInputBlockElement {
    open spec fn obeys_from_spec() -> bool {
        true
    }

    open spec fn from_spec(value: SlackBlockRadioButtonsElement) -> Self {
        SlackInputBlockElement::RadioButtons(value)
    }
}

impl From<SlackBlockRadioButtonsElement> for SlackActionBlockElement {
    fn from(value: SlackBlockRadioButtonsElement) -> Self {
        SlackActionBlockElement::RadioButtons(value)
    }
}

impl FromSpecImpl<SlackBlockRadioButtonsElement> for SlackActionBlockElement {
    open spec fn obeys_from_spec() -> bool {
        true
    }

    open spec fn from_spec(value: SlackBlockRadioButtonsElement) -> Self {
        SlackActionBlockElement::RadioButtons(value)
    }
}

impl From<SlackBlockCheckboxesElement> for SlackSectionBlockElement {
    fn from(value: SlackBlockCheckboxesElement) -> Self {
        SlackSectionBlockElement::Checkboxes(value)
    }
}

impl FromSpecImpl<SlackBlockCheckboxesElement> for SlackSectionBlockElement {
    open spec fn obeys_from_spec() -> bool {
        true
    }

    open spec fn from_spec(value: SlackBlockCheckboxesElement) -> Self {
        SlackSectionBlockElement::Checkboxes(value)
    }
}

impl From<SlackBlockCheckboxesElement> for SlackInputBlockElement {
    fn from(value: SlackBlockCheckboxesElement) -> Self {
        SlackInputBlockElement::Checkboxes(value)
    }
}

impl FromSpecImpl<SlackBlockCheckboxesElement> for SlackInputBlockElement {
    open spec fn obeys_from_spec() -> bool {
        true
    }

    open spec fn from_spec(value: SlackBlockCheckboxesElement) -> Self {
        SlackInputBlockElement::Checkboxes(value)
    }
}

impl From<SlackBlockCheckboxesElement> for SlackActionBlockElement {
    fn from(value: SlackBlockCheckboxesElement) -> Self {
        SlackActionBlockElement::Checkboxes(value)
    }
}

impl FromSpecImpl<SlackBlockCheckboxesElement> for SlackActionBlockElement {
    open spec fn obeys_from_spec() -> bool {
        true
    }

    open spec fn from_spec(value: SlackBlockCheckboxesElement) -> Self {
        SlackActionBlockElement::Checkboxes(value)
    }
}

impl From<SlackBlockRichTextInputElement> for SlackInputBlockElement {
    fn from(value: SlackBlockRichTextInputElement) -> Self {
        SlackInputBlockElement::RichTextInput(value)
    }
}

impl FromSpecImpl<SlackBlockRichTextInputElement> for SlackInputBlockElement {
    open spec fn obeys_from_spec() -> bool {
        true
    }

    open spec fn from_spec(value: SlackBlockRichTextInputElement) -> Self {
        SlackInputBlockElement::RichTextInput(value)
    }
}

impl From<SlackBlockPlainText> for SlackBlockText {
    fn from(value: SlackBlockPlainText) -> Self {
        SlackBlockText::Plain(value)
    }
}

impl FromSpecImpl<SlackBlockPlainText> for SlackBlockText {
    open spec fn obeys_from_spec() -> bool {
        true
    }

    open spec fn from_spec(value: SlackBlockPlainText) -> Self {
        SlackBlockText::Plain(value)
    }
}

impl From<SlackBlockMarkDownText> for SlackBlockText {
    fn from(value: SlackBlockMarkDownText) -> Self {
        SlackBlockText::MarkDown(value)
    }
}

impl FromSpecImpl<SlackBlockMarkDownText> for SlackBlockText {
    open spec fn obeys_from_spec() -> bool {
        true
    }

    open spec fn from_spec(value: SlackBlockMarkDownText) -> Self {
        SlackBlockText::MarkDown(value)
    }
}

impl From<SlackBlockPlainText> for SlackContextBlockElement {
    fn from(value: SlackBlockPlainText) -> Self {
        SlackContextBlockElement::Plain(value)
    }
}

impl FromSpecImpl<SlackBlockPlainText> for SlackContextBlockElement {
    open spec fn obeys_from_spec() -> bool {
        true
    }

    open spec fn from_spec(value: SlackBlockPlainText) -> Self {
        SlackContextBlockElement::Plain(value)
    }
}

impl From<SlackBlockMarkDownText> for SlackContextBlockElement {
    fn from(value: SlackBlockMarkDownText) -> Self {
        SlackContextBlockElement::MarkDown(value)
    }
}

impl FromSpecImpl<SlackBlockMarkDownText> for SlackContextBlockElement {
    open spec fn obeys_from_spec() -> bool {
        true
    }

    open spec fn from_spec(value: SlackBlockMarkDownText) -> Self {
        SlackContextBlockElement::MarkDown(value)
    }
}


impl From<String> for SlackBlockPlainText {
    fn from(value: String) -> Self {
        SlackBlockPlainText::new(value)
    }
}

impl FromSpecImpl<String> for SlackBlockPlainText {
    open spec fn obeys_from_spec() -> bool {
        true
    }

    open spec fn from_spec(value: String) -> Self {
        SlackBlockPlainText { text: value, emoji: None }
    }
}

impl From<String> for SlackBlockMarkDownText {
    fn from(value: String) -> Self {
        SlackBlockMarkDownText::new(value)
    }
}

impl FromSpecImpl<String> for SlackBlockMarkDownText {
    open spec fn obeys_from_spec() -> bool {
        true
    }

    open spec fn from_spec(value: String) -> Self {
        SlackBlockMarkDownText { text: value, verbatim: None }
    }
}

impl From<&str> for SlackBlockPlainText {
    fn from(value: &str) -> (r: Self)
        ensures
            r.text@ == value@,
            r.emoji is None,
    {
        SlackBlockPlainText::new(String::from_str(value))
    }
}

impl FromSpecImpl<&str> for SlackBlockPlainText {
    /// A `String` cannot be named from a `&str` in a spec; `from` states
    /// its result itself.
    open spec fn obeys_from_spec() -> bool {
        false
    }

    open spec fn from_spec(value: &str) -> Self {
        arbitrary()
    }
}

impl From<&str> for SlackBlockMarkDownText {
    fn from(value: &str) -> (r: Self)
        ensures
            r.text@ == value@,
            r.verbatim is None,
    {
        SlackBlockMarkDownText::new(String::from_str(value))
    }
}

impl FromSpecImpl<&str> for SlackBlockMarkDownText {
    /// A `String` cannot be named from a `&str` in a spec; `from` states
    /// its result itself.
    open spec fn obeys_from_spec() -> bool {
        false
    }

    open spec fn from_spec(value: &str) -> Self {
        arbitrary()
    }
}

impl From<url::Url> for SlackImageUrlOrFile {
    fn from(value: url::Url) -> Self {
        SlackImageUrlOrFile::ImageUrl { image_url: value }
    }
}

impl FromSpecImpl<url::Url> for SlackImageUrlOrFile {
    open spec fn obeys_from_spec() -> bool {
        true
    }

    open spec fn from_spec(value: url::Url) -> Self {
        SlackImageUrlOrFile::ImageUrl { image_url: value }
    }
}

impl From<SlackFileId> for SlackFileIdOrUrl {
    fn from(value: SlackFileId) -> Self {
        SlackFileIdOrUrl::Id { id: value }
    }
}

impl FromSpecImpl<SlackFileId> for SlackFileIdOrUrl {
    open spec fn obeys_from_spec() -> bool {
        true
    }

    open spec fn from_spec(value: SlackFileId) -> Self {
        SlackFileIdOrUrl::Id { id: value }
    }
}

} // verus!
