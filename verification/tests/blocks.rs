use slack_morphism::models::blocks::kit::{
    SlackActionBlockElement, SlackBlock, SlackBlockButtonElement, SlackBlockConversationFilter,
    SlackBlockConversationsSelectElement, SlackBlockMarkDownText, SlackBlockPlainText, SlackBlockPlainTextOnly,
    SlackBlockText, SlackContextBlockElement, SlackConversationFilterInclude, SlackDividerBlock, SlackFileBlock,
    SlackFileIdOrUrl, SlackImageUrlOrFile, SlackMarkdownBlock, SlackSectionBlock, SlackSectionBlockElement,
};
use slack_morphism::models::blocks::view::{
    SlackHomeView, SlackModalView, SlackView, SlackViewSubmissionClearResponse, SlackViewSubmissionResponse,
};
use slack_morphism::models::blocks::workflow::{SlackWorkflow, SlackWorkflowTrigger, SlackWorkflowTriggerInputParameter};
use slack_morphism::models::common::{SlackActionId, SlackCallbackId};
use slack_morphism::models::events::interaction::{
    SlackBlockSuggestionOptions, SlackBlockSuggestionResponse, SlackInteractionResponse,
};
use slack_morphism::models::files::SlackFileId;

#[test]
fn md_and_pt_format_args_arms_produce_expected_text() {
    let markdown: SlackBlockMarkDownText = SlackBlockMarkDownText::new(format!("hi {}", "there"));
    assert_eq!(markdown.text, "hi there");

    let plain: SlackBlockPlainText = SlackBlockPlainText::new(format!("hi {}", "there"));
    assert_eq!(plain.text, "hi there");
}

#[test]
fn test_interaction_response_from_unit_is_empty() {
    assert_eq!(SlackInteractionResponse::from(()), SlackInteractionResponse::Empty);
}

#[test]
fn interaction_response_wraps_its_answers() {
    let clear = SlackViewSubmissionResponse::Clear(SlackViewSubmissionClearResponse::new());
    assert_eq!(
        SlackInteractionResponse::from(clear.clone()),
        SlackInteractionResponse::ViewSubmission(clear)
    );
    let options = SlackBlockSuggestionResponse::Options(SlackBlockSuggestionOptions::new(vec![]));
    assert_eq!(
        SlackInteractionResponse::from(options.clone()),
        SlackInteractionResponse::BlockSuggestion(options)
    );
}

#[test]
fn text_objects_from_strings() {
    let plain = SlackBlockPlainText::from("hello");
    assert_eq!(plain.text, "hello");
    assert_eq!(plain.emoji, None);
    let plain_owned = SlackBlockPlainText::from("hello".to_string());
    assert_eq!(plain, plain_owned);

    let markdown = SlackBlockMarkDownText::from("*bold*");
    assert_eq!(markdown.text, "*bold*");
    assert_eq!(markdown.verbatim, None);
    assert_eq!(markdown, SlackBlockMarkDownText::from("*bold*".to_string()));
}

#[test]
fn plain_text_only_keeps_its_plain_text() {
    let only = SlackBlockPlainTextOnly::from("Title");
    assert_eq!(only.value().text, "Title");
    assert_eq!(only, SlackBlockPlainTextOnly::from(SlackBlockPlainText::new("Title".to_string())));
    assert_eq!(only, SlackBlockPlainTextOnly::from("Title".to_string()));
    assert_eq!(
        SlackBlockText::from(only),
        SlackBlockText::Plain(SlackBlockPlainText::new("Title".to_string()))
    );
}

#[test]
fn as_block_text_wraps_a_copy() {
    let plain = SlackBlockPlainText::new("a".to_string());
    assert_eq!(plain.as_block_text(), SlackBlockText::Plain(plain.clone()));
    let markdown = SlackBlockMarkDownText::new("b".to_string());
    assert_eq!(markdown.as_block_text(), SlackBlockText::MarkDown(markdown.clone()));
}

#[test]
fn blocks_and_elements_wrap_into_their_variants() {
    let section = SlackSectionBlock::new().with_text(SlackBlockText::from(SlackBlockPlainText::from("x")));
    assert_eq!(SlackBlock::from(section.clone()), SlackBlock::Section(section));
    assert_eq!(SlackBlock::from(SlackDividerBlock::new()), SlackBlock::Divider(SlackDividerBlock::new()));
    let markdown = SlackMarkdownBlock::new("**x**".to_string());
    assert_eq!(SlackBlock::from(markdown.clone()), SlackBlock::Markdown(markdown));

    let button = SlackBlockButtonElement::new(
        SlackActionId::new("act".to_string()),
        SlackBlockPlainTextOnly::from("Click"),
    );
    assert_eq!(
        SlackActionBlockElement::from(button.clone()),
        SlackActionBlockElement::Button(button.clone())
    );
    assert_eq!(SlackSectionBlockElement::from(button.clone()), SlackSectionBlockElement::Button(button));

    let text = SlackBlockMarkDownText::from("ctx");
    assert_eq!(SlackContextBlockElement::from(text.clone()), SlackContextBlockElement::MarkDown(text));
}

#[test]
fn file_block_source_is_remote() {
    let block = SlackFileBlock::new("ext-1".to_string());
    assert_eq!(block.external_id, "ext-1");
    assert_eq!(block.source, "remote");
    assert_eq!(block.block_id, None);
}

#[test]
fn conversation_filter_builders() {
    let filter = SlackBlockConversationFilter::new()
        .with_included(vec![SlackConversationFilterInclude::Public, SlackConversationFilterInclude::Mpim])
        .with_exclude_bot_users(true);
    assert_eq!(
        filter.included,
        Some(vec![SlackConversationFilterInclude::Public, SlackConversationFilterInclude::Mpim])
    );
    assert_eq!(filter.exclude_bot_users, Some(true));
    assert_eq!(filter.exclude_external_shared_channels, None);

    let select = SlackBlockConversationsSelectElement::new(SlackActionId::new("test_action".to_string()))
        .with_filter(filter.clone());
    assert_eq!(select.filter, Some(filter));
    assert_eq!(select.placeholder, None);
}

#[test]
fn image_url_of_urls_and_files() {
    let url = url::Url::parse("https://example.com/a.png").unwrap();
    let by_url = SlackImageUrlOrFile::from(url.clone());
    assert_eq!(by_url.image_url(), Some(&url));
    let by_file_url = SlackImageUrlOrFile::SlackFile { slack_file: SlackFileIdOrUrl::Url { url: url.clone() } };
    assert_eq!(by_file_url.image_url(), Some(&url));
    let by_file_id = SlackImageUrlOrFile::SlackFile {
        slack_file: SlackFileIdOrUrl::from(SlackFileId::new("F1".to_string())),
    };
    assert_eq!(by_file_id.image_url(), None);
}

#[test]
fn views_and_workflows_are_built_with_absent_options() {
    let home = SlackHomeView::new(vec![SlackBlock::from(SlackDividerBlock::new())]);
    assert_eq!(home.blocks.len(), 1);
    assert_eq!(home.callback_id, None);
    let modal = SlackModalView::new(SlackBlockPlainTextOnly::from("Title"), vec![]);
    assert_eq!(modal.submit, None);
    assert_eq!(modal.title.value().text, "Title");
    let view = SlackView::Home(home);
    assert!(matches!(view, SlackView::Home(_)));
    let _ = SlackCallbackId::new("test-callback-id".to_string());

    let trigger = SlackWorkflowTrigger::new(url::Url::parse("https://slack.com/shortcuts/Ft/abc").unwrap());
    assert_eq!(trigger.customizable_input_parameters, None);
    let workflow = SlackWorkflow::new(trigger.clone());
    assert_eq!(workflow.trigger, trigger);
    let parameter = SlackWorkflowTriggerInputParameter::new("name".to_string(), "value".to_string());
    assert_eq!(parameter.name, "name");
    assert_eq!(parameter.value, "value");
}
