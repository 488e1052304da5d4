use slack_morphism::models::common::emoji::{SlackEmojiName, SlackEmojiRef};
use slack_morphism::models::common::icon::SlackIconImages;
use slack_morphism::models::common::urls::{SlackRelaxedUrl, SlackWebSocketsUrl};
use slack_morphism::models::common::{
    SlackChannelId, SlackClientSecret, SlackConversationType, SlackSigningSecret, SlackTextFormat,
    SlackUserGroupId, SlackUserId, SlackVerificationToken,
};

#[test]
fn test_serialize_emoji_url() {
    let emoji_url = SlackEmojiRef::Url(url::Url::parse("https://example.com").unwrap());
    assert_eq!(
        serde_json::to_string(&emoji_url.to_slack_str()).unwrap(),
        "\"https://example.com/\""
    );
}

#[test]
fn emoji_test_serialize_emoji_alias() {
    let emoji_alias = SlackEmojiRef::Alias(SlackEmojiName::new("smile".to_string()));
    assert_eq!(serde_json::to_string(&emoji_alias.to_slack_str()).unwrap(), "\"alias:smile\"");
}

#[test]
fn test_deserialize_emoji_url() {
    let text: String = serde_json::from_str("\"https://example.com\"").unwrap();
    assert_eq!(
        SlackEmojiRef::from_slack_str(&text).unwrap(),
        SlackEmojiRef::Url(url::Url::parse("https://example.com").unwrap())
    );
}

#[test]
fn test_deserialize_emoji_alias() {
    let text: String = serde_json::from_str("\"alias:smile\"").unwrap();
    assert_eq!(
        SlackEmojiRef::from_slack_str(&text).unwrap(),
        SlackEmojiRef::Alias(SlackEmojiName::new("smile".to_string()))
    );
}

#[test]
fn emoji_alias_with_two_colons_is_read_as_a_url() {
    assert!(SlackEmojiRef::from_slack_str("alias:a:b").is_ok());
    assert_eq!(
        SlackEmojiRef::from_slack_str("alias:a:b").unwrap(),
        SlackEmojiRef::Url(url::Url::parse("alias:a:b").unwrap())
    );
    assert!(SlackEmojiRef::from_slack_str("not a url").is_err());
}

#[test]
fn icon_image_keys() {
    assert_eq!(SlackIconImages::image_key(48), "image_48");
    assert_eq!(SlackIconImages::read_image_key("image_48"), Some(Some(48)));
    assert_eq!(SlackIconImages::read_image_key("image_x"), Some(None));
    assert_eq!(SlackIconImages::read_image_key("image_48_2x"), None);
    assert_eq!(SlackIconImages::read_image_key("image_original"), Some(None));
    assert_eq!(SlackIconImages::read_image_key("avatar"), None);
}

#[test]
fn icon_image_entries_in_order() {
    let images = SlackIconImages::new(vec![(34, "a".to_string()), (0, "b".to_string())]);
    assert_eq!(
        images.to_image_entries(),
        Some(vec![("image_34".to_string(), "a".to_string()), ("image_0".to_string(), "b".to_string())])
    );
    assert_eq!(SlackIconImages::new(vec![]).to_image_entries(), None);
}

#[test]
fn ids_in_slack_format() {
    assert_eq!(SlackChannelId::new("C1".to_string()).to_slack_format(), "<#C1>");
    assert_eq!(SlackUserId::new("U1".to_string()).to_slack_format(), "<@U1>");
    assert_eq!(SlackUserGroupId::new("S1".to_string()).to_slack_format(), "<!subteam^S1>");
}

#[test]
fn secrets_are_redacted_in_debug_text() {
    assert_eq!(SlackClientSecret::new("abc".to_string()).redacted_debug(), "SlackClientSecret(len:3)");
    assert_eq!(SlackVerificationToken::new("".to_string()).redacted_debug(), "SlackVerificationToken(len:0)");
    assert_eq!(SlackSigningSecret::new("é".to_string()).redacted_debug(), "SlackSigningSecret(len:2)");
}

#[test]
fn conversation_type_names() {
    assert_eq!(SlackConversationType::Im.to_string(), "im");
    assert_eq!(SlackConversationType::Mpim.to_string(), "mpim");
    assert_eq!(SlackConversationType::Private.to_string(), "private_channel");
    assert_eq!(SlackConversationType::Public.to_string(), "public_channel");
}

#[test]
fn websocket_debug_url_appends_the_flag() {
    let url = SlackWebSocketsUrl::new(url::Url::parse("wss://wss.slack.com/link/?ticket=1").unwrap());
    assert_eq!(
        url.to_debug_url().value().as_str(),
        "wss://wss.slack.com/link/?ticket=1&debug_reconnects=true"
    );
    assert_eq!(url.try_to_debug_url(), Some(url.to_debug_url()));
}

#[test]
fn relaxed_urls_parse_on_request() {
    assert!(SlackRelaxedUrl::new("not a url".to_string()).to_url().is_err());
    let url = url::Url::parse("https://example.com/x").unwrap();
    let relaxed = SlackRelaxedUrl::from_url(&url);
    assert_eq!(relaxed.value(), "https://example.com/x");
    assert_eq!(relaxed.to_url().unwrap(), url);
}
