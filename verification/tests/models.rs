use slack_morphism::models::apps::{SlackAppCredentials, SlackAppManifest, SlackAppManifestDisplayInformation};
use slack_morphism::models::common::assistant::{SlackAssistantThread, SlackAssistantThreadContext};
use slack_morphism::models::common::channel::{HasChannelInfo, SlackBasicChannelInfo, SlackChannelFlags};
use slack_morphism::models::common::reaction::{SlackReaction, SlackReactionName};
use slack_morphism::models::common::team::SlackBasicTeamInfo;
use slack_morphism::models::common::{
    SlackChannelId, SlackClientId, SlackClientSecret, SlackSigningSecret, SlackTeamId, SlackTs, SlackUserId,
    SlackVerificationToken,
};
use slack_morphism::models::events::push::{SlackAppUninstalledEvent, SlackMemberJoinedChannelEvent};
use slack_morphism::models::events::{SlackCommandEvent, SlackEventId};
use slack_morphism::models::messages::{SlackMessageEdited, SlackMessageOrigin};

#[test]
fn builders_leave_the_options_absent() {
    let context = SlackAssistantThreadContext::new();
    assert_eq!(context.channel_id, None);
    let thread = SlackAssistantThread::new(
        SlackUserId::new("U1".to_string()),
        context.clone(),
        SlackChannelId::new("D1".to_string()),
        SlackTs::new("1.2".to_string()),
    );
    assert_eq!(thread.context, context);

    let origin = SlackMessageOrigin::new(SlackTs::new("1.2".to_string()));
    assert_eq!(origin.thread_ts, None);
    assert_eq!(origin.ts.value(), "1.2");

    let flags = SlackChannelFlags::new();
    assert_eq!(flags.is_archived, None);

    let manifest = SlackAppManifest::new(SlackAppManifestDisplayInformation::new("app".to_string()));
    assert_eq!(manifest.display_information.name, "app");
    assert_eq!(manifest.features, None);
}

#[test]
fn basic_channel_info_has_its_id() {
    let info = SlackBasicChannelInfo::new(SlackChannelId::new("C9".to_string()));
    assert_eq!(info.get_channel_id(), &SlackChannelId::new("C9".to_string()));
    assert_eq!(info.name, None);
}

#[test]
fn values_and_events() {
    let reaction = SlackReaction::new(SlackReactionName::new("wave".to_string()), 2, vec![]);
    assert_eq!(reaction.name.value(), "wave");
    assert_eq!(reaction.count, 2);
    assert_eq!(SlackEventId::new("Ev1".to_string()).value(), "Ev1");
    assert_eq!(SlackAppUninstalledEvent::new(), SlackAppUninstalledEvent {});
    let team = SlackBasicTeamInfo::new(SlackTeamId::new("T1".to_string()));
    assert_eq!(team.name, None);
    let edited = SlackMessageEdited::new(SlackUserId::new("U".to_string()), SlackTs::new("3".to_string()));
    assert_eq!(edited.ts.value(), "3");
    let joined = SlackMemberJoinedChannelEvent::new(
        SlackUserId::new("U".to_string()),
        SlackChannelId::new("C".to_string()),
        slack_morphism::models::common::SlackChannelType::new("C".to_string()),
        SlackTeamId::new("T".to_string()),
    );
    assert_eq!(joined.inviter, None);
    let _ = SlackCommandEvent::new(
        SlackTeamId::new("T".to_string()),
        SlackChannelId::new("C".to_string()),
        SlackUserId::new("U".to_string()),
        slack_morphism::models::common::SlackCommandId::new("/x".to_string()),
        "https://hooks.slack.com/x".to_string(),
        slack_morphism::models::common::SlackTriggerId::new("t".to_string()),
    );
}

#[test]
fn credentials_keep_their_secrets() {
    let credentials = SlackAppCredentials::new(
        SlackClientId::new("id".to_string()),
        SlackClientSecret::new("secret".to_string()),
        SlackVerificationToken::new("token".to_string()),
        SlackSigningSecret::new("signing".to_string()),
    );
    assert_eq!(credentials.client_secret.value(), "secret");
}
