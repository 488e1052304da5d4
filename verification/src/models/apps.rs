//! Apps: their credentials and manifests.

use vstd::prelude::*;

use crate::models::common::{
    SlackApiTokenScope, SlackCallbackId, SlackClientId, SlackClientSecret, SlackShortcutType, SlackSigningSecret,
    SlackVerificationToken,
};

verus! {

/// The credentials of an app (with no `Debug`: its secrets have none).
#[derive(Clone, PartialEq)]
pub struct SlackAppCredentials {
    pub client_id: SlackClientId,
    pub client_secret: SlackClientSecret,
    pub verification_token: SlackVerificationToken,
    pub signing_secret: SlackSigningSecret,
}

impl SlackAppCredentials {
    /// A value with these fields; the optional ones are absent.
    pub fn new(client_id: SlackClientId, client_secret: SlackClientSecret, verification_token: SlackVerificationToken, signing_secret: SlackSigningSecret) -> (r: Self)
        ensures
            r == (SlackAppCredentials {
                client_id,
                client_secret,
                verification_token,
                signing_secret,
            }),
    {
        SlackAppCredentials {
            client_id,
            client_secret,
            verification_token,
            signing_secret,
        }
    }
}

/// The version of a manifest's format.
#[derive(Debug, Clone, PartialEq)]
pub struct SlackAppManifestMetadata {
    pub major_version: Option<usize>,
    pub minor_version: Option<usize>,
}

impl SlackAppManifestMetadata {
    /// A value whose fields are all absent.
    pub fn new() -> (r: Self)
        ensures
            r == (SlackAppManifestMetadata { major_version: None, minor_version: None }),
    {
        SlackAppManifestMetadata { major_version: None, minor_version: None }
    }
}

/// How an app presents itself.
#[derive(Debug, Clone, PartialEq)]
pub struct SlackAppManifestDisplayInformation {
    pub name: String,
    pub description: Option<String>,
    pub background_color: Option<String>,
    pub long_description: Option<String>,
}

impl SlackAppManifestDisplayInformation {
    /// A value with these fields; the optional ones are absent.
    pub fn new(name: String) -> (r: Self)
        ensures
            r == (SlackAppManifestDisplayInformation {
                name,
                description: None,
                background_color: None,
                long_description: None,
            }),
    {
        SlackAppManifestDisplayInformation {
            name,
            description: None,
            background_color: None,
            long_description: None,
        }
    }
}

/// The events that an app subscribes to.
#[derive(Debug, Clone, PartialEq)]
pub struct SlackAppManifestSettingsEventSubscriptions {
    pub request_url: Option<url::Url>,
    pub bot_events: Option<Vec<String>>,
    pub user_events: Option<Vec<String>>,
}

impl SlackAppManifestSettingsEventSubscriptions {
    /// A value whose fields are all absent.
    pub fn new() -> (r: Self)
        ensures
            r == (SlackAppManifestSettingsEventSubscriptions {
                request_url: None,
                bot_events: None,
                user_events: None,
            }),
    {
        SlackAppManifestSettingsEventSubscriptions {
            request_url: None,
            bot_events: None,
            user_events: None,
        }
    }
}

/// Where the interactions of an app go.
#[derive(Debug, Clone, PartialEq)]
pub struct SlackAppManifestSettingsInteractivity {
    pub is_enabled: bool,
    pub request_url: Option<url::Url>,
    pub message_menu_options_url: Option<url::Url>,
}

impl SlackAppManifestSettingsInteractivity {
    /// A value with these fields; the optional ones are absent.
    pub fn new(is_enabled: bool) -> (r: Self)
        ensures
            r == (SlackAppManifestSettingsInteractivity {
                is_enabled,
                request_url: None,
                message_menu_options_url: None,
            }),
    {
        SlackAppManifestSettingsInteractivity {
            is_enabled,
            request_url: None,
            message_menu_options_url: None,
        }
    }
}

/// The settings of an app.
#[derive(Debug, Clone, PartialEq)]
pub struct SlackAppManifestSettings {
    pub allowed_ip_address_ranges: Option<Vec<String>>,
    pub event_subscriptions: Option<SlackAppManifestSettingsEventSubscriptions>,
    pub interactivity: Option<SlackAppManifestSettingsInteractivity>,
    pub org_deploy_enabled: Option<bool>,
    pub socket_mode_enabled: Option<bool>,
}

impl SlackAppManifestSettings {
    /// A value whose fields are all absent.
    pub fn new() -> (r: Self)
        ensures
            r == (SlackAppManifestSettings {
                allowed_ip_address_ranges: None,
                event_subscriptions: None,
                interactivity: None,
                org_deploy_enabled: None,
                socket_mode_enabled: None,
            }),
    {
        SlackAppManifestSettings {
            allowed_ip_address_ranges: None,
            event_subscriptions: None,
            interactivity: None,
            org_deploy_enabled: None,
            socket_mode_enabled: None,
        }
    }
}

/// The tabs of an app's home.
#[derive(Debug, Clone, PartialEq)]
pub struct SlackAppManifestFeaturesAppHome {
    pub home_tab_enabled: Option<bool>,
    pub messages_tab_enabled: Option<bool>,
    pub messages_tab_read_only_enabled: Option<bool>,
}

impl SlackAppManifestFeaturesAppHome {
    /// A value whose fields are all absent.
    pub fn new() -> (r: Self)
        ensures
            r == (SlackAppManifestFeaturesAppHome {
                home_tab_enabled: None,
                messages_tab_enabled: None,
                messages_tab_read_only_enabled: None,
            }),
    {
        SlackAppManifestFeaturesAppHome {
            home_tab_enabled: None,
            messages_tab_enabled: None,
            messages_tab_read_only_enabled: None,
        }
    }
}

/// The bot user of an app.
#[derive(Debug, Clone, PartialEq)]
pub struct SlackAppManifestFeaturesBotUser {
    pub display_name: String,
    pub always_online: bool,
}

impl SlackAppManifestFeaturesBotUser {
    /// A value with these fields; the optional ones are absent.
    pub fn new(display_name: String, always_online: bool) -> (r: Self)
        ensures
            r == (SlackAppManifestFeaturesBotUser { display_name, always_online }),
    {
        SlackAppManifestFeaturesBotUser { display_name, always_online }
    }
}

/// A shortcut of an app.
#[derive(Debug, Clone, PartialEq)]
pub struct SlackAppManifestFeaturesShortcut {
    pub name: String,
    pub callback_id: SlackCallbackId,
    pub description: String,
    pub ty: SlackShortcutType,
}

impl SlackAppManifestFeaturesShortcut {
    /// A value with these fields; the optional ones are absent.
    pub fn new(name: String, callback_id: SlackCallbackId, description: String, ty: SlackShortcutType) -> (r: Self)
        ensures
            r == (SlackAppManifestFeaturesShortcut { name, callback_id, description, ty }),
    {
        SlackAppManifestFeaturesShortcut { name, callback_id, description, ty }
    }
}

/// A slash command of an app.
#[derive(Debug, Clone, PartialEq)]
pub struct SlackAppManifestFeaturesSlashCommand {
    pub command: String,
    pub description: String,
    pub should_escape: Option<bool>,
    pub url: Option<url::Url>,
    pub usage_hint: Option<String>,
}

impl SlackAppManifestFeaturesSlashCommand {
    /// A value with these fields; the optional ones are absent.
    pub fn new(command: String, description: String) -> (r: Self)
        ensures
            r == (SlackAppManifestFeaturesSlashCommand {
                command,
                description,
                should_escape: None,
                url: None,
                usage_hint: None,
            }),
    {
        SlackAppManifestFeaturesSlashCommand {
            command,
            description,
            should_escape: None,
            url: None,
            usage_hint: None,
        }
    }
}

/// A workflow step of an app.
#[derive(Debug, Clone, PartialEq)]
pub struct SlackAppManifestFeaturesWorkflowStep {
    pub name: String,
    pub callback_id: SlackCallbackId,
}

impl SlackAppManifestFeaturesWorkflowStep {
    /// A value with these fields; the optional ones are absent.
    pub fn new(name: String, callback_id: SlackCallbackId) -> (r: Self)
        ensures
            r == (SlackAppManifestFeaturesWorkflowStep { name, callback_id }),
    {
        SlackAppManifestFeaturesWorkflowStep { name, callback_id }
    }
}

/// The features of an app.
#[derive(Debug, Clone, PartialEq)]
pub struct SlackAppManifestFeatures {
    pub app_home: Option<SlackAppManifestFeaturesAppHome>,
    pub bot_user: Option<SlackAppManifestFeaturesBotUser>,
    pub shortcuts: Option<Vec<SlackAppManifestFeaturesShortcut>>,
    pub slash_commands: Option<Vec<SlackAppManifestFeaturesSlashCommand>>,
    pub unfurl_domains: Option<Vec<String>>,
    pub workflow_steps: Option<Vec<SlackAppManifestFeaturesWorkflowStep>>,
}

impl SlackAppManifestFeatures {
    /// A value whose fields are all absent.
    pub fn new() -> (r: Self)
        ensures
            r == (SlackAppManifestFeatures {
                app_home: None,
                bot_user: None,
                shortcuts: None,
                slash_commands: None,
                unfurl_domains: None,
                workflow_steps: None,
            }),
    {
        SlackAppManifestFeatures {
            app_home: None,
            bot_user: None,
            shortcuts: None,
            slash_commands: None,
            unfurl_domains: None,
            workflow_steps: None,
        }
    }
}

/// The scopes an app asks for.
#[derive(Debug, Clone, PartialEq)]
pub struct SlackAppManifestOAuthConfigScopes {
    pub bot: Option<Vec<SlackApiTokenScope>>,
    pub user: Option<Vec<SlackApiTokenScope>>,
}

impl SlackAppManifestOAuthConfigScopes {
    /// A value whose fields are all absent.
    pub fn new() -> (r: Self)
        ensures
            r == (SlackAppManifestOAuthConfigScopes { bot: None, user: None }),
    {
        SlackAppManifestOAuthConfigScopes { bot: None, user: None }
    }
}

/// The OAuth configuration of an app.
#[derive(Debug, Clone, PartialEq)]
pub struct SlackAppManifestOAuthConfig {
    pub redirect_urls: Option<Vec<url::Url>>,
    pub scopes: Option<SlackAppManifestOAuthConfigScopes>,
}

impl SlackAppManifestOAuthConfig {
    /// A value whose fields are all absent.
    pub fn new() -> (r: Self)
        ensures
            r == (SlackAppManifestOAuthConfig { redirect_urls: None, scopes: None }),
    {
        SlackAppManifestOAuthConfig { redirect_urls: None, scopes: None }
    }
}

/// The manifest of an app.
#[derive(Debug, Clone, PartialEq)]
pub struct SlackAppManifest {
    pub metadata: Option<SlackAppManifestMetadata>,
    pub display_information: SlackAppManifestDisplayInformation,
    pub settings: Option<SlackAppManifestSettings>,
    pub features: Option<SlackAppManifestFeatures>,
    pub oauth_config: Option<SlackAppManifestOAuthConfig>,
}

impl SlackAppManifest {
    /// A value with these fields; the optional ones are absent.
    pub fn new(display_information: SlackAppManifestDisplayInformation) -> (r: Self)
        ensures
            r == (SlackAppManifest {
                metadata: None,
                display_information,
                settings: None,
                features: None,
                oauth_config: None,
            }),
    {
        SlackAppManifest {
            metadata: None,
            display_information,
            settings: None,
            features: None,
            oauth_config: None,
        }
    }
}

} // verus!
