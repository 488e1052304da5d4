//! The envelopes of Socket Mode: the events that Slack sends over the
//! socket and the acknowledgements that an app sends back.

use vstd::prelude::*;

use crate::models::common::SlackAppId;
use crate::models::events::interaction::{SlackInteractionEvent, SlackInteractionResponse};
use crate::models::events::{SlackCommandEvent, SlackCommandEventResponse};

verus! {

/// The greeting of a new connection.
#[derive(Debug, Clone, PartialEq)]
pub struct SlackSocketModeHelloEvent {
    pub connection_info: SlackSocketModeConnectionInfo,
    pub num_connections: u32,
    pub debug_info: SlackSocketModeDebugInfo,
}

impl SlackSocketModeHelloEvent {
    /// A value with these fields; the optional ones are absent.
    pub fn new(connection_info: SlackSocketModeConnectionInfo, num_connections: u32, debug_info: SlackSocketModeDebugInfo) -> (r: Self)
        ensures
            r == (SlackSocketModeHelloEvent { connection_info, num_connections, debug_info }),
    {
        SlackSocketModeHelloEvent { connection_info, num_connections, debug_info }
    }
}

/// The app of a connection.
#[derive(Debug, Clone, PartialEq)]
pub struct SlackSocketModeConnectionInfo {
    pub app_id: SlackAppId,
}

impl SlackSocketModeConnectionInfo {
    /// A value with these fields; the optional ones are absent.
    pub fn new(app_id: SlackAppId) -> (r: Self)
        ensures
            r == (SlackSocketModeConnectionInfo { app_id }),
    {
        SlackSocketModeConnectionInfo { app_id }
    }
}

/// What Slack tells of a connection for debugging.
#[derive(Debug, Clone, PartialEq)]
pub struct SlackSocketModeDebugInfo {
    pub host: String,
    pub started: Option<String>,
    pub build_number: Option<u64>,
    pub approximate_connection_time: Option<u64>,
}

impl SlackSocketModeDebugInfo {
    /// A value with these fields; the optional ones are absent.
    pub fn new(host: String) -> (r: Self)
        ensures
            r == (SlackSocketModeDebugInfo {
                host,
                started: None,
                build_number: None,
                approximate_connection_time: None,
            }),
    {
        SlackSocketModeDebugInfo {
            host,
            started: None,
            build_number: None,
            approximate_connection_time: None,
        }
    }
}

/// Slack is closing the connection.
#[derive(Debug, Clone, PartialEq)]
pub struct SlackSocketModeDisconnectEvent {
    pub reason: String,
    pub debug_info: SlackSocketModeDebugInfo,
}

impl SlackSocketModeDisconnectEvent {
    /// A value with these fields; the optional ones are absent.
    pub fn new(reason: String, debug_info: SlackSocketModeDebugInfo) -> (r: Self)
        ensures
            r == (SlackSocketModeDisconnectEvent { reason, debug_info }),
    {
        SlackSocketModeDisconnectEvent { reason, debug_info }
    }
}

/// The id of an envelope, to acknowledge it by.
#[derive(Debug, Clone, PartialEq, Eq, Hash)]
pub struct SlackSocketModeEnvelopeId(pub String);

impl SlackSocketModeEnvelopeId {
    pub fn new(value: String) -> (r: Self)
        ensures
            r.0 == value,
    {
        SlackSocketModeEnvelopeId(value)
    }

    pub fn value(&self) -> (r: &String)
        ensures
            *r == self.0,
    {
        &self.0
    }
}

/// The id of an envelope, and whether its acknowledgement may carry an answer.
#[derive(Debug, Clone, PartialEq)]
pub struct SlackSocketModeEventEnvelopeParams {
    pub envelope_id: SlackSocketModeEnvelopeId,
    pub accepts_response_payload: bool,
}

impl SlackSocketModeEventEnvelopeParams {
    /// A value with these fields; the optional ones are absent.
    pub fn new(envelope_id: SlackSocketModeEnvelopeId, accepts_response_payload: bool) -> (r: Self)
        ensures
            r == (SlackSocketModeEventEnvelopeParams { envelope_id, accepts_response_payload }),
    {
        SlackSocketModeEventEnvelopeParams { envelope_id, accepts_response_payload }
    }
}

/// The acknowledgement of an envelope.
#[derive(Debug, Clone, PartialEq)]
pub struct SlackSocketModeEventCommonAcknowledge {
    pub envelope_id: SlackSocketModeEnvelopeId,
}

impl SlackSocketModeEventCommonAcknowledge {
    /// A value with these fields; the optional ones are absent.
    pub fn new(envelope_id: SlackSocketModeEnvelopeId) -> (r: Self)
        ensures
            r == (SlackSocketModeEventCommonAcknowledge { envelope_id }),
    {
        SlackSocketModeEventCommonAcknowledge { envelope_id }
    }
}

/// An interaction in an envelope.
#[derive(Debug, Clone, PartialEq)]
pub struct SlackSocketModeInteractiveEvent {
    pub envelope_params: SlackSocketModeEventEnvelopeParams,
    pub payload: SlackInteractionEvent,
}

impl SlackSocketModeInteractiveEvent {
    /// A value with these fields; the optional ones are absent.
    pub fn new(envelope_params: SlackSocketModeEventEnvelopeParams, payload: SlackInteractionEvent) -> (r: Self)
        ensures
            r == (SlackSocketModeInteractiveEvent { envelope_params, payload }),
    {
        SlackSocketModeInteractiveEvent { envelope_params, payload }
    }
}

/// A slash command in an envelope.
#[derive(Debug, Clone, PartialEq)]
pub struct SlackSocketModeCommandEvent {
    pub envelope_params: SlackSocketModeEventEnvelopeParams,
    pub payload: SlackCommandEvent,
}

impl SlackSocketModeCommandEvent {
    /// A value with these fields; the optional ones are absent.
    pub fn new(envelope_params: SlackSocketModeEventEnvelopeParams, payload: SlackCommandEvent) -> (r: Self)
        ensures
            r == (SlackSocketModeCommandEvent { envelope_params, payload }),
    {
        SlackSocketModeCommandEvent { envelope_params, payload }
    }
}

/// The acknowledgement of a slash command, with its answer if any.
#[derive(Debug, Clone, PartialEq)]
pub struct SlackSocketModeCommandEventAck {
    pub envelope_ack_params: SlackSocketModeEventCommonAcknowledge,
    pub payload: Option<SlackCommandEventResponse>,
}

impl SlackSocketModeCommandEventAck {
    /// A value with these fields; the optional ones are absent.
    pub fn new(envelope_ack_params: SlackSocketModeEventCommonAcknowledge) -> (r: Self)
        ensures
            r == (SlackSocketModeCommandEventAck { envelope_ack_params, payload: None }),
    {
        SlackSocketModeCommandEventAck { envelope_ack_params, payload: None }
    }
}

/// The acknowledgement of an interaction, with its answer if any.
#[derive(Debug, Clone, PartialEq)]
pub struct SlackSocketModeInteractiveEventAck {
    pub envelope_ack_params: SlackSocketModeEventCommonAcknowledge,
    pub payload: Option<SlackInteractionResponse>,
}

impl SlackSocketModeInteractiveEventAck {
    /// A value with these fields; the optional ones are absent.
    pub fn new(envelope_ack_params: SlackSocketModeEventCommonAcknowledge) -> (r: Self)
        ensures
            r == (SlackSocketModeInteractiveEventAck { envelope_ack_params, payload: None }),
    {
        SlackSocketModeInteractiveEventAck { envelope_ack_params, payload: None }
    }
}

} // verus!
