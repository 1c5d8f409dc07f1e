//! The wire codec boundary.
//!
//! The protocol bytes are produced and read by the outside codec
//! (serde-JSON framing of the UI message enums); this module holds the
//! trusted items around those calls, and the verified dispatch in front
//! of them. What one encoding looks like on the wire is named, never
//! restated: [`action_wire_bytes`] and [`decoded_event`] stand for the
//! codec's answer, which depends on the value alone.

use crate::msg::{ActionView, EventView, InboundEvent, LoginDetails, OutboundAction};
use benthic_protocol::messages::ui::agent_update::AgentUpdate;
use benthic_protocol::messages::ui::chat_from_viewer::ChatFromUI;
use benthic_protocol::messages::ui::login_event::Login;
use benthic_protocol::messages::ui::ui_messages::{UIMessage, UIResponse};
use benthic_protocol::messages::utils::chat_types::ChatType;
use vstd::prelude::*;

verus! {

/// The bytes the codec produces for one outbound action.
pub uninterp spec fn action_wire_bytes(a: ActionView) -> Seq<u8>;

/// The codec's answer for one datagram: the decoded event, or the
/// decode error's text.
pub uninterp spec fn decoded_event(b: Seq<u8>) -> Result<EventView, Seq<char>>;

/// Relies on `UIResponse::to_bytes` (serde-JSON): the bytes of a login
/// request are a function of the request's fields alone.
#[verifier::external_body]
fn encode_login(d: &LoginDetails) -> (r: Vec<u8>)
    ensures
        r@ == action_wire_bytes(ActionView::SendLogin { details: d@ }),
{
    UIResponse::Login(Login {
        first: d.first.clone(),
        last: d.last.clone(),
        passwd: d.passwd.clone(),
        start: d.start.clone(),
        channel: d.channel.clone(),
        agree_to_tos: d.agree_to_tos,
        read_critical: d.read_critical,
        url: d.url.clone(),
    }).to_bytes()
}

/// Relies on `UIResponse::to_bytes` (serde-JSON): the bytes of a chat
/// message (sent at normal volume) are a function of the text and the
/// channel alone.
#[verifier::external_body]
fn encode_chat(text: &String, channel: i32) -> (r: Vec<u8>)
    ensures
        r@ == action_wire_bytes(ActionView::SendChat { text: text@, channel }),
{
    UIResponse::ChatFromViewer(ChatFromUI {
        message: text.clone(),
        message_type: ChatType::Normal,
        channel,
    }).to_bytes()
}

/// Relies on `UIResponse::to_bytes` (serde-JSON) applied to the default
/// presence confirmation, a fixed value.
#[verifier::external_body]
fn encode_agent_update() -> (r: Vec<u8>)
    ensures
        r@ == action_wire_bytes(ActionView::SendAgentUpdate),
{
    UIResponse::AgentUpdate(AgentUpdate::default()).to_bytes()
}

/// Encodes one outbound action for the wire.
pub fn encode_action(a: &OutboundAction) -> (r: Vec<u8>)
    ensures
        r@ == action_wire_bytes(a@),
{
    match a {
        OutboundAction::SendLogin { details } => encode_login(details),
        OutboundAction::SendChat { text, channel } => encode_chat(text, *channel),
        OutboundAction::SendAgentUpdate => encode_agent_update(),
    }
}

/// Relies on `UIMessage::from_bytes` (serde-JSON): a malformed datagram
/// is answered with an error, never a panic, and the answer — the
/// message or the error's text — is a function of the bytes alone.
/// Message kinds the engine has no reaction to are handed over as
/// `Unhandled`.
#[verifier::external_body]
fn decode_datagram(b: &[u8]) -> (r: Result<InboundEvent, String>)
    ensures
        (r matches Ok(ev) ==> decoded_event(b@) == Ok::<EventView, Seq<char>>(ev@)),
        (r matches Err(t) ==> decoded_event(b@) == Err::<EventView, Seq<char>>(t@)),
{
    match UIMessage::from_bytes(b) {
        Err(e) => Err(e.to_string()),
        Ok(m) => Ok(match m {
            UIMessage::LoginResponse(x) => InboundEvent::LoginResponse { firstname: x.firstname, lastname: x.lastname },
            UIMessage::Error(e) => InboundEvent::ServerError { detail: e.to_string() },
            UIMessage::CoarseLocationUpdate(_) => InboundEvent::CoarseLocationUpdate,
            UIMessage::LandUpdate(_) => InboundEvent::PresenceOrLandUpdate,
            UIMessage::MeshUpdate(_) => InboundEvent::MeshUpdate,
            UIMessage::CameraPosition(_) => InboundEvent::CameraPosition,
            UIMessage::ChatFromSimulator(c) => InboundEvent::ChatFromServer { from_name: c.from_name, message: c.message },
            UIMessage::DisableSimulator(_) => InboundEvent::DisableServer,
            _ => InboundEvent::Unhandled,
        }),
    }
}

/// Reads one datagram for the receive loop: the decoded event, or the
/// decode error's text for a malformed datagram, which the caller logs
/// and drops while the loop goes on.
pub fn process_datagram(b: &[u8]) -> (r: Result<InboundEvent, String>)
    ensures
        (r matches Ok(ev) ==> decoded_event(b@) == Ok::<EventView, Seq<char>>(ev@)),
        (r matches Err(t) ==> decoded_event(b@) == Err::<EventView, Seq<char>>(t@)),
{
    decode_datagram(b)
}

} // verus!
