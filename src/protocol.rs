//! Messages of the world-building protocol: the two requests this crate sends
//! and the chat event it reads.

use vstd::prelude::*;
use crate::text::{decimal_chars, decimal_text, same_text};
use crate::trigger::{parse_trigger, trigger_agrees, BuildRequest};

verus! {

/// The sender tag of messages that this system itself wrote into the chat.
pub const EXTERNAL_SENDER: &'static str = "外部";

/// The envelope of an outbound request.
#[derive(Clone, Debug)]
pub struct MCRequestHeader {
    pub request_id: String,
    pub message_purpose: String,
    pub version: u32,
    pub message_type: String,
}

#[derive(Clone, Debug)]
pub struct MCEventSubscribeRequestBody {
    pub event_name: String,
}

/// A request to be told of an event.
#[derive(Clone, Debug)]
pub struct MCEventSubscribeRequest {
    pub body: MCEventSubscribeRequestBody,
    pub header: MCRequestHeader,
}

#[derive(Clone, Debug)]
pub struct MCCommandRequestOrigin {
    pub origin_type: String,
}

#[derive(Clone, Debug)]
pub struct MCCommandRequestBody {
    pub origin: MCCommandRequestOrigin,
    pub command_line: String,
    pub version: u32,
}

/// A request to run a command line.
#[derive(Clone, Debug)]
pub struct MCCommandRequest {
    pub body: MCCommandRequestBody,
    pub header: MCRequestHeader,
}

/// The envelope of an inbound message.
#[derive(Clone, Debug)]
pub struct MCMessageHeader {
    pub message_purpose: String,
}

/// Who wrote a chat message, and what.
#[derive(Clone, Debug)]
pub struct MCMessageBodyProperty {
    pub sender: String,
    pub message: String,
}

#[derive(Clone, Debug)]
pub struct MCMessageBody {
    pub event_name: Option<String>,
    pub properties: Option<MCMessageBodyProperty>,
}

/// An inbound event notification.
#[derive(Clone, Debug)]
pub struct MCMessage {
    pub header: MCMessageHeader,
    pub body: MCMessageBody,
}

/// Relies on `uuid::Uuid::new_v4` and its hyphenated text form, which is 36
/// characters long.
#[verifier::external_body]
fn fresh_request_id() -> (r: String)
    ensures
        r@.len() == 36,
{
    uuid::Uuid::new_v4().to_hyphenated().to_string()
}

/// The command line that places `block` at `(x, y, z)` with the given mode.
pub open spec fn setblock_line(x: nat, y: nat, z: nat, block: Seq<char>, mode: Seq<char>) -> Seq<
    char,
> {
    "setblock "@ + decimal_chars(x) + " "@ + decimal_chars(y) + " "@ + decimal_chars(z) + " "@
        + block + " "@ + mode
}

/// The header of a fresh request with the given purpose: version 1, type
/// `commandRequest` and a new request id.
pub open spec fn fresh_header(h: MCRequestHeader, purpose: Seq<char>) -> bool {
    &&& h.message_purpose@ == purpose
    &&& h.version == 1
    &&& h.message_type@ == "commandRequest"@
    &&& h.request_id@.len() == 36
}

/// A request to be told of every chat message.
pub fn create_player_message_subscribe_command() -> (r: MCEventSubscribeRequest)
    ensures
        r.body.event_name@ == "PlayerMessage"@,
        fresh_header(r.header, "subscribe"@),
{
    MCEventSubscribeRequest {
        body: MCEventSubscribeRequestBody { event_name: String::from_str("PlayerMessage") },
        header: MCRequestHeader {
            request_id: fresh_request_id(),
            message_purpose: String::from_str("subscribe"),
            version: 1,
            message_type: String::from_str("commandRequest"),
        },
    }
}

/// A request, from the player's side, to place `block_type` at `(x, y, z)`.
pub fn create_set_block_command(
    x: u32,
    y: u32,
    z: u32,
    block_type: String,
    replace_type: String,
) -> (r: MCCommandRequest)
    ensures
        r.body.origin.origin_type@ == "player"@,
        r.body.command_line@ == setblock_line(
            x as nat,
            y as nat,
            z as nat,
            block_type@,
            replace_type@,
        ),
        r.body.version == 1,
        fresh_header(r.header, "commandRequest"@),
{
    let sep = " ";
    let mut line = String::from_str("setblock ");
    let xt = decimal_text(x);
    line.append(xt.as_str());
    line.append(sep);
    let yt = decimal_text(y);
    line.append(yt.as_str());
    line.append(sep);
    let zt = decimal_text(z);
    line.append(zt.as_str());
    line.append(sep);
    line.append(block_type.as_str());
    line.append(sep);
    line.append(replace_type.as_str());
    assert(line@ =~= setblock_line(x as nat, y as nat, z as nat, block_type@, replace_type@));
    MCCommandRequest {
        body: MCCommandRequestBody {
            origin: MCCommandRequestOrigin { origin_type: String::from_str("player") },
            command_line: line,
            version: 1,
        },
        header: MCRequestHeader {
            request_id: fresh_request_id(),
            message_purpose: String::from_str("commandRequest"),
            version: 1,
            message_type: String::from_str("commandRequest"),
        },
    }
}

/// The chat text of a message that can trigger a build: a `PlayerMessage`
/// event with properties, written by someone other than this system.
pub open spec fn chat_text(m: MCMessage) -> Option<Seq<char>> {
    match (m.body.event_name, m.body.properties) {
        (Some(n), Some(p)) => if n@ == "PlayerMessage"@ && p.sender@ != EXTERNAL_SENDER@ {
            Some(p.message@)
        } else {
            None
        },
        _ => None,
    }
}

/// The chat text of a message, where the message is one that can trigger a build.
pub fn chat_trigger_text(msg: &MCMessage) -> (r: Option<String>)
    ensures
        match chat_text(*msg) {
            Some(t) => r matches Some(s) && s@ == t,
            None => r is None,
        },
{
    match (&msg.body.event_name, &msg.body.properties) {
        (Some(name), Some(p)) => {
            if same_text(name.as_str(), "PlayerMessage") && !same_text(
                p.sender.as_str(),
                EXTERNAL_SENDER,
            ) {
                Some(p.message.clone())
            } else {
                None
            }
        },
        _ => None,
    }
}

/// The build directive that a message triggers, if any. A message from this
/// system's own sender tag never triggers one, whatever its text.
pub fn trigger_of_message(msg: &MCMessage) -> (r: Option<BuildRequest>)
    ensures
        match chat_text(*msg) {
            Some(t) => trigger_agrees(r, t),
            None => r is None,
        },
        (msg.body.properties matches Some(p) && p.sender@ == EXTERNAL_SENDER@) ==> r is None,
{
    match chat_trigger_text(msg) {
        Some(text) => parse_trigger(text.as_str()),
        None => None,
    }
}

} // verus!
