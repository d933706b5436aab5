//! The pure core of the module connection layer: reserved topics, the
//! discovery auto-reply decision, event-topic naming, and the conversion
//! between transport frames and typed messages.
//!
//! The transport itself (two one-directional broker sockets) lives with the
//! host program; everything here computes, from plain values to plain
//! values, what the connection sends and how it reads what arrives. One
//! transmitted unit is exactly two frames: the UTF-8 topic, then the
//! encoded message payload.

use vstd::prelude::*;
use vstd::string::StrSliceExecFns;
use vstd::string::StringExecFns;
use vstd::string::StringSliceAdditionalSpecFns;
use vstd::utf8::{decode_utf8, valid_utf8};

use crate::error::Error;
use crate::message::{
    code_type, spec_decode_ok, spec_decoded_params, spec_decoded_sender, spec_decoded_text,
    spec_decoded_topics, spec_encode, Message, MessageType,
};
use crate::text::{clone_string_pairs, push_char, str_eq};

verus! {

/// The reserved topic on which any peer may solicit presence announcements.
pub const MODULE_INFO_TOPIC_REQUEST: &'static str = "module.info.request";

/// The reserved topic on which every live peer announces itself.
pub const MODULE_INFO_TOPIC_RESPONSE: &'static str = "module.info.response";

/// The first segment of ad hoc broadcast topics: `event.<publisher>.<event>`.
pub const TOPIC_PREFIX: &'static str = "event";

/// The discovery-request topic, as a character sequence.
pub open spec fn spec_request_topic() -> Seq<char> {
    "module.info.request"@
}

/// The discovery-response topic, as a character sequence.
pub open spec fn spec_response_topic() -> Seq<char> {
    "module.info.response"@
}

/// The broadcast-topic prefix, as a character sequence.
pub open spec fn spec_topic_prefix() -> Seq<char> {
    "event"@
}

/// Builds the presence announcement of a module: a `ModuleInfo` message
/// whose text is the module's name and whose params are its capabilities,
/// with no sender and no reply chain.
pub fn info_message(module_name: &str, capabilities: &Vec<(String, String)>) -> (r: Message)
    ensures
        r.message_type == MessageType::ModuleInfo,
        r.text@ == module_name@,
        r.params@ == capabilities@,
        r.response_topics@.len() == 0,
        r.sender@.len() == 0,
{
    Message {
        message_type: MessageType::ModuleInfo,
        params: clone_string_pairs(capabilities),
        response_topics: Vec::new(),
        sender: String::new(),
        text: String::from_str(module_name),
    }
}

/// Decides the discovery auto-reply: on the reserved request topic, and
/// only there, the module owes its presence announcement on the reserved
/// response topic; any other topic is not handled and nothing is owed.
pub fn manage_module_info_request(
    topic: &str,
    module_name: &str,
    capabilities: &Vec<(String, String)>,
) -> (r: Option<(String, Message)>)
    ensures
        r is Some <==> topic@ == spec_request_topic(),
        r matches Some((response_topic, info)) ==> {
            &&& response_topic@ == spec_response_topic()
            &&& info.message_type == MessageType::ModuleInfo
            &&& info.text@ == module_name@
            &&& info.params@ == capabilities@
            &&& info.response_topics@.len() == 0
            &&& info.sender@.len() == 0
        },
{
    if str_eq(topic, MODULE_INFO_TOPIC_REQUEST) {
        Some((String::from_str(MODULE_INFO_TOPIC_RESPONSE), info_message(module_name, capabilities)))
    } else {
        None
    }
}

/// The topic of an ad hoc broadcast: `event.<publisher>.<event>`.
pub fn event_topic(publisher_name: &str, event_name: &str) -> (r: String)
    ensures
        r@ == spec_topic_prefix() + seq!['.'] + publisher_name@ + seq!['.'] + event_name@,
{
    let mut s = String::from_str(TOPIC_PREFIX);
    push_char(&mut s, '.');
    s.append(publisher_name);
    push_char(&mut s, '.');
    s.append(event_name);
    proof {
        assert(s@ =~= spec_topic_prefix() + seq!['.'] + publisher_name@ + seq!['.'] + event_name@);
    }
    s
}

/// Reads a frame's bytes as UTF-8 text.
///
/// Relies on `String::from_utf8`: it succeeds exactly on valid UTF-8 and
/// returns the string those bytes encode.
#[verifier::external_body]
fn string_from_utf8(bytes: Vec<u8>) -> (r: Result<String, Error>)
    ensures
        r is Ok <==> valid_utf8(bytes@),
        r matches Ok(s) ==> s@ == decode_utf8(bytes@),
        r matches Err(e) ==> e is ConversionError,
{
    String::from_utf8(bytes).map_err(|_| Error::ConversionError)
}

/// The two frames of one transmitted unit: the topic's UTF-8 bytes, then
/// the encoded message's UTF-8 bytes.
pub fn message_to_frames(topic: &str, message: &Message) -> (r: (Vec<u8>, Vec<u8>))
    requires
        message.params@.len() <= 255,
        message.response_topics@.len() <= 255,
    ensures
        r.0@ == topic.spec_bytes(),
        valid_utf8(r.1@),
        decode_utf8(r.1@) == spec_encode(*message),
{
    let topic_bytes = topic.as_bytes_vec();
    let payload = message.compress();
    let payload_bytes = payload.as_str().as_bytes_vec();
    proof {
        vstd::utf8::encode_utf8_valid_utf8(payload@);
        vstd::utf8::encode_utf8_decode_utf8(payload@);
    }
    (topic_bytes, payload_bytes)
}

/// Reads one transmitted unit: both frames as UTF-8 text (a frame that is
/// not valid UTF-8 is a `ConversionError`), then the payload through the
/// codec (a malformed payload is a `MessageCompressionError` carrying the
/// codec error's description); what remains is the topic and the message.
pub fn frames_to_message(topic_frame: Vec<u8>, payload_frame: Vec<u8>) -> (r: Result<
    (String, Message),
    Error,
>)
    ensures
        r is Ok <==> valid_utf8(topic_frame@) && valid_utf8(payload_frame@) && spec_decode_ok(
            decode_utf8(payload_frame@),
        ),
        r matches Ok((topic, m)) ==> {
            let payload = decode_utf8(payload_frame@);
            &&& topic@ == decode_utf8(topic_frame@)
            &&& code_type(payload[0]) == Some(m.message_type)
            &&& m.params.deep_view() == spec_decoded_params(payload)
            &&& m.response_topics.deep_view() == spec_decoded_topics(payload)
            &&& m.sender@ == spec_decoded_sender(payload)
            &&& m.text@ == spec_decoded_text(payload)
        },
        !(valid_utf8(topic_frame@) && valid_utf8(payload_frame@)) ==> (r matches Err(e)
            && e is ConversionError),
        valid_utf8(topic_frame@) && valid_utf8(payload_frame@) && !spec_decode_ok(
            decode_utf8(payload_frame@),
        ) ==> (r matches Err(e) && e is MessageCompressionError),
{
    let topic = match string_from_utf8(topic_frame) {
        Ok(t) => t,
        Err(e) => {
            return Err(e);
        },
    };
    let payload = match string_from_utf8(payload_frame) {
        Ok(p) => p,
        Err(e) => {
            return Err(e);
        },
    };
    match Message::decompress(payload.as_str()) {
        Ok(message) => Ok((topic, message)),
        Err(e) => Err(Error::MessageCompressionError(e.message())),
    }
}

} // verus!
