//! Message templates: per-field overrides applied over a base message.
//!
//! A template carries an optional override for the text, the sender, the
//! reply chain and the message type. Generating from a base message takes
//! each overridden field from the template and every other field from the
//! base. The parameters always come from the base: a template never
//! overrides them. That is deliberate, observed behavior of the routing
//! engine, not an omission.

use vstd::prelude::*;

use crate::message::{message_eqv, Message, MessageType};
use crate::text::clone_string_vec;

verus! {

/// A field-override template, as routing and scheduling configuration
/// declare it.
#[derive(Debug)]
pub struct ConfigMessage {
    pub text: Option<String>,
    pub response_topics: Option<Vec<String>>,
    pub sender: Option<String>,
    pub message_type: Option<MessageType>,
}

/// The message a template generates over a base: each overridden field from
/// the template, every other field from the base, and the parameters always
/// from the base.
pub open spec fn spec_generate(cm: ConfigMessage, base: Message) -> Message {
    Message {
        message_type: match cm.message_type {
            Some(t) => t,
            None => base.message_type,
        },
        params: base.params,
        response_topics: match cm.response_topics {
            Some(ts) => ts,
            None => base.response_topics,
        },
        sender: match cm.sender {
            Some(s) => s,
            None => base.sender,
        },
        text: match cm.text {
            Some(t) => t,
            None => base.text,
        },
    }
}

impl ConfigMessage {
    /// A template with no overrides: generating from it returns the base
    /// unchanged.
    pub fn none() -> (r: Self)
        ensures
            r.text is None,
            r.response_topics is None,
            r.sender is None,
            r.message_type is None,
    {
        ConfigMessage { text: None, response_topics: None, sender: None, message_type: None }
    }

    /// Applies the template over a base message: each overridden field uses
    /// the template's value, every other field the base's, and the
    /// parameters are always the base's.
    pub fn generate_message(&self, default: &Message) -> (r: Message)
        ensures
            message_eqv(r, spec_generate(*self, *default)),
            r.text@ == (match self.text {
                Some(t) => t@,
                None => default.text@,
            }),
            r.response_topics.deep_view() == (match self.response_topics {
                Some(ts) => ts.deep_view(),
                None => default.response_topics.deep_view(),
            }),
            r.sender@ == (match self.sender {
                Some(s) => s@,
                None => default.sender@,
            }),
            r.message_type == (match self.message_type {
                Some(t) => t,
                None => default.message_type,
            }),
            r.params.deep_view() == default.params.deep_view(),
    {
        let base = default.clone();
        let text = match &self.text {
            Some(t) => t.clone(),
            None => base.text,
        };
        let response_topics = match &self.response_topics {
            Some(ts) => clone_string_vec(ts),
            None => base.response_topics,
        };
        let sender = match &self.sender {
            Some(s) => s.clone(),
            None => base.sender,
        };
        let message_type = match &self.message_type {
            Some(t) => *t,
            None => base.message_type,
        };
        Message { message_type, params: base.params, response_topics, sender, text }
    }
}

} // verus!
