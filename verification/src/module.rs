//! The application-facing module state: its name, version, configuration
//! and capability registry, and the decisions its connection makes.
//!
//! The transport (sockets, the settle delay, the blocking receive loop)
//! lives with the host program. The state here is what those loops consult:
//! the capability registry advertised on discovery, the presence message
//! announced on join and on request, and the auto-reply decision that makes
//! discovery traffic invisible to the application.

use vstd::prelude::*;
use vstd::string::StringExecFns;

use crate::config::Config;
use crate::connection::{
    event_topic, info_message, manage_module_info_request, spec_request_topic,
    spec_response_topic, spec_topic_prefix, TOPIC_PREFIX,
};
use crate::kv::{lemma_key_index, spec_key_index, upsert};
use crate::message::{Message, MessageType};

verus! {

/// What a module is constructed from: its identity, an optional
/// ready-made configuration, and its initial capability registry.
pub struct ModuleDetails {
    pub module_name: &'static str,
    pub version: &'static str,
    pub config: Option<Config>,
    pub capabilities: Vec<(String, String)>,
}

impl ModuleDetails {
    /// Starts a builder with empty details.
    pub fn builder() -> (r: ModuleDetailsBuilder)
        ensures
            r.module_name@ == Seq::<char>::empty(),
            r.version@ == Seq::<char>::empty(),
            r.config is None,
            r.capabilities@ == Seq::<(String, String)>::empty(),
    {
        ModuleDetailsBuilder::new()
    }
}

/// A step-by-step builder of [`ModuleDetails`].
#[must_use]
pub struct ModuleDetailsBuilder {
    pub module_name: &'static str,
    pub version: &'static str,
    pub config: Option<Config>,
    pub capabilities: Vec<(String, String)>,
}

impl Default for ModuleDetailsBuilder {
    fn default() -> (r: Self)
        ensures
            r.module_name@ == Seq::<char>::empty(),
            r.version@ == Seq::<char>::empty(),
            r.config is None,
            r.capabilities@ == Seq::<(String, String)>::empty(),
    {
        ModuleDetailsBuilder::new()
    }
}

impl ModuleDetailsBuilder {
    /// An empty builder: no name, no version, no configuration, no
    /// capabilities.
    pub fn new() -> (r: Self)
        ensures
            r.module_name@ == Seq::<char>::empty(),
            r.version@ == Seq::<char>::empty(),
            r.config is None,
            r.capabilities@ == Seq::<(String, String)>::empty(),
    {
        proof {
            reveal_strlit("");
        }
        ModuleDetailsBuilder {
            module_name: "",
            version: "",
            config: None,
            capabilities: Vec::new(),
        }
    }

    /// Sets the module's name.
    pub fn module_name(self, module_name: &'static str) -> (r: Self)
        ensures
            r.module_name == module_name,
            r.version == self.version,
            r.config == self.config,
            r.capabilities == self.capabilities,
    {
        ModuleDetailsBuilder { module_name, ..self }
    }

    /// Sets the module's version.
    pub fn version(self, version: &'static str) -> (r: Self)
        ensures
            r.version == version,
            r.module_name == self.module_name,
            r.config == self.config,
            r.capabilities == self.capabilities,
    {
        ModuleDetailsBuilder { version, ..self }
    }

    /// Sets the ready-made configuration, or `None` to have the host read
    /// one.
    pub fn config(self, config: Option<Config>) -> (r: Self)
        ensures
            r.config == config,
            r.module_name == self.module_name,
            r.version == self.version,
            r.capabilities == self.capabilities,
    {
        ModuleDetailsBuilder { config, ..self }
    }

    /// Sets the initial capability registry.
    pub fn capabilities(self, capabilities: Vec<(String, String)>) -> (r: Self)
        ensures
            r.capabilities == capabilities,
            r.module_name == self.module_name,
            r.version == self.version,
            r.config == self.config,
    {
        ModuleDetailsBuilder { capabilities, ..self }
    }

    /// Finishes the builder.
    pub fn build(self) -> (r: ModuleDetails)
        ensures
            r.module_name == self.module_name,
            r.version == self.version,
            r.config == self.config,
            r.capabilities == self.capabilities,
    {
        ModuleDetails {
            module_name: self.module_name,
            version: self.version,
            config: self.config,
            capabilities: self.capabilities,
        }
    }
}

/// The state of one module: its identity, configuration and mutable
/// capability registry. The host wraps it with the broker connection.
pub struct AlfredModule {
    pub module_name: String,
    pub version: String,
    pub config: Config,
    pub capabilities: Vec<(String, String)>,
}

impl AlfredModule {
    /// A module with the given identity and configuration and no
    /// capabilities yet.
    pub fn new(module_name: &str, version: &str, config: Config) -> (r: Self)
        ensures
            r.module_name@ == module_name@,
            r.version@ == version@,
            r.config == config,
            r.capabilities@ == Seq::<(String, String)>::empty(),
    {
        AlfredModule {
            module_name: String::from_str(module_name),
            version: String::from_str(version),
            config,
            capabilities: Vec::new(),
        }
    }

    /// A module built from details; the host resolves the configuration
    /// (the details' own, or one it read) and passes it here.
    pub fn new_with_details(details: ModuleDetails, config: Config) -> (r: Self)
        ensures
            r.module_name@ == details.module_name@,
            r.version@ == details.version@,
            r.config == config,
            r.capabilities == details.capabilities,
    {
        AlfredModule {
            module_name: String::from_str(details.module_name),
            version: String::from_str(details.version),
            config,
            capabilities: details.capabilities,
        }
    }

    /// The module's presence announcement: a `ModuleInfo` message whose
    /// text is the module's name and whose params are its current
    /// capabilities. It is published on the reserved response topic on
    /// join and on every discovery request.
    pub fn get_info_message(&self) -> (r: Message)
        ensures
            r.message_type == MessageType::ModuleInfo,
            r.text@ == self.module_name@,
            r.params@ == self.capabilities@,
            r.response_topics@.len() == 0,
            r.sender@.len() == 0,
    {
        info_message(self.module_name.as_str(), &self.capabilities)
    }

    /// Records a subscription in the capability registry, under the
    /// reserved topic key: the single slot keeps the most recent topic.
    /// The host's transport subscribe accompanies this record.
    pub fn record_listen(&mut self, topic: &str)
        ensures
            final(self).module_name == old(self).module_name,
            final(self).version == old(self).version,
            final(self).config == old(self).config,
            ({
                let ps = old(self).capabilities@;
                let qs = final(self).capabilities@;
                let i = spec_key_index(ps, spec_topic_prefix());
                &&& (i < ps.len() ==> qs.len() == ps.len() && qs[i].0@ == spec_topic_prefix()
                    && qs[i].1@ == topic@ && (forall|j: int|
                    0 <= j < ps.len() && j != i ==> qs[j] == ps[j]))
                &&& (i >= ps.len() ==> qs.len() == ps.len() + 1 && qs.take(ps.len() as int) == ps
                    && qs[ps.len() as int].0@ == spec_topic_prefix() && qs[ps.len() as int].1@
                    == topic@)
            }),
    {
        upsert(&mut self.capabilities, String::from_str(TOPIC_PREFIX), String::from_str(topic));
        proof {
            let ps = old(self).capabilities@;
            lemma_key_index(ps, spec_topic_prefix());
            let i = spec_key_index(ps, spec_topic_prefix());
            if i >= ps.len() {
                assert(self.capabilities@.take(ps.len() as int) =~= ps);
            }
        }
    }

    /// Decides the discovery auto-reply for one received unit: on the
    /// reserved request topic it is the module's presence announcement,
    /// owed on the reserved response topic and not surfaced to the
    /// application; on any other topic there is nothing to do and the unit
    /// is the application's.
    pub fn manage_module_info_request(&self, topic: &str) -> (r: Option<(String, Message)>)
        ensures
            r is Some <==> topic@ == spec_request_topic(),
            r matches Some((response_topic, info)) ==> {
                &&& response_topic@ == spec_response_topic()
                &&& info.message_type == MessageType::ModuleInfo
                &&& info.text@ == self.module_name@
                &&& info.params@ == self.capabilities@
                &&& info.response_topics@.len() == 0
                &&& info.sender@.len() == 0
            },
    {
        manage_module_info_request(topic, self.module_name.as_str(), &self.capabilities)
    }

    /// The topic of an ad hoc broadcast event from a named publisher.
    pub fn send_event_topic(publisher_name: &str, event_name: &str) -> (r: String)
        ensures
            r@ == spec_topic_prefix() + seq!['.'] + publisher_name@ + seq!['.'] + event_name@,
    {
        event_topic(publisher_name, event_name)
    }
}

} // verus!
