//! The data model of the cron-style scheduler's configuration: a list of
//! jobs, each with a periodicity expression, a target topic and a message
//! template. Parsing the file and running the timers is the host
//! program's work; the entries themselves are plain values.

use vstd::prelude::*;

use crate::config_message::ConfigMessage;

verus! {

/// One scheduled job: when the periodicity fires, the template's message
/// (generated over an empty base) is sent to the topic.
#[derive(Debug)]
pub struct CronItem {
    pub periodicity: String,
    pub topic: String,
    pub message: ConfigMessage,
}

/// The whole schedule, as the configuration file declares it.
#[derive(Debug)]
pub struct CronList {
    pub cron: Vec<CronItem>,
}

} // verus!
