//! The two entry points: become the single subscriber or hand work to it,
//! and become the subscriber in any case.
//!
//! An entry point checks the names and hands back the coordinator of the
//! run. The caller performs what the coordinator asks for until it stops,
//! and then reads the result from it.

use crate::coordinator::{Coordinator, Failure, Mode, Phase};
use crate::names::{check_names, names_checked, NameError};
use crate::timing::DEFAULT_TIMEOUT_NANOS;
use vstd::prelude::*;
use vstd::string::StringSliceAdditionalSpecFns;

verus! {

/// Name of the channel when none is configured.
pub const DEFAULT_SERVICE_NAME: &'static str = "single_process";

/// Name of the subscriber thread when none is configured.
pub const DEFAULT_THREAD_NAME: &'static str = "single_process_subscriber";

/// What [`single_process`] is configured with.
#[derive(Debug, Clone)]
pub struct SingleProcessConfig {
    /// Name to give the node.
    pub node_name: &'static str,
    /// Name of the channel; [`DEFAULT_SERVICE_NAME`] unless set.
    pub service_name: &'static str,
    /// Name of the subscriber thread; [`DEFAULT_THREAD_NAME`] unless set.
    pub thread_name: Option<String>,
}

/// What [`subscribe_only`] is configured with.
#[derive(Debug, Clone)]
pub struct SubscribeOnlyConfig {
    /// Name to give the node.
    pub node_name: &'static str,
    /// Name of the channel; [`DEFAULT_SERVICE_NAME`] unless set.
    pub service_name: &'static str,
    /// Name of the subscriber thread; [`DEFAULT_THREAD_NAME`] unless set.
    pub thread_name: Option<String>,
    /// For how long to ask other subscribers to leave, in nanoseconds;
    /// [`DEFAULT_TIMEOUT_NANOS`] unless set.
    pub timeout_nanos: u128,
}

/// The name that the subscriber thread gets.
pub open spec fn chosen_thread_name(configured: Option<String>) -> Seq<char> {
    match configured {
        Some(name) => name@,
        None => DEFAULT_THREAD_NAME@,
    }
}

/// The error that a refused name stands for.
pub open spec fn name_failure(e: NameError) -> Failure {
    match e {
        NameError::InvalidNodeName => Failure::InvalidNodeName,
        NameError::InvalidServiceName => Failure::InvalidServiceName,
    }
}

/// The phase in which a run begins: the set-up when the transport takes both
/// names, and the error for the first refused name otherwise.
pub open spec fn first_phase(node_name: &str, service_name: &str) -> Phase {
    match names_checked(node_name.spec_bytes(), service_name.spec_bytes()) {
        Ok(_) => Phase::CreatingNode,
        Err(e) => Phase::Failed(name_failure(e)),
    }
}

impl SingleProcessConfig {
    /// The configuration for a node of the given name, with every other
    /// setting at its default.
    pub fn new(node_name: &'static str) -> (config: SingleProcessConfig)
        ensures
            config.node_name == node_name,
            config.service_name@ == DEFAULT_SERVICE_NAME@,
            config.thread_name.is_none(),
    {
        SingleProcessConfig { node_name, service_name: DEFAULT_SERVICE_NAME, thread_name: None }
    }

    /// The name that the subscriber thread gets.
    pub fn thread_name(&self) -> (name: String)
        ensures
            name@ == chosen_thread_name(self.thread_name),
    {
        thread_name_or_default(&self.thread_name)
    }
}

impl SubscribeOnlyConfig {
    /// The configuration for a node of the given name, with every other
    /// setting at its default.
    pub fn new(node_name: &'static str) -> (config: SubscribeOnlyConfig)
        ensures
            config.node_name == node_name,
            config.service_name@ == DEFAULT_SERVICE_NAME@,
            config.thread_name.is_none(),
            config.timeout_nanos == DEFAULT_TIMEOUT_NANOS,
    {
        SubscribeOnlyConfig {
            node_name,
            service_name: DEFAULT_SERVICE_NAME,
            thread_name: None,
            timeout_nanos: DEFAULT_TIMEOUT_NANOS,
        }
    }

    /// The name that the subscriber thread gets.
    pub fn thread_name(&self) -> (name: String)
        ensures
            name@ == chosen_thread_name(self.thread_name),
    {
        thread_name_or_default(&self.thread_name)
    }
}

/// The configured thread name, or the default one.
fn thread_name_or_default(configured: &Option<String>) -> (name: String)
    ensures
        name@ == chosen_thread_name(*configured),
{
    match configured {
        Some(name) => name.clone(),
        None => DEFAULT_THREAD_NAME.to_owned(),
    }
}

/// The coordinator of a run in the given mode.
fn enter(mode: Mode, node_name: &str, service_name: &str, timeout_nanos: u128) -> (c: Coordinator)
    ensures
        c.mode() == mode,
        c.timeout_nanos() == timeout_nanos,
        c.phase() == first_phase(node_name, service_name),
{
    match check_names(node_name, service_name) {
        Ok(_) => Coordinator::new(mode, timeout_nanos),
        Err(NameError::InvalidNodeName) => Coordinator::failed(
            mode,
            timeout_nanos,
            Failure::InvalidNodeName,
        ),
        Err(NameError::InvalidServiceName) => Coordinator::failed(
            mode,
            timeout_nanos,
            Failure::InvalidServiceName,
        ),
    }
}

/// Sets up a process that becomes the subscriber if it is the first under
/// these names, and that otherwise hands its message to the subscriber that
/// is there.
///
/// The run begins with the set-up. If the transport refuses one of the
/// names, the run has failed before anything was created.
pub fn single_process(config: &SingleProcessConfig) -> (c: Coordinator)
    ensures
        c.mode() == Mode::SingleProcess,
        c.phase() == first_phase(config.node_name, config.service_name),
{
    enter(Mode::SingleProcess, config.node_name, config.service_name, 0)
}

/// Sets up a process that becomes the subscriber in any case: where another
/// subscriber is there, it is asked to leave until it does or until the
/// configured timeout has passed.
///
/// The run begins with the set-up. If the transport refuses one of the
/// names, the run has failed before anything was created.
pub fn subscribe_only(config: &SubscribeOnlyConfig) -> (c: Coordinator)
    ensures
        c.mode() == Mode::SubscribeOnly,
        c.timeout_nanos() == config.timeout_nanos,
        c.phase() == first_phase(config.node_name, config.service_name),
{
    enter(Mode::SubscribeOnly, config.node_name, config.service_name, config.timeout_nanos)
}

} // verus!
