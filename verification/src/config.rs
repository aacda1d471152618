//! The list of processes that a dashboard is asked to supervise.

use vstd::prelude::*;

verus! {

/// The fewest processes that a configuration may declare.
pub const MIN_PROCESSES: usize = 1;

/// The most processes that a configuration may declare.
pub const MAX_PROCESSES: usize = 6;

/// One process to supervise: how it is shown and how it is launched.
#[derive(Debug, Clone, PartialEq, Eq)]
pub struct ProcessConfig {
    /// The name shown in the title of the process's pane.
    pub name: String,
    /// The program to run.
    pub command: String,
    /// The arguments handed to the program, in order.
    pub args: Vec<String>,
    /// The directory in which the program is started.
    pub cwd: String,
}

/// The processes of one dashboard, in the order of their panes.
#[derive(Debug, Clone, PartialEq, Eq)]
pub struct Config {
    pub processes: Vec<ProcessConfig>,
}

/// Why a list of processes was not accepted as a configuration.
#[derive(Debug, Clone, Copy, PartialEq, Eq, Structural)]
pub enum ConfigError {
    /// The list holds fewer than `MIN_PROCESSES` or more than `MAX_PROCESSES`
    /// entries; `found` is the number it holds.
    ProcessCount { found: usize },
}

/// Whether a configuration may declare `count` processes.
pub open spec fn count_allowed(count: nat) -> bool {
    MIN_PROCESSES <= count <= MAX_PROCESSES
}

impl Config {
    /// Whether the number of processes is within the accepted bounds.
    pub open spec fn valid(&self) -> bool {
        count_allowed(self.processes@.len())
    }
}

impl ConfigError {
    /// The sentence shown to the operator for this error.
    pub fn message(&self) -> (text: String)
        ensures
            text@ == "Number of processes must be between 1 and 6"@,
    {
        String::from_str("Number of processes must be between 1 and 6")
    }
}

/// Accepts a list of processes as a configuration when it declares between
/// `MIN_PROCESSES` and `MAX_PROCESSES` of them, keeping their order, and
/// rejects it with the number found otherwise.
pub fn load_config(processes: Vec<ProcessConfig>) -> (result: Result<Config, ConfigError>)
    ensures
        match result {
            Ok(config) => count_allowed(processes@.len()) && config.processes == processes,
            Err(error) => !count_allowed(processes@.len()) && error == (ConfigError::ProcessCount {
                found: processes@.len() as usize,
            }),
        },
{
    let found = processes.len();
    if found < MIN_PROCESSES || found > MAX_PROCESSES {
        return Err(ConfigError::ProcessCount { found });
    }
    Ok(Config { processes })
}

} // verus!
