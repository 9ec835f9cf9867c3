//! The commands of the tool, and the exit code of each kind of failure.

use vstd::prelude::*;

verus! {

/// What is done with the configuration store.
#[derive(Debug)]
pub enum ConfigCmd {
    /// List the configurations.
    List,
    /// Show one configuration, selected by name or by index.
    Show { name: Option<String>, index: Option<usize> },
    /// Delete one configuration, selected by name or by index.
    Delete { name: Option<String>, index: Option<usize> },
    /// Open the store in an editor.
    Edit,
}

/// The part of the tool that failed.
#[derive(Debug, Clone, Copy, PartialEq, Eq, Structural)]
pub enum Failure {
    /// Configuring, or one of the configuration commands.
    Config,
    /// Begin, end or status.
    Session,
    /// Run, build or clean.
    Exec,
}

impl Failure {
    /// The exit code that tells the kinds of failure apart: 2 for the
    /// configuration, 3 for sessions, 4 for remote runs.
    pub fn exit_code(&self) -> (code: i32)
        ensures
            code == match *self {
                Failure::Config => 2i32,
                Failure::Session => 3i32,
                Failure::Exec => 4i32,
            },
    {
        match self {
            Failure::Config => 2,
            Failure::Session => 3,
            Failure::Exec => 4,
        }
    }
}

} // verus!
