//! The subcommands that start a workflow, as plain values.

use vstd::prelude::*;
use crate::command::{strings_view, Command, CommandView};
use crate::config::Config;
use crate::engine::{remount_job, run_job, teardown_job, Action, Engine, EngineView};

verus! {

/// Creates and mounts the snapshots of a configuration.
#[derive(Debug, PartialEq, Eq)]
pub struct ArgsCommandMount {
    /// Unmount and remove what an earlier run left, first.
    pub unmount_before: bool,
    /// The toplevel mount directory.
    pub target: String,
}

/// Unmounts and removes the snapshots of a configuration.
#[derive(Debug, PartialEq, Eq)]
pub struct ArgsCommandUnmount {
    /// The toplevel mount directory.
    pub target: String,
}

/// Runs a program while the snapshots of a configuration are mounted.
#[derive(Debug, PartialEq, Eq)]
pub struct ArgsCommandRun {
    /// Unmount and remove what an earlier run left, first.
    pub unmount_before: bool,
    /// The toplevel mount directory.
    pub target: String,
    /// The program to launch.
    pub program: String,
    /// The arguments to pass to the program.
    pub args: Vec<String>,
}

impl ArgsCommandMount {
    /// Begins setting up `config` below the target directory.
    pub fn run(self, config: Config) -> (begun: (Engine, Action))
        ensures
            begun.0@ == EngineView::start(remount_job(self.unmount_before, self.target@, config)),
            begun.0@.valid(),
            begun.1@ == begun.0@.pending(),
    {
        Engine::unmount_mount_all(self.unmount_before, self.target, config)
    }
}

impl ArgsCommandUnmount {
    /// Begins tearing down `config` below the target directory.
    pub fn run(self, config: Config) -> (begun: (Engine, Action))
        ensures
            begun.0@ == EngineView::start(teardown_job(self.target@, config)),
            begun.0@.valid(),
            begun.1@ == begun.0@.pending(),
    {
        Engine::unmount_all(self.target, config)
    }
}

impl ArgsCommandRun {
    /// Begins setting up `config` below the target directory, to launch the
    /// program and tear everything down again afterwards.
    pub fn run(self, config: Config) -> (begun: (Engine, Action))
        ensures
            begun.0@ == EngineView::start(
                run_job(
                    self.unmount_before,
                    self.target@,
                    config,
                    CommandView { program: self.program@, args: strings_view(self.args@) },
                ),
            ),
            begun.0@.valid(),
            begun.1@ == begun.0@.pending(),
    {
        let program = Command { program: self.program, args: self.args };
        Engine::run_with_mounts(self.unmount_before, self.target, config, program)
    }
}

} // verus!
