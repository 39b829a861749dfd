//! The parameters of the command line, and what they ask for.

use vstd::prelude::*;
use crate::strategy::{registered, RunConfig, StrategyPlan};
use crate::task::StrategyTask;

verus! {

/// The number of blocks that a stress test runs for when none is given.
pub const DEFAULT_BLOCKS: u64 = 20;

/// The parameters of the command line.
#[derive(Clone, Debug, PartialEq, Eq)]
pub struct Args {
    /// The name of the stress test to run.
    pub test: Option<String>,
    /// Whether to verify the proofs of state transitions.
    pub prove: bool,
    /// The number of blocks to run the stress test for.
    pub blocks: u64,
    /// The least balance, in whole coins, that the loaded identity should
    /// have.
    pub dash: Option<u64>,
}

impl Args {
    /// Whether the command line asks for a stress test. Where it does, the
    /// explorer logs to the standard output and opens no user interface.
    pub fn cli_action_taken(&self) -> (taken: bool)
        ensures
            taken == self.test is Some,
    {
        self.test.is_some()
    }

    /// Whether the command line asks for anything to be run before the user
    /// interface opens: a funding precheck, a stress test, or both.
    pub fn asks_for_a_run(&self) -> (asks: bool)
        ensures
            asks == (self.test is Some || self.dash is Some),
    {
        self.test.is_some() || self.dash.is_some()
    }

    /// The strategy task that the command line asks for.
    pub fn strategy_task(&self) -> (task: Option<StrategyTask>)
        ensures
            match self.test {
                Some(name) => task == Some(StrategyTask::RunStrategy(name, self.blocks, self.prove)),
                None => task is None,
            },
    {
        match &self.test {
            Some(name) => Some(StrategyTask::RunStrategy(name.clone(), self.blocks, self.prove)),
            None => None,
        }
    }

    /// The configuration of the run that the command line asks for, with the
    /// strategies registered under `names`.
    pub fn run_config(&self, identity_loaded: bool, names: &Vec<String>, address_count: usize) -> (config:
        RunConfig)
        ensures
            config.start_dash == self.dash,
            config.identity_loaded == identity_loaded,
            config.address_count == address_count,
            config.strategy == (match self.test {
                Some(name) => Some(
                    StrategyPlan {
                        known: registered(names@, name),
                        block_count: self.blocks,
                        prove: self.prove,
                    },
                ),
                None => None,
            }),
    {
        let task = self.strategy_task();
        RunConfig::new(self.dash, identity_loaded, task.as_ref(), names, address_count)
    }
}

} // verus!
