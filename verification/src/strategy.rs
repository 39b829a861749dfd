//! The strategy runner: the control loop of a stress test, as a state machine.
//!
//! The machine decides; its caller performs. Each transition takes the run and
//! the event that the caller observed, and gives the run's next state with the
//! action to perform next. A run goes from `Idle` through the funding precheck
//! (`Funding`, then `TopUp` where the balance is short) to `Running`, one block
//! after the other, and ends in `Done` or, on a configuration error, in
//! `Aborted`. Blocks are numbered from zero.

use vstd::prelude::*;

pub mod laws;

use crate::funding::{top_up_decision, top_up_for, TopUpDecision};
use crate::task::{BlockOutcome, IdentityTask, StrategySummary, StrategyTask, Task, WalletTask};
use crate::units::{dash_to_duffs, duffs_of_dash};

verus! {

/// Where the funding precheck stands.
#[derive(Clone, Copy, Debug, PartialEq, Eq, Structural)]
pub enum FundingStep {
    /// No identity was loaded: a new one is being registered.
    Registering,
    /// An identity was loaded: the wallet is being refreshed.
    RefreshingWallet,
    /// The wallet is fresh: the identity is being refreshed.
    RefreshingIdentity,
}

/// The phase of a run.
#[derive(Clone, Copy, Debug, PartialEq, Eq, Structural)]
pub enum RunPhase {
    Idle,
    Funding(FundingStep),
    TopUp,
    Running,
    Done,
    Aborted,
}

/// A configuration error: the only way into `Aborted`.
#[derive(Clone, Copy, Debug, PartialEq, Eq, Structural)]
pub enum ConfigError {
    /// The balance asked for, or the top-up it takes, exceeds 64 bits of duffs.
    AmountOutOfRange,
    /// No strategy is registered under the name given.
    UnknownStrategy,
    /// There are blocks to run and no address to send them to.
    NoAddress,
}

/// What the caller observed after performing the last action.
#[derive(Clone, Copy, Debug, PartialEq, Eq, Structural)]
pub enum RunEvent {
    /// The task that was issued has completed, whatever its result.
    TaskDone,
    /// The identity was refreshed; this is the loaded identity's balance now,
    /// in credits.
    BalanceRead(u64),
    /// The remote service confirmed the block that was submitted.
    BlockConfirmed,
    /// The submission failed at the transport level.
    TransportFailed,
    /// The inclusion proof of the block was checked, with this verdict.
    ProofChecked(bool),
}

/// What the caller is to do next.
#[derive(Debug, PartialEq, Eq)]
pub enum RunAction {
    /// Run the task given to completion, then report `TaskDone`; after an identity
    /// refresh, report `BalanceRead` instead.
    Issue(Task),
    /// Submit the operations of this block to the address at this index of the
    /// address list, then report `BlockConfirmed` or `TransportFailed`.
    SubmitBlock { block: u64, address: usize },
    /// Verify the inclusion proof of this block, then report `ProofChecked`.
    VerifyProof { block: u64 },
    /// The run is done; its summary can be taken.
    Finished,
    /// The run is aborted for this reason.
    Abort(ConfigError),
    /// The event does not belong to the phase the run is in; nothing changed.
    Ignored,
}

/// The strategy of a run.
#[derive(Clone, Copy, Debug, PartialEq, Eq, Structural)]
pub struct StrategyPlan {
    /// Whether a strategy is registered under the name that was asked for.
    pub known: bool,
    pub block_count: u64,
    pub prove: bool,
}

/// What a run is started with.
#[derive(Clone, Copy, Debug, PartialEq, Eq, Structural)]
pub struct RunConfig {
    /// The least balance, in whole coins, that the identity should have; with
    /// `None` the funding precheck is left out.
    pub start_dash: Option<u64>,
    /// Whether an identity is loaded when the run starts.
    pub identity_loaded: bool,
    /// The strategy to run; with `None` the run ends after the precheck.
    pub strategy: Option<StrategyPlan>,
    /// The length of the configured address list.
    pub address_count: usize,
}

/// Whether `names` holds `name`.
pub open spec fn registered(names: Seq<String>, name: String) -> bool {
    exists|i: int| 0 <= i < names.len() && (#[trigger] names[i])@ == name@
}

/// Whether a strategy is registered under `name`.
pub fn is_registered(names: &Vec<String>, name: &String) -> (found: bool)
    ensures
        found == registered(names@, *name),
{
    let mut i: usize = 0;
    while i < names.len()
        invariant
            i <= names.len(),
            forall|j: int| 0 <= j < i ==> (#[trigger] names@[j])@ != name@,
        decreases names.len() - i,
    {
        if names[i] == *name {
            return true;
        }
        i += 1;
    }
    false
}

impl RunConfig {
    /// The configuration of a run of `task` (if any) with the strategies
    /// registered under `names`.
    pub fn new(
        start_dash: Option<u64>,
        identity_loaded: bool,
        task: Option<&StrategyTask>,
        names: &Vec<String>,
        address_count: usize,
    ) -> (config: RunConfig)
        ensures
            config.start_dash == start_dash,
            config.identity_loaded == identity_loaded,
            config.address_count == address_count,
            task is None ==> config.strategy is None,
            task matches Some(StrategyTask::RunStrategy(name, block_count, prove))
                ==> config.strategy == Some(
                StrategyPlan { known: registered(names@, *name), block_count: *block_count, prove: *prove },
            ),
    {
        let strategy = match task {
            None => None,
            Some(StrategyTask::RunStrategy(name, block_count, prove)) => Some(
                StrategyPlan {
                    known: is_registered(names, name),
                    block_count: *block_count,
                    prove: *prove,
                },
            ),
        };
        RunConfig { start_dash, identity_loaded, strategy, address_count }
    }
}

/// The address that the attempt after `attempts` failed ones goes to, when the
/// block's first attempt went to `cursor`: the list is walked in order, and
/// from its end on to its start.
pub open spec fn address_after(cursor: int, attempts: int, count: int) -> int {
    if cursor + attempts < count {
        cursor + attempts
    } else {
        cursor + attempts - count
    }
}

/// How many of `outcomes` are `Confirmed`.
pub open spec fn confirmed_count(outcomes: Seq<BlockOutcome>) -> nat
    decreases outcomes.len(),
{
    if outcomes.len() == 0 {
        0
    } else {
        confirmed_count(outcomes.drop_last()) + if outcomes.last() == BlockOutcome::Confirmed {
            1nat
        } else {
            0nat
        }
    }
}

/// A run, as the contracts speak of it.
pub struct RunView {
    pub config: RunConfig,
    pub phase: RunPhase,
    /// The address that the current block's first attempt goes to.
    pub cursor: int,
    /// The attempts on the current block that failed so far.
    pub attempts: int,
    /// Whether the current block is confirmed and its proof is being checked.
    pub awaiting_proof: bool,
    /// The outcomes of the blocks that are done, in order.
    pub outcomes: Seq<BlockOutcome>,
}

impl RunView {
    /// A run that has not started.
    pub open spec fn idle(config: RunConfig) -> RunView {
        RunView {
            config,
            phase: RunPhase::Idle,
            cursor: 0,
            attempts: 0,
            awaiting_proof: false,
            outcomes: Seq::empty(),
        }
    }

    /// What holds of every run.
    pub open spec fn wf(self) -> bool {
        &&& 0 <= self.cursor
        &&& 0 <= self.attempts
        &&& self.config.address_count > 0 ==> self.cursor < self.config.address_count
        &&& match self.phase {
            RunPhase::Running => {
                &&& self.config.strategy matches Some(plan)
                &&& plan.known
                &&& self.outcomes.len() < plan.block_count
                &&& self.attempts < self.config.address_count
                &&& self.awaiting_proof ==> plan.prove
            },
            RunPhase::Done => {
                &&& self.attempts == 0
                &&& !self.awaiting_proof
                &&& match self.config.strategy {
                    Some(plan) => plan.known && self.outcomes.len() == plan.block_count,
                    None => self.outcomes.len() == 0,
                }
            },
            _ => self.attempts == 0 && !self.awaiting_proof && self.outcomes.len() == 0,
        }
    }

    /// The run leaves the funding precheck: it ends where there is no strategy
    /// or no block to run, aborts where the strategy is unknown or there is no
    /// address, and else submits its first block.
    pub open spec fn enter_running(self) -> (RunView, RunAction) {
        match self.config.strategy {
            None => (RunView { phase: RunPhase::Done, ..self }, RunAction::Finished),
            Some(plan) => if !plan.known {
                (
                    RunView { phase: RunPhase::Aborted, ..self },
                    RunAction::Abort(ConfigError::UnknownStrategy),
                )
            } else if plan.block_count == 0 {
                (RunView { phase: RunPhase::Done, ..self }, RunAction::Finished)
            } else if self.config.address_count == 0 {
                (RunView { phase: RunPhase::Aborted, ..self }, RunAction::Abort(ConfigError::NoAddress))
            } else {
                (
                    RunView { phase: RunPhase::Running, ..self },
                    RunAction::SubmitBlock { block: 0, address: self.cursor as usize },
                )
            },
        }
    }

    /// The run starts. Without a floor it goes straight on to its blocks. With
    /// one it registers an identity of that many whole coins where none is
    /// loaded, and refreshes the wallet where one is.
    pub open spec fn start(self) -> (RunView, RunAction) {
        if self.phase != RunPhase::Idle {
            (self, RunAction::Ignored)
        } else {
            match self.config.start_dash {
                None => self.enter_running(),
                Some(dash) => if self.config.identity_loaded {
                    (
                        RunView { phase: RunPhase::Funding(FundingStep::RefreshingWallet), ..self },
                        RunAction::Issue(Task::Wallet(WalletTask::Refresh)),
                    )
                } else if duffs_of_dash(dash as int) <= u64::MAX {
                    (
                        RunView { phase: RunPhase::Funding(FundingStep::Registering), ..self },
                        RunAction::Issue(
                            Task::Identity(
                                IdentityTask::RegisterIdentity(duffs_of_dash(dash as int) as u64),
                            ),
                        ),
                    )
                } else {
                    (
                        RunView { phase: RunPhase::Aborted, ..self },
                        RunAction::Abort(ConfigError::AmountOutOfRange),
                    )
                },
            }
        }
    }

    /// The balance is known: the run tops up where it is below the floor, and
    /// goes on to its blocks where it is not.
    pub open spec fn balance_read(self, balance: u64) -> (RunView, RunAction) {
        match self.config.start_dash {
            None => self.enter_running(),
            Some(dash) => match top_up_for(balance, dash) {
                TopUpDecision::NotNeeded => self.enter_running(),
                TopUpDecision::TopUp(duffs) => (
                    RunView { phase: RunPhase::TopUp, ..self },
                    RunAction::Issue(Task::Identity(IdentityTask::TopUpIdentity(duffs))),
                ),
                TopUpDecision::OutOfRange => (
                    RunView { phase: RunPhase::Aborted, ..self },
                    RunAction::Abort(ConfigError::AmountOutOfRange),
                ),
            },
        }
    }

    /// The current block ends with `outcome`. A block that went through leaves
    /// the cursor on the address that served it; one that failed on every
    /// address leaves the cursor where it was. The run then submits the next
    /// block, or is done.
    pub open spec fn record(self, outcome: BlockOutcome) -> (RunView, RunAction) {
        let cursor = if outcome == BlockOutcome::TransportFailed {
            self.cursor
        } else {
            address_after(self.cursor, self.attempts, self.config.address_count as int)
        };
        let outcomes = self.outcomes.push(outcome);
        let next = RunView { cursor, attempts: 0, awaiting_proof: false, outcomes, ..self };
        if self.config.strategy matches Some(plan) && outcomes.len() < plan.block_count {
            (next, RunAction::SubmitBlock { block: outcomes.len() as u64, address: cursor as usize })
        } else {
            (RunView { phase: RunPhase::Done, ..next }, RunAction::Finished)
        }
    }

    /// The transition on `event`.
    pub open spec fn step(self, event: RunEvent) -> (RunView, RunAction) {
        match (self.phase, event) {
            (RunPhase::Funding(FundingStep::Registering), RunEvent::TaskDone) => self.enter_running(),
            (RunPhase::Funding(FundingStep::RefreshingWallet), RunEvent::TaskDone) => (
                RunView { phase: RunPhase::Funding(FundingStep::RefreshingIdentity), ..self },
                RunAction::Issue(Task::Identity(IdentityTask::Refresh)),
            ),
            (RunPhase::Funding(FundingStep::RefreshingIdentity), RunEvent::BalanceRead(balance)) => {
                self.balance_read(balance)
            },
            (RunPhase::TopUp, RunEvent::TaskDone) => self.enter_running(),
            (RunPhase::Running, RunEvent::BlockConfirmed) => if self.awaiting_proof {
                (self, RunAction::Ignored)
            } else if self.config.strategy matches Some(plan) && plan.prove {
                (
                    RunView { awaiting_proof: true, ..self },
                    RunAction::VerifyProof { block: self.outcomes.len() as u64 },
                )
            } else {
                self.record(BlockOutcome::Confirmed)
            },
            (RunPhase::Running, RunEvent::TransportFailed) => if self.awaiting_proof {
                (self, RunAction::Ignored)
            } else if self.attempts + 1 < self.config.address_count {
                (
                    RunView { attempts: self.attempts + 1, ..self },
                    RunAction::SubmitBlock {
                        block: self.outcomes.len() as u64,
                        address: address_after(
                            self.cursor,
                            self.attempts + 1,
                            self.config.address_count as int,
                        ) as usize,
                    },
                )
            } else {
                self.record(BlockOutcome::TransportFailed)
            },
            (RunPhase::Running, RunEvent::ProofChecked(valid)) => if !self.awaiting_proof {
                (self, RunAction::Ignored)
            } else if valid {
                self.record(BlockOutcome::Confirmed)
            } else {
                self.record(BlockOutcome::ProofFailed)
            },
            _ => (self, RunAction::Ignored),
        }
    }
}

/// A strategy run.
pub struct StrategyRun {
    config: RunConfig,
    phase: RunPhase,
    cursor: usize,
    attempts: usize,
    awaiting_proof: bool,
    outcomes: Vec<BlockOutcome>,
    successes: u64,
    failures: u64,
}

impl View for StrategyRun {
    type V = RunView;

    closed spec fn view(&self) -> RunView {
        RunView {
            config: self.config,
            phase: self.phase,
            cursor: self.cursor as int,
            attempts: self.attempts as int,
            awaiting_proof: self.awaiting_proof,
            outcomes: self.outcomes@,
        }
    }
}

/// Counting is additive over `push`.
proof fn confirmed_count_push(outcomes: Seq<BlockOutcome>, outcome: BlockOutcome)
    ensures
        confirmed_count(outcomes.push(outcome)) == confirmed_count(outcomes) + if outcome
            == BlockOutcome::Confirmed {
            1nat
        } else {
            0nat
        },
        confirmed_count(outcomes) <= outcomes.len(),
    decreases outcomes.len(),
{
    assert(outcomes.push(outcome).drop_last() =~= outcomes);
    if outcomes.len() > 0 {
        confirmed_count_push(outcomes.drop_last(), outcomes.last());
        assert(outcomes.drop_last().push(outcomes.last()) =~= outcomes);
    }
}

impl StrategyRun {
    #[verifier::type_invariant]
    spec fn inv(self) -> bool {
        &&& self@.wf()
        &&& self.successes == confirmed_count(self.outcomes@)
        &&& self.successes + self.failures == self.outcomes@.len()
    }

    /// A run that has not started.
    pub fn new(config: RunConfig) -> (run: StrategyRun)
        ensures
            run@ == RunView::idle(config),
            run@.wf(),
    {
        StrategyRun {
            config,
            phase: RunPhase::Idle,
            cursor: 0,
            attempts: 0,
            awaiting_proof: false,
            outcomes: Vec::new(),
            successes: 0,
            failures: 0,
        }
    }

    /// The phase the run is in.
    pub fn phase(&self) -> (phase: RunPhase)
        ensures
            phase == self@.phase,
    {
        self.phase
    }

    /// What the run was started with.
    pub fn config(&self) -> (config: RunConfig)
        ensures
            config == self@.config,
    {
        self.config
    }

    /// The outcomes of the blocks that are done, in order.
    pub fn outcomes(&self) -> (outcomes: &Vec<BlockOutcome>)
        ensures
            outcomes@ == self@.outcomes,
            self@.wf(),
    {
        proof {
            use_type_invariant(self);
        }
        &self.outcomes
    }

    /// How many blocks were confirmed (and, where asked for, proved).
    pub fn successes(&self) -> (successes: u64)
        ensures
            successes == confirmed_count(self@.outcomes),
    {
        proof {
            use_type_invariant(self);
        }
        self.successes
    }

    /// How many blocks failed, at the transport level or in their proof.
    pub fn failures(&self) -> (failures: u64)
        ensures
            failures == self@.outcomes.len() - confirmed_count(self@.outcomes),
    {
        proof {
            use_type_invariant(self);
        }
        self.failures
    }

    /// Whether the run has ended, in `Done` or in `Aborted`.
    pub fn is_over(&self) -> (over: bool)
        ensures
            over == (self@.phase == RunPhase::Done || self@.phase == RunPhase::Aborted),
    {
        self.phase == RunPhase::Done || self.phase == RunPhase::Aborted
    }

    /// The summary of the run, with the time that the caller measured.
    pub fn into_summary(self, elapsed_millis: u64) -> (summary: StrategySummary)
        ensures
            summary.blocks@ == self@.outcomes,
            summary.successes == confirmed_count(self@.outcomes),
            summary.failures == self@.outcomes.len() - confirmed_count(self@.outcomes),
            summary.elapsed_millis == elapsed_millis,
    {
        proof {
            use_type_invariant(&self);
        }
        StrategySummary {
            successes: self.successes,
            failures: self.failures,
            elapsed_millis,
            blocks: self.outcomes,
        }
    }

    fn with_phase(self, phase: RunPhase) -> (run: StrategyRun)
        requires
            (RunView { phase, ..self@ }).wf(),
        ensures
            run@ == (RunView { phase, ..self@ }),
    {
        proof {
            use_type_invariant(&self);
        }
        StrategyRun {
            config: self.config,
            phase,
            cursor: self.cursor,
            attempts: self.attempts,
            awaiting_proof: self.awaiting_proof,
            outcomes: self.outcomes,
            successes: self.successes,
            failures: self.failures,
        }
    }

    fn enter_running(self) -> (next: (StrategyRun, RunAction))
        requires
            self@.phase != RunPhase::Running,
            self@.phase != RunPhase::Done,
        ensures
            (next.0@, next.1) == self@.enter_running(),
    {
        proof {
            use_type_invariant(&self);
        }
        match self.config.strategy {
            None => (self.with_phase(RunPhase::Done), RunAction::Finished),
            Some(plan) => {
                if !plan.known {
                    (
                        self.with_phase(RunPhase::Aborted),
                        RunAction::Abort(ConfigError::UnknownStrategy),
                    )
                } else if plan.block_count == 0 {
                    (self.with_phase(RunPhase::Done), RunAction::Finished)
                } else if self.config.address_count == 0 {
                    (self.with_phase(RunPhase::Aborted), RunAction::Abort(ConfigError::NoAddress))
                } else {
                    let address = self.cursor;
                    (
                        self.with_phase(RunPhase::Running),
                        RunAction::SubmitBlock { block: 0, address },
                    )
                }
            },
        }
    }

    fn balance_read(self, balance: u64) -> (next: (StrategyRun, RunAction))
        requires
            self@.phase == RunPhase::Funding(FundingStep::RefreshingIdentity),
        ensures
            (next.0@, next.1) == self@.balance_read(balance),
    {
        proof {
            use_type_invariant(&self);
        }
        match self.config.start_dash {
            None => self.enter_running(),
            Some(dash) => match top_up_decision(balance, dash) {
                TopUpDecision::NotNeeded => self.enter_running(),
                TopUpDecision::TopUp(duffs) => (
                    self.with_phase(RunPhase::TopUp),
                    RunAction::Issue(Task::Identity(IdentityTask::TopUpIdentity(duffs))),
                ),
                TopUpDecision::OutOfRange => (
                    self.with_phase(RunPhase::Aborted),
                    RunAction::Abort(ConfigError::AmountOutOfRange),
                ),
            },
        }
    }

    fn address_after(&self, attempts: usize) -> (address: usize)
        requires
            self@.phase == RunPhase::Running,
            attempts < self@.config.address_count,
        ensures
            address == address_after(self@.cursor, attempts as int, self@.config.address_count as int),
            address < self@.config.address_count,
    {
        proof {
            use_type_invariant(self);
        }
        let gap: usize = self.config.address_count - self.cursor;
        if attempts < gap {
            self.cursor + attempts
        } else {
            attempts - gap
        }
    }

    fn record(self, outcome: BlockOutcome) -> (next: (StrategyRun, RunAction))
        requires
            self@.phase == RunPhase::Running,
        ensures
            (next.0@, next.1) == self@.record(outcome),
    {
        proof {
            use_type_invariant(&self);
            confirmed_count_push(self.outcomes@, outcome);
        }
        let cursor = match outcome {
            BlockOutcome::TransportFailed => self.cursor,
            _ => self.address_after(self.attempts),
        };
        let block_count = match self.config.strategy {
            Some(plan) => plan.block_count,
            None => 0,
        };
        let confirmed = match outcome {
            BlockOutcome::Confirmed => true,
            _ => false,
        };
        let successes: u64 = if confirmed {
            self.successes + 1
        } else {
            self.successes
        };
        let failures: u64 = if confirmed {
            self.failures
        } else {
            self.failures + 1
        };
        let config = self.config;
        let mut outcomes = self.outcomes;
        outcomes.push(outcome);
        let done: u64 = outcomes.len() as u64;
        if done < block_count {
            (
                StrategyRun {
                    config,
                    phase: RunPhase::Running,
                    cursor,
                    attempts: 0,
                    awaiting_proof: false,
                    outcomes,
                    successes,
                    failures,
                },
                RunAction::SubmitBlock { block: done, address: cursor },
            )
        } else {
            (
                StrategyRun {
                    config,
                    phase: RunPhase::Done,
                    cursor,
                    attempts: 0,
                    awaiting_proof: false,
                    outcomes,
                    successes,
                    failures,
                },
                RunAction::Finished,
            )
        }
    }

    /// Starts the run. A run that has started already ignores this.
    pub fn start(self) -> (next: (StrategyRun, RunAction))
        ensures
            (next.0@, next.1) == self@.start(),
            self@.wf(),
            next.0@.wf(),
    {
        proof {
            use_type_invariant(&self);
        }
        if self.phase != RunPhase::Idle {
            return (self, RunAction::Ignored);
        }
        let next = match self.config.start_dash {
            None => self.enter_running(),
            Some(dash) => {
                if self.config.identity_loaded {
                    (
                        self.with_phase(RunPhase::Funding(FundingStep::RefreshingWallet)),
                        RunAction::Issue(Task::Wallet(WalletTask::Refresh)),
                    )
                } else {
                    match dash_to_duffs(dash) {
                        Some(duffs) => (
                            self.with_phase(RunPhase::Funding(FundingStep::Registering)),
                            RunAction::Issue(Task::Identity(IdentityTask::RegisterIdentity(duffs))),
                        ),
                        None => (
                            self.with_phase(RunPhase::Aborted),
                            RunAction::Abort(ConfigError::AmountOutOfRange),
                        ),
                    }
                }
            },
        };
        proof {
            use_type_invariant(&next.0);
        }
        next
    }

    /// Takes the run one step further on `event`. An event that does not belong
    /// to the phase the run is in changes nothing.
    pub fn step(self, event: RunEvent) -> (next: (StrategyRun, RunAction))
        ensures
            (next.0@, next.1) == self@.step(event),
            self@.wf(),
            next.0@.wf(),
    {
        proof {
            use_type_invariant(&self);
        }
        let next = match (self.phase, event) {
            (RunPhase::Funding(FundingStep::Registering), RunEvent::TaskDone) => self.enter_running(),
            (RunPhase::Funding(FundingStep::RefreshingWallet), RunEvent::TaskDone) => (
                self.with_phase(RunPhase::Funding(FundingStep::RefreshingIdentity)),
                RunAction::Issue(Task::Identity(IdentityTask::Refresh)),
            ),
            (RunPhase::Funding(FundingStep::RefreshingIdentity), RunEvent::BalanceRead(balance)) => {
                self.balance_read(balance)
            },
            (RunPhase::TopUp, RunEvent::TaskDone) => self.enter_running(),
            (RunPhase::Running, RunEvent::BlockConfirmed) => {
                let prove = match self.config.strategy {
                    Some(plan) => plan.prove,
                    None => false,
                };
                if self.awaiting_proof {
                    (self, RunAction::Ignored)
                } else if prove {
                    let block: u64 = self.outcomes.len() as u64;
                    (
                        StrategyRun {
                            config: self.config,
                            phase: self.phase,
                            cursor: self.cursor,
                            attempts: self.attempts,
                            awaiting_proof: true,
                            outcomes: self.outcomes,
                            successes: self.successes,
                            failures: self.failures,
                        },
                        RunAction::VerifyProof { block },
                    )
                } else {
                    self.record(BlockOutcome::Confirmed)
                }
            },
            (RunPhase::Running, RunEvent::TransportFailed) => {
                if self.awaiting_proof {
                    (self, RunAction::Ignored)
                } else if self.attempts + 1 < self.config.address_count {
                    let attempts: usize = self.attempts + 1;
                    let address = self.address_after(attempts);
                    let block: u64 = self.outcomes.len() as u64;
                    (
                        StrategyRun {
                            config: self.config,
                            phase: self.phase,
                            cursor: self.cursor,
                            attempts,
                            awaiting_proof: self.awaiting_proof,
                            outcomes: self.outcomes,
                            successes: self.successes,
                            failures: self.failures,
                        },
                        RunAction::SubmitBlock { block, address },
                    )
                } else {
                    self.record(BlockOutcome::TransportFailed)
                }
            },
            (RunPhase::Running, RunEvent::ProofChecked(valid)) => {
                if !self.awaiting_proof {
                    (self, RunAction::Ignored)
                } else if valid {
                    self.record(BlockOutcome::Confirmed)
                } else {
                    self.record(BlockOutcome::ProofFailed)
                }
            },
            _ => (self, RunAction::Ignored),
        };
        proof {
            use_type_invariant(&next.0);
        }
        next
    }
}

} // verus!
