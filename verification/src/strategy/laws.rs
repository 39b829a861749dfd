//! What holds of every strategy run.

use vstd::prelude::*;
use crate::funding::{floor_credits, shortfall_duffs};
use crate::strategy::{address_after, RunAction, RunEvent, RunPhase, RunView};
use crate::task::{BlockOutcome, IdentityTask, Task};

verus! {

/// Starting a run and taking a step keep a run well formed and leave its
/// configuration alone.
pub proof fn transitions_keep_runs_well_formed(run: RunView, event: RunEvent)
    requires
        run.wf(),
    ensures
        run.start().0.wf(),
        run.step(event).0.wf(),
        run.start().0.config == run.config,
        run.step(event).0.config == run.config,
{
}

/// A run that has not started is well formed.
pub proof fn idle_runs_are_well_formed(run: RunView)
    requires
        run == RunView::idle(run.config),
    ensures
        run.wf(),
{
}

/// A top-up is issued only when the balance that was read is below the floor,
/// and then for the shortfall in duffs: an identity whose balance meets the
/// floor is never topped up.
pub proof fn top_up_only_below_floor(run: RunView, event: RunEvent)
    requires
        run.wf(),
    ensures
        !(run.start().1 matches RunAction::Issue(Task::Identity(IdentityTask::TopUpIdentity(_)))),
        run.step(event).1 matches RunAction::Issue(Task::Identity(IdentityTask::TopUpIdentity(duffs)))
            ==> {
            &&& event matches RunEvent::BalanceRead(balance)
            &&& run.config.start_dash matches Some(dash)
            &&& balance < floor_credits(dash)
            &&& duffs == shortfall_duffs(balance, dash)
        },
        run.phase != RunPhase::TopUp && run.step(event).0.phase == RunPhase::TopUp ==> run.step(
            event,
        ).1 matches RunAction::Issue(Task::Identity(IdentityTask::TopUpIdentity(_))),
{
}

/// A run of a known strategy over no blocks is done as soon as the funding
/// precheck is: it submits no block, checks no proof, records no outcome, and
/// never aborts for want of an address.
pub proof fn no_blocks_finish_at_once(run: RunView, event: RunEvent)
    requires
        run.wf(),
        run.config.strategy matches Some(plan) && plan.known && plan.block_count == 0,
    ensures
        run.enter_running() == (RunView { phase: RunPhase::Done, ..run }, RunAction::Finished),
        run.phase == RunPhase::Idle && run.config.start_dash is None ==> run.start() == (
            RunView { phase: RunPhase::Done, ..run },
            RunAction::Finished,
        ),
        run.outcomes.len() == 0,
        run.start().0.outcomes.len() == 0,
        run.step(event).0.outcomes.len() == 0,
        !(run.start().1 is SubmitBlock) && !(run.start().1 is VerifyProof),
        !(run.step(event).1 is SubmitBlock) && !(run.step(event).1 is VerifyProof),
        run.start().0.phase != RunPhase::Running,
        run.step(event).0.phase != RunPhase::Running,
{
}

/// Once the blocks are running nothing aborts the run: a transport failure is
/// retried or recorded, a proof that fails is recorded, and the run goes on
/// until it is done.
pub proof fn running_never_aborts(run: RunView, event: RunEvent)
    requires
        run.wf(),
        run.phase == RunPhase::Running,
    ensures
        run.step(event).0.phase == RunPhase::Running || run.step(event).0.phase == RunPhase::Done,
        !(run.step(event).1 is Abort),
{
}

/// A run is aborted only as it leaves the funding precheck or starts, never
/// later; and a run that is over stays as it is. Outcomes are only ever added,
/// one at a time, at the end.
pub proof fn outcomes_are_append_only(run: RunView, event: RunEvent)
    requires
        run.wf(),
    ensures
        run.step(event).0.outcomes == run.outcomes || exists|outcome: BlockOutcome|
            run.step(event).0.outcomes == run.outcomes.push(outcome),
        run.phase == RunPhase::Done || run.phase == RunPhase::Aborted ==> run.step(event) == (
            run,
            RunAction::Ignored,
        ),
{
    let next = run.step(event).0;
    if next.outcomes != run.outcomes {
        assert(next.outcomes == run.outcomes.push(next.outcomes.last()));
    }
}

/// A transport failure is retried on the next address while one is left that
/// this block has not tried, and is recorded as the block's failure when none
/// is: a block makes at most as many attempts as there are addresses.
pub proof fn transport_failure_retries_then_records(run: RunView)
    requires
        run.wf(),
        run.phase == RunPhase::Running,
        !run.awaiting_proof,
    ensures
        run.attempts + 1 < run.config.address_count ==> {
            &&& run.step(RunEvent::TransportFailed).0 == (RunView { attempts: run.attempts + 1, ..run })
            &&& run.step(RunEvent::TransportFailed).1 == (RunAction::SubmitBlock {
                block: run.outcomes.len() as u64,
                address: address_after(run.cursor, run.attempts + 1, run.config.address_count as int) as usize,
            })
        },
        run.attempts + 1 >= run.config.address_count ==> {
            &&& run.step(RunEvent::TransportFailed).0.outcomes == run.outcomes.push(
                BlockOutcome::TransportFailed,
            )
            &&& run.step(RunEvent::TransportFailed).0.attempts == 0
            &&& run.step(RunEvent::TransportFailed).0.cursor == run.cursor
        },
{
}

/// The attempts of one block go to addresses of the list, each to another one:
/// no address is tried twice for a block.
pub proof fn no_address_tried_twice(cursor: int, first: int, second: int, count: int)
    requires
        0 <= cursor < count,
        0 <= first < second < count,
    ensures
        0 <= address_after(cursor, first, count) < count,
        0 <= address_after(cursor, second, count) < count,
        address_after(cursor, first, count) != address_after(cursor, second, count),
{
}

/// A run that is done has an outcome for every block of its strategy, and no
/// outcome at all where it had no strategy; a run that was aborted has none.
pub proof fn done_runs_ran_every_block(run: RunView)
    requires
        run.wf(),
    ensures
        run.phase == RunPhase::Done ==> match run.config.strategy {
            Some(plan) => plan.known && run.outcomes.len() == plan.block_count,
            None => run.outcomes.len() == 0,
        },
        run.phase == RunPhase::Aborted ==> run.outcomes.len() == 0,
        run.phase == RunPhase::Running ==> ({
            &&& run.config.strategy matches Some(plan)
            &&& run.outcomes.len() < plan.block_count
            &&& run.attempts < run.config.address_count
        }),
{
}

} // verus!
