use vstd::prelude::*;

use crate::ids::JobId;
use crate::model::{terminal, JobState};
use crate::runtime::{RuntimeCommand, RuntimeExit};

verus! {

/// The state a job ends in after its command exits: canceled when the run
/// was canceled, succeeded on exit code 0, failed otherwise.
pub open spec fn exit_state(exit: RuntimeExit) -> JobState {
    if exit.canceled {
        JobState::Canceled
    } else if exit.code == Some(0i32) {
        JobState::Succeeded
    } else {
        JobState::Failed
    }
}

pub fn final_state(exit: &RuntimeExit) -> (s: JobState)
    ensures
        s == exit_state(*exit),
{
    if exit.canceled {
        JobState::Canceled
    } else if exit.code == Some(0i32) {
        JobState::Succeeded
    } else {
        JobState::Failed
    }
}

/// The states a queued job passes through when it is run, in order.
pub open spec fn run_states(exit: RuntimeExit) -> Seq<JobState> {
    seq![JobState::Preparing, JobState::Running, JobState::Collecting, exit_state(exit)]
}

/// Running a queued job never asks for a refused transition: every state the
/// run moves from (queued, then each state but the last) is non-terminal, so
/// `JobState::transition_to` accepts each step, and the run ends in a
/// terminal state.
pub proof fn run_lifecycle_is_permitted(exit: RuntimeExit)
    ensures
        !terminal(JobState::Queued),
        forall|i: int| 0 <= i < 3 ==> !terminal(#[trigger] run_states(exit)[i]),
        terminal(run_states(exit)[3]),
{
}

/// Where a run of the next queued job stands.
#[derive(Debug)]
pub enum RunPhase {
    /// Nothing done yet: the next queued job is looked up.
    Start,
    /// The job is being marked as preparing.
    Preparing { id: JobId },
    /// The job's workspace and command are being prepared.
    Building { id: JobId },
    /// The job is being marked as running; its command waits.
    Starting { id: JobId, command: RuntimeCommand },
    /// The job's command is running.
    Running { id: JobId },
    /// The job is being marked as collecting; its outcome is known.
    Collecting { id: JobId, outcome: JobState },
    /// The job is being marked with its outcome.
    Finishing { id: JobId },
    /// The run is over.
    Finished,
}

/// What the caller reports back after carrying out an action.
#[derive(Debug)]
pub enum RunEvent {
    /// The next queued job, if there is one.
    NextQueued(Option<JobId>),
    /// The state asked for was stored.
    StateSet,
    /// The job's command was prepared.
    CommandBuilt(RuntimeCommand),
    /// The job's command ended.
    Exited(RuntimeExit),
}

/// What the caller is to do next.
#[derive(Debug)]
pub enum RunAction {
    /// Store a new state for a job.
    SetState { id: JobId, state: JobState },
    /// Prepare the job's workspace and command.
    BuildCommand { id: JobId },
    /// Run the job's command in the build runtime.
    Run { id: JobId, command: RuntimeCommand },
    /// The run is over; the job that was run, if any.
    Finish(Option<JobId>),
}

/// One step of running the next queued job: from where the run stands and
/// what the last action gave, where it stands next and what to do. `None`
/// when the event does not answer the phase's action.
pub open spec fn next_run(phase: RunPhase, event: RunEvent) -> Option<(RunPhase, RunAction)> {
    match (phase, event) {
        (RunPhase::Start, RunEvent::NextQueued(None)) => Some(
            (RunPhase::Finished, RunAction::Finish(None)),
        ),
        (RunPhase::Start, RunEvent::NextQueued(Some(id))) => Some(
            (RunPhase::Preparing { id }, RunAction::SetState { id, state: JobState::Preparing }),
        ),
        (RunPhase::Preparing { id }, RunEvent::StateSet) => Some(
            (RunPhase::Building { id }, RunAction::BuildCommand { id }),
        ),
        (RunPhase::Building { id }, RunEvent::CommandBuilt(command)) => Some(
            (
                RunPhase::Starting { id, command },
                RunAction::SetState { id, state: JobState::Running },
            ),
        ),
        (RunPhase::Starting { id, command }, RunEvent::StateSet) => Some(
            (RunPhase::Running { id }, RunAction::Run { id, command }),
        ),
        (RunPhase::Running { id }, RunEvent::Exited(exit)) => Some(
            (
                RunPhase::Collecting { id, outcome: exit_state(exit) },
                RunAction::SetState { id, state: JobState::Collecting },
            ),
        ),
        (RunPhase::Collecting { id, outcome }, RunEvent::StateSet) => Some(
            (RunPhase::Finishing { id }, RunAction::SetState { id, state: outcome }),
        ),
        (RunPhase::Finishing { id }, RunEvent::StateSet) => Some(
            (RunPhase::Finished, RunAction::Finish(Some(id))),
        ),
        _ => None,
    }
}

pub fn run_step(phase: RunPhase, event: RunEvent) -> (r: Option<(RunPhase, RunAction)>)
    ensures
        r == next_run(phase, event),
{
    match (phase, event) {
        (RunPhase::Start, RunEvent::NextQueued(None)) => Some(
            (RunPhase::Finished, RunAction::Finish(None)),
        ),
        (RunPhase::Start, RunEvent::NextQueued(Some(id))) => Some(
            (RunPhase::Preparing { id }, RunAction::SetState { id, state: JobState::Preparing }),
        ),
        (RunPhase::Preparing { id }, RunEvent::StateSet) => Some(
            (RunPhase::Building { id }, RunAction::BuildCommand { id }),
        ),
        (RunPhase::Building { id }, RunEvent::CommandBuilt(command)) => Some(
            (
                RunPhase::Starting { id, command },
                RunAction::SetState { id, state: JobState::Running },
            ),
        ),
        (RunPhase::Starting { id, command }, RunEvent::StateSet) => Some(
            (RunPhase::Running { id }, RunAction::Run { id, command }),
        ),
        (RunPhase::Running { id }, RunEvent::Exited(exit)) => {
            let outcome = final_state(&exit);
            Some(
                (
                    RunPhase::Collecting { id, outcome },
                    RunAction::SetState { id, state: JobState::Collecting },
                ),
            )
        },
        (RunPhase::Collecting { id, outcome }, RunEvent::StateSet) => Some(
            (RunPhase::Finishing { id }, RunAction::SetState { id, state: outcome }),
        ),
        (RunPhase::Finishing { id }, RunEvent::StateSet) => Some(
            (RunPhase::Finished, RunAction::Finish(Some(id))),
        ),
        _ => None,
    }
}

/// The actions that a sequence of events leads to from a phase, and the phase
/// it ends in; `None` when some event does not answer its phase's action.
pub open spec fn run_actions(phase: RunPhase, events: Seq<RunEvent>) -> Option<
    (RunPhase, Seq<RunAction>),
>
    decreases events.len(),
{
    if events.len() == 0 {
        Some((phase, Seq::empty()))
    } else {
        match next_run(phase, events[0]) {
            None => None,
            Some((next, action)) => match run_actions(next, events.drop_first()) {
                None => None,
                Some((end, rest)) => Some((end, seq![action] + rest)),
            },
        }
    }
}

proof fn lemma_run_actions_step(phase: RunPhase, events: Seq<RunEvent>)
    requires
        events.len() > 0,
    ensures
        run_actions(phase, events) == match next_run(phase, events[0]) {
            None => None,
            Some((next, action)) => match run_actions(next, events.drop_first()) {
                None => None,
                Some((end, rest)) => Some((end, seq![action] + rest)),
            },
        },
{
}

/// When there is no queued job, a run does nothing and reports none.
pub proof fn idle_run_does_nothing()
    ensures
        run_actions(RunPhase::Start, seq![RunEvent::NextQueued(None)]) == Some(
            (RunPhase::Finished, seq![RunAction::Finish(None)]),
        ),
{
    let events = seq![RunEvent::NextQueued(None)];
    lemma_run_actions_step(RunPhase::Start, events);
    assert(events.drop_first() =~= Seq::<RunEvent>::empty());
    assert(seq![RunAction::Finish(None)] + Seq::<RunAction>::empty() =~= seq![
        RunAction::Finish(None),
    ]);
}

/// When a queued job's steps succeed, a run marks it preparing, prepares its
/// command, marks it running, runs that command once, marks it collecting,
/// marks it with the outcome of its exit, and reports the job.
pub proof fn queued_job_run(id: JobId, command: RuntimeCommand, exit: RuntimeExit)
    ensures
        run_actions(
            RunPhase::Start,
            seq![
                RunEvent::NextQueued(Some(id)),
                RunEvent::StateSet,
                RunEvent::CommandBuilt(command),
                RunEvent::StateSet,
                RunEvent::Exited(exit),
                RunEvent::StateSet,
                RunEvent::StateSet,
            ],
        ) == Some(
            (
                RunPhase::Finished,
                seq![
                    RunAction::SetState { id, state: JobState::Preparing },
                    RunAction::BuildCommand { id },
                    RunAction::SetState { id, state: JobState::Running },
                    RunAction::Run { id, command },
                    RunAction::SetState { id, state: JobState::Collecting },
                    RunAction::SetState { id, state: exit_state(exit) },
                    RunAction::Finish(Some(id)),
                ],
            ),
        ),
{
    let e = seq![
        RunEvent::NextQueued(Some(id)),
        RunEvent::StateSet,
        RunEvent::CommandBuilt(command),
        RunEvent::StateSet,
        RunEvent::Exited(exit),
        RunEvent::StateSet,
        RunEvent::StateSet,
    ];
    let p1 = RunPhase::Preparing { id };
    let p2 = RunPhase::Building { id };
    let p3 = RunPhase::Starting { id, command };
    let p4 = RunPhase::Running { id };
    let p5 = RunPhase::Collecting { id, outcome: exit_state(exit) };
    let p6 = RunPhase::Finishing { id };
    let a1 = RunAction::SetState { id, state: JobState::Preparing };
    let a2 = RunAction::BuildCommand { id };
    let a3 = RunAction::SetState { id, state: JobState::Running };
    let a4 = RunAction::Run { id, command };
    let a5 = RunAction::SetState { id, state: JobState::Collecting };
    let a6 = RunAction::SetState { id, state: exit_state(exit) };
    let a7 = RunAction::Finish(Some(id));
    let e7 = e.skip(6);
    let e6 = e.skip(5);
    let e5 = e.skip(4);
    let e4 = e.skip(3);
    let e3 = e.skip(2);
    let e2 = e.skip(1);
    assert(e7.drop_first() =~= Seq::<RunEvent>::empty());
    assert(e6.drop_first() =~= e7);
    assert(e5.drop_first() =~= e6);
    assert(e4.drop_first() =~= e5);
    assert(e3.drop_first() =~= e4);
    assert(e2.drop_first() =~= e3);
    assert(e.drop_first() =~= e2);
    lemma_run_actions_step(p6, e7);
    let s7 = seq![a7];
    assert(seq![a7] + Seq::<RunAction>::empty() =~= s7);
    assert(run_actions(p6, e7) == Some((RunPhase::Finished, s7)));
    lemma_run_actions_step(p5, e6);
    let s6 = seq![a6] + s7;
    lemma_run_actions_step(p4, e5);
    let s5 = seq![a5] + s6;
    lemma_run_actions_step(p3, e4);
    let s4 = seq![a4] + s5;
    lemma_run_actions_step(p2, e3);
    let s3 = seq![a3] + s4;
    lemma_run_actions_step(p1, e2);
    let s2 = seq![a2] + s3;
    lemma_run_actions_step(RunPhase::Start, e);
    let s1 = seq![a1] + s2;
    assert(s1 =~= seq![a1, a2, a3, a4, a5, a6, a7]);
}

} // verus!
