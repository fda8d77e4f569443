//! The order of a run: which step follows which, where a run ends, and with
//! which exit code. The steps themselves are performed by whoever drives the
//! run; this module decides what comes next.

use vstd::prelude::*;

verus! {

/// A step of a run.
#[derive(Clone, Copy, Debug, PartialEq, Eq, Structural)]
pub enum Step {
    /// Check the file argument.
    Validate,
    /// Start the engine.
    Initialize,
    /// Register the file as a table.
    Register,
    /// Execute the statement.
    Execute,
    /// Print the result.
    Render,
}

/// Where a run stands.
#[derive(Clone, Copy, Debug, PartialEq, Eq, Structural)]
pub enum Run {
    /// The step is to be performed next.
    Pending(Step),
    /// Every step was performed and succeeded.
    Finished,
    /// The step failed; no later step was performed.
    Failed(Step),
    /// An interrupt ended the run.
    Interrupted,
}

/// What is reported to a run.
#[derive(Clone, Copy, Debug, PartialEq, Eq, Structural)]
pub enum Event {
    /// The pending step succeeded.
    Succeeded,
    /// The pending step failed.
    Failed,
    /// An interrupt signal arrived.
    Interrupt,
}

/// The exit code of a run that ended without a failure.
pub const EXIT_SUCCESS: u8 = 0;

/// The exit code of a run in which a step failed.
pub const EXIT_FAILURE: u8 = 1;

impl Step {
    /// The step that follows this one, if one does.
    pub open spec fn successor(self) -> Option<Step> {
        match self {
            Step::Validate => Some(Step::Initialize),
            Step::Initialize => Some(Step::Register),
            Step::Register => Some(Step::Execute),
            Step::Execute => Some(Step::Render),
            Step::Render => None,
        }
    }

    /// The place of this step in a run, counted from zero.
    pub open spec fn position(self) -> nat {
        match self {
            Step::Validate => 0,
            Step::Initialize => 1,
            Step::Register => 2,
            Step::Execute => 3,
            Step::Render => 4,
        }
    }

    /// The step that follows this one, if one does.
    pub fn next(self) -> (step: Option<Step>)
        ensures
            step == self.successor(),
    {
        match self {
            Step::Validate => Some(Step::Initialize),
            Step::Initialize => Some(Step::Register),
            Step::Register => Some(Step::Execute),
            Step::Execute => Some(Step::Render),
            Step::Render => None,
        }
    }

    /// What is said of a failure of this step, above the error itself. The
    /// validation speaks for itself.
    pub fn failure_context(self) -> (context: Option<&'static str>)
        ensures
            match self {
                Step::Validate => context is None,
                Step::Initialize => context matches Some(text) && text@
                    == "Failed to initialize query engine"@,
                Step::Register => context matches Some(text) && text@ == "Failed to register file"@,
                Step::Execute => context matches Some(text) && text@ == "Failed to execute query"@,
                Step::Render => context matches Some(text) && text@ == "Failed to print results"@,
            },
    {
        match self {
            Step::Validate => None,
            Step::Initialize => Some("Failed to initialize query engine"),
            Step::Register => Some("Failed to register file"),
            Step::Execute => Some("Failed to execute query"),
            Step::Render => Some("Failed to print results"),
        }
    }
}

impl Run {
    /// Where a run stands once `event` was reported to it. A success moves a
    /// pending run to the next step, and past the last one to its end; a
    /// failure ends it at the step that failed; an interrupt ends it at once.
    /// A run that has ended stays as it is.
    pub open spec fn after(self, event: Event) -> Run {
        match self {
            Run::Pending(step) => match event {
                Event::Succeeded => match step.successor() {
                    Some(next) => Run::Pending(next),
                    None => Run::Finished,
                },
                Event::Failed => Run::Failed(step),
                Event::Interrupt => Run::Interrupted,
            },
            ended => ended,
        }
    }

    /// Where a run stands once `events` were reported to it, one after the
    /// other.
    pub open spec fn after_all(self, events: Seq<Event>) -> Run
        decreases events.len(),
    {
        if events.len() == 0 {
            self
        } else {
            self.after_all(events.drop_last()).after(events.last())
        }
    }

    /// The exit code of the process for a run that has ended: success for a
    /// run that finished or was interrupted, failure for one in which a step
    /// failed. A pending run has none.
    pub open spec fn exit_status(self) -> Option<u8> {
        match self {
            Run::Pending(_) => None,
            Run::Finished => Some(EXIT_SUCCESS),
            Run::Failed(_) => Some(EXIT_FAILURE),
            Run::Interrupted => Some(EXIT_SUCCESS),
        }
    }

    /// A run of which nothing was performed yet.
    pub fn start() -> (run: Run)
        ensures
            run == Run::Pending(Step::Validate),
    {
        Run::Pending(Step::Validate)
    }

    /// Takes in `event`.
    pub fn advance(self, event: Event) -> (run: Run)
        ensures
            run == self.after(event),
    {
        match self {
            Run::Pending(step) => match event {
                Event::Succeeded => match step.next() {
                    Some(next) => Run::Pending(next),
                    None => Run::Finished,
                },
                Event::Failed => Run::Failed(step),
                Event::Interrupt => Run::Interrupted,
            },
            Run::Finished => Run::Finished,
            Run::Failed(step) => Run::Failed(step),
            Run::Interrupted => Run::Interrupted,
        }
    }

    /// The step to perform next, if the run has not ended.
    pub fn pending(self) -> (step: Option<Step>)
        ensures
            step == match self {
                Run::Pending(step) => Some(step),
                _ => None,
            },
    {
        match self {
            Run::Pending(step) => Some(step),
            _ => None,
        }
    }

    /// The exit code of the process, if the run has ended.
    pub fn exit_code(self) -> (code: Option<u8>)
        ensures
            code == self.exit_status(),
    {
        match self {
            Run::Pending(_) => None,
            Run::Finished => Some(EXIT_SUCCESS),
            Run::Failed(_) => Some(EXIT_FAILURE),
            Run::Interrupted => Some(EXIT_SUCCESS),
        }
    }
}

/// A run that has ended stays where it ended, whatever is reported to it
/// afterwards: after a failure no later step is performed.
pub proof fn law_ended_run_stays(run: Run, events: Seq<Event>)
    requires
        run !is Pending,
    ensures
        run.after_all(events) == run,
    decreases events.len(),
{
    if events.len() > 0 {
        law_ended_run_stays(run, events.drop_last());
    }
}

/// As long as steps succeed, the run stands at the step whose place is the
/// number of successes; the fifth success finishes it.
pub proof fn law_successes_lead_through(events: Seq<Event>)
    requires
        events.len() <= 5,
        forall|i: int| 0 <= i < events.len() ==> events[i] is Succeeded,
    ensures
        match Run::Pending(Step::Validate).after_all(events) {
            Run::Pending(step) => step.position() == events.len(),
            Run::Finished => events.len() == 5,
            _ => false,
        },
    decreases events.len(),
{
    if events.len() > 0 {
        let front = events.drop_last();
        assert forall|i: int| 0 <= i < front.len() implies front[i] is Succeeded by {
            assert(front[i] == events[i]);
        }
        law_successes_lead_through(front);
    }
}

/// A run finishes only if each of its five steps was reported to succeed,
/// and with nothing else reported in between. So a run whose registration
/// failed has executed nothing, and one whose execution failed has printed
/// nothing.
pub proof fn law_finished_means_every_step_succeeded(events: Seq<Event>)
    requires
        Run::Pending(Step::Validate).after_all(events) is Finished,
    ensures
        events.len() >= 5,
        forall|i: int| 0 <= i < 5 ==> events[i] is Succeeded,
{
    lemma_prefix_state(events, events.len() as int);
    assert(events.take(events.len() as int) =~= events);
}

/// The exit code is that of success exactly for a run that finished or was
/// interrupted, and that of failure exactly for a run in which a step failed.
pub proof fn law_exit_code_tells_failure(run: Run)
    ensures
        run.exit_status() == Some(EXIT_SUCCESS) <==> (run is Finished || run is Interrupted),
        run.exit_status() == Some(EXIT_FAILURE) <==> run is Failed,
        run.exit_status() is None <==> run is Pending,
{
}

/// Where a run stands after the first `k` events, told by how many of them
/// were successes in a row from the start.
proof fn lemma_prefix_state(events: Seq<Event>, k: int)
    requires
        0 <= k <= events.len(),
    ensures
        match Run::Pending(Step::Validate).after_all(events.take(k)) {
            Run::Pending(step) => step.position() == k && forall|i: int|
                0 <= i < k ==> events[i] is Succeeded,
            Run::Finished => k >= 5 && forall|i: int| 0 <= i < 5 ==> events[i] is Succeeded,
            _ => true,
        },
    decreases k,
{
    if k > 0 {
        lemma_prefix_state(events, k - 1);
        assert(events.take(k).drop_last() =~= events.take(k - 1));
        assert(events.take(k).last() == events[k - 1]);
    }
}

} // verus!
