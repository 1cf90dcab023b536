//! The life of a pipeline worker: when it may publish frames and when it
//! signals the end of the stream.

use vstd::prelude::*;

verus! {

/// What a poll of the stop channel found.
#[derive(Debug, Clone, Copy, PartialEq, Eq, Structural)]
pub enum StopPoll {
    /// Nothing is pending.
    Empty,
    /// A stop signal was pending.
    Signal,
    /// The consumer dropped its end of the channel.
    Disconnected,
}

/// Where a worker stands.
#[derive(Debug, Clone, Copy, PartialEq, Eq, Structural)]
pub enum Phase {
    /// Opening the source or bringing up the engine.
    Starting,
    /// Decoding or rendering; frames are published.
    Running,
    /// Leaving the loop: flushing the decoder or stopping the engine.
    Draining,
    /// The end of the stream was signaled; nothing follows.
    Stopped,
}

/// What happens to a worker.
#[derive(Debug, Clone, Copy, PartialEq, Eq, Structural)]
pub enum WorkerEvent {
    /// The source is open and the first unit of work can begin.
    Started,
    /// The stop channel was polled, before a unit of work.
    Polled(StopPoll),
    /// The source has no more to give.
    SourceEnded,
    /// The worker gave up on an error.
    Failed,
    /// The worker is about to exit.
    Exiting,
}

/// What the worker does on an event.
#[derive(Debug, Clone, Copy, PartialEq, Eq, Structural)]
pub struct Step {
    /// Go on with the unit of work and publish what it yields.
    pub work: bool,
    /// Signal the end of the stream now.
    pub signal_end: bool,
}

/// The phase after an event.
pub open spec fn next_phase(phase: Phase, event: WorkerEvent) -> Phase {
    match phase {
        Phase::Stopped => Phase::Stopped,
        _ => match event {
            WorkerEvent::Started => if phase == Phase::Starting {
                Phase::Running
            } else {
                phase
            },
            WorkerEvent::Polled(poll) => if poll != StopPoll::Empty {
                Phase::Draining
            } else {
                phase
            },
            WorkerEvent::SourceEnded => Phase::Draining,
            WorkerEvent::Failed => Phase::Draining,
            WorkerEvent::Exiting => Phase::Stopped,
        },
    }
}

/// What the worker does on an event: it works after a poll that found no
/// stop signal while it is running, and it signals the end of the stream
/// when it exits for the first time.
pub open spec fn step_of(phase: Phase, event: WorkerEvent) -> Step {
    Step {
        work: phase == Phase::Running && event == WorkerEvent::Polled(StopPoll::Empty),
        signal_end: phase != Phase::Stopped && event == WorkerEvent::Exiting,
    }
}

/// The phase after a run of events.
pub open spec fn phase_after(phase: Phase, events: Seq<WorkerEvent>) -> Phase
    decreases events.len(),
{
    if events.len() == 0 {
        phase
    } else {
        next_phase(phase_after(phase, events.drop_last()), events.last())
    }
}

/// How often the end of the stream is signaled during a run of events.
pub open spec fn end_signals(phase: Phase, events: Seq<WorkerEvent>) -> nat
    decreases events.len(),
{
    if events.len() == 0 {
        0
    } else {
        let before = end_signals(phase, events.drop_last());
        if step_of(phase_after(phase, events.drop_last()), events.last()).signal_end {
            before + 1
        } else {
            before
        }
    }
}

/// Whether the worker works on the last of a run of events.
pub open spec fn works_on_last(phase: Phase, events: Seq<WorkerEvent>) -> bool {
    events.len() > 0 && step_of(phase_after(phase, events.drop_last()), events.last()).work
}

/// The worker's record of its phase.
#[derive(Debug, Clone, Copy, PartialEq, Eq)]
pub struct Lifecycle {
    pub phase: Phase,
}

impl Lifecycle {
    /// A worker that has just been started.
    pub fn new() -> (life: Lifecycle)
        ensures
            life.phase == Phase::Starting,
    {
        Lifecycle { phase: Phase::Starting }
    }

    /// Takes an event and says what to do on it.
    pub fn advance(&mut self, event: WorkerEvent) -> (step: Step)
        ensures
            step == step_of(old(self).phase, event),
            final(self).phase == next_phase(old(self).phase, event),
    {
        let phase = self.phase;
        let work = match (phase, event) {
            (Phase::Running, WorkerEvent::Polled(StopPoll::Empty)) => true,
            _ => false,
        };
        let signal_end = match (phase, event) {
            (Phase::Stopped, _) => false,
            (_, WorkerEvent::Exiting) => true,
            _ => false,
        };
        self.phase = match phase {
            Phase::Stopped => Phase::Stopped,
            _ => match event {
                WorkerEvent::Started => match phase {
                    Phase::Starting => Phase::Running,
                    _ => phase,
                },
                WorkerEvent::Polled(StopPoll::Empty) => phase,
                WorkerEvent::Polled(_) => Phase::Draining,
                WorkerEvent::SourceEnded => Phase::Draining,
                WorkerEvent::Failed => Phase::Draining,
                WorkerEvent::Exiting => Phase::Stopped,
            },
        };
        Step { work, signal_end }
    }

    /// Whether frames may be published.
    pub fn may_publish(&self) -> (ok: bool)
        ensures
            ok == (self.phase == Phase::Running),
    {
        match self.phase {
            Phase::Running => true,
            _ => false,
        }
    }
}

/// A worker that has left the running phase never returns to it.
pub proof fn lemma_left_running_for_good(phase: Phase, events: Seq<WorkerEvent>)
    requires
        phase == Phase::Draining || phase == Phase::Stopped,
    ensures
        phase_after(phase, events) == Phase::Draining || phase_after(phase, events)
            == Phase::Stopped,
    decreases events.len(),
{
    if events.len() > 0 {
        lemma_left_running_for_good(phase, events.drop_last());
    }
}

/// Once a poll has found a stop signal, or the consumer gone, the worker
/// does no more work: whatever events follow, none of them lets it publish.
pub proof fn lemma_no_work_after_stop(
    phase: Phase,
    poll: StopPoll,
    later: Seq<WorkerEvent>,
)
    requires
        poll != StopPoll::Empty,
        later.len() > 0,
    ensures
        !works_on_last(next_phase(phase, WorkerEvent::Polled(poll)), later),
{
    let stopped = next_phase(phase, WorkerEvent::Polled(poll));
    lemma_left_running_for_good(stopped, later.drop_last());
}

/// Nothing is published after the end of the stream was signaled: once
/// the worker has exited, none of the events that follow lets it work.
pub proof fn lemma_no_work_after_end(phase: Phase, later: Seq<WorkerEvent>)
    requires
        later.len() > 0,
    ensures
        !works_on_last(next_phase(phase, WorkerEvent::Exiting), later),
{
    lemma_left_running_for_good(next_phase(phase, WorkerEvent::Exiting), later.drop_last());
}

/// The end of the stream is signaled at most once, and not at all by a
/// worker that has stopped.
pub proof fn lemma_end_signaled_at_most_once(phase: Phase, events: Seq<WorkerEvent>)
    ensures
        end_signals(phase, events) <= 1,
        phase == Phase::Stopped ==> end_signals(phase, events) == 0 && phase_after(phase, events)
            == Phase::Stopped,
        end_signals(phase, events) == 1 ==> phase_after(phase, events) == Phase::Stopped,
        phase_after(phase, events) == Phase::Stopped && phase != Phase::Stopped ==> end_signals(
            phase,
            events,
        ) == 1,
    decreases events.len(),
{
    if events.len() > 0 {
        lemma_end_signaled_at_most_once(phase, events.drop_last());
    }
}

/// A worker that exits signals the end of the stream exactly once, however
/// it came to exit and whatever is asked of it afterwards.
pub proof fn lemma_end_signaled_exactly_once(
    before: Seq<WorkerEvent>,
    after: Seq<WorkerEvent>,
)
    ensures
        end_signals(Phase::Starting, before.push(WorkerEvent::Exiting) + after) == 1,
{
    let events = before.push(WorkerEvent::Exiting) + after;
    lemma_exit_stops(Phase::Starting, before, after);
    lemma_end_signaled_at_most_once(Phase::Starting, events);
}

/// After an exit the worker is stopped, whatever follows.
proof fn lemma_exit_stops(phase: Phase, before: Seq<WorkerEvent>, after: Seq<WorkerEvent>)
    ensures
        phase_after(phase, before.push(WorkerEvent::Exiting) + after) == Phase::Stopped,
    decreases after.len(),
{
    let events = before.push(WorkerEvent::Exiting) + after;
    if after.len() == 0 {
        assert(events =~= before.push(WorkerEvent::Exiting));
        assert(events.drop_last() =~= before);
    } else {
        assert(events.drop_last() =~= before.push(WorkerEvent::Exiting) + after.drop_last());
        lemma_exit_stops(phase, before, after.drop_last());
    }
}

} // verus!
