use vstd::prelude::*;

verus! {

/// Where the commit schedule of an index stands.
#[derive(Clone, Copy, Debug, PartialEq, Eq, Structural)]
pub enum SchedulerState {
    /// No interval is configured: nothing is scheduled, and no task exists.
    Idle,
    /// The interval ticks, and each tick commits.
    Running,
    /// The shutdown signal came: the loop is over.
    Stopped,
}

/// What the scheduler's loop can wake up to.
#[derive(Clone, Copy, Debug, PartialEq, Eq, Structural)]
pub enum SchedulerEvent {
    /// The interval elapsed.
    Tick,
    /// The shutdown signal arrived.
    Shutdown,
}

/// What the loop does on waking up.
#[derive(Clone, Copy, Debug, PartialEq, Eq, Structural)]
pub enum SchedulerAction {
    /// Commit through a shared handle to the updater, then wait again. A
    /// failure of a `best_effort` commit is logged and dropped.
    Commit { best_effort: bool },
    /// Leave the loop without committing; the final commit belongs to
    /// whoever stops the index.
    Exit,
    /// Nothing: no loop is running.
    Ignore,
}

/// The shortest interval between two commits, in milliseconds. A shorter
/// one that is configured is raised to it.
pub const SHORTEST_INTERVAL_MS: u64 = 1;

/// The interval that commits are made at where `configured` milliseconds
/// are asked for.
pub open spec fn spec_interval_ms_for(configured: u64) -> u64 {
    if configured < SHORTEST_INTERVAL_MS {
        SHORTEST_INTERVAL_MS
    } else {
        configured
    }
}

/// The state that follows `state` on `event`.
pub open spec fn spec_next_state(state: SchedulerState, event: SchedulerEvent) -> SchedulerState {
    match (state, event) {
        (SchedulerState::Running, SchedulerEvent::Tick) => SchedulerState::Running,
        (SchedulerState::Running, SchedulerEvent::Shutdown) => SchedulerState::Stopped,
        (SchedulerState::Idle, _) => SchedulerState::Idle,
        (SchedulerState::Stopped, _) => SchedulerState::Stopped,
    }
}

/// What the loop does in `state` on `event`.
pub open spec fn spec_action(state: SchedulerState, event: SchedulerEvent) -> SchedulerAction {
    match (state, event) {
        (SchedulerState::Running, SchedulerEvent::Tick) => SchedulerAction::Commit {
            best_effort: true,
        },
        (SchedulerState::Running, SchedulerEvent::Shutdown) => SchedulerAction::Exit,
        (SchedulerState::Idle, _) => SchedulerAction::Ignore,
        (SchedulerState::Stopped, _) => SchedulerAction::Ignore,
    }
}

/// The state after all of `events`, in their order, from `state` on.
pub open spec fn spec_state_after(state: SchedulerState, events: Seq<SchedulerEvent>) -> SchedulerState
    decreases events.len(),
{
    if events.len() == 0 {
        state
    } else {
        spec_next_state(spec_state_after(state, events.drop_last()), events.last())
    }
}

/// The periodic commits of one index: a loop that commits on every tick of
/// a fixed interval until it is told to shut down.
#[derive(Clone, Copy, Debug)]
pub struct AutocommitScheduler {
    state: SchedulerState,
    interval_ms: Option<u64>,
}

impl AutocommitScheduler {
    #[verifier::type_invariant]
    spec fn well_formed(&self) -> bool {
        self.interval_ms matches Some(interval) ==> interval >= SHORTEST_INTERVAL_MS
    }

    pub closed spec fn spec_state(&self) -> SchedulerState {
        self.state
    }

    pub closed spec fn spec_interval_ms(&self) -> Option<u64> {
        self.interval_ms
    }

    /// The schedule that a configuration asks for: one that runs if an
    /// interval is configured, none otherwise. An interval below the
    /// shortest is raised to the shortest.
    pub fn new(autocommit_interval_ms: Option<u64>) -> (scheduler: AutocommitScheduler)
        ensures
            scheduler.spec_interval_ms() == match autocommit_interval_ms {
                Some(configured) => Some(spec_interval_ms_for(configured)),
                None => None,
            },
            scheduler.spec_state() == if autocommit_interval_ms is Some {
                SchedulerState::Running
            } else {
                SchedulerState::Idle
            },
    {
        match autocommit_interval_ms {
            Some(configured) => {
                let interval_ms: u64 = if configured < SHORTEST_INTERVAL_MS {
                    SHORTEST_INTERVAL_MS
                } else {
                    configured
                };
                AutocommitScheduler { state: SchedulerState::Running, interval_ms: Some(interval_ms) }
            },
            None => AutocommitScheduler { state: SchedulerState::Idle, interval_ms: None },
        }
    }

    pub fn state(&self) -> (state: SchedulerState)
        ensures
            state == self.spec_state(),
    {
        self.state
    }

    /// The interval between two commits, in milliseconds; never zero.
    pub fn interval_ms(&self) -> (interval_ms: Option<u64>)
        ensures
            interval_ms == self.spec_interval_ms(),
            interval_ms matches Some(interval) ==> interval >= SHORTEST_INTERVAL_MS,
    {
        proof {
            use_type_invariant(self);
        }
        self.interval_ms
    }

    /// Whether a loop has to be spawned for this schedule.
    pub fn is_running(&self) -> (running: bool)
        ensures
            running == (self.spec_state() == SchedulerState::Running),
    {
        match self.state {
            SchedulerState::Running => true,
            _ => false,
        }
    }

    /// Takes one event and says what the loop does about it.
    pub fn on_event(&mut self, event: SchedulerEvent) -> (action: SchedulerAction)
        ensures
            action == spec_action(old(self).spec_state(), event),
            final(self).spec_state() == spec_next_state(old(self).spec_state(), event),
            final(self).spec_interval_ms() == old(self).spec_interval_ms(),
    {
        proof {
            use_type_invariant(&*self);
        }
        match (self.state, event) {
            (SchedulerState::Running, SchedulerEvent::Tick) => SchedulerAction::Commit {
                best_effort: true,
            },
            (SchedulerState::Running, SchedulerEvent::Shutdown) => {
                self.state = SchedulerState::Stopped;
                SchedulerAction::Exit
            },
            _ => SchedulerAction::Ignore,
        }
    }
}

/// A schedule that was told to shut down is over, whatever it was doing, and
/// leaves its loop without a commit of its own.
pub proof fn lemma_shutdown_ends_schedule(state: SchedulerState)
    ensures
        spec_next_state(state, SchedulerEvent::Shutdown) != SchedulerState::Running,
        state == SchedulerState::Running ==> spec_next_state(state, SchedulerEvent::Shutdown)
            == SchedulerState::Stopped && spec_action(state, SchedulerEvent::Shutdown)
            == SchedulerAction::Exit,
        !(spec_action(state, SchedulerEvent::Shutdown) is Commit),
{
}

/// Every commit that a schedule asks for is best-effort, and it asks for
/// one only while it runs.
pub proof fn lemma_commits_are_best_effort(state: SchedulerState, event: SchedulerEvent)
    ensures
        spec_action(state, event) matches SchedulerAction::Commit { best_effort } ==> best_effort
            && state == SchedulerState::Running && event == SchedulerEvent::Tick,
{
}

/// Once the shutdown signal is among the events that a schedule took, the
/// schedule does not run, whatever came before the signal and after it: no
/// later tick commits.
pub proof fn lemma_no_commit_after_shutdown(
    state: SchedulerState,
    events: Seq<SchedulerEvent>,
    event: SchedulerEvent,
)
    requires
        events.contains(SchedulerEvent::Shutdown),
    ensures
        spec_state_after(state, events) != SchedulerState::Running,
        spec_action(spec_state_after(state, events), event) == SchedulerAction::Ignore,
    decreases events.len(),
{
    let i = choose|i: int| 0 <= i < events.len() && events[i] == SchedulerEvent::Shutdown;
    if events.last() != SchedulerEvent::Shutdown {
        assert(i < events.len() - 1);
        assert(events.drop_last()[i] == SchedulerEvent::Shutdown);
        lemma_no_commit_after_shutdown(state, events.drop_last(), event);
    }
}

} // verus!
