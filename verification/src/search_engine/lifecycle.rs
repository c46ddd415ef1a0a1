use vstd::prelude::*;
use crate::errors::{SummaError, SummaResult};

verus! {

/// Where an index stands between its creation and its end.
#[derive(Clone, Copy, Debug, PartialEq, Eq, Structural)]
pub enum HolderState {
    /// Nothing exists yet.
    Uninitialized,
    /// The configuration is persisted and the empty index is on disk; no
    /// handle is open.
    Created,
    /// Engine handle, reader, updater and consumers are live, and so is the
    /// commit schedule if one is configured.
    Opened,
    /// Queries and updates are taken.
    Serving,
    /// Being stopped: the commit schedule and the last commit are under
    /// way.
    Stopping,
    /// Stopped for good; the data is kept and can be opened again.
    Stopped,
    /// Stopped, and the data is removed.
    Deleted,
}

/// What can be done to an index as a whole.
#[derive(Clone, Copy, Debug, PartialEq, Eq, Structural)]
pub enum HolderOperation {
    /// Persist the configuration and lay out an empty index on disk.
    Create,
    /// Attach to what is on disk: handles, reader, updater, consumers, and
    /// the commit schedule if one is configured.
    Open,
    /// Begin to take queries and updates.
    Serve,
    /// Stop the commit schedule and commit for the last time.
    Stop,
    /// Stop, then remove what is on disk.
    Delete,
}

/// The state that `operation` leaves an index in when it goes through, or
/// nothing where an index in `state` does not admit it.
pub open spec fn spec_state_after_operation(state: HolderState, operation: HolderOperation) -> Option<
    HolderState,
> {
    match (state, operation) {
        (HolderState::Uninitialized, HolderOperation::Create) => Some(HolderState::Created),
        (HolderState::Created, HolderOperation::Open) => Some(HolderState::Opened),
        (HolderState::Stopped, HolderOperation::Open) => Some(HolderState::Opened),
        (HolderState::Opened, HolderOperation::Serve) => Some(HolderState::Serving),
        (HolderState::Opened, HolderOperation::Stop) => Some(HolderState::Stopped),
        (HolderState::Serving, HolderOperation::Stop) => Some(HolderState::Stopped),
        (HolderState::Opened, HolderOperation::Delete) => Some(HolderState::Deleted),
        (HolderState::Serving, HolderOperation::Delete) => Some(HolderState::Deleted),
        _ => None,
    }
}

impl HolderState {
    /// The state that `operation` leaves an index in when it goes through,
    /// or nothing where an index in this state does not admit it.
    pub fn after(self, operation: HolderOperation) -> (next: Option<HolderState>)
        ensures
            next == spec_state_after_operation(self, operation),
    {
        match (self, operation) {
            (HolderState::Uninitialized, HolderOperation::Create) => Some(HolderState::Created),
            (HolderState::Created, HolderOperation::Open) => Some(HolderState::Opened),
            (HolderState::Stopped, HolderOperation::Open) => Some(HolderState::Opened),
            (HolderState::Opened, HolderOperation::Serve) => Some(HolderState::Serving),
            (HolderState::Opened, HolderOperation::Stop) => Some(HolderState::Stopped),
            (HolderState::Serving, HolderOperation::Stop) => Some(HolderState::Stopped),
            (HolderState::Opened, HolderOperation::Delete) => Some(HolderState::Deleted),
            (HolderState::Serving, HolderOperation::Delete) => Some(HolderState::Deleted),
            _ => None,
        }
    }

    /// Whether queries and updates are taken.
    pub fn is_serving(self) -> (serving: bool)
        ensures
            serving == (self == HolderState::Serving),
    {
        match self {
            HolderState::Serving => true,
            _ => false,
        }
    }
}

/// One step of taking an index down.
#[derive(Clone, Copy, Debug, PartialEq, Eq, Structural)]
pub enum TeardownStep {
    /// Send the shutdown signal to the commit schedule and await its loop.
    StopAutocommit,
    /// Take the updater back and commit for the last time.
    FinalCommit,
    /// Remove everything that the index has on disk.
    RemoveStorage,
}

/// The steps that take an index down, in their order: the commit schedule
/// stops first, if there is one, so that nothing else holds the updater when
/// the last commit is made; storage is removed last, and only on request.
pub open spec fn spec_teardown_plan(has_autocommit: bool, remove_storage: bool) -> Seq<
    TeardownStep,
> {
    let stop_schedule = if has_autocommit {
        seq![TeardownStep::StopAutocommit]
    } else {
        Seq::<TeardownStep>::empty()
    };
    let removal = if remove_storage {
        seq![TeardownStep::RemoveStorage]
    } else {
        Seq::<TeardownStep>::empty()
    };
    stop_schedule + seq![TeardownStep::FinalCommit] + removal
}

/// The state that an index is in once `step` went through.
pub open spec fn spec_state_after_step(step: TeardownStep) -> HolderState {
    match step {
        TeardownStep::StopAutocommit => HolderState::Stopping,
        TeardownStep::FinalCommit => HolderState::Stopped,
        TeardownStep::RemoveStorage => HolderState::Deleted,
    }
}

/// The state that an index is in once the steps of `done` went through, one
/// after the other, from the moment that its teardown began.
pub open spec fn spec_state_after_steps(done: Seq<TeardownStep>) -> HolderState {
    if done.len() == 0 {
        HolderState::Stopping
    } else {
        spec_state_after_step(done.last())
    }
}

/// The teardown of one index: which step is next, and how it went so far.
pub struct Teardown {
    steps: Vec<TeardownStep>,
    done: usize,
    failure: Option<SummaError>,
}

impl Teardown {
    /// The steps of the whole teardown.
    pub closed spec fn spec_plan(&self) -> Seq<TeardownStep> {
        self.steps@
    }

    /// How many steps went through.
    pub closed spec fn spec_done(&self) -> nat {
        self.done as nat
    }

    /// The error of the step that failed, if one did.
    pub closed spec fn spec_failure(&self) -> Option<SummaError> {
        self.failure
    }

    #[verifier::type_invariant]
    spec fn well_formed(&self) -> bool {
        self.done <= self.steps.len()
    }

    /// The step to take next: the first of the plan that did not go through
    /// yet, unless a step failed.
    pub open spec fn spec_next_step(&self) -> Option<TeardownStep> {
        if self.spec_failure() is None && self.spec_done() < self.spec_plan().len() {
            Some(self.spec_plan()[self.spec_done() as int])
        } else {
            None
        }
    }

    /// The state of the index as far as the teardown came.
    pub open spec fn spec_state(&self) -> HolderState {
        spec_state_after_steps(self.spec_plan().take(self.spec_done() as int))
    }

    /// Begins the teardown of an index that is served. `has_autocommit`
    /// says whether a commit schedule runs for it, `remove_storage` whether
    /// the index is to be deleted and not only stopped.
    pub fn begin(has_autocommit: bool, remove_storage: bool) -> (teardown: Teardown)
        ensures
            teardown.spec_plan() == spec_teardown_plan(has_autocommit, remove_storage),
            teardown.spec_done() == 0,
            teardown.spec_failure() is None,
    {
        let mut steps: Vec<TeardownStep> = Vec::new();
        if has_autocommit {
            steps.push(TeardownStep::StopAutocommit);
        }
        steps.push(TeardownStep::FinalCommit);
        if remove_storage {
            steps.push(TeardownStep::RemoveStorage);
        }
        assert(steps@ =~= spec_teardown_plan(has_autocommit, remove_storage));
        Teardown { steps, done: 0, failure: None }
    }

    pub fn next_step(&self) -> (step: Option<TeardownStep>)
        ensures
            step == self.spec_next_step(),
    {
        proof {
            use_type_invariant(self);
        }
        if self.failure.is_none() && self.done < self.steps.len() {
            Some(self.steps[self.done])
        } else {
            None
        }
    }

    /// Takes in how the step that was next went. After a success the step
    /// behind it is next. A failure ends the teardown: no further step is
    /// taken, and the index stays as the steps before left it. Where no
    /// step was next, nothing changes.
    pub fn record(&mut self, outcome: SummaResult<()>)
        ensures
            final(self).spec_plan() == old(self).spec_plan(),
            old(self).spec_next_step() is None ==> *final(self) == *old(self),
            old(self).spec_next_step() is Some ==> match outcome {
                Ok(_) => {
                    &&& final(self).spec_done() == old(self).spec_done() + 1
                    &&& final(self).spec_failure() is None
                },
                Err(failure) => {
                    &&& final(self).spec_done() == old(self).spec_done()
                    &&& final(self).spec_failure() == Some(failure)
                },
            },
    {
        proof {
            use_type_invariant(&*self);
        }
        if self.failure.is_none() && self.done < self.steps.len() {
            match outcome {
                Ok(_) => {
                    self.done = self.done + 1;
                },
                Err(failure) => {
                    self.failure = Some(failure);
                },
            }
        }
    }

    /// The state of the index as far as the teardown came.
    pub fn state(&self) -> (state: HolderState)
        ensures
            state == self.spec_state(),
    {
        proof {
            use_type_invariant(self);
        }
        if self.done == 0 {
            HolderState::Stopping
        } else {
            assert(self.steps@.take(self.done as int).last() == self.steps@[self.done - 1]);
            match self.steps[self.done - 1] {
                TeardownStep::StopAutocommit => HolderState::Stopping,
                TeardownStep::FinalCommit => HolderState::Stopped,
                TeardownStep::RemoveStorage => HolderState::Deleted,
            }
        }
    }

    /// What the teardown ends with, once no step is left to take: the error
    /// of the step that failed, or success.
    pub fn finish(self) -> (outcome: SummaResult<()>)
        requires
            self.spec_next_step() is None,
        ensures
            outcome == match self.spec_failure() {
                Some(failure) => Err::<(), SummaError>(failure),
                None => Ok(()),
            },
    {
        match self.failure {
            Some(failure) => Err(failure),
            None => Ok(()),
        }
    }
}

/// In every teardown the last commit is made, once the commit schedule
/// has stopped and before storage is removed. The schedule is stopped
/// exactly where one runs, storage removed exactly where that is asked for.
pub proof fn lemma_teardown_order(has_autocommit: bool, remove_storage: bool)
    ensures
        ({
            let plan = spec_teardown_plan(has_autocommit, remove_storage);
            &&& plan.contains(TeardownStep::FinalCommit)
            &&& plan.contains(TeardownStep::StopAutocommit) <==> has_autocommit
            &&& plan.contains(TeardownStep::RemoveStorage) <==> remove_storage
            &&& forall|i: int, j: int|
                0 <= i < plan.len() && 0 <= j < plan.len() && plan[i] == TeardownStep::StopAutocommit
                    && plan[j] == TeardownStep::FinalCommit ==> i < j
            &&& forall|i: int, j: int|
                0 <= i < plan.len() && 0 <= j < plan.len() && plan[i] == TeardownStep::FinalCommit
                    && plan[j] == TeardownStep::RemoveStorage ==> i < j
        }),
{
    let plan = spec_teardown_plan(has_autocommit, remove_storage);
    if has_autocommit {
        assert(plan[0] == TeardownStep::StopAutocommit);
        assert(plan[1] == TeardownStep::FinalCommit);
    } else {
        assert(plan[0] == TeardownStep::FinalCommit);
    }
    if remove_storage {
        assert(plan[plan.len() - 1] == TeardownStep::RemoveStorage);
    }
}

/// A teardown whose steps all went through leaves the index as the
/// operation that began it says: stopped, or deleted where its storage was
/// to be removed. Short of that the index is not deleted, and it is stopped
/// only if the last commit went through.
pub proof fn lemma_teardown_states(has_autocommit: bool, remove_storage: bool, done: int)
    requires
        0 <= done <= spec_teardown_plan(has_autocommit, remove_storage).len(),
    ensures
        ({
            let plan = spec_teardown_plan(has_autocommit, remove_storage);
            let state = spec_state_after_steps(plan.take(done));
            let operation = if remove_storage {
                HolderOperation::Delete
            } else {
                HolderOperation::Stop
            };
            &&& done == plan.len() ==> Some(state) == spec_state_after_operation(
                HolderState::Serving,
                operation,
            )
            &&& state == HolderState::Deleted ==> done == plan.len() && remove_storage
            &&& state == HolderState::Stopped ==> plan.take(done).contains(
                TeardownStep::FinalCommit,
            )
            &&& state == HolderState::Stopping || state == HolderState::Stopped || state
                == HolderState::Deleted
        }),
{
    let plan = spec_teardown_plan(has_autocommit, remove_storage);
    if done > 0 {
        assert(plan.take(done).last() == plan[done - 1]);
        assert(plan.take(done)[done - 1] == plan[done - 1]);
    }
}

} // verus!
