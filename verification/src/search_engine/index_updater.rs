use vstd::prelude::*;
use tantivy::TantivyError;
use crate::errors::{SummaError, SummaResult};

verus! {

/// What an attempt to commit ends with, given what the engine's writer
/// answered: the stamp of the commit where it went through. A failure of a
/// best-effort commit is dropped, so that a schedule of commits outlives
/// it; any other failure is handed on.
pub fn commit_outcome(committed: Result<u64, TantivyError>, best_effort: bool) -> (outcome:
    SummaResult<Option<u64>>)
    ensures
        outcome == match committed {
            Ok(opstamp) => Ok::<Option<u64>, SummaError>(Some(opstamp)),
            Err(failure) => if best_effort {
                Ok(None)
            } else {
                Err(SummaError::EngineFailure(failure))
            },
        },
{
    match committed {
        Ok(opstamp) => Ok(Some(opstamp)),
        Err(failure) => if best_effort {
            Ok(None)
        } else {
            Err(SummaError::EngineFailure(failure))
        },
    }
}

/// What the last commit of an index ends with: it is never best-effort,
/// since what is not committed when an index stops is lost.
pub fn last_commit_outcome(committed: Result<u64, TantivyError>) -> (outcome: SummaResult<()>)
    ensures
        outcome == match committed {
            Ok(_) => Ok::<(), SummaError>(()),
            Err(failure) => Err(SummaError::EngineFailure(failure)),
        },
{
    match commit_outcome(committed, false) {
        Ok(_) => Ok(()),
        Err(failure) => Err(failure),
    }
}

/// One step of a commit on an index that sources of documents are attached
/// to.
#[derive(Clone, Copy, Debug, PartialEq, Eq, Structural)]
pub enum CommitStep {
    /// Hand what the sources delivered so far to the writer.
    CollectDocuments,
    /// Commit the writer.
    Commit,
    /// Tell the sources that what they delivered is durable.
    Acknowledge,
}

/// One commit, step by step: documents are collected, the writer commits,
/// and only a commit that went through is acknowledged to the sources. A
/// step that fails ends the round.
pub struct CommitRound {
    best_effort: bool,
    next: Option<CommitStep>,
    committed: Option<u64>,
    failure: Option<TantivyError>,
}

impl CommitRound {
    #[verifier::type_invariant]
    spec fn well_formed(&self) -> bool {
        &&& self.failure is Some ==> self.next is None && self.committed is None
        &&& self.committed is Some <==> (self.failure is None && (self.next is None || self.next
            == Some(CommitStep::Acknowledge)))
    }

    /// Whether a failure of this round is dropped.
    pub closed spec fn spec_best_effort(&self) -> bool {
        self.best_effort
    }

    /// The step to take next, if the round is not over.
    pub closed spec fn spec_next_step(&self) -> Option<CommitStep> {
        self.next
    }

    /// The stamp of the commit, once it went through.
    pub closed spec fn spec_committed(&self) -> Option<u64> {
        self.committed
    }

    /// The failure of the step that failed, if one did.
    pub closed spec fn spec_failure(&self) -> Option<TantivyError> {
        self.failure
    }

    /// What the round ends with.
    pub open spec fn spec_outcome(&self) -> SummaResult<Option<u64>> {
        match self.spec_failure() {
            Some(failure) => if self.spec_best_effort() {
                Ok(None)
            } else {
                Err(SummaError::EngineFailure(failure))
            },
            None => Ok(self.spec_committed()),
        }
    }

    /// Begins a round. The failure of a best-effort round is dropped at its
    /// end, so that a schedule of commits outlives it.
    pub fn begin(best_effort: bool) -> (round: CommitRound)
        ensures
            round.spec_best_effort() == best_effort,
            round.spec_next_step() == Some(CommitStep::CollectDocuments),
            round.spec_committed() is None,
            round.spec_failure() is None,
    {
        CommitRound {
            best_effort,
            next: Some(CommitStep::CollectDocuments),
            committed: None,
            failure: None,
        }
    }

    /// The step to take next. The sources are told of a commit only after
    /// it went through.
    pub fn next_step(&self) -> (step: Option<CommitStep>)
        ensures
            step == self.spec_next_step(),
            step == Some(CommitStep::Acknowledge) ==> self.spec_committed() is Some
                && self.spec_failure() is None,
            self.spec_failure() is Some ==> step is None,
    {
        proof {
            use_type_invariant(self);
        }
        self.next
    }

    /// Takes in how collecting the documents went. Where that was not the
    /// step to take, nothing changes.
    pub fn record_collected(&mut self, outcome: Result<(), TantivyError>)
        ensures
            final(self).spec_best_effort() == old(self).spec_best_effort(),
            old(self).spec_next_step() != Some(CommitStep::CollectDocuments) ==> *final(self)
                == *old(self),
            old(self).spec_next_step() == Some(CommitStep::CollectDocuments) ==> {
                &&& final(self).spec_committed() is None
                &&& match outcome {
                    Ok(_) => {
                        &&& final(self).spec_next_step() == Some(CommitStep::Commit)
                        &&& final(self).spec_failure() is None
                    },
                    Err(failure) => {
                        &&& final(self).spec_next_step() is None
                        &&& final(self).spec_failure() == Some(failure)
                    },
                }
            },
    {
        proof {
            use_type_invariant(&*self);
        }
        match self.next {
            Some(CommitStep::CollectDocuments) => match outcome {
                Ok(_) => {
                    self.next = Some(CommitStep::Commit);
                },
                Err(failure) => {
                    *self = CommitRound {
                        best_effort: self.best_effort,
                        next: None,
                        committed: None,
                        failure: Some(failure),
                    };
                },
            },
            _ => {},
        }
    }

    /// Takes in what the writer answered to the commit. Where that was not
    /// the step to take, nothing changes.
    pub fn record_committed(&mut self, outcome: Result<u64, TantivyError>)
        ensures
            final(self).spec_best_effort() == old(self).spec_best_effort(),
            old(self).spec_next_step() != Some(CommitStep::Commit) ==> *final(self) == *old(self),
            old(self).spec_next_step() == Some(CommitStep::Commit) ==> match outcome {
                Ok(opstamp) => {
                    &&& final(self).spec_next_step() == Some(CommitStep::Acknowledge)
                    &&& final(self).spec_committed() == Some(opstamp)
                    &&& final(self).spec_failure() is None
                },
                Err(failure) => {
                    &&& final(self).spec_next_step() is None
                    &&& final(self).spec_committed() is None
                    &&& final(self).spec_failure() == Some(failure)
                },
            },
    {
        proof {
            use_type_invariant(&*self);
        }
        match self.next {
            Some(CommitStep::Commit) => match outcome {
                Ok(opstamp) => {
                    *self = CommitRound {
                        best_effort: self.best_effort,
                        next: Some(CommitStep::Acknowledge),
                        committed: Some(opstamp),
                        failure: None,
                    };
                },
                Err(failure) => {
                    *self = CommitRound {
                        best_effort: self.best_effort,
                        next: None,
                        committed: None,
                        failure: Some(failure),
                    };
                },
            },
            _ => {},
        }
    }

    /// Takes in that the sources were told. Where that was not the step to
    /// take, nothing changes.
    pub fn record_acknowledged(&mut self)
        ensures
            final(self).spec_best_effort() == old(self).spec_best_effort(),
            final(self).spec_committed() == old(self).spec_committed(),
            final(self).spec_failure() == old(self).spec_failure(),
            old(self).spec_next_step() != Some(CommitStep::Acknowledge) ==> {
                *final(self) == *old(self)
            },
            old(self).spec_next_step() == Some(CommitStep::Acknowledge) ==> {
                final(self).spec_next_step() is None
            },
    {
        proof {
            use_type_invariant(&*self);
        }
        match self.next {
            Some(CommitStep::Acknowledge) => {
                self.next = None;
            },
            _ => {},
        }
    }

    /// What the round ends with, once no step is left to take: the stamp of
    /// the commit where it went through; nothing where a best-effort round
    /// failed; the failure of any other round.
    pub fn finish(self) -> (outcome: SummaResult<Option<u64>>)
        requires
            self.spec_next_step() is None,
        ensures
            outcome == self.spec_outcome(),
            self.spec_failure() is None ==> outcome matches Ok(Some(_)),
    {
        proof {
            use_type_invariant(&self);
        }
        match self.failure {
            Some(failure) => if self.best_effort {
                Ok(None)
            } else {
                Err(SummaError::EngineFailure(failure))
            },
            None => Ok(self.committed),
        }
    }
}

} // verus!
