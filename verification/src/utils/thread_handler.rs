use vstd::prelude::*;
use async_broadcast::Sender;
use tokio::task::{JoinError, JoinHandle};
use crate::errors::{SummaError, SummaResult};

verus! {

/// Handle of a spawned task of `tokio`.
#[verifier::external_type_specification]
#[verifier::external_body]
#[verifier::reject_recursive_types(T)]
pub struct ExJoinHandle<T>(tokio::task::JoinHandle<T>);

/// Sending half of a broadcast channel of `async_broadcast`.
#[verifier::external_type_specification]
#[verifier::external_body]
#[verifier::reject_recursive_types(T)]
pub struct ExSender<T>(async_broadcast::Sender<T>);

/// Signals broadcast to every background loop that listens on a shutdown
/// channel.
#[derive(Clone, Copy, Debug, PartialEq, Eq, Structural)]
pub enum ControlMessage {
    Shutdown,
}

/// Holds `JoinHandle` together with its `shutdown_trigger`
pub struct ThreadHandler {
    join_handle: JoinHandle<SummaResult<()>>,
    shutdown_trigger: Sender<ControlMessage>,
}

impl ThreadHandler {
    pub closed spec fn spec_join_handle(&self) -> JoinHandle<SummaResult<()>> {
        self.join_handle
    }

    pub closed spec fn spec_shutdown_trigger(&self) -> Sender<ControlMessage> {
        self.shutdown_trigger
    }

    pub fn new(join_handle: JoinHandle<SummaResult<()>>, shutdown_trigger: Sender<ControlMessage>) -> (handler:
        ThreadHandler)
        ensures
            handler.spec_join_handle() == join_handle,
            handler.spec_shutdown_trigger() == shutdown_trigger,
    {
        ThreadHandler { join_handle, shutdown_trigger }
    }

    /// Gives up the pair, for the caller to send the signal on the one and
    /// to await the other.
    pub fn into_parts(self) -> (parts: (JoinHandle<SummaResult<()>>, Sender<ControlMessage>))
        ensures
            parts.0 == self.spec_join_handle(),
            parts.1 == self.spec_shutdown_trigger(),
    {
        (self.join_handle, self.shutdown_trigger)
    }

    /// The signal that stopping a task broadcasts.
    pub fn stop_signal() -> (message: ControlMessage)
        ensures
            message == ControlMessage::Shutdown,
    {
        ControlMessage::Shutdown
    }

    /// What follows the broadcast of the signal: the task is awaited only if
    /// the signal went out; a signal that no channel took is a failure of the
    /// shutdown itself.
    pub fn signal_outcome(delivered: bool) -> (outcome: SummaResult<()>)
        ensures
            delivered ==> outcome is Ok,
            !delivered ==> outcome matches Err(SummaError::ShutdownFailure),
    {
        if delivered {
            Ok(())
        } else {
            Err(SummaError::ShutdownFailure)
        }
    }

    /// What stopping a task ends with, given what awaiting it gave: the
    /// task's own result where it ran to its end, a task failure where it
    /// panicked or was cancelled.
    pub fn join_outcome(joined: Result<SummaResult<()>, JoinError>) -> (outcome: SummaResult<()>)
        ensures
            outcome == match joined {
                Ok(task_result) => task_result,
                Err(failure) => Err(SummaError::TaskFailure(failure)),
            },
    {
        match joined {
            Ok(task_result) => task_result,
            Err(failure) => Err(SummaError::TaskFailure(failure)),
        }
    }
}

} // verus!
