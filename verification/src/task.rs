use crate::channel::{oneshot_pair, send_value};
use crate::task_error::{spec_message_for, TaskError, TaskErrorCode};
use crate::task_func::TaskFunc;
use vstd::prelude::*;

verus! {

/// Relies on crossbeam_utils::thread::scope, Scope::spawn and
/// ScopedJoinHandle::join: runs the action to completion inside a
/// recoverable-unwind boundary and waits for it. When the action returns, its
/// result comes back in `Ok`; when the action panics, the unwind stops at
/// this boundary — it never propagates to the caller — and `Err(())` comes
/// back.
#[verifier::external_body]
fn run_caught<T, F>(action: F) -> (r: Result<Result<T, TaskError>, ()>)
    where
        F: FnOnce() -> Result<T, TaskError> + Send,
        T: Send,
    requires
        call_requires(action, ()),
    ensures
        r matches Ok(v) ==> call_ensures(action, (), v),
{
    let outcome = crossbeam_utils::thread::scope(move |s| s.spawn(move |_| action()).join());
    match outcome {
        Ok(Ok(v)) => Ok(v),
        _ => Err(()),
    }
}

/// The value a finished task delivers to its completion handle: the action's
/// own result, unchanged, when the action completed (success or logical
/// error), and a `Panic`-coded error when the action panicked.
pub fn completion_value<T>(outcome: Result<Result<T, TaskError>, ()>) -> (r: Result<T, TaskError>)
    ensures
        outcome matches Ok(v) ==> r == v,
        outcome is Err ==> (r matches Err(e) && e.spec_code() == TaskErrorCode::Panic
            && e.spec_message() == spec_message_for(TaskErrorCode::Panic, None)
            && e.spec_detail() == None::<Seq<char>>),
{
    match outcome {
        Ok(result) => result,
        Err(()) => Err(TaskError::from(TaskErrorCode::Panic)),
    }
}

/// The binding of a user action to the producer half of its completion
/// channel: the one unit of work a task carries.
#[verifier::reject_recursive_types(T)]
struct TaskBody<T, F>
    where
        F: FnOnce() -> Result<T, TaskError> + Send,
        T: Send,
{
    action: F,
    sender: futures::channel::oneshot::Sender<Result<T, TaskError>>,
}

impl<T, F> TaskBody<T, F>
    where
        F: FnOnce() -> Result<T, TaskError> + Send,
        T: Send,
{
    #[verifier::type_invariant]
    spec fn inv(self) -> bool {
        call_requires(self.action, ())
    }
}

impl<T, F> TaskFunc for TaskBody<T, F>
    where
        F: FnOnce() -> Result<T, TaskError> + Send,
        T: Send,
{
    fn call_once(self: Box<Self>) {
        let this = *self;
        proof {
            use_type_invariant(&this);
        }
        let outcome = run_caught(this.action);
        let value = completion_value(outcome);
        let _ = send_value(this.sender, value);
    }
}

/// A single-use unit of work, exclusively owned, that may move wholesale
/// across threads and queues before some executor runs it. Once invoked it
/// resolves into a `Result<T, TaskError>` observable through its completion
/// handle; dropping it uninvoked instead disconnects the handle.
pub struct Task {
    action: Box<dyn TaskFunc>,
}

impl Task {
    /// Create a new task from a unit of work. The action runs only when the
    /// returned task is invoked; no work is performed here. The paired
    /// receiver is the completion handle: it observes the action's result,
    /// with a panic mapped to a `Panic`-coded error, or a disconnect if the
    /// task is dropped uninvoked.
    pub fn new<T, F>(action: F) -> (Task, futures::channel::oneshot::Receiver<Result<T, TaskError>>)
        where
            F: FnOnce() -> Result<T, TaskError> + Send + 'static,
            T: Send + 'static,
        requires
            call_requires(action, ()),
    {
        let (sx, rx) = oneshot_pair::<Result<T, TaskError>>();
        let body = TaskBody { action, sender: sx };
        let task = Task { action: Box::new(body) };
        (task, rx)
    }

    /// Run the task's action, consuming the task: the value no longer exists
    /// afterwards, so a second run is impossible. The action executes under
    /// the recoverable-unwind boundary, and what it produced — or the
    /// `Panic`-coded error standing for a caught panic — goes to the
    /// completion handle; a handle that was already dropped is silently
    /// ignored.
    pub fn call_once(self) {
        self.action.call_once()
    }
}

} // verus!
