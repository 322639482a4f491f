use vstd::prelude::*;
use crate::state::{BoxedSendError, DirectCacheAccess, ImmediateValueState};
use std::future::Future;
use tokio::task::JoinHandle;

verus! {

#[verifier::external_type_specification]
#[verifier::external_body]
#[verifier::reject_recursive_types(T)]
pub struct ExJoinHandle<T>(tokio::task::JoinHandle<T>);

#[verifier::external_type_specification]
#[verifier::external_body]
pub struct ExJoinError(tokio::task::JoinError);

#[verifier::external_type_specification]
#[verifier::external_body]
pub struct ExRuntimeHandle(tokio::runtime::Handle);

#[verifier::external_type_specification]
#[verifier::external_body]
pub struct ExTryCurrentError(tokio::runtime::TryCurrentError);

/// Relies on tokio's `Handle::try_current`: the runtime this thread is
/// running in, or an error where there is none. It does not panic.
pub assume_specification[ tokio::runtime::Handle::try_current ]() -> Result<
    tokio::runtime::Handle,
    tokio::runtime::TryCurrentError,
>;

/// Relies on tokio's `Handle::spawn`: starts `future` as a task on that
/// runtime and returns the task's handle, which nothing else holds.
#[verifier::external_body]
fn spawn_on<F>(runtime: &tokio::runtime::Handle, future: F) -> JoinHandle<F::Output>
    where
        F: Future + Send + 'static,
        F::Output: Send + 'static,
{
    runtime.spawn(future)
}

/// What one non-blocking look at a task found.
#[verifier::reject_recursive_types(R)]
enum TaskPoll<R> {
    /// The task is still running; here is its handle back.
    Running(JoinHandle<R>),
    /// The task returned this output.
    Finished(R),
    /// The task panicked or was aborted; this is the runtime's description.
    Failed(String),
}

/// Relies on tokio's `Future` impl for `JoinHandle`: polled once with a waker
/// that does nothing, it never waits, and reports either that the task is
/// still running or how it ended; a task that panicked or was aborted comes
/// back as a `JoinError`, kept as its `Display` text. A handle whose task has
/// ended is consumed here, so that it is never polled again.
#[verifier::external_body]
fn poll_task<R>(handle: JoinHandle<R>) -> (r: TaskPoll<R>) {
    let mut handle = handle;
    let mut cx = std::task::Context::from_waker(std::task::Waker::noop());
    match std::pin::Pin::new(&mut handle).poll(&mut cx) {
        std::task::Poll::Pending => TaskPoll::Running(handle),
        std::task::Poll::Ready(Ok(out)) => TaskPoll::Finished(out),
        std::task::Poll::Ready(Err(e)) => TaskPoll::Failed(e.to_string()),
    }
}

/// A fallible task on a tokio runtime, polled without blocking; its result
/// is cached once it has arrived.
#[verifier::reject_recursive_types(T)]
pub struct ImmediateValuePromise<T> {
    state: ImmediateValueState<T>,
    task: Option<JoinHandle<Result<T, BoxedSendError>>>,
}

/// The description of the error a promise holds when it was made where no
/// tokio runtime could run its task.
pub const NO_RUNTIME: &'static str = "no tokio runtime is running on this thread";

impl<T> ImmediateValuePromise<T> {
    /// The state the last poll left.
    pub closed spec fn state(&self) -> ImmediateValueState<T> {
        self.state
    }

    /// Starts `updater` as a task on the tokio runtime of the current thread
    /// and tracks it. Where no runtime is running there, the promise holds
    /// an error that says so and nothing is started.
    pub fn new<F>(updater: F) -> (r: ImmediateValuePromise<T>)
        where
            F: Future<Output = Result<T, BoxedSendError>> + Send + 'static,
            T: Send + 'static,
        ensures
            r.state() is Updating || (r.state() matches ImmediateValueState::Error(e)
                && e.description_spec() == NO_RUNTIME@),
    {
        match tokio::runtime::Handle::try_current() {
            Ok(runtime) => {
                let handle = spawn_on(&runtime, updater);
                ImmediateValuePromise { state: ImmediateValueState::Updating, task: Some(handle) }
            },
            Err(_) => {
                let description = String::from_str(NO_RUNTIME);
                ImmediateValuePromise {
                    state: ImmediateValueState::Error(BoxedSendError::new(description)),
                    task: None,
                }
            },
        }
    }

    /// Takes in what one look at the running task found: a task still
    /// running keeps the promise `Updating`, an ended one settles it.
    fn absorb(&mut self, found: TaskPoll<Result<T, BoxedSendError>>)
        requires
            old(self).state() is Updating,
        ensures
            match found {
                TaskPoll::Running(h) => final(self).state() is Updating && final(self).task
                    == Some(h),
                TaskPoll::Finished(Ok(v)) => final(self).state() == ImmediateValueState::Success(
                    v,
                ),
                TaskPoll::Finished(Err(e)) => final(self).state() == ImmediateValueState::<
                    T,
                >::Error(e),
                TaskPoll::Failed(d) => final(self).state() matches ImmediateValueState::Error(e)
                    && e.description_spec() == d@,
            },
    {
        match found {
            TaskPoll::Running(h) => {
                self.task = Some(h);
            },
            TaskPoll::Finished(result) => {
                self.state.complete(result);
            },
            TaskPoll::Failed(description) => {
                self.state.complete(Err(BoxedSendError::new(description)));
            },
        }
    }

    /// Looks once, without waiting, whether a running task has ended, and
    /// caches its result if so. A terminal or empty state is kept as it is.
    pub fn poll_state(&mut self) -> (r: &ImmediateValueState<T>)
        ensures
            !(old(self).state() is Updating) ==> final(self).state() == old(self).state(),
            old(self).state() is Updating ==> !(final(self).state() is Empty),
            *r == final(self).state(),
    {
        if let ImmediateValueState::Updating = self.state {
            match self.task.take() {
                Some(handle) => self.absorb(poll_task(handle)),
                None => {},
            }
        }
        &self.state
    }
}

impl<T> DirectCacheAccess<T, BoxedSendError> for ImmediateValuePromise<T> {
    open spec fn cached(&self) -> Option<Result<T, BoxedSendError>> {
        self.state().cached()
    }

    fn get_value_mut(&mut self) -> (r: Option<&mut T>)
        ensures
            r is None ==> final(self).state() == old(self).state(),
    {
        self.state.get_value_mut()
    }

    fn get_value(&self) -> (r: Option<&T>) {
        self.state.get_value()
    }

    fn get_result(&self) -> (r: Option<Result<&T, &BoxedSendError>>) {
        self.state.get_result()
    }

    fn take_value(&mut self) -> (r: Option<T>)
        ensures
            old(self).state() is Success ==> final(self).state() is Empty,
            !(old(self).state() is Success) ==> final(self).state() == old(self).state(),
    {
        self.state.take_value()
    }

    fn take_result(&mut self) -> (r: Option<Result<T, BoxedSendError>>)
        ensures
            old(self).state() is Updating ==> final(self).state() == old(self).state(),
            !(old(self).state() is Updating) ==> final(self).state() is Empty,
    {
        self.state.take_result()
    }
}

} // verus!
