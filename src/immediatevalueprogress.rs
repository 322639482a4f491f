use vstd::prelude::*;
use crate::progress::Progress;
use crate::promise::ImmediateValuePromise;
use crate::state::{value_of, BoxedSendError, DirectCacheAccess, ImmediateValueState};
use std::borrow::Cow;
use std::time::Instant;
use tokio::sync::mpsc::error::TryRecvError;
use tokio::sync::mpsc::{Receiver, Sender};

verus! {

#[verifier::external_type_specification]
#[verifier::external_body]
pub struct ExInstant(std::time::Instant);

/// Relies on `Instant::now`: reads the monotonic clock. Nothing is promised
/// of the value.
pub assume_specification[ std::time::Instant::now ]() -> Instant;

#[verifier::external_type_specification]
#[verifier::external_body]
#[verifier::reject_recursive_types(T)]
pub struct ExSender<T>(tokio::sync::mpsc::Sender<T>);

#[verifier::external_type_specification]
#[verifier::external_body]
#[verifier::reject_recursive_types(T)]
pub struct ExReceiver<T>(tokio::sync::mpsc::Receiver<T>);

#[verifier::external_type_specification]
#[verifier::external_body]
pub struct ExTryRecvError(tokio::sync::mpsc::error::TryRecvError);

/// The largest channel capacity tokio accepts (its semaphore's permit limit).
pub const MAX_BUFFER: usize = usize::MAX >> 3;

/// Relies on tokio's `mpsc::channel`: a bounded channel holding at most
/// `buffer` messages. It panics on a capacity of zero or above its
/// semaphore's limit of `usize::MAX >> 3` permits.
pub assume_specification<T>[ tokio::sync::mpsc::channel::<T> ](buffer: usize) -> (Sender<T>, Receiver<T>)
    requires
        0 < buffer <= MAX_BUFFER,
;

/// Relies on tokio's `Receiver::try_recv`: takes the oldest buffered message
/// without waiting, or reports that none is there right now. What it returns
/// depends on the producers, so nothing is promised of it.
pub assume_specification<T>[ tokio::sync::mpsc::Receiver::<T>::try_recv ](
    receiver: &mut Receiver<T>,
) -> Result<T, TryRecvError>;

/// A progress report: when it was made, how far the computation had come,
/// and a message.
#[derive(Debug)]
pub struct Status<M> {
    /// Time when this status was created
    pub time: Instant,
    /// Current progress
    pub progress: Progress,
    /// Message
    pub message: M,
}

impl<M> Status<M> {
    /// A status stamped with the current time.
    pub fn new(progress: Progress, message: M) -> (r: Status<M>)
        ensures
            r.progress == progress,
            r.message == message,
    {
        Status { progress, message, time: Instant::now() }
    }
}

/// A status whose message is either a static string or an owned one.
pub type StringStatus = Status<Cow<'static, str>>;

impl StringStatus {
    /// A status that borrows a static message, with no allocation.
    pub fn from_str(progress: Progress, static_message: &'static str) -> (r: StringStatus)
        ensures
            r.progress == progress,
            r.message == Cow::<'static, str>::Borrowed(static_message),
    {
        Status { message: Cow::Borrowed(static_message), time: Instant::now(), progress }
    }

    /// A status that owns its message.
    pub fn from_string(progress: Progress, message: String) -> (r: StringStatus)
        ensures
            r.progress == progress,
            r.message == Cow::<'static, str>::Owned(message),
    {
        Status { message: Cow::Owned(message), time: Instant::now(), progress }
    }
}

/// A promise together with the log of the progress reports its task has
/// sent. Each poll first moves every report that is waiting in the channel
/// to the log, in the order it was sent, then polls the promise.
#[verifier::reject_recursive_types(T)]
#[verifier::reject_recursive_types(M)]
pub struct ProgressTrackedImValProm<T, M> {
    promise: ImmediateValuePromise<T>,
    status: Vec<Status<M>>,
    receiver: Receiver<Status<M>>,
    capacity: Ghost<nat>,
}

impl<T, M> ProgressTrackedImValProm<T, M> {
    /// The reports logged so far, oldest first.
    pub closed spec fn history(&self) -> Seq<Status<M>> {
        self.status@
    }

    /// The progress of the newest logged report, in percent; zero while the
    /// log is empty.
    pub open spec fn reported_percent(&self) -> int {
        if self.history().len() == 0 {
            0
        } else {
            self.history().last().progress.percent_spec()
        }
    }

    /// The capacity the channel was opened with.
    pub closed spec fn capacity(&self) -> nat {
        self.capacity@
    }

    /// The state of the tracked promise.
    pub closed spec fn state(&self) -> ImmediateValueState<T> {
        self.promise.state()
    }

    /// Opens a channel of capacity `buffer` and hands its sending half to
    /// `creator`, which returns the promise to track. The log starts empty.
    pub fn new<F>(creator: F, buffer: usize) -> (r: ProgressTrackedImValProm<T, M>)
        where
            F: FnOnce(Sender<Status<M>>) -> ImmediateValuePromise<T>,
        requires
            0 < buffer <= MAX_BUFFER,
            forall|s: Sender<Status<M>>| creator.requires((s,)),
        ensures
            r.history().len() == 0,
            r.capacity() == buffer,
            exists|s: Sender<Status<M>>, p: ImmediateValuePromise<T>|
                creator.ensures((s,), p) && r.state() == p.state(),
    {
        let (sender, receiver) = tokio::sync::mpsc::channel(buffer);
        let promise = creator(sender);
        ProgressTrackedImValProm {
            receiver,
            status: Vec::new(),
            promise,
            capacity: Ghost(buffer as nat),
        }
    }

    /// All reports logged so far, oldest first.
    pub fn status_history(&self) -> (r: &[Status<M>])
        ensures
            r@ == self.history(),
    {
        self.status.as_slice()
    }

    /// The newest logged report, if any.
    pub fn last_status(&self) -> (r: Option<&Status<M>>)
        ensures
            match r {
                Some(s) => self.history().len() > 0 && *s == self.history().last(),
                None => self.history().len() == 0,
            },
    {
        if self.status.len() == 0 {
            None
        } else {
            Some(&self.status[self.status.len() - 1])
        }
    }

    /// Whether the promise holds a success value.
    pub fn finished(&self) -> (r: bool)
        ensures
            r == (self.state() is Success),
    {
        self.promise.get_value().is_some()
    }

    /// Takes in what one receive from the channel gave: a report goes to the
    /// end of the log and the drain goes on; an empty or closed channel ends
    /// the drain.
    pub fn log_received(&mut self, got: Result<Status<M>, TryRecvError>) -> (more: bool)
        requires
            old(self).history().len() < usize::MAX,
        ensures
            got is Ok ==> more && final(self).history() == old(self).history().push(got->Ok_0),
            got is Err ==> !more && final(self).history() == old(self).history(),
            final(self).state() == old(self).state(),
            final(self).capacity() == old(self).capacity(),
    {
        match got {
            Ok(msg) => {
                self.status.push(msg);
                true
            },
            Err(_) => false,
        }
    }

    /// Moves every report waiting in the channel to the end of the log, in
    /// arrival order, without waiting for more, then polls the promise.
    pub fn poll_state(&mut self) -> (r: &ImmediateValueState<T>)
        ensures
            final(self).history().len() >= old(self).history().len(),
            final(self).history().subrange(0, old(self).history().len() as int)
                == old(self).history(),
            !(old(self).state() is Updating) ==> final(self).state() == old(self).state(),
            old(self).state() is Updating ==> !(final(self).state() is Empty),
            final(self).capacity() == old(self).capacity(),
            *r == final(self).state(),
    {
        let ghost before = self.history();
        // The log cannot outgrow the address space, which bounds the drain.
        while self.status.len() < usize::MAX
            invariant
                self.history().len() >= before.len(),
                self.history().subrange(0, before.len() as int) == before,
                self.state() == old(self).state(),
                self.capacity == old(self).capacity,
            decreases usize::MAX - self.status.len(),
        {
            let got = self.receiver.try_recv();
            if !self.log_received(got) {
                break;
            }
        }
        self.promise.poll_state()
    }

    /// The progress of the newest logged report, or zero while the log is empty.
    pub fn get_progress(&self) -> (r: Progress)
        ensures
            r.percent_spec() == self.reported_percent(),
            self.history().len() > 0 ==> r == self.history().last().progress,
    {
        if self.status.len() == 0 {
            Progress::default()
        } else {
            self.status[self.status.len() - 1].progress
        }
    }
}

impl<T, M> DirectCacheAccess<T, BoxedSendError> for ProgressTrackedImValProm<T, M> {
    open spec fn cached(&self) -> Option<Result<T, BoxedSendError>> {
        self.state().cached()
    }

    fn get_value_mut(&mut self) -> (r: Option<&mut T>)
        ensures
            final(self).history() == old(self).history(),
            r is None ==> final(self).state() == old(self).state(),
    {
        self.promise.get_value_mut()
    }

    fn get_value(&self) -> (r: Option<&T>) {
        self.promise.get_value()
    }

    fn get_result(&self) -> (r: Option<Result<&T, &BoxedSendError>>) {
        self.promise.get_result()
    }

    fn take_value(&mut self) -> (r: Option<T>)
        ensures
            final(self).history() == old(self).history(),
            old(self).state() is Success ==> final(self).state() is Empty,
            !(old(self).state() is Success) ==> final(self).state() == old(self).state(),
    {
        self.promise.take_value()
    }

    fn take_result(&mut self) -> (r: Option<Result<T, BoxedSendError>>)
        ensures
            final(self).history() == old(self).history(),
            old(self).state() is Updating ==> final(self).state() == old(self).state(),
            !(old(self).state() is Updating) ==> final(self).state() is Empty,
    {
        self.promise.take_result()
    }
}

/// A tracker that has logged nothing and whose task has not ended reports
/// zero progress, is not finished, and holds no value to read or take.
pub proof fn lemma_fresh_tracker<T, M>(w: ProgressTrackedImValProm<T, M>)
    requires
        w.history().len() == 0,
        w.state() is Updating,
    ensures
        w.reported_percent() == 0,
        !(w.state() is Success),
        value_of(w.cached()) is None,
{
}

} // verus!
