use vstd::prelude::*;

verus! {

/// The error of a failed computation, erased to its description so that
/// failures of any cause share one type that can move between threads.
#[derive(Debug)]
pub struct BoxedSendError {
    description: String,
}

impl BoxedSendError {
    /// The description this error was made with.
    pub closed spec fn description_spec(&self) -> Seq<char> {
        self.description@
    }

    pub fn new(description: String) -> (r: BoxedSendError)
        ensures
            r.description_spec() == description@,
    {
        BoxedSendError { description }
    }

    pub fn description(&self) -> (r: &str)
        ensures
            r@ == self.description_spec(),
    {
        self.description.as_str()
    }
}

/// The state of a fallible computation as seen by a poller.
#[derive(Debug)]
pub enum ImmediateValueState<T> {
    /// The computation is running and has not produced a result yet.
    Updating,
    /// The computation succeeded with this value.
    Success(T),
    /// The computation failed with this error.
    Error(BoxedSendError),
    /// No result is held: none was tracked, or it has been taken out.
    Empty,
}

/// The success value of a cache, if it holds one.
pub open spec fn value_of<T, E>(c: Option<Result<T, E>>) -> Option<T> {
    match c {
        Some(Ok(v)) => Some(v),
        _ => None,
    }
}

/// A cache after its success value has been taken out: empty where it held
/// one, untouched otherwise.
pub open spec fn after_take_value<T, E>(c: Option<Result<T, E>>) -> Option<Result<T, E>> {
    match c {
        Some(Ok(_)) => None,
        _ => c,
    }
}

/// Direct access to the terminal result that a holder has cached.
pub trait DirectCacheAccess<T, E> {
    /// The cached terminal result: `None` while there is none.
    spec fn cached(&self) -> Option<Result<T, E>>;

    /// A mutable borrow of the success value; writes through it land in the cache.
    fn get_value_mut(&mut self) -> (r: Option<&mut T>)
        ensures
            match r {
                Some(m) => old(self).cached() == Some(Ok::<T, E>(*m))
                    && final(self).cached() == Some(Ok::<T, E>(*final(m))),
                None => value_of(old(self).cached()) is None
                    && final(self).cached() == old(self).cached(),
            },
    ;

    /// A borrow of the success value.
    fn get_value(&self) -> (r: Option<&T>)
        ensures
            match r {
                Some(v) => value_of(self.cached()) == Some(*v),
                None => value_of(self.cached()) is None,
            },
    ;

    /// A borrow of the whole result, success or error.
    fn get_result(&self) -> (r: Option<Result<&T, &E>>)
        ensures
            match r {
                Some(Ok(v)) => self.cached() == Some(Ok::<T, E>(*v)),
                Some(Err(e)) => self.cached() == Some(Err::<T, E>(*e)),
                None => self.cached() is None,
            },
    ;

    /// Moves the success value out, leaving the cache empty; `None`, with
    /// nothing changed, where there is no success value.
    fn take_value(&mut self) -> (r: Option<T>)
        ensures
            r == value_of(old(self).cached()),
            final(self).cached() == after_take_value(old(self).cached()),
    ;

    /// Moves the whole result out, leaving the cache empty. A holder whose
    /// computation is still running returns `None` and keeps tracking it.
    fn take_result(&mut self) -> (r: Option<Result<T, E>>)
        ensures
            r == old(self).cached(),
            final(self).cached() is None,
    ;
}

impl<T> ImmediateValueState<T> {
    /// Records the result of a computation that has just ended. Only a
    /// running computation takes it: any other state stays as it is.
    pub fn complete(&mut self, result: Result<T, BoxedSendError>)
        ensures
            *old(self) is Updating ==> *final(self) == match result {
                Ok(v) => ImmediateValueState::Success(v),
                Err(e) => ImmediateValueState::<T>::Error(e),
            },
            !(*old(self) is Updating) ==> *final(self) == *old(self),
    {
        if let ImmediateValueState::Updating = self {
            *self = match result {
                Ok(v) => ImmediateValueState::Success(v),
                Err(e) => ImmediateValueState::Error(e),
            };
        }
    }
}

impl<T> DirectCacheAccess<T, BoxedSendError> for ImmediateValueState<T> {
    open spec fn cached(&self) -> Option<Result<T, BoxedSendError>> {
        match self {
            ImmediateValueState::Success(v) => Some(Ok(*v)),
            ImmediateValueState::Error(e) => Some(Err(*e)),
            _ => None,
        }
    }

    fn get_value_mut(&mut self) -> (r: Option<&mut T>)
        ensures
            r is None ==> *final(self) == *old(self),
    {
        match self {
            ImmediateValueState::Success(v) => Some(v),
            _ => None,
        }
    }

    fn get_value(&self) -> (r: Option<&T>) {
        match self {
            ImmediateValueState::Success(v) => Some(v),
            _ => None,
        }
    }

    fn get_result(&self) -> (r: Option<Result<&T, &BoxedSendError>>) {
        match self {
            ImmediateValueState::Success(v) => Some(Ok(v)),
            ImmediateValueState::Error(e) => Some(Err(e)),
            _ => None,
        }
    }

    fn take_value(&mut self) -> (r: Option<T>)
        ensures
            *old(self) is Success ==> *final(self) is Empty,
            !(*old(self) is Success) ==> *final(self) == *old(self),
    {
        if let ImmediateValueState::Success(_) = self {
            let mut taken = ImmediateValueState::Empty;
            core::mem::swap(self, &mut taken);
            match taken {
                ImmediateValueState::Success(v) => Some(v),
                _ => None,
            }
        } else {
            None
        }
    }

    fn take_result(&mut self) -> (r: Option<Result<T, BoxedSendError>>)
        ensures
            *old(self) is Updating ==> *final(self) == *old(self),
            !(*old(self) is Updating) ==> *final(self) is Empty,
    {
        if let ImmediateValueState::Updating = self {
            None
        } else {
            let mut taken = ImmediateValueState::Empty;
            core::mem::swap(self, &mut taken);
            match taken {
                ImmediateValueState::Success(v) => Some(Ok(v)),
                ImmediateValueState::Error(e) => Some(Err(e)),
                _ => None,
            }
        }
    }
}

/// Taking the success value succeeds at most once: after a take neither a
/// second take nor a read finds a value, and a take where there is no
/// success value changes nothing.
pub proof fn lemma_take_value_once<T, E>(c: Option<Result<T, E>>)
    ensures
        value_of(after_take_value(c)) is None,
        after_take_value(after_take_value(c)) == after_take_value(c),
        value_of(c) is None ==> after_take_value(c) == c,
{
}

} // verus!
