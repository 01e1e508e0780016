//! Where a request to the store runs.
//!
//! A host that has a scheduler of its own runs the request on it. Without
//! one, the request runs on a scheduler that the engine owns, which is
//! started when it is first needed and shared from then on. A request that
//! the scheduler did not run is told apart from one that the store failed.

use crate::store::StoreFault;
use crate::store::StoreFaultView;
use vstd::prelude::*;

verus! {

/// Number of worker threads of the scheduler that the engine owns.
pub const STORAGE_WORKER_THREADS: usize = 2;

/// Where to run a request.
#[derive(Clone, Copy, Debug, PartialEq, Eq, Structural)]
pub enum Dispatch {
    /// On the scheduler of the host, in the calling task.
    Inline,
    /// On the engine's own scheduler, which is to be started first.
    StartOwned,
    /// On the engine's own scheduler, which runs already.
    Owned,
}

/// Decides where requests run, and remembers whether the engine's own
/// scheduler was started.
#[derive(Debug)]
pub struct ExecutionDispatcher {
    pub owned_is_started: bool,
}

/// Where a request runs, given whether the engine's own scheduler was
/// started and whether the host has a scheduler.
pub open spec fn dispatch_spec(owned_is_started: bool, ambient_is_active: bool) -> Dispatch {
    if ambient_is_active {
        Dispatch::Inline
    } else if owned_is_started {
        Dispatch::Owned
    } else {
        Dispatch::StartOwned
    }
}

/// What a request brought, given how its run ended: the scheduler's failure
/// to run it, the store's failure, or the store's answer.
pub open spec fn settle_spec<T>(ran: Result<Result<T, String>, String>) -> Result<
    T,
    StoreFaultView,
> {
    match ran {
        Err(cause) => Err(StoreFaultView::Dispatch { cause: cause@ }),
        Ok(Err(message)) => Err(StoreFaultView::Service { message: message@ }),
        Ok(Ok(answer)) => Ok(answer),
    }
}

impl ExecutionDispatcher {
    /// A dispatcher whose own scheduler is not started.
    pub fn new() -> (res: ExecutionDispatcher)
        ensures
            !res.owned_is_started,
    {
        ExecutionDispatcher { owned_is_started: false }
    }

    /// Decides where the next request runs. The engine's own scheduler is
    /// started by the first request that needs it, and by no other.
    pub fn dispatch(&mut self, ambient_is_active: bool) -> (res: Dispatch)
        ensures
            res == dispatch_spec(old(self).owned_is_started, ambient_is_active),
            final(self).owned_is_started == (old(self).owned_is_started || !ambient_is_active),
    {
        if ambient_is_active {
            Dispatch::Inline
        } else if self.owned_is_started {
            Dispatch::Owned
        } else {
            self.owned_is_started = true;
            Dispatch::StartOwned
        }
    }

    /// Says what a request brought, given how its run ended.
    pub fn settle<T>(ran: Result<Result<T, String>, String>) -> (res: Result<T, StoreFault>)
        ensures
            crate::store::plain_reply_view(res) == settle_spec(ran),
    {
        match ran {
            Err(cause) => Err(StoreFault::Dispatch { cause }),
            Ok(Err(message)) => Err(StoreFault::Service { message }),
            Ok(Ok(answer)) => Ok(answer),
        }
    }
}

/// Once the engine's own scheduler is started, no request starts it again.
pub proof fn lemma_owned_scheduler_starts_once(
    owned_is_started: bool,
    first_ambient: bool,
    second_ambient: bool,
)
    ensures
        dispatch_spec(owned_is_started, first_ambient) == Dispatch::StartOwned ==> dispatch_spec(
            owned_is_started || !first_ambient,
            second_ambient,
        ) != Dispatch::StartOwned,
        owned_is_started ==> dispatch_spec(owned_is_started, first_ambient)
            != Dispatch::StartOwned,
{
}

} // verus!
