//! The door to the workflow store: it is opened once, by the first who needs it, and
//! what went wrong then is told to everyone after.

use crate::text::{cat2, cat3, decimal, decimal_text};
use vstd::prelude::*;

verus! {

/// The code of a store that failed at its work.
pub const WORKFLOW_STORE_ERROR_CODE: &'static str = "workflow_store_error";

/// The code of a store that cannot be had at all.
pub const WORKFLOW_UNAVAILABLE_CODE: &'static str = "workflow_unavailable";

/// How many seconds a caller waits for an answer.
pub const CALL_DEADLINE_SECS: u64 = 30;

/// Why the store does not answer.
#[derive(Debug, PartialEq, Eq)]
pub struct StoreUnavailable {
    pub code: String,
    pub message: String,
}

/// The store failed at its work, for this reason.
pub open spec fn store_failed(u: StoreUnavailable, message: Seq<char>) -> bool {
    u.code@ == "workflow_store_error"@ && u.message@ == message
}

impl StoreUnavailable {
    fn failed(message: String) -> (r: Self)
        ensures
            store_failed(r, message@),
    {
        StoreUnavailable { code: WORKFLOW_STORE_ERROR_CODE.to_owned(), message }
    }

    /// The store's own error, by its code and its words.
    pub fn from_error(code: &str, message: &str) -> (r: Self)
        ensures
            r.code@ == code@,
            r.message@ == message@,
    {
        StoreUnavailable { code: code.to_owned(), message: message.to_owned() }
    }

    /// The thread of the store ended.
    pub fn thread_lost() -> (r: Self)
        ensures
            store_failed(r, "the workflow store thread is no longer running"@),
    {
        StoreUnavailable::failed("the workflow store thread is no longer running".to_owned())
    }

    /// The store did not answer in time.
    pub fn call_timed_out() -> (r: Self)
        ensures
            store_failed(
                r,
                "the workflow store did not answer within "@ + decimal(30) + "s"@,
            ),
    {
        StoreUnavailable::failed(
            cat3(
                "the workflow store did not answer within ",
                decimal_text(CALL_DEADLINE_SECS).as_str(),
                "s",
            ),
        )
    }

    /// The thread of the store did not start.
    pub fn thread_not_started(error: &str) -> (r: Self)
        ensures
            store_failed(r, "the workflow store thread could not be started: "@ + error@),
    {
        StoreUnavailable::failed(cat2("the workflow store thread could not be started: ", error))
    }

    /// The runtime of the store was not built.
    pub fn runtime_not_built(error: &str) -> (r: Self)
        ensures
            store_failed(r, "the workflow store runtime could not be built: "@ + error@),
    {
        StoreUnavailable::failed(cat2("the workflow store runtime could not be built: ", error))
    }

    pub fn copy(&self) -> (r: Self)
        ensures
            r == *self,
    {
        StoreUnavailable { code: self.code.clone(), message: self.message.clone() }
    }
}

/// How far the store was opened.
#[derive(Debug, PartialEq, Eq)]
pub enum HandleState {
    Unopened,
    Open,
    Unavailable(StoreUnavailable),
}

/// The word for how far the store was opened.
pub open spec fn state_word(state: HandleState) -> Seq<char> {
    match state {
        HandleState::Unopened => "unopened"@,
        HandleState::Open => "open"@,
        HandleState::Unavailable(_) => "unavailable"@,
    }
}

/// What opening the store came to, before anyone was told.
#[derive(Debug, PartialEq, Eq)]
pub enum Opening {
    /// The thread did not start.
    NoThread { error: String },
    /// The thread said that it is ready, or why it is not.
    Ready(Result<(), StoreUnavailable>),
    /// The thread ended before it said anything.
    Silent,
}

/// What opening the store came to.
pub open spec fn opened_state(state: HandleState, opening: Opening) -> bool {
    match opening {
        Opening::NoThread { error } => state matches HandleState::Unavailable(u) && store_failed(
            u,
            "the workflow store thread could not be started: "@ + error@,
        ),
        Opening::Ready(Ok(_)) => state is Open,
        Opening::Ready(Err(u)) => state == HandleState::Unavailable(u),
        Opening::Silent => state matches HandleState::Unavailable(u) && store_failed(
            u,
            "the workflow store thread is no longer running"@,
        ),
    }
}

/// What waiting for an answer came to.
#[derive(Debug, PartialEq, Eq)]
pub enum Wait<T> {
    /// The job was never taken.
    NotSubmitted,
    Answered(T),
    TimedOut,
    Disconnected,
}

/// The door to the store.
#[derive(Debug, PartialEq, Eq)]
pub struct WorkflowStoreHandle {
    pub state: HandleState,
}

/// The state of the door once the store was opened where it was not yet.
pub open spec fn settled(before: HandleState, after: HandleState, opening: Opening) -> bool {
    if before is Unopened {
        opened_state(after, opening)
    } else {
        after == before
    }
}

impl WorkflowStoreHandle {
    pub fn new() -> (r: Self)
        ensures
            r.state is Unopened,
    {
        WorkflowStoreHandle { state: HandleState::Unopened }
    }

    /// Whether the next caller has to open the store.
    pub fn needs_opening(&self) -> (r: bool)
        ensures
            r == (self.state is Unopened),
    {
        matches!(self.state, HandleState::Unopened)
    }

    pub fn state_name(&self) -> (r: &'static str)
        ensures
            r@ == state_word(self.state),
    {
        match &self.state {
            HandleState::Unopened => "unopened",
            HandleState::Open => "open",
            HandleState::Unavailable(_) => "unavailable",
        }
    }

    /// Takes in what opening the store came to. A store that was opened before, well or
    /// badly, stays as it is.
    pub fn open(&mut self, opening: Opening) -> (r: Result<(), StoreUnavailable>)
        ensures
            settled(old(self).state, final(self).state, opening),
            match final(self).state {
                HandleState::Open => r is Ok,
                HandleState::Unavailable(u) => r == Err::<(), StoreUnavailable>(u),
                HandleState::Unopened => false,
            },
    {
        if self.needs_opening() {
            self.state =
            match opening {
                Opening::NoThread { error } => HandleState::Unavailable(
                    StoreUnavailable::thread_not_started(error.as_str()),
                ),
                Opening::Ready(Ok(_)) => HandleState::Open,
                Opening::Ready(Err(u)) => HandleState::Unavailable(u),
                Opening::Silent => HandleState::Unavailable(StoreUnavailable::thread_lost()),
            };
        }
        match &self.state {
            HandleState::Unavailable(u) => Err(u.copy()),
            _ => Ok(()),
        }
    }

    /// What a caller gets for a job once it waited: its answer, or why there is none.
    /// The state of the door is left alone, so the next caller tries again.
    pub fn call<T>(&self, wait: Wait<T>) -> (r: Result<T, StoreUnavailable>)
        ensures
            match (self.state, wait) {
                (HandleState::Unavailable(u), _) => r == Err::<T, StoreUnavailable>(u),
                (HandleState::Unopened, _) => r matches Err(u) && store_failed(
                    u,
                    "the workflow store thread is no longer running"@,
                ),
                (_, Wait::Answered(answer)) => r == Ok::<T, StoreUnavailable>(answer),
                (_, Wait::TimedOut) => r matches Err(u) && store_failed(
                    u,
                    "the workflow store did not answer within "@ + decimal(30) + "s"@,
                ),
                _ => r matches Err(u) && store_failed(
                    u,
                    "the workflow store thread is no longer running"@,
                ),
            },
    {
        match &self.state {
            HandleState::Unavailable(u) => Err(u.copy()),
            HandleState::Unopened => Err(StoreUnavailable::thread_lost()),
            HandleState::Open => match wait {
                Wait::Answered(answer) => Ok(answer),
                Wait::TimedOut => Err(StoreUnavailable::call_timed_out()),
                _ => Err(StoreUnavailable::thread_lost()),
            },
        }
    }
}

/// What went wrong when the store was opened is told to every caller after, whatever
/// another try would have come to.
pub proof fn law_a_failed_opening_is_kept(
    u: StoreUnavailable,
    after: HandleState,
    later: HandleState,
    opening: Opening,
    again: Opening,
)
    requires
        settled(HandleState::Unavailable(u), after, opening),
        settled(after, later, again),
    ensures
        later == HandleState::Unavailable(u),
{
}

/// Once it was opened the store is never opened again.
pub proof fn law_the_store_is_opened_once(
    before: HandleState,
    after: HandleState,
    later: HandleState,
    opening: Opening,
    again: Opening,
)
    requires
        settled(before, after, opening),
        settled(after, later, again),
    ensures
        after !is Unopened,
        later == after,
{
}

/// The time a clock shows, as far as it fits.
pub open spec fn clock_reading(since_epoch: Option<u128>) -> int {
    match since_epoch {
        None => 0,
        Some(ms) => if ms > u64::MAX {
            u64::MAX as int
        } else {
            ms as int
        },
    }
}

/// The time since the epoch, in milliseconds, as far as it can be kept: nothing for a
/// clock that stands before it.
pub fn unix_now_ms(since_epoch: Option<u128>) -> (r: u64)
    ensures
        r == clock_reading(since_epoch),
{
    match since_epoch {
        None => 0,
        Some(ms) => if ms > u64::MAX as u128 {
            u64::MAX
        } else {
            ms as u64
        },
    }
}

} // verus!
