//! The elapsed-time endpoint.
//!
//! Times are readings of a monotonic clock in whole nanoseconds from an
//! origin that the caller fixes; the caller reads the clock and the library
//! works out what to answer.
use vstd::prelude::*;

verus! {

/// The state that every request shares: when the server started.
#[derive(Clone, Copy, Debug, PartialEq, Eq, Structural)]
pub struct AppState {
    /// Clock reading at start, in nanoseconds.
    pub start_time: u64,
}

/// The body of a request to the elapsed-time endpoint. Its one field is
/// accepted and has no bearing on the answer.
#[derive(Clone, Copy, Debug, PartialEq, Eq, Structural)]
pub struct SecondsSinceStartPostData {
    pub random_number: i32,
}

/// The answer of the elapsed-time endpoint: the time since start, in
/// nanoseconds.
#[derive(Clone, Copy, Debug, PartialEq, Eq, Structural)]
pub struct SecondsSinceStartData {
    pub elapsed_nanos: u64,
}

/// Time from `start` to `now`; a reading earlier than the start counts as no
/// time at all.
pub open spec fn elapsed_between(start: u64, now: u64) -> nat {
    if now >= start {
        (now - start) as nat
    } else {
        0
    }
}

/// What the elapsed-time endpoint answers at clock reading `now`.
pub open spec fn seconds_since_start_spec(
    state: AppState,
    post_data: SecondsSinceStartPostData,
    now: u64,
) -> SecondsSinceStartData {
    SecondsSinceStartData { elapsed_nanos: elapsed_between(state.start_time, now) as u64 }
}

impl AppState {
    /// The state of a server that started at clock reading `start_time`.
    pub fn new(start_time: u64) -> (r: AppState)
        ensures
            r.start_time == start_time,
    {
        AppState { start_time }
    }
}

/// The answer to `POST /seconds_since_start` at clock reading `now`: the time
/// since the server started. The request's body is not read.
pub fn seconds_since_start_get(
    state: &AppState,
    post_data: &SecondsSinceStartPostData,
    now: u64,
) -> (r: SecondsSinceStartData)
    ensures
        r == seconds_since_start_spec(*state, *post_data, now),
        r.elapsed_nanos == elapsed_between(state.start_time, now),
{
    let elapsed_nanos = now.saturating_sub(state.start_time);
    SecondsSinceStartData { elapsed_nanos }
}

/// The elapsed-time answer does not depend on the request's body: two bodies
/// at the same moment get the same answer.
pub proof fn lemma_answer_ignores_post_data(
    state: AppState,
    a: SecondsSinceStartPostData,
    b: SecondsSinceStartPostData,
    now: u64,
)
    ensures
        seconds_since_start_spec(state, a, now) == seconds_since_start_spec(state, b, now),
{
}

/// The elapsed time never goes back: of two requests to one server, the
/// later clock reading gets an answer no smaller than the earlier one.
pub proof fn lemma_answer_monotonic(
    state: AppState,
    a: SecondsSinceStartPostData,
    b: SecondsSinceStartPostData,
    earlier: u64,
    later: u64,
)
    requires
        earlier <= later,
    ensures
        seconds_since_start_spec(state, a, earlier).elapsed_nanos
            <= seconds_since_start_spec(state, b, later).elapsed_nanos,
{
}

} // verus!
