use crate::status::{error_of, Error, Status};
use vstd::prelude::*;

verus! {

/// Pause between two status queries while waiting for a move, in
/// milliseconds.
pub const POLL_INTERVAL_MS: u64 = 50;

/// What to do after one status observation during a move.
#[derive(Clone, Copy, PartialEq, Eq, Structural, Debug)]
pub enum PollStep {
    /// Pause for the poll interval, then query the status again.
    Wait,
    /// The move is over for the caller; report the failure, if any.
    Finish(Option<Error>),
}

/// The step after observing `status`: a blocking caller waits while the
/// table moves; any other observation, and every observation of a
/// non-blocking caller, ends the wait and reports the failure it carries.
pub open spec fn poll_step_of(blocking: bool, status: Status) -> PollStep {
    if blocking && status == Status::Moving {
        PollStep::Wait
    } else {
        PollStep::Finish(error_of(status))
    }
}

/// Where a caller that observes the statuses `obs` one after another stops:
/// the number of observations it makes and the failure it reports, or
/// `None` if it is still waiting when `obs` runs out.
pub open spec fn poll_outcome(blocking: bool, obs: Seq<Status>) -> Option<(nat, Option<Error>)>
    decreases obs.len(),
{
    if obs.len() == 0 {
        None
    } else {
        match poll_step_of(blocking, obs[0]) {
            PollStep::Wait => match poll_outcome(blocking, obs.skip(1)) {
                Some((n, e)) => Some((n + 1, e)),
                None => None,
            },
            PollStep::Finish(e) => Some((1, e)),
        }
    }
}

/// Decides what follows one status observation during a move.
pub fn poll_step(blocking: bool, status: Status) -> (r: PollStep)
    ensures
        r == poll_step_of(blocking, status),
{
    if blocking && status == Status::Moving {
        PollStep::Wait
    } else {
        PollStep::Finish(status.error())
    }
}

/// A blocking wait observes `Moving` any number of times and then stops at
/// the first other observation, which alone decides the report: it makes
/// exactly `k + 1` observations and reports the failure of the last one.
pub proof fn lemma_blocking_poll(obs: Seq<Status>, k: int)
    requires
        0 <= k < obs.len(),
        forall|i: int| 0 <= i < k ==> obs[i] == Status::Moving,
        obs[k] != Status::Moving,
    ensures
        poll_outcome(true, obs) == Some(((k + 1) as nat, error_of(obs[k]))),
    decreases k,
{
    if k > 0 {
        let rest = obs.skip(1);
        assert forall|i: int| 0 <= i < k - 1 implies rest[i] == Status::Moving by {
            assert(rest[i] == obs[i + 1]);
        }
        lemma_blocking_poll(rest, k - 1);
    }
}

/// A non-blocking caller makes a single observation and reports its failure.
pub proof fn lemma_nonblocking_poll(obs: Seq<Status>)
    requires
        obs.len() > 0,
    ensures
        poll_outcome(false, obs) == Some((1nat, error_of(obs[0]))),
{
}

} // verus!
