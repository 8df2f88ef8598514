use turntable::motion::{poll_step, PollStep};
use turntable::status::{Error, Status};

/// Feeds observations to the poll protocol until it finishes; returns the
/// number of observations made and the failure reported.
fn run(blocking: bool, observations: &[Status]) -> Option<(usize, Option<Error>)> {
    for (i, s) in observations.iter().enumerate() {
        if let PollStep::Finish(e) = poll_step(blocking, *s) {
            return Some((i + 1, e));
        }
    }
    None
}

#[test]
fn poll_moving_then_stopped() {
    let obs = [Status::Moving, Status::Moving, Status::Moving, Status::Stopped];
    assert_eq!(run(true, &obs), Some((4, None)));
}

#[test]
fn poll_moving_then_stalled() {
    let obs = [Status::Moving, Status::Error(Error::Stalled)];
    assert_eq!(run(true, &obs), Some((2, Some(Error::Stalled))));
}

#[test]
fn poll_nonblocking_single_observation() {
    assert_eq!(run(false, &[Status::Moving, Status::Stopped]), Some((1, None)));
    assert_eq!(run(false, &[Status::Error(Error::NoPower)]), Some((1, Some(Error::NoPower))));
}

#[test]
fn poll_step_decisions() {
    assert_eq!(poll_step(true, Status::Moving), PollStep::Wait);
    assert_eq!(poll_step(true, Status::Stopped), PollStep::Finish(None));
    assert_eq!(poll_step(false, Status::Moving), PollStep::Finish(None));
}
