//! The re-authentication poll: after the external interactive login flow is
//! launched for an identity, a background task re-validates credentials at a
//! fixed interval until they become valid again or an attempt ceiling is
//! reached. The validation call itself happens outside; each of its verdicts
//! is folded in here.

use vstd::prelude::*;

verus! {

/// How many validation attempts a poll performs at most when no ceiling is
/// given.
pub const DEFAULT_MAX_ATTEMPTS: usize = 60;

/// Seconds between two validation attempts.
pub const POLL_INTERVAL_SECS: u64 = 2;

/// What the poll does after folding in one validation verdict.
#[derive(Clone, Copy, PartialEq, Eq, Structural, Debug)]
pub enum PollAction {
    /// Credentials validated: emit the one "session refreshed" notification
    /// and stop polling.
    EmitRefreshed,
    /// Not yet valid and attempts remain: check again after the interval.
    KeepPolling,
    /// The attempt ceiling is exhausted: stop with no notification; the
    /// caller must retry manually.
    GiveUp,
}

/// The state of one polling task. It lives only for the task's duration:
/// created when the poll starts, finished when credentials validate or
/// attempts exhaust.
pub struct ReauthPoll {
    pub attempts_made: usize,
    pub max_attempts: usize,
    pub finished: bool,
    pub refreshed: bool,
}

impl ReauthPoll {
    pub fn start(max_attempts: usize) -> (p: ReauthPoll)
        ensures
            p.attempts_made == 0,
            p.max_attempts == max_attempts,
            !p.finished,
            !p.refreshed,
    {
        ReauthPoll { attempts_made: 0, max_attempts, finished: false, refreshed: false }
    }

    /// Folds in one validation verdict. A valid verdict finishes the poll at
    /// once with the single refresh notification; an invalid one either
    /// continues or, on the last permitted attempt, gives up silently.
    pub fn step(&mut self, valid: bool) -> (a: PollAction)
        requires
            !old(self).finished,
            old(self).attempts_made < old(self).max_attempts,
        ensures
            final(self).max_attempts == old(self).max_attempts,
            final(self).attempts_made == old(self).attempts_made + 1,
            valid ==> a == PollAction::EmitRefreshed && final(self).finished
                && final(self).refreshed,
            !valid ==> final(self).refreshed == old(self).refreshed,
            !valid && old(self).attempts_made + 1 == old(self).max_attempts ==> a
                == PollAction::GiveUp && final(self).finished,
            !valid && old(self).attempts_made + 1 < old(self).max_attempts ==> a
                == PollAction::KeepPolling && !final(self).finished,
    {
        self.attempts_made = self.attempts_made + 1;
        if valid {
            self.finished = true;
            self.refreshed = true;
            PollAction::EmitRefreshed
        } else if self.attempts_made == self.max_attempts {
            self.finished = true;
            PollAction::GiveUp
        } else {
            PollAction::KeepPolling
        }
    }
}

/// What a finished poll reports: how many validation checks it performed and
/// whether the single "session refreshed" notification was emitted.
pub struct PollOutcome {
    pub checks_made: usize,
    pub refreshed: bool,
}

/// Runs one whole poll against a pre-recorded sequence of validation
/// verdicts, one per potential attempt. The poll stops immediately after the
/// first valid verdict, emitting the refresh notification exactly once; with
/// no valid verdict it performs exactly `max_attempts` checks and emits
/// nothing.
pub fn poll_run(checks: &Vec<bool>, max_attempts: usize) -> (r: PollOutcome)
    requires
        checks@.len() >= max_attempts,
    ensures
        r.checks_made <= max_attempts,
        r.refreshed <==> exists|j: int| 0 <= j < max_attempts && checks@[j],
        r.refreshed ==> r.checks_made >= 1 && checks@[r.checks_made - 1] && (forall|j: int|
            0 <= j < r.checks_made - 1 ==> !checks@[j]),
        !r.refreshed ==> r.checks_made == max_attempts && (forall|j: int|
            0 <= j < max_attempts ==> !checks@[j]),
{
    let mut poll = ReauthPoll::start(max_attempts);
    let mut i: usize = 0;
    while i < max_attempts
        invariant
            checks@.len() >= max_attempts,
            i <= max_attempts,
            poll.attempts_made == i,
            poll.max_attempts == max_attempts,
            !poll.finished,
            !poll.refreshed,
            forall|j: int| 0 <= j < i ==> !checks@[j],
        decreases max_attempts - i,
    {
        let verdict = checks[i];
        let action = poll.step(verdict);
        i = i + 1;
        if matches!(action, PollAction::EmitRefreshed) {
            return PollOutcome { checks_made: i, refreshed: true };
        }
        if matches!(action, PollAction::GiveUp) {
            return PollOutcome { checks_made: i, refreshed: false };
        }
    }
    PollOutcome { checks_made: i, refreshed: false }
}

} // verus!
