//! The decisions taken while waiting for a shut-down client to be dropped.
//!
//! The waiting loop itself (reading the clock, checking the client, sleeping
//! and logging) is run by the caller; each turn it asks [`DropWait`] whether
//! to go on waiting and, once it has checked the client, what to do next.
use vstd::prelude::*;

verus! {

/// Seconds slept between two checks of the client.
pub const SLEEP_DURATION_SECS: u64 = 1;

/// Seconds after which a slow shutdown is reported, once.
pub const WARN_TIMEOUT_SECS: u64 = 60;

/// Seconds after which waiting stops and the shutdown is reported unclean.
pub const MAX_TIMEOUT_SECS: u64 = 300;

/// Nanoseconds in a second.
pub const NANOS_PER_SEC: u128 = 1_000_000_000;

/// What the waiting loop does after it has checked the client.
#[derive(Clone, Copy, Debug, PartialEq, Eq, Structural)]
pub enum WaitAction {
    /// The client is gone: stop waiting.
    Stop,
    /// Sleep, then check again.
    Sleep,
    /// Warn that the shutdown is slow, sleep, then check again.
    WarnThenSleep,
}

/// The state of a wait for a client to be dropped.
pub struct DropWait {
    warned: bool,
}

impl View for DropWait {
    type V = bool;

    /// Whether the slow-shutdown warning has been given.
    closed spec fn view(&self) -> bool {
        self.warned
    }
}

impl DropWait {
    /// A wait that has not warned yet.
    pub fn new() -> (w: DropWait)
        ensures
            !w@,
    {
        DropWait { warned: false }
    }

    /// Whether the wait goes on after `elapsed_nanos` nanoseconds: it does
    /// while less than the maximum timeout has passed.
    pub fn keep_waiting(&self, elapsed_nanos: u128) -> (r: bool)
        ensures
            r == (elapsed_nanos < MAX_TIMEOUT_SECS * NANOS_PER_SEC),
            r == (elapsed_nanos < 300_000_000_000),
    {
        elapsed_nanos < (MAX_TIMEOUT_SECS as u128) * NANOS_PER_SEC
    }

    /// Whether to warn now that the shutdown is slow: the first time more
    /// than the warning timeout has passed, and never again.
    pub fn should_warn(&mut self, elapsed_nanos: u128) -> (r: bool)
        ensures
            (r, final(self)@) == spec_should_warn(old(self)@, elapsed_nanos),
            r == (!old(self)@ && elapsed_nanos > 60_000_000_000),
            final(self)@ == (old(self)@ || r),
    {
        if !self.warned && elapsed_nanos > (WARN_TIMEOUT_SECS as u128) * NANOS_PER_SEC {
            self.warned = true;
            true
        } else {
            false
        }
    }

    /// What to do once the client has been checked, `elapsed_nanos`
    /// nanoseconds after the start: stop where it is gone, otherwise sleep,
    /// warning first where [`DropWait::should_warn`] says so.
    pub fn after_check(&mut self, client_dropped: bool, elapsed_nanos: u128) -> (r: WaitAction)
        ensures
            (r, final(self)@) == spec_after_check(old(self)@, client_dropped, elapsed_nanos),
            final(self)@ == (old(self)@ || r == WaitAction::WarnThenSleep),
            client_dropped ==> r == WaitAction::Stop,
            !client_dropped ==> r != WaitAction::Stop,
            !client_dropped ==> (r == WaitAction::WarnThenSleep <==> (!old(self)@ && elapsed_nanos
                > 60_000_000_000)),
    {
        if client_dropped {
            WaitAction::Stop
        } else if self.should_warn(elapsed_nanos) {
            WaitAction::WarnThenSleep
        } else {
            WaitAction::Sleep
        }
    }
}

/// The warning decision: `(warn now, warned afterwards)` for a wait that
/// has `warned` already and `elapsed_nanos` nanoseconds after its start.
pub open spec fn spec_should_warn(warned: bool, elapsed_nanos: u128) -> (bool, bool) {
    let r = !warned && elapsed_nanos > WARN_TIMEOUT_SECS * NANOS_PER_SEC;
    (r, warned || r)
}

/// The decision after a check of the client: `(action, warned afterwards)`.
pub open spec fn spec_after_check(warned: bool, client_dropped: bool, elapsed_nanos: u128) -> (
    WaitAction,
    bool,
) {
    if client_dropped {
        (WaitAction::Stop, warned)
    } else {
        let (w, warned_after) = spec_should_warn(warned, elapsed_nanos);
        (if w {
            WaitAction::WarnThenSleep
        } else {
            WaitAction::Sleep
        }, warned_after)
    }
}

/// The slow-shutdown warning is given at most once: once a wait has
/// warned, asking again never warns, whatever time has passed.
pub proof fn lemma_warns_at_most_once(warned: bool, first: u128, later: u128)
    requires
        spec_should_warn(warned, first).0,
    ensures
        !spec_should_warn(spec_should_warn(warned, first).1, later).0,
{
}

/// The waiting loop warns at most once: after an action that warns, no
/// later check warns again, whether or not the client is gone.
pub proof fn lemma_loop_warns_at_most_once(
    warned: bool,
    dropped: bool,
    first: u128,
    later_dropped: bool,
    later: u128,
)
    requires
        spec_after_check(warned, dropped, first).0 == WaitAction::WarnThenSleep,
    ensures
        spec_after_check(spec_after_check(warned, dropped, first).1, later_dropped, later).0
            != WaitAction::WarnThenSleep,
{
}

/// The warning state is monotone and the decisions are what they say:
/// once warned, a wait stays warned after any check; a check of a gone
/// client stops; otherwise it warns exactly when the wait has not warned
/// yet and more than 60 seconds have passed, and sleeps.
pub proof fn lemma_after_check_outcome(warned: bool, client_dropped: bool, elapsed_nanos: u128)
    ensures
        warned ==> spec_should_warn(warned, elapsed_nanos).1,
        warned ==> spec_after_check(warned, client_dropped, elapsed_nanos).1,
        spec_should_warn(warned, elapsed_nanos).0 <==> (!warned && elapsed_nanos > 60_000_000_000),
        client_dropped ==> spec_after_check(warned, client_dropped, elapsed_nanos).0
            == WaitAction::Stop,
        !client_dropped ==> (spec_after_check(warned, client_dropped, elapsed_nanos).0
            == WaitAction::WarnThenSleep <==> (!warned && elapsed_nanos > 60_000_000_000)),
        !client_dropped ==> spec_after_check(warned, client_dropped, elapsed_nanos).0
            != WaitAction::Stop,
{
}

/// The number of checks among `checks` (client gone, elapsed nanoseconds)
/// that warn, for a wait that starts with `warned`.
pub open spec fn warnings(warned: bool, checks: Seq<(bool, u128)>) -> nat
    decreases checks.len(),
{
    if checks.len() == 0 {
        0
    } else {
        let (action, warned_after) = spec_after_check(warned, checks[0].0, checks[0].1);
        (if action == WaitAction::WarnThenSleep {
            1nat
        } else {
            0nat
        }) + warnings(warned_after, checks.drop_first())
    }
}

/// Over any sequence of checks a wait warns at most once, and never once it
/// has warned.
pub proof fn lemma_sequence_warns_at_most_once(warned: bool, checks: Seq<(bool, u128)>)
    ensures
        warnings(warned, checks) <= (if warned {
            0nat
        } else {
            1nat
        }),
    decreases checks.len(),
{
    if checks.len() > 0 {
        let (action, warned_after) = spec_after_check(warned, checks[0].0, checks[0].1);
        lemma_sequence_warns_at_most_once(warned_after, checks.drop_first());
    }
}

} // verus!
