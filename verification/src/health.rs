//! Watching the server's health: a check every 30 seconds; a failed check
//! tries to reconnect, and three failures in a row end the session with a
//! recovery screen.

use vstd::prelude::*;


verus! {

/// Seconds between two health checks.
pub const HEALTH_CHECK_INTERVAL_SECS: u64 = 30;

/// Failed checks in a row after which the server is taken as unreachable.
pub const MAX_FAILURES: u8 = 3;

/// What follows a health check.
pub enum HealthAction {
    /// All is well; wait for the next check.
    Continue,
    /// Try to connect the real-time connection again, then wait.
    Reconnect,
    /// Stop watching and recover from the lost connection with this message.
    Recover(String),
}

/// The count of failed checks in a row.
pub struct HealthMonitor {
    consecutive_failures: u8,
}

impl View for HealthMonitor {
    type V = nat;

    closed spec fn view(&self) -> nat {
        self.consecutive_failures as nat
    }
}

impl HealthMonitor {
    /// No failure yet.
    pub fn new() -> (res: Self)
        ensures
            res@ == 0,
    {
        HealthMonitor { consecutive_failures: 0 }
    }

    /// Takes a check's result: a success clears the count; a failure adds
    /// one, and the third in a row asks for recovery with the failure's
    /// message, the others for a reconnection.
    pub fn on_check(&mut self, result: Result<(), String>) -> (action: HealthAction)
        ensures
            match result {
                Ok(()) => final(self)@ == 0 && action is Continue,
                Err(e) => {
                    &&& final(self)@ == if old(self)@ < 255 {
                        old(self)@ + 1
                    } else {
                        255
                    }
                    &&& final(self)@ >= MAX_FAILURES ==> (action matches HealthAction::Recover(m) && m@
                        == "Lost connection to server: "@ + e@)
                    &&& final(self)@ < MAX_FAILURES ==> action is Reconnect
                },
            },
    {
        match result {
            Ok(()) => {
                self.consecutive_failures = 0;
                HealthAction::Continue
            },
            Err(e) => {
                self.consecutive_failures = self.consecutive_failures.saturating_add(1);
                if self.consecutive_failures >= MAX_FAILURES {
                    HealthAction::Recover(
                        String::from_str("Lost connection to server: ").concat(e.as_str()),
                    )
                } else {
                    HealthAction::Reconnect
                }
            },
        }
    }
}

/// What a run of check results leads to: the count after them, and whether
/// recovery was asked (the watch stops at the first such check).
pub open spec fn run_checks(start: nat, results: Seq<bool>) -> (nat, bool)
    decreases results.len(),
{
    if results.len() == 0 {
        (start, false)
    } else {
        let count = if results[0] {
            0
        } else {
            start + 1
        };
        if !results[0] && count >= MAX_FAILURES {
            (count, true)
        } else {
            run_checks(count, results.drop_first())
        }
    }
}

/// A success clears the count: what follows it runs as from a fresh watch.
pub proof fn lemma_success_resets(count: nat, rest: Seq<bool>)
    ensures
        run_checks(count, seq![true] + rest) == run_checks(0, rest),
{
    assert((seq![true] + rest).drop_first() =~= rest);
}

/// A failure below the limit adds one to the count and the watch goes on.
pub proof fn lemma_failure_counts(count: nat, rest: Seq<bool>)
    requires
        count + 1 < MAX_FAILURES,
    ensures
        run_checks(count, seq![false] + rest) == run_checks(count + 1, rest),
{
    assert((seq![false] + rest).drop_first() =~= rest);
}

/// Failures in a row ask for recovery exactly when, with the failures already
/// counted, they reach `MAX_FAILURES`; recovery stops the watch.
pub proof fn lemma_failures_in_a_row(count: nat, n: nat)
    requires
        count < MAX_FAILURES,
    ensures
        run_checks(count, Seq::new(n, |i: int| false)).1 == (count + n >= MAX_FAILURES),
    decreases n,
{
    let r = Seq::new(n, |i: int| false);
    if n > 0 {
        assert(r.drop_first() =~= Seq::new((n - 1) as nat, |i: int| false));
        if count + 1 < MAX_FAILURES {
            lemma_failures_in_a_row(count + 1, (n - 1) as nat);
        }
    }
}

/// Stops the watch: the running watch's cancellation token is taken out (to
/// be cancelled); none is left.
pub fn stop_health_monitor<T>(token: &mut Option<T>) -> (res: Option<T>)
    ensures
        res == *old(token),
        *final(token) is None,
{
    token.take()
}

} // verus!
