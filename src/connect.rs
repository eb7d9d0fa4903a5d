use vstd::prelude::*;

verus! {

/// How many connection attempts are made before giving up.
pub const MAX_CONNECT_ATTEMPTS: u32 = 10;

/// The pause between two connection attempts, in milliseconds.
pub const RETRY_DELAY_MS: u64 = 10;

/// How long one connection attempt may take, in seconds.
pub const CONNECT_TIMEOUT_SECS: u64 = 5;

/// What to do after a connection attempt.
#[derive(Clone, Copy, Debug, PartialEq, Eq, Structural)]
pub enum ConnectAction {
    /// The session is open: use it.
    UseSession,
    /// Wait this many milliseconds, then try again.
    RetryAfter(u64),
    /// The attempts are spent: report the last error.
    GiveUp,
}

/// The connection retry policy: counts the failed attempts.
#[derive(Clone, Copy, Debug)]
pub struct ConnectRetry {
    pub failures: u32,
}

/// The state after an attempt with `failures` failures before it, and what to do next.
pub open spec fn step(failures: nat, connected: bool) -> (nat, ConnectAction) {
    if connected {
        (failures, ConnectAction::UseSession)
    } else if failures + 1 >= MAX_CONNECT_ATTEMPTS {
        (MAX_CONNECT_ATTEMPTS as nat, ConnectAction::GiveUp)
    } else {
        (failures + 1, ConnectAction::RetryAfter(RETRY_DELAY_MS))
    }
}

/// What a run of the policy came to: attempts made, milliseconds waited,
/// and whether a session was opened.
pub struct RunSummary {
    pub attempts: nat,
    pub delay_ms: nat,
    pub connected: bool,
}

/// Runs the policy from `failures` failures on the attempt outcomes
/// `outcomes` (`true`: the attempt connected), until it stops or the
/// outcomes run out.
pub open spec fn run(failures: nat, outcomes: Seq<bool>) -> RunSummary
    decreases outcomes.len(),
{
    if outcomes.len() == 0 {
        RunSummary { attempts: 0, delay_ms: 0, connected: false }
    } else {
        let (next, action) = step(failures, outcomes[0]);
        match action {
            ConnectAction::UseSession => RunSummary { attempts: 1, delay_ms: 0, connected: true },
            ConnectAction::RetryAfter(ms) => {
                let rest = run(next, outcomes.drop_first());
                RunSummary {
                    attempts: rest.attempts + 1,
                    delay_ms: rest.delay_ms + ms as nat,
                    connected: rest.connected,
                }
            },
            ConnectAction::GiveUp => RunSummary { attempts: 1, delay_ms: 0, connected: false },
        }
    }
}

impl ConnectRetry {
    /// No attempt made yet.
    pub fn new() -> (r: ConnectRetry)
        ensures
            r.failures == 0,
    {
        ConnectRetry { failures: 0 }
    }

    /// Records the outcome of one attempt and says what to do next.
    pub fn on_attempt(&mut self, connected: bool) -> (a: ConnectAction)
        ensures
            (final(self).failures as nat, a) == step(old(self).failures as nat, connected),
    {
        if connected {
            ConnectAction::UseSession
        } else if self.failures >= MAX_CONNECT_ATTEMPTS - 1 {
            self.failures = MAX_CONNECT_ATTEMPTS;
            ConnectAction::GiveUp
        } else {
            self.failures = self.failures + 1;
            ConnectAction::RetryAfter(RETRY_DELAY_MS)
        }
    }
}

proof fn lemma_run_fails_then_connects(failures: nat, k: nat, outcomes: Seq<bool>)
    requires
        failures + k < MAX_CONNECT_ATTEMPTS,
        k < outcomes.len(),
        forall|i: int| 0 <= i < k ==> !outcomes[i],
        outcomes[k as int],
    ensures
        run(failures, outcomes) == (RunSummary {
            attempts: k + 1,
            delay_ms: k * (RETRY_DELAY_MS as nat),
            connected: true,
        }),
    decreases k,
{
    if k > 0 {
        let rest = outcomes.drop_first();
        assert forall|i: int| 0 <= i < (k - 1) as nat implies !rest[i] by {
            assert(rest[i] == outcomes[i + 1]);
        }
        lemma_run_fails_then_connects(failures + 1, (k - 1) as nat, rest);
        assert(k * (RETRY_DELAY_MS as nat) == ((k - 1) as nat) * (RETRY_DELAY_MS as nat) + RETRY_DELAY_MS as nat);
    }
}

proof fn lemma_run_fails_out(failures: nat, outcomes: Seq<bool>)
    requires
        failures < MAX_CONNECT_ATTEMPTS,
        outcomes.len() >= MAX_CONNECT_ATTEMPTS - failures,
        forall|i: int| 0 <= i < MAX_CONNECT_ATTEMPTS - failures ==> !outcomes[i],
    ensures
        run(failures, outcomes) == (RunSummary {
            attempts: (MAX_CONNECT_ATTEMPTS - failures) as nat,
            delay_ms: ((MAX_CONNECT_ATTEMPTS - failures - 1) * RETRY_DELAY_MS) as nat,
            connected: false,
        }),
    decreases MAX_CONNECT_ATTEMPTS - failures,
{
    if failures + 1 < MAX_CONNECT_ATTEMPTS {
        let rest = outcomes.drop_first();
        assert forall|i: int| 0 <= i < MAX_CONNECT_ATTEMPTS - (failures + 1) implies !rest[i] by {
            assert(rest[i] == outcomes[i + 1]);
        }
        lemma_run_fails_out(failures + 1, rest);
    }
}

/// A service that refuses the first `k` attempts, fewer than the attempt
/// budget, and then accepts is connected on attempt `k + 1`, after `k`
/// pauses of the retry delay.
pub proof fn lemma_connects_after_failures(k: nat, outcomes: Seq<bool>)
    requires
        k < MAX_CONNECT_ATTEMPTS,
        k < outcomes.len(),
        forall|i: int| 0 <= i < k ==> !outcomes[i],
        outcomes[k as int],
    ensures
        run(0, outcomes) == (RunSummary {
            attempts: k + 1,
            delay_ms: k * (RETRY_DELAY_MS as nat),
            connected: true,
        }),
{
    lemma_run_fails_then_connects(0, k, outcomes);
}

/// A service that refuses every attempt gets exactly the attempt budget of
/// attempts, and then the policy gives up.
pub proof fn lemma_gives_up_after_budget(outcomes: Seq<bool>)
    requires
        outcomes.len() >= MAX_CONNECT_ATTEMPTS,
        forall|i: int| 0 <= i < outcomes.len() ==> !outcomes[i],
    ensures
        run(0, outcomes) == (RunSummary {
            attempts: MAX_CONNECT_ATTEMPTS as nat,
            delay_ms: ((MAX_CONNECT_ATTEMPTS - 1) * RETRY_DELAY_MS) as nat,
            connected: false,
        }),
{
    lemma_run_fails_out(0, outcomes);
}

} // verus!
