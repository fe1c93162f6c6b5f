//! The retry policy of outgoing requests: a request is sent again after a
//! failure, at most three more times, waiting 500 ms longer each time.
use vstd::prelude::*;

verus! {

/// How many times a failed request is sent again.
pub const MAX_RETRIES: u32 = 3;

/// The wait before the first retry, and how much longer each later wait is.
pub const DELAY_STEP_MS: u64 = 500;

/// Whether an HTTP status is a success (`2xx`).
pub open spec fn spec_is_success(status: u16) -> bool {
    200 <= status <= 299
}

/// Whether an HTTP status is a success (`2xx`).
pub fn is_success_status(status: u16) -> (r: bool)
    ensures
        r == spec_is_success(status),
{
    200 <= status && status <= 299
}

/// Whether an attempt succeeded: `None` stands for a request that got no
/// response at all.
pub open spec fn succeeded(outcome: Option<u16>) -> bool {
    outcome is Some && spec_is_success(outcome->Some_0)
}

/// Where a request stands in its retries.
#[derive(Clone, Copy, Debug, PartialEq, Eq, Structural)]
pub struct RetryState {
    /// The retries already made.
    pub retries: u32,
    /// The wait before the next retry, in milliseconds.
    pub delay_ms: u64,
}

/// What to do after an attempt.
#[derive(Clone, Copy, Debug, PartialEq, Eq, Structural)]
pub enum RetryAction {
    /// Hand the last outcome to the caller.
    Finish,
    /// Wait this many milliseconds, then send the request again.
    RetryAfter(u64),
}

impl RetryState {
    /// The wait grows by one step with each retry.
    pub open spec fn wf(self) -> bool {
        self.retries <= MAX_RETRIES && self.delay_ms == DELAY_STEP_MS * (self.retries + 1)
    }

    /// The state before the first attempt.
    pub open spec fn new_spec() -> RetryState {
        RetryState { retries: 0, delay_ms: DELAY_STEP_MS }
    }

    /// The state before the first attempt: no retries made, a first wait of
    /// 500 ms.
    pub fn new() -> (r: RetryState)
        ensures
            r == Self::new_spec(),
            r.wf(),
    {
        RetryState { retries: 0, delay_ms: DELAY_STEP_MS }
    }

    /// The decision after an attempt with the given outcome, and the state
    /// that follows it.
    pub open spec fn spec_next(self, outcome: Option<u16>) -> (RetryAction, RetryState) {
        if succeeded(outcome) || self.retries >= MAX_RETRIES {
            (RetryAction::Finish, self)
        } else {
            (
                RetryAction::RetryAfter(self.delay_ms),
                RetryState {
                    retries: (self.retries + 1) as u32,
                    delay_ms: (self.delay_ms + DELAY_STEP_MS) as u64,
                },
            )
        }
    }

    /// Decides what follows an attempt with the given outcome: a success, or
    /// any outcome once all retries are spent, is handed back; otherwise the
    /// request is sent again after the current wait.
    pub fn next(self, outcome: Option<u16>) -> (r: (RetryAction, RetryState))
        requires
            self.wf(),
        ensures
            r == self.spec_next(outcome),
            r.1.wf(),
    {
        let ok = match outcome {
            Some(status) => is_success_status(status),
            None => false,
        };
        if ok || self.retries >= MAX_RETRIES {
            (RetryAction::Finish, self)
        } else {
            (
                RetryAction::RetryAfter(self.delay_ms),
                RetryState { retries: self.retries + 1, delay_ms: self.delay_ms + DELAY_STEP_MS },
            )
        }
    }
}

/// The waits that a request goes through, and how many attempts it takes,
/// when its attempts have the given outcomes in turn.
pub open spec fn retry_run(state: RetryState, outcomes: Seq<Option<u16>>) -> (Seq<u64>, nat)
    decreases outcomes.len(),
{
    if outcomes.len() == 0 {
        (Seq::empty(), 0)
    } else {
        let (action, after) = state.spec_next(outcomes[0]);
        match action {
            RetryAction::Finish => (Seq::empty(), 1),
            RetryAction::RetryAfter(d) => {
                let (waits, attempts) = retry_run(after, outcomes.drop_first());
                (seq![d] + waits, attempts + 1)
            },
        }
    }
}

/// A request that fails `k` times (`k` at most three) and then succeeds is
/// retried exactly `k` times, after waits of 500 ms, 1000 ms, ..., and its
/// success is the outcome handed back.
pub proof fn lemma_retries_until_success(outcomes: Seq<Option<u16>>, k: nat)
    requires
        k <= MAX_RETRIES,
        outcomes.len() == k + 1,
        forall|i: int| 0 <= i < k ==> !succeeded(#[trigger] outcomes[i]),
        succeeded(outcomes[k as int]),
    ensures
        retry_run(RetryState::new_spec(), outcomes).0 == Seq::new(
            k,
            |j: int| (DELAY_STEP_MS * (j + 1)) as u64,
        ),
        retry_run(RetryState::new_spec(), outcomes).1 == k + 1,
{
    lemma_retries_from(RetryState::new_spec(), outcomes, k);
}

proof fn lemma_retries_from(state: RetryState, outcomes: Seq<Option<u16>>, k: nat)
    requires
        state.wf(),
        state.retries + k <= MAX_RETRIES,
        outcomes.len() == k + 1,
        forall|i: int| 0 <= i < k ==> !succeeded(#[trigger] outcomes[i]),
        succeeded(outcomes[k as int]),
    ensures
        retry_run(state, outcomes).0 == Seq::new(
            k,
            |j: int| (DELAY_STEP_MS * (state.retries + j + 1)) as u64,
        ),
        retry_run(state, outcomes).1 == k + 1,
    decreases k,
{
    if k > 0 {
        let after = state.spec_next(outcomes[0]).1;
        let rest = outcomes.drop_first();
        assert forall|i: int| 0 <= i < k - 1 implies !succeeded(#[trigger] rest[i]) by {
            assert(rest[i] == outcomes[i + 1]);
        }
        lemma_retries_from(after, rest, (k - 1) as nat);
        assert(retry_run(state, outcomes).0 =~= Seq::new(
            k,
            |j: int| (DELAY_STEP_MS * (state.retries + j + 1)) as u64,
        ));
    }
}

/// Whatever the outcomes, a request is retried at most three times.
pub proof fn lemma_retries_bounded(state: RetryState, outcomes: Seq<Option<u16>>)
    requires
        state.wf(),
    ensures
        retry_run(state, outcomes).0.len() <= MAX_RETRIES - state.retries,
        retry_run(state, outcomes).1 <= MAX_RETRIES - state.retries + 1,
    decreases outcomes.len(),
{
    if outcomes.len() > 0 {
        let (action, after) = state.spec_next(outcomes[0]);
        if action != RetryAction::Finish {
            lemma_retries_bounded(after, outcomes.drop_first());
        }
    }
}

} // verus!
