//! Confirmation polling as a state machine: the caller queries the RPC node
//! once per interval and hands each answer to the poller.
use crate::codec::string_of;
use crate::error::ProviderError;
use vstd::prelude::*;

verus! {

/// Degree of finality, from weakest to strongest.
#[derive(Debug, Clone, Copy, PartialEq, Eq, Structural)]
pub enum Commitment {
    Processed,
    Confirmed,
    Finalized,
}

impl Commitment {
    pub open spec fn spec_rank(self) -> nat {
        match self {
            Commitment::Processed => 0,
            Commitment::Confirmed => 1,
            Commitment::Finalized => 2,
        }
    }

    /// Whether `self` is at least as final as `other`.
    pub open spec fn spec_reaches(self, other: Commitment) -> bool {
        self.spec_rank() >= other.spec_rank()
    }

    #[verifier::when_used_as_spec(spec_reaches)]
    pub fn reaches(self, other: Commitment) -> (r: bool)
        ensures
            r == self.spec_reaches(other),
    {
        let a: u8 = match self {
            Commitment::Processed => 0,
            Commitment::Confirmed => 1,
            Commitment::Finalized => 2,
        };
        let b: u8 = match other {
            Commitment::Processed => 0,
            Commitment::Confirmed => 1,
            Commitment::Finalized => 2,
        };
        a >= b
    }
}

/// What one status query said of the signature.
#[derive(Debug, PartialEq, Eq)]
pub enum StatusReport {
    /// The node has not seen the signature (yet).
    NotFound,
    /// The node has seen it at `level`; `error` is the on-chain error, if any.
    Seen { level: Commitment, error: Option<String> },
}

/// Where polling stands.
#[derive(Debug, PartialEq, Eq)]
pub enum PollState {
    /// Still waiting; `polls` intervals have passed without a final answer.
    Pending { polls: u64 },
    Confirmed,
    Failed(String),
    TimedOut,
}

/// The commitment an RPC node's `confirmationStatus` text names; an absent
/// or unknown status counts as processed.
pub open spec fn level_named(status: Option<Seq<char>>) -> Commitment {
    match status {
        Some(s) if s == "finalized"@ => Commitment::Finalized,
        Some(s) if s == "confirmed"@ => Commitment::Confirmed,
        _ => Commitment::Processed,
    }
}

/// Turns the fields of one signature-status entry into a report: no entry
/// means not found; otherwise the level its status names and its error.
pub fn status_report(entry: Option<(Option<String>, Option<String>)>) -> (r: StatusReport)
    ensures
        entry is None ==> r == StatusReport::NotFound,
        entry matches Some((status, error)) ==> r == (StatusReport::Seen {
            level: level_named(
                match status {
                    Some(t) => Some(t@),
                    None => None,
                },
            ),
            error,
        }),
{
    match entry {
        None => StatusReport::NotFound,
        Some((status, error)) => {
            let level = match status {
                Some(t) => if t == string_of("finalized") {
                    Commitment::Finalized
                } else if t == string_of("confirmed") {
                    Commitment::Confirmed
                } else {
                    Commitment::Processed
                },
                None => Commitment::Processed,
            };
            StatusReport::Seen { level, error }
        },
    }
}

/// The state after one more answer, with `budget` intervals allowed at the
/// `required` commitment. Final states never change.
pub open spec fn poll_step(state: PollState, report: StatusReport, required: Commitment, budget: u64) -> PollState {
    match state {
        PollState::Pending { polls } => match report {
            StatusReport::Seen { level: _, error: Some(e) } => PollState::Failed(e),
            StatusReport::Seen { level, error: None } if level.spec_reaches(required) => PollState::Confirmed,
            _ => if polls + 1 >= budget {
                PollState::TimedOut
            } else {
                PollState::Pending { polls: (polls + 1) as u64 }
            },
        },
        _ => state,
    }
}

/// The state after a sequence of answers, in order.
pub open spec fn poll_run(state: PollState, reports: Seq<StatusReport>, required: Commitment, budget: u64) -> PollState
    decreases reports.len(),
{
    if reports.len() == 0 {
        state
    } else {
        poll_run(
            poll_step(state, reports[0], required, budget),
            reports.drop_first(),
            required,
            budget,
        )
    }
}

/// `n` answers of "not found".
pub open spec fn not_found_answers(n: nat) -> Seq<StatusReport> {
    Seq::new(n, |i: int| StatusReport::NotFound)
}

/// Polls one signature at the `required` commitment for at most `budget`
/// intervals.
#[derive(Debug, PartialEq, Eq)]
pub struct ConfirmationPoller {
    pub required: Commitment,
    pub budget: u64,
    pub state: PollState,
}

impl ConfirmationPoller {
    pub fn new(required: Commitment, budget: u64) -> (r: Self)
        ensures
            r.required == required,
            r.budget == budget,
            r.state == (PollState::Pending { polls: 0 }),
    {
        ConfirmationPoller { required, budget, state: PollState::Pending { polls: 0 } }
    }

    /// Takes the answer of one status query.
    pub fn observe(&mut self, report: StatusReport)
        requires
            old(self).state matches PollState::Pending { polls } ==> polls < u64::MAX,
        ensures
            final(self).required == old(self).required,
            final(self).budget == old(self).budget,
            final(self).state == poll_step(old(self).state, report, old(self).required, old(self).budget),
    {
        match self.state {
            PollState::Pending { polls } => {
                let next = match report {
                    StatusReport::Seen { level: _, error: Some(e) } => PollState::Failed(e),
                    StatusReport::Seen { level, error: None } if level.reaches(self.required) => {
                        PollState::Confirmed
                    },
                    _ => if polls + 1 >= self.budget {
                        PollState::TimedOut
                    } else {
                        PollState::Pending { polls: polls + 1 }
                    },
                };
                self.state = next;
            },
            _ => {},
        }
    }

    /// Whether polling has ended.
    pub fn is_done(&self) -> (r: bool)
        ensures
            r == !(self.state is Pending),
    {
        !matches!(self.state, PollState::Pending { .. })
    }

    /// The result of a finished poll, as a provider's result.
    pub fn outcome(&self) -> (r: Option<Result<(), ProviderError>>)
        ensures
            self.state is Pending ==> r is None,
            self.state is Confirmed ==> r == Some(Ok::<(), ProviderError>(())),
            self.state is TimedOut ==> r == Some(Err::<(), ProviderError>(ProviderError::ConfirmationTimeout)),
            self.state matches PollState::Failed(e) ==> (r matches Some(Err(ProviderError::ConfirmationFailed(m))) && m@ == e@),
    {
        match &self.state {
            PollState::Pending { .. } => None,
            PollState::Confirmed => Some(Ok(())),
            PollState::TimedOut => Some(Err(ProviderError::ConfirmationTimeout)),
            PollState::Failed(e) => Some(Err(ProviderError::ConfirmationFailed(e.clone()))),
        }
    }
}

/// A pending poll becomes confirmed as soon as the node reports the
/// signature, without error, at or above the required commitment.
pub proof fn lemma_confirms_at_required_commitment(
    polls: u64,
    level: Commitment,
    required: Commitment,
    budget: u64,
)
    requires
        level.spec_reaches(required),
    ensures
        poll_step(
            PollState::Pending { polls },
            StatusReport::Seen { level, error: None },
            required,
            budget,
        ) == PollState::Confirmed,
{
}

/// With a budget of `budget` intervals and a node that never finds the
/// signature, polling stays pending through the first `budget - 1` answers
/// and times out on exactly the `budget`-th.
pub proof fn lemma_times_out_exactly_at_budget(required: Commitment, budget: u64)
    requires
        budget >= 1,
    ensures
        forall|k: nat|
            k < budget ==> #[trigger] poll_run(
                PollState::Pending { polls: 0 },
                not_found_answers(k),
                required,
                budget,
            ) == (PollState::Pending { polls: k as u64 }),
        poll_run(PollState::Pending { polls: 0 }, not_found_answers(budget as nat), required, budget)
            == PollState::TimedOut,
{
    assert forall|k: nat| k < budget implies #[trigger] poll_run(
        PollState::Pending { polls: 0 },
        not_found_answers(k),
        required,
        budget,
    ) == (PollState::Pending { polls: k as u64 }) by {
        lemma_not_found_prefix(required, budget, k);
    }
    lemma_not_found_prefix(required, budget, (budget - 1) as nat);
    lemma_run_split(
        PollState::Pending { polls: 0 },
        not_found_answers((budget - 1) as nat),
        seq![StatusReport::NotFound],
        required,
        budget,
    );
    assert(not_found_answers((budget - 1) as nat) + seq![StatusReport::NotFound] =~= not_found_answers(
        budget as nat,
    ));
    assert(poll_run(
        PollState::TimedOut,
        seq![StatusReport::NotFound].drop_first(),
        required,
        budget,
    ) == PollState::TimedOut);
}

/// Once timed out, later answers change nothing.
pub proof fn lemma_final_states_stay(state: PollState, reports: Seq<StatusReport>, required: Commitment, budget: u64)
    requires
        !(state is Pending),
    ensures
        poll_run(state, reports, required, budget) == state,
    decreases reports.len(),
{
    if reports.len() > 0 {
        lemma_final_states_stay(state, reports.drop_first(), required, budget);
    }
}

proof fn lemma_run_split(
    state: PollState,
    a: Seq<StatusReport>,
    b: Seq<StatusReport>,
    required: Commitment,
    budget: u64,
)
    ensures
        poll_run(state, a + b, required, budget) == poll_run(
            poll_run(state, a, required, budget),
            b,
            required,
            budget,
        ),
    decreases a.len(),
{
    if a.len() > 0 {
        assert((a + b).drop_first() =~= a.drop_first() + b);
        lemma_run_split(poll_step(state, a[0], required, budget), a.drop_first(), b, required, budget);
    } else {
        assert(a + b =~= b);
    }
}

proof fn lemma_not_found_prefix(required: Commitment, budget: u64, k: nat)
    requires
        k < budget,
    ensures
        poll_run(PollState::Pending { polls: 0 }, not_found_answers(k), required, budget)
            == (PollState::Pending { polls: k as u64 }),
    decreases k,
{
    if k == 0 {
        assert(not_found_answers(0).len() == 0);
    } else {
        lemma_not_found_prefix(required, budget, (k - 1) as nat);
        lemma_run_split(
            PollState::Pending { polls: 0 },
            not_found_answers((k - 1) as nat),
            seq![StatusReport::NotFound],
            required,
            budget,
        );
        assert(not_found_answers((k - 1) as nat) + seq![StatusReport::NotFound] =~= not_found_answers(k));
        let s1 = PollState::Pending { polls: (k - 1) as u64 };
        assert(poll_step(s1, StatusReport::NotFound, required, budget) == (PollState::Pending { polls: k as u64 }));
        assert(poll_run(
            PollState::Pending { polls: k as u64 },
            seq![StatusReport::NotFound].drop_first(),
            required,
            budget,
        ) == (PollState::Pending { polls: k as u64 }));
    }
}

} // verus!
