use vstd::prelude::*;
use crate::BridgeError;
use crate::amount::Amount;

verus! {

/// Where a two-phase conversion stands. Both end-to-end conversions —
/// coin to bridged coin (swap, then bridge deposit) and bridged coin to
/// coin (bridge withdrawal, then swap) — are strict two-phase pipelines:
/// phase one must fully confirm before phase two is initiated, and there is
/// no compensating rollback, because the two phases touch different
/// contracts with no shared transaction, so atomicity across them is
/// impossible and is not claimed.
#[derive(Clone, Copy, PartialEq, Debug)]
pub enum ConversionPhase {
    /// Phase one runs; nothing is confirmed yet.
    FirstPending,
    /// Phase one confirmed with `intermediate`; phase two runs on it.
    SecondPending { intermediate: Amount },
    /// Both phases confirmed; `output` is the final credited amount.
    Complete { output: Amount },
    /// Phase one failed: the conversion did not happen.
    FirstFailed { error: BridgeError },
    /// Phase two failed after phase one succeeded: a partial completion,
    /// reported distinctly and never folded into a plain failure. The
    /// caller holds `intermediate` of the in-between asset and may retry
    /// phase two alone.
    SecondFailed { intermediate: Amount, error: BridgeError },
}

/// What the coordinator asks its caller to perform next.
#[derive(Clone, Copy, PartialEq, Debug)]
pub enum ConversionAction {
    /// Run phase one: the swap, or the bridge withdrawal.
    RunFirst,
    /// Run phase two on the amount phase one delivered.
    RunSecond { amount: Amount },
    /// Nothing more: the conversion reached a terminal phase.
    Stop,
}

/// Where every conversion starts: phase one pending, phase one to run.
pub open spec fn spec_conversion_start() -> (ConversionPhase, ConversionAction) {
    (ConversionPhase::FirstPending, ConversionAction::RunFirst)
}

/// The coordinator's single transition: consume the outcome of the phase
/// that just finished and decide what runs next. Terminal phases absorb
/// every further outcome.
pub open spec fn spec_conversion_step(
    phase: ConversionPhase,
    outcome: Result<Amount, BridgeError>,
) -> (ConversionPhase, ConversionAction) {
    match phase {
        ConversionPhase::FirstPending => match outcome {
            Result::Ok(a) => (
                ConversionPhase::SecondPending { intermediate: a },
                ConversionAction::RunSecond { amount: a },
            ),
            Result::Err(e) => (ConversionPhase::FirstFailed { error: e }, ConversionAction::Stop),
        },
        ConversionPhase::SecondPending { intermediate } => match outcome {
            Result::Ok(out) => (
                ConversionPhase::Complete { output: out },
                ConversionAction::Stop,
            ),
            Result::Err(e) => (
                ConversionPhase::SecondFailed { intermediate, error: e },
                ConversionAction::Stop,
            ),
        },
        _ => (phase, ConversionAction::Stop),
    }
}

pub fn conversion_start() -> (r: (ConversionPhase, ConversionAction))
    ensures
        r == spec_conversion_start(),
{
    (ConversionPhase::FirstPending, ConversionAction::RunFirst)
}

pub fn conversion_step(phase: &ConversionPhase, outcome: &Result<Amount, BridgeError>) -> (r: (
    ConversionPhase,
    ConversionAction,
))
    ensures
        r == spec_conversion_step(*phase, *outcome),
{
    match phase {
        ConversionPhase::FirstPending => match outcome {
            Ok(a) => (
                ConversionPhase::SecondPending { intermediate: *a },
                ConversionAction::RunSecond { amount: *a },
            ),
            Err(e) => (ConversionPhase::FirstFailed { error: *e }, ConversionAction::Stop),
        },
        ConversionPhase::SecondPending { intermediate } => match outcome {
            Ok(out) => (ConversionPhase::Complete { output: *out }, ConversionAction::Stop),
            Err(e) => (
                ConversionPhase::SecondFailed { intermediate: *intermediate, error: *e },
                ConversionAction::Stop,
            ),
        },
        ConversionPhase::Complete { output } => (
            ConversionPhase::Complete { output: *output },
            ConversionAction::Stop,
        ),
        ConversionPhase::FirstFailed { error } => (
            ConversionPhase::FirstFailed { error: *error },
            ConversionAction::Stop,
        ),
        ConversionPhase::SecondFailed { intermediate, error } => (
            ConversionPhase::SecondFailed { intermediate: *intermediate, error: *error },
            ConversionAction::Stop,
        ),
    }
}

/// Law: phase two never starts before phase one's confirmation is observed.
/// The only transition that emits `RunSecond` is the one that consumes a
/// successful phase-one outcome while phase one was still pending, and the
/// amount handed to phase two is exactly the amount that outcome delivered.
pub proof fn lemma_second_phase_needs_first_confirmation(
    phase: ConversionPhase,
    outcome: Result<Amount, BridgeError>,
)
    ensures
        spec_conversion_step(phase, outcome).1 matches ConversionAction::RunSecond { amount }
            ==> (phase is FirstPending && (outcome matches Result::Ok(a) && amount == a)),
{
}

/// Law: from the start of a conversion, phase two is requested exactly when
/// the first phase's outcome is a confirmed success.
pub proof fn lemma_start_ordering(outcome: Result<Amount, BridgeError>)
    ensures
        spec_conversion_step(spec_conversion_start().0, outcome).1 is RunSecond <==> outcome is Ok,
{
}

/// The whole trajectory of a conversion driven by a sequence of observed
/// phase outcomes: the start, then one transition per outcome.
pub open spec fn spec_conversion_run(outcomes: Seq<Result<Amount, BridgeError>>) -> Seq<
    (ConversionPhase, ConversionAction),
>
    decreases outcomes.len(),
{
    if outcomes.len() == 0 {
        seq![spec_conversion_start()]
    } else {
        let prefix = spec_conversion_run(outcomes.drop_last());
        prefix.push(spec_conversion_step(prefix.last().0, outcomes.last()))
    }
}

/// Law: over any run of a conversion, whatever outcomes arrive and in
/// whatever order, phase two is requested only immediately after a
/// successful phase-one outcome is observed, and with exactly the amount
/// that outcome delivered. The second submission can therefore never
/// precede the first confirmation.
pub proof fn lemma_run_ordering(outcomes: Seq<Result<Amount, BridgeError>>, i: int)
    requires
        0 <= i < spec_conversion_run(outcomes).len(),
        spec_conversion_run(outcomes)[i].1 is RunSecond,
    ensures
        1 <= i,
        outcomes[i - 1] matches Result::Ok(a) && spec_conversion_run(outcomes)[i].1
            == (ConversionAction::RunSecond { amount: a }),
        spec_conversion_run(outcomes)[i - 1].0 is FirstPending,
    decreases outcomes.len(),
{
    let run = spec_conversion_run(outcomes);
    assert(run.len() == outcomes.len() + 1) by {
        lemma_run_length(outcomes);
    }
    if outcomes.len() == 0 {
        assert(run[0] == spec_conversion_start());
    } else {
        let prefix = spec_conversion_run(outcomes.drop_last());
        lemma_run_length(outcomes.drop_last());
        if i < run.len() - 1 {
            assert(run[i] == prefix[i]);
            lemma_run_ordering(outcomes.drop_last(), i);
            assert(outcomes.drop_last()[i - 1] == outcomes[i - 1]);
            assert(run[i - 1] == prefix[i - 1]);
        } else {
            assert(run[i] == spec_conversion_step(prefix.last().0, outcomes.last()));
            lemma_second_phase_needs_first_confirmation(prefix.last().0, outcomes.last());
            assert(run[i - 1] == prefix[prefix.len() - 1]);
            assert(outcomes[i - 1] == outcomes.last());
        }
    }
}

/// The run has one entry per outcome, plus the start.
pub proof fn lemma_run_length(outcomes: Seq<Result<Amount, BridgeError>>)
    ensures
        spec_conversion_run(outcomes).len() == outcomes.len() + 1,
    decreases outcomes.len(),
{
    if outcomes.len() > 0 {
        lemma_run_length(outcomes.drop_last());
    }
}

} // verus!
