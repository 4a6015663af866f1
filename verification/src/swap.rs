use vstd::prelude::*;
use crate::BridgeError;
use crate::abi::CallArg;
use crate::abi::EthAddress;
use crate::abi::ObservedEvent;
use crate::abi::spec_realized_output;
use crate::abi::well_formed_signature;
use crate::amount::Amount;
use crate::amount::be_nat;

verus! {

/// Which way a swap trades at the venue.
#[derive(Clone, Copy, PartialEq, Eq, Structural, Debug)]
pub enum SwapDirection {
    /// Sell the chain's native coin for the bridged token.
    CoinToToken,
    /// Sell the bridged token for the chain's native coin.
    TokenToCoin,
}

impl SwapDirection {
    /// The venue call submitted for this direction.
    pub open spec fn spec_call_signature(self) -> Seq<char> {
        match self {
            SwapDirection::CoinToToken => "ethToTokenSwapInput(uint256,uint256)"@,
            SwapDirection::TokenToCoin => "tokenToEthSwapInput(uint256,uint256,uint256)"@,
        }
    }

    /// The confirmation event the venue emits for this direction.
    pub open spec fn spec_event_signature(self) -> Seq<char> {
        match self {
            SwapDirection::CoinToToken => "TokenPurchase(address,uint256,uint256)"@,
            SwapDirection::TokenToCoin => "EthPurchase(address,uint256,uint256)"@,
        }
    }

    pub fn call_signature(&self) -> (r: &'static str)
        ensures
            r@ == self.spec_call_signature(),
            well_formed_signature(r@),
    {
        match self {
            SwapDirection::CoinToToken => {
                let s = "ethToTokenSwapInput(uint256,uint256)";
                proof {
                    reveal_strlit("ethToTokenSwapInput(uint256,uint256)");
                    assert(s@.len() == 36);
                    assert(s@[19] == '(');
                    assert(s@[35] == ')');
                    assert(s@.contains('('));
                    assert(s@.contains(')'));
                    assert(forall|i: int| 0 <= i < 36 ==> s@[i] != ' ');
                }
                s
            },
            SwapDirection::TokenToCoin => {
                let s = "tokenToEthSwapInput(uint256,uint256,uint256)";
                proof {
                    reveal_strlit("tokenToEthSwapInput(uint256,uint256,uint256)");
                    assert(s@.len() == 44);
                    assert(s@[19] == '(');
                    assert(s@[43] == ')');
                    assert(s@.contains('('));
                    assert(s@.contains(')'));
                    assert(forall|i: int| 0 <= i < 44 ==> s@[i] != ' ');
                }
                s
            },
        }
    }

    pub fn event_signature(&self) -> (r: &'static str)
        ensures
            r@ == self.spec_event_signature(),
    {
        match self {
            SwapDirection::CoinToToken => "TokenPurchase(address,uint256,uint256)",
            SwapDirection::TokenToCoin => "EthPurchase(address,uint256,uint256)",
        }
    }
}

/// The predicate a pending event wait applies to each observed event.
#[derive(Clone, Copy, Debug)]
pub enum EventPredicate {
    /// Accept any event that passed the indexed-topic filter: purchase
    /// confirmations are already narrowed to the caller's account.
    AnyEvent,
    /// Accept only an event whose leading data word decodes to exactly this
    /// amount: bridge credits carry the tagged total there.
    AmountEquals(Amount),
}

/// What `EventPredicate` says of an event's topics and data.
pub open spec fn spec_event_matches(p: EventPredicate, data: Seq<u8>) -> bool {
    match p {
        EventPredicate::AnyEvent => true,
        EventPredicate::AmountEquals(a) => data.len() >= 32 && be_nat(data.subrange(0, 32)) == a@,
    }
}

/// Whether one observed event satisfies the wait's predicate.
pub fn event_matches(p: &EventPredicate, ev: &ObservedEvent) -> (r: bool)
    ensures
        r == spec_event_matches(*p, ev.data@),
{
    match p {
        EventPredicate::AnyEvent => true,
        EventPredicate::AmountEquals(a) => {
            match crate::abi::decode_amount_word(&ev.data, 0) {
                Some(v) => {
                    proof {
                        if v@ == a@ {
                            v.lemma_value_injective(*a);
                        }
                    }
                    v == *a
                },
                None => false,
            }
        },
    }
}

/// A pending subscription: where to listen, how to narrow, what to accept,
/// and how long to wait. It exists from the moment an operation is submitted
/// until its predicate matches or its deadline elapses, and must be torn down
/// at that moment.
pub struct EventFilter {
    /// The contract whose events are scanned.
    pub contract: EthAddress,
    /// The account the event must be addressed to (an indexed topic).
    pub account: EthAddress,
    /// The acceptance predicate run on each candidate event.
    pub predicate: EventPredicate,
    /// How many seconds the wait may run; `None` waits without bound.
    pub timeout_seconds: Option<u64>,
}

/// One decision of a deadline-bounded event wait.
#[derive(Clone, Copy, PartialEq, Eq, Structural, Debug)]
pub enum WaitStep {
    /// The candidate event satisfied the predicate: resolve with it.
    Matched,
    /// Nothing acceptable yet and time remains: keep the subscription open.
    KeepWaiting,
    /// The deadline passed without a match: resolve with a timeout.
    TimedOut,
}

/// The decision a bounded wait takes at time `now` (seconds since the wait
/// began), given whether an acceptable event has been observed.
pub open spec fn spec_wait_decision(timeout_seconds: u64, elapsed: u64, matched: bool) -> WaitStep {
    if matched {
        WaitStep::Matched
    } else if elapsed >= timeout_seconds {
        WaitStep::TimedOut
    } else {
        WaitStep::KeepWaiting
    }
}

/// Decide a bounded event wait: match beats timeout, and the wait neither
/// times out early nor continues past its deadline.
pub fn wait_step(timeout_seconds: u64, elapsed: u64, candidate: Option<&ObservedEvent>, p:
    &EventPredicate) -> (r: WaitStep)
    ensures
        r == spec_wait_decision(
            timeout_seconds,
            elapsed,
            candidate is Some && spec_event_matches(*p, candidate->Some_0.data@),
        ),
{
    let matched = match candidate {
        Some(ev) => event_matches(p, ev),
        None => false,
    };
    if matched {
        WaitStep::Matched
    } else if elapsed >= timeout_seconds {
        WaitStep::TimedOut
    } else {
        WaitStep::KeepWaiting
    }
}

/// Law: a bounded event wait resolves exactly at its deadline. If no
/// acceptable event has arrived, it keeps waiting strictly before the
/// timeout, and times out at or after it — it neither hangs past the
/// deadline nor reports a timeout early.
pub proof fn lemma_wait_resolves(timeout_seconds: u64, elapsed: u64, matched: bool)
    ensures
        !matched && elapsed >= timeout_seconds ==> spec_wait_decision(
            timeout_seconds,
            elapsed,
            matched,
        ) == WaitStep::TimedOut,
        !matched && elapsed < timeout_seconds ==> spec_wait_decision(
            timeout_seconds,
            elapsed,
            matched,
        ) == WaitStep::KeepWaiting,
        matched ==> spec_wait_decision(timeout_seconds, elapsed, matched) == WaitStep::Matched,
{
}

/// Everything a swap submission needs, computed before anything is sent: the
/// venue call payload carrying the slippage bound and the on-chain deadline,
/// the value to attach, and the confirmation wait that runs beside the
/// submission.
pub struct SwapPlan {
    pub direction: SwapDirection,
    /// The encoded venue call.
    pub payload: Vec<u8>,
    /// The value the transaction itself carries: the input amount when coin
    /// is sold, zero when the token is sold.
    pub attached_value: Amount,
    /// The least output the venue may deliver; it must reject the trade
    /// otherwise.
    pub min_output: Amount,
    /// The on-chain expiry: the latest block timestamp that may accept the
    /// trade.
    pub deadline: Amount,
    /// The confirmation wait, bounded by the same number of seconds.
    pub confirmation: EventFilter,
}

/// Join the two concurrent halves of a swap: the submission and the bounded
/// confirmation wait. The swap succeeds only when the transaction was
/// accepted and a confirmation event arrived in time; the realized output is
/// then decoded from the event. A timeout is reported as such: the trade's
/// outcome is unknown to the caller, though the on-chain deadline guarantees
/// it cannot be accepted later.
pub fn complete_swap(submission_accepted: bool, confirmation: Option<&ObservedEvent>) -> (r: Result<
    Amount,
    BridgeError,
>)
    ensures
        !submission_accepted ==> r is Err && r->Err_0 == BridgeError::SubmissionRejected,
        submission_accepted && confirmation is None ==> r is Err && r->Err_0
            == BridgeError::ConfirmationTimeout,
        submission_accepted && confirmation is Some ==> {
            let decoded = spec_realized_output(
                confirmation->Some_0.topics.deep_view(),
                confirmation->Some_0.data@,
            );
            &&& r is Ok <==> decoded is Ok
            &&& r is Ok ==> r->Ok_0@ == decoded->Ok_0
            &&& r is Err ==> r->Err_0 == decoded->Err_0
        },
{
    if !submission_accepted {
        return Err(BridgeError::SubmissionRejected);
    }
    match confirmation {
        None => Err(BridgeError::ConfirmationTimeout),
        Some(ev) => crate::abi::realized_output(ev),
    }
}

} // verus!
