use token_bridge::BridgeError;
use token_bridge::abi::EthAddress;
use token_bridge::abi::ObservedEvent;
use token_bridge::amount::Amount;
use token_bridge::bridge::TokenBridge;
use token_bridge::bridge::complete_bridge_credit;
use token_bridge::coordinator::ConversionAction;
use token_bridge::coordinator::ConversionPhase;
use token_bridge::coordinator::conversion_start;
use token_bridge::coordinator::conversion_step;
use token_bridge::swap::EventPredicate;
use token_bridge::swap::WaitStep;
use token_bridge::swap::complete_swap;
use token_bridge::swap::event_matches;
use token_bridge::swap::wait_step;
use token_bridge::tag::TaggedAmount;

fn amt(v: u64) -> Amount {
    Amount::from_u64(v)
}

fn addr(b: u8) -> EthAddress {
    EthAddress { bytes: [b; 20] }
}

fn bridge() -> TokenBridge {
    TokenBridge::new(addr(1), addr(2), addr(3), addr(4), addr(5))
}

fn event_with_data_word(v: u64) -> ObservedEvent {
    ObservedEvent { topics: vec![vec![0u8; 32], vec![0u8; 32]], data: amt(v).bytes.to_vec() }
}

#[test]
fn wait_resolves_at_the_deadline_not_before() {
    // a 60-second wait with no matching event keeps waiting before 60s and
    // times out at or after 60s, never hanging
    let p = EventPredicate::AnyEvent;
    assert_eq!(wait_step(60, 0, None, &p), WaitStep::KeepWaiting);
    assert_eq!(wait_step(60, 59, None, &p), WaitStep::KeepWaiting);
    assert_eq!(wait_step(60, 60, None, &p), WaitStep::TimedOut);
    assert_eq!(wait_step(60, 100000, None, &p), WaitStep::TimedOut);
}

#[test]
fn wait_match_beats_deadline() {
    let p = EventPredicate::AnyEvent;
    let ev = event_with_data_word(1);
    assert_eq!(wait_step(60, 59, Some(&ev), &p), WaitStep::Matched);
}

#[test]
fn credit_predicate_accepts_only_the_tagged_total() {
    let tag = TaggedAmount::new(&amt(5000), 17).unwrap();
    let p = EventPredicate::AmountEquals(tag.total);
    assert!(event_matches(&p, &event_with_data_word(5017)));
    assert!(!event_matches(&p, &event_with_data_word(5000)));
    assert!(!event_matches(&p, &ObservedEvent { topics: vec![], data: vec![0u8; 16] }));
}

#[test]
fn swap_times_out_without_confirmation() {
    let r = complete_swap(true, None);
    assert_eq!(r.unwrap_err(), BridgeError::ConfirmationTimeout);
}

#[test]
fn swap_submission_rejection_wins() {
    let ev = event_with_data_word(1);
    let r = complete_swap(false, Some(&ev));
    assert_eq!(r.unwrap_err(), BridgeError::SubmissionRejected);
}

#[test]
fn swap_realized_output_from_indexed_topic() {
    // newer venue layout: buyer and both amounts indexed, output = topics[3]
    let ev = ObservedEvent {
        topics: vec![vec![0u8; 32], vec![1u8; 32], vec![2u8; 32], amt(901).bytes.to_vec()],
        data: vec![],
    };
    let r = complete_swap(true, Some(&ev)).unwrap();
    assert_eq!(r, amt(901));
}

#[test]
fn swap_realized_output_from_data_words() {
    // older venue layout: amounts in the data field, output = second word
    let mut data = amt(333).bytes.to_vec();
    data.extend_from_slice(&amt(902).bytes);
    let ev = ObservedEvent { topics: vec![vec![0u8; 32], vec![1u8; 32]], data };
    let r = complete_swap(true, Some(&ev)).unwrap();
    assert_eq!(r, amt(902));
}

#[test]
fn swap_malformed_event_is_surfaced() {
    let ev = ObservedEvent { topics: vec![vec![0u8; 32]], data: vec![0u8; 40] };
    let r = complete_swap(true, Some(&ev));
    assert_eq!(r.unwrap_err(), BridgeError::MalformedEventData);
}

#[test]
fn bridge_credit_times_out_without_event() {
    let tag = TaggedAmount::new(&amt(5000), 17).unwrap();
    let r = complete_bridge_credit(&tag, None);
    assert_eq!(r.unwrap_err(), BridgeError::ConfirmationTimeout);
}

#[test]
fn bridge_credit_resolves_to_the_tagged_total() {
    let tag = TaggedAmount::new(&amt(5000), 17).unwrap();
    let r = complete_bridge_credit(&tag, Some(&event_with_data_word(5017))).unwrap();
    assert_eq!(r, amt(5017));
}

#[test]
fn bridge_credit_with_other_amount_is_malformed() {
    let tag = TaggedAmount::new(&amt(5000), 17).unwrap();
    let r = complete_bridge_credit(&tag, Some(&event_with_data_word(5018)));
    assert_eq!(r.unwrap_err(), BridgeError::MalformedEventData);
}

#[test]
fn conversion_runs_second_phase_only_after_first_confirms() {
    let (phase, action) = conversion_start();
    assert_eq!(phase, ConversionPhase::FirstPending);
    assert_eq!(action, ConversionAction::RunFirst);

    // a failed first phase stops the conversion: no bridge submission
    let (failed, action) = conversion_step(&phase, &Err(BridgeError::ConfirmationTimeout));
    assert!(matches!(failed, ConversionPhase::FirstFailed { .. }));
    assert_eq!(action, ConversionAction::Stop);

    // only a confirmed first phase requests the second, with its amount
    let (second, action) = conversion_step(&phase, &Ok(amt(42)));
    assert_eq!(second, ConversionPhase::SecondPending { intermediate: amt(42) });
    assert_eq!(action, ConversionAction::RunSecond { amount: amt(42) });

    let (done, action) = conversion_step(&second, &Ok(amt(40)));
    assert_eq!(done, ConversionPhase::Complete { output: amt(40) });
    assert_eq!(action, ConversionAction::Stop);
}

#[test]
fn conversion_reports_partial_completion_distinctly() {
    let (second, _) = conversion_step(&ConversionPhase::FirstPending, &Ok(amt(42)));
    let (failed, action) = conversion_step(&second, &Err(BridgeError::SubmissionRejected));
    assert_eq!(
        failed,
        ConversionPhase::SecondFailed {
            intermediate: amt(42),
            error: BridgeError::SubmissionRejected,
        },
    );
    assert_eq!(action, ConversionAction::Stop);
}

#[test]
fn terminal_phases_absorb_outcomes() {
    let done = ConversionPhase::Complete { output: amt(1) };
    let (next, action) = conversion_step(&done, &Ok(amt(9)));
    assert_eq!(next, done);
    assert_eq!(action, ConversionAction::Stop);
}

#[test]
fn swap_plan_carries_bound_deadline_and_value() {
    let b = bridge();
    let plan = b.eth_to_dai_swap(&amt(2), 60, &amt(1000), &amt(1000)).unwrap();
    assert_eq!(plan.min_output, amt(975));
    assert_eq!(plan.deadline, amt(1060));
    assert_eq!(plan.attached_value, amt(2));
    assert_eq!(plan.payload.len(), 4 + 32 + 32);
    assert_eq!(&plan.payload[4..36], &amt(975).bytes[..]);
    assert_eq!(&plan.payload[36..68], &amt(1060).bytes[..]);
    assert_eq!(plan.confirmation.timeout_seconds, Some(60));
}

#[test]
fn token_swap_plan_carries_the_sold_amount_first() {
    let b = bridge();
    let plan = b.dai_to_eth_swap(&amt(500), 60, &amt(1000), &amt(1000)).unwrap();
    assert_eq!(plan.min_output, amt(975));
    assert_eq!(plan.attached_value, amt(0));
    assert_eq!(plan.payload.len(), 4 + 3 * 32);
    assert_eq!(&plan.payload[4..36], &amt(500).bytes[..]);
    assert_eq!(&plan.payload[36..68], &amt(975).bytes[..]);
    assert_eq!(&plan.payload[68..100], &amt(1060).bytes[..]);
}

#[test]
fn deposit_plan_is_a_tagged_token_transfer() {
    let b = bridge();
    let plan = b.dai_to_xdai_bridge(&amt(5), 1).unwrap();
    assert_eq!(plan.to.bytes, addr(4).bytes);
    // the selector of transfer(address,uint256)
    assert_eq!(&plan.payload[0..4], &[0xa9u8, 0x05, 0x9c, 0xbb][..]);
    // first word: the bridge's foreign contract, left-padded to 32 bytes
    assert_eq!(&plan.payload[4..16], &[0u8; 12][..]);
    assert_eq!(&plan.payload[16..36], &addr(3).bytes[..]);
    // second word: the tagged total
    assert_eq!(&plan.payload[36..68], &amt(6).bytes[..]);
    assert_eq!(plan.attached_value, amt(0));
    // the deposit credit is not observable: submit and return
    assert!(plan.credit_wait.is_none());
}

#[test]
fn withdraw_plan_sends_the_tagged_total_and_waits_for_it() {
    let b = bridge();
    let plan = b.xdai_to_dai_bridge(&amt(5), 7, Some(60)).unwrap();
    assert_eq!(plan.to.bytes, addr(2).bytes);
    assert!(plan.payload.is_empty());
    assert_eq!(plan.attached_value, amt(12));
    assert_eq!(plan.gas_price, Some(amt(10_000_000_000)));
    assert_eq!(plan.network_id, Some(100));
    let wait = plan.credit_wait.unwrap();
    assert_eq!(wait.contract.bytes, addr(4).bytes);
    assert_eq!(wait.account.bytes, addr(5).bytes);
    assert_eq!(wait.timeout_seconds, Some(60));
    assert!(event_matches(&wait.predicate, &event_with_data_word(12)));
    assert!(!event_matches(&wait.predicate, &event_with_data_word(5)));
}
