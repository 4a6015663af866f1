use token_bridge::BridgeError;
use token_bridge::abi::EthAddress;
use token_bridge::amount::Amount;
use token_bridge::amm::min_acceptable_output;
use token_bridge::amm::quote_output;
use token_bridge::bridge::TokenBridge;
use token_bridge::bridge::decode_reserve_response;

fn amt(v: u64) -> Amount {
    Amount::from_u64(v)
}

fn addr(b: u8) -> EthAddress {
    EthAddress { bytes: [b; 20] }
}

fn bridge() -> TokenBridge {
    TokenBridge::new(addr(1), addr(2), addr(3), addr(4), addr(5))
}

#[test]
fn quote_scenario_small_pool() {
    // reserves 1000/1000, input 100:
    // numerator = 100*1000*997 = 99700000
    // denominator = 1000*1000 + 100*997 = 1099700
    // output = 90 (integer division)
    let b = bridge();
    let out = b.eth_to_dai_price(&amt(100), &amt(1000), &amt(1000)).unwrap();
    assert_eq!(out, amt(90));
}

#[test]
fn quote_scenario_other_direction() {
    // the same reserves with the roles swapped give the same symmetric quote
    let b = bridge();
    let out = b.dai_to_eth_price(&amt(100), &amt(1000), &amt(1000)).unwrap();
    assert_eq!(out, amt(90));
}

#[test]
fn quote_is_monotonic_in_input() {
    // growing inputs against fixed reserves give non-decreasing outputs
    let cases: Vec<(u64, u64)> = vec![(1, 0), (50, 47), (100, 90), (150, 130), (100000, 990)];
    let mut last: u64 = 0;
    for (input, expected) in cases {
        let out = quote_output(&amt(input), &amt(1000), &amt(1000)).unwrap();
        assert_eq!(out, amt(expected));
        assert!(last <= expected);
        last = expected;
    }
}

#[test]
fn quote_overflow_is_surfaced() {
    let huge = Amount { bytes: [0xffu8; 32] };
    let r = quote_output(&huge, &amt(1), &huge);
    assert_eq!(r.unwrap_err(), BridgeError::AmountOverflow);
}

#[test]
fn min_acceptable_output_scenario() {
    // expectedOutput 1000 -> 1000*39/40 = 975
    let r = min_acceptable_output(&amt(1000)).unwrap();
    assert_eq!(r, amt(975));
}

#[test]
fn min_acceptable_output_multiplies_before_dividing() {
    // 7*39/40 = 273/40 = 6; dividing first would give (7/40)*39 = 0
    let r = min_acceptable_output(&amt(7)).unwrap();
    assert_eq!(r, amt(6));
}

#[test]
fn reserve_response_too_short_is_a_failed_read() {
    let r = decode_reserve_response(&vec![0u8; 31]);
    assert_eq!(r.unwrap_err(), BridgeError::ChainRead);
}

#[test]
fn reserve_response_head_word_is_decoded() {
    let mut response = vec![0u8; 64];
    response[31] = 9;
    response[63] = 0xff;
    let r = decode_reserve_response(&response).unwrap();
    assert_eq!(r, amt(9));
}
