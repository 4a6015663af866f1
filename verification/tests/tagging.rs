use token_bridge::BridgeError;
use token_bridge::amount::Amount;
use token_bridge::tag::TaggedAmount;

fn amt(v: u64) -> Amount {
    Amount::from_u64(v)
}

#[test]
fn tag_scenario_five_coin_units() {
    // base 5000000000000000000 (5 coin-units), nonce 42
    let base = amt(5000000000000000000);
    let tag = TaggedAmount::new(&base, 42).unwrap();
    assert_eq!(tag.total, amt(5000000000000000042));
    // an event reporting exactly the tagged total matches
    assert!(tag.matches_credit(&amt(5000000000000000042)));
    // one reporting the untagged base amount does not
    assert!(!tag.matches_credit(&amt(5000000000000000000)));
}

#[test]
fn tag_round_trip_recovers_base() {
    let base = amt(123456789);
    let tag = TaggedAmount::new(&base, 65535).unwrap();
    assert_eq!(tag.total, amt(123456789 + 65535));
    assert_eq!(tag.recovered_base(), base);
}

#[test]
fn tag_with_zero_nonce_is_the_base() {
    let base = amt(77);
    let tag = TaggedAmount::new(&base, 0).unwrap();
    assert_eq!(tag.total, base);
    assert_eq!(tag.recovered_base(), base);
}

#[test]
fn tag_overflow_is_surfaced() {
    let max = Amount { bytes: [0xffu8; 32] };
    let r = TaggedAmount::new(&max, 1);
    assert_eq!(r.unwrap_err(), BridgeError::AmountOverflow);
}
