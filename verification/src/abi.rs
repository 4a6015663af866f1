use vstd::prelude::*;
use crate::BridgeError;
use crate::amount::Amount;
use crate::amount::be_nat;

verus! {

broadcast use vstd::array::group_array_axioms;

/// An account or contract identity on either chain: a 20-byte identifier.
#[derive(Clone, Copy, Debug)]
pub struct EthAddress {
    pub bytes: [u8; 20],
}

impl View for EthAddress {
    type V = Seq<u8>;

    open spec fn view(&self) -> Seq<u8> {
        self.bytes@
    }
}

/// One static argument of a contract call.
#[derive(Clone, Copy, Debug)]
pub enum CallArg {
    Value(Amount),
    Account(EthAddress),
}

/// The 32-byte word that ABI encoding gives one static argument: an amount
/// stands as itself, big-endian; an account is left-padded with 12 zero bytes.
pub open spec fn abi_word(a: CallArg) -> Seq<u8> {
    match a {
        CallArg::Value(v) => v.bytes@,
        CallArg::Account(ad) => Seq::new(12, |i: int| 0u8) + ad.bytes@,
    }
}

/// The concatenation of the words of a static argument list.
pub open spec fn abi_words(args: Seq<CallArg>) -> Seq<u8>
    decreases args.len(),
{
    if args.len() == 0 {
        Seq::empty()
    } else {
        abi_words(args.drop_last()) + abi_word(args.last())
    }
}

pub proof fn lemma_abi_words_one(a: CallArg)
    ensures
        abi_words(seq![a]) == abi_word(a),
{
    assert(seq![a].drop_last() =~= Seq::<CallArg>::empty());
    assert(seq![a].last() == a);
    assert(abi_words(Seq::<CallArg>::empty()) == Seq::<u8>::empty());
    assert(abi_words(seq![a]) == Seq::<u8>::empty() + abi_word(a));
    assert(Seq::<u8>::empty() + abi_word(a) =~= abi_word(a));
}

pub proof fn lemma_abi_words_two(a: CallArg, b: CallArg)
    ensures
        abi_words(seq![a, b]) == abi_word(a) + abi_word(b),
{
    assert(seq![a, b].drop_last() =~= seq![a]);
    assert(seq![a, b].last() == b);
    lemma_abi_words_one(a);
}

pub proof fn lemma_abi_words_three(a: CallArg, b: CallArg, c: CallArg)
    ensures
        abi_words(seq![a, b, c]) == (abi_word(a) + abi_word(b)) + abi_word(c),
{
    assert(seq![a, b, c].drop_last() =~= seq![a, b]);
    assert(seq![a, b, c].last() == c);
    lemma_abi_words_two(a, b);
}

/// The four selector bytes of a call signature: the leading bytes of its
/// Keccak-256 digest, a function of the signature text alone.
pub uninterp spec fn selector_of(sig: Seq<char>) -> Seq<u8>;

/// A signature the selector derivation accepts: no space, and both
/// parentheses present.
pub open spec fn well_formed_signature(s: Seq<char>) -> bool {
    !s.contains(' ') && s.contains('(') && s.contains(')')
}

/// Relies on `clarity::abi::derive_method_id`: it returns the first four
/// bytes of the Keccak-256 digest of the signature, and fails exactly when
/// the signature holds a space or misses a parenthesis.
#[verifier::external_body]
fn derive_selector(sig: &str) -> (r: Option<Vec<u8>>)
    ensures
        r is Some <==> well_formed_signature(sig@),
        r is Some ==> r->Some_0@ == selector_of(sig@) && r->Some_0@.len() == 4,
{
    clarity::abi::derive_method_id(sig).ok().map(|b| b.to_vec())
}

/// The full payload of a contract call: the signature's selector, then each
/// static argument as one 32-byte word.
pub fn encode_call_data(sig: &str, args: &Vec<CallArg>) -> (r: Vec<u8>)
    requires
        well_formed_signature(sig@),
    ensures
        r@ == selector_of(sig@) + abi_words(args@),
{
    let mut out: Vec<u8> = match derive_selector(sig) {
        Some(s) => s,
        None => {
            proof {
                assert(false);
            }
            Vec::new()
        },
    };
    let mut k: usize = 0;
    while k < args.len()
        invariant
            k <= args@.len(),
            out@ == selector_of(sig@) + abi_words(args@.take(k as int)),
        decreases args@.len() - k,
    {
        let ghost pre = out@;
        match &args[k] {
            CallArg::Value(v) => {
                let mut j: usize = 0;
                while j < 32
                    invariant
                        j <= 32,
                        out@ == pre + v.bytes@.take(j as int),
                        args@[k as int] == CallArg::Value(*v),
                        k < args@.len(),
                    decreases 32 - j,
                {
                    out.push(v.bytes[j]);
                    proof {
                        assert(v.bytes@.take(j + 1 as int) =~= v.bytes@.take(j as int)
                            + seq![v.bytes@[j as int]]);
                        assert(out@ =~= pre + v.bytes@.take(j + 1 as int));
                    }
                    j += 1;
                }
                proof {
                    assert(v.bytes@.take(32) =~= v.bytes@);
                    assert(out@ =~= pre + abi_word(args@[k as int]));
                }
            },
            CallArg::Account(ad) => {
                let mut j: usize = 0;
                while j < 12
                    invariant
                        j <= 12,
                        out@ == pre + Seq::new(j as nat, |i: int| 0u8),
                        args@[k as int] == CallArg::Account(*ad),
                        k < args@.len(),
                    decreases 12 - j,
                {
                    out.push(0u8);
                    proof {
                        assert(Seq::new((j + 1) as nat, |i: int| 0u8) =~= Seq::new(
                            j as nat,
                            |i: int| 0u8,
                        ) + seq![0u8]);
                        assert(out@ =~= pre + Seq::new((j + 1) as nat, |i: int| 0u8));
                    }
                    j += 1;
                }
                let ghost mid = out@;
                let mut j: usize = 0;
                while j < 20
                    invariant
                        j <= 20,
                        out@ == mid + ad.bytes@.take(j as int),
                        mid == pre + Seq::new(12, |i: int| 0u8),
                        args@[k as int] == CallArg::Account(*ad),
                        k < args@.len(),
                    decreases 20 - j,
                {
                    out.push(ad.bytes[j]);
                    proof {
                        assert(ad.bytes@.take(j + 1 as int) =~= ad.bytes@.take(j as int)
                            + seq![ad.bytes@[j as int]]);
                        assert(out@ =~= mid + ad.bytes@.take(j + 1 as int));
                    }
                    j += 1;
                }
                proof {
                    assert(ad.bytes@.take(20) =~= ad.bytes@);
                    assert(out@ =~= pre + abi_word(args@[k as int]));
                }
            },
        }
        proof {
            assert(args@.take(k + 1 as int).drop_last() =~= args@.take(k as int));
            assert(args@.take(k + 1 as int).last() == args@[k as int]);
            assert(abi_words(args@.take(k + 1 as int)) == abi_words(args@.take(k as int))
                + abi_word(args@[k as int]));
            assert(out@ =~= selector_of(sig@) + abi_words(args@.take(k + 1 as int)));
        }
        k += 1;
    }
    proof {
        assert(args@.take(args@.len() as int) =~= args@);
    }
    out
}

/// An event observed on chain: its indexed topics and its trailing data.
pub struct ObservedEvent {
    pub topics: Vec<Vec<u8>>,
    pub data: Vec<u8>,
}

/// The 32-byte big-endian amount standing at offset `at` of a byte string,
/// if the string reaches that far.
pub fn decode_amount_word(bytes: &Vec<u8>, at: usize) -> (r: Option<Amount>)
    ensures
        r is Some <==> at + 32 <= bytes@.len(),
        r is Some ==> r->Some_0@ == be_nat(bytes@.subrange(at as int, at + 32)),
{
    if bytes.len() < 32 || at > bytes.len() - 32 {
        return None;
    }
    let n = bytes.len();
    let mut word: [u8; 32] = [0;32];
    let mut j: usize = 0;
    while j < 32
        invariant
            j <= 32,
            at + 32 <= n,
            n == bytes@.len(),
            forall|i: int| 0 <= i < j ==> word@[i] == bytes@[at + i],
        decreases 32 - j,
    {
        word[j] = bytes[at + j];
        j += 1;
    }
    proof {
        assert(word@ =~= bytes@.subrange(at as int, at + 32));
    }
    Some(Amount { bytes: word })
}

/// What decoding the realized output yields from an event's topics and data:
/// the third value-carrying field of the purchase event. Venue versions
/// differ: either all three fields are indexed and the output is the fourth
/// topic, or only the buyer is indexed and the output is the second word of
/// the data field. Anything else is malformed.
pub open spec fn spec_realized_output(topics: Seq<Seq<u8>>, data: Seq<u8>) -> Result<
    nat,
    BridgeError,
> {
    if topics.len() >= 4 && topics[3].len() == 32 {
        Result::Ok(be_nat(topics[3]))
    } else if topics.len() < 4 && data.len() >= 64 {
        Result::Ok(be_nat(data.subrange(32, 64)))
    } else {
        Result::Err(BridgeError::MalformedEventData)
    }
}

/// The realized output carried by a purchase-confirmation event, in either
/// of the two venue layouts `spec_realized_output` describes.
pub fn realized_output(ev: &ObservedEvent) -> (r: Result<Amount, BridgeError>)
    ensures
        r is Ok <==> spec_realized_output(ev.topics.deep_view(), ev.data@) is Ok,
        r is Ok ==> r->Ok_0@ == spec_realized_output(ev.topics.deep_view(), ev.data@)->Ok_0,
        r is Err ==> r->Err_0 == spec_realized_output(ev.topics.deep_view(), ev.data@)->Err_0,
{
    proof {
        assert(ev.topics.deep_view().len() == ev.topics@.len());
        assert(forall|i: int|
            0 <= i < ev.topics@.len() ==> ev.topics.deep_view()[i] == ev.topics@[i].deep_view());
        assert(forall|i: int| 0 <= i < ev.topics@.len() ==> ev.topics@[i].deep_view() =~= ev.topics@[i]@);
    }
    if ev.topics.len() >= 4 {
        let topic = &ev.topics[3];
        match decode_amount_word(topic, 0) {
            Some(v) => {
                proof {
                    if topic@.len() == 32 {
                        assert(topic@.subrange(0, 32) =~= topic@);
                    }
                }
                if topic.len() == 32 {
                    Ok(v)
                } else {
                    Err(BridgeError::MalformedEventData)
                }
            },
            None => Err(BridgeError::MalformedEventData),
        }
    } else {
        match decode_amount_word(&ev.data, 32) {
            Some(v) => Ok(v),
            None => Err(BridgeError::MalformedEventData),
        }
    }
}

} // verus!
