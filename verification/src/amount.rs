use vstd::prelude::*;
use num256::Uint256;
use num_traits::CheckedAdd;
use num_traits::CheckedDiv;
use num_traits::CheckedMul;
use num_traits::CheckedSub;

verus! {

broadcast use vstd::array::group_array_axioms;

/// 256 raised to the power `n`.
pub open spec fn pow256(n: nat) -> nat
    decreases n,
{
    if n == 0 {
        1
    } else {
        256 * pow256((n - 1) as nat)
    }
}

/// The exclusive upper bound of an `Amount`: 2^256.
pub open spec fn amount_bound() -> nat {
    pow256(32)
}

/// The non-negative integer denoted by a big-endian byte string.
pub open spec fn be_nat(s: Seq<u8>) -> nat
    decreases s.len(),
{
    if s.len() == 0 {
        0
    } else {
        be_nat(s.drop_last()) * 256 + s.last() as nat
    }
}

/// A quantity of an asset in its smallest unit (wei-equivalent): a 256-bit
/// non-negative integer held in big-endian byte order, exactly as the chain
/// encodes balances, transfer values and event payload words.
#[derive(Clone, Copy, Debug)]
pub struct Amount {
    pub bytes: [u8; 32],
}

impl View for Amount {
    type V = nat;

    open spec fn view(&self) -> nat {
        be_nat(self.bytes@)
    }
}

pub proof fn lemma_be_nat_injective(a: Seq<u8>, b: Seq<u8>)
    requires
        a.len() == b.len(),
        be_nat(a) == be_nat(b),
    ensures
        a == b,
    decreases a.len(),
{
    if a.len() == 0 {
        assert(a =~= b);
    } else {
        let da = a.drop_last();
        let db = b.drop_last();
        vstd::arithmetic::div_mod::lemma_fundamental_div_mod_converse(
            be_nat(a) as int,
            256,
            be_nat(da) as int,
            a.last() as int,
        );
        vstd::arithmetic::div_mod::lemma_fundamental_div_mod_converse(
            be_nat(b) as int,
            256,
            be_nat(db) as int,
            b.last() as int,
        );
        assert(be_nat(da) == be_nat(db));
        assert(a.last() == b.last());
        lemma_be_nat_injective(da, db);
        assert(forall|i: int| 0 <= i < a.len() - 1 ==> a[i] == da[i] && b[i] == db[i]);
        assert(a =~= b);
    }
}

/// Prepending one byte shifts the denoted value by a full byte position.
pub proof fn lemma_be_nat_prepend(b: u8, t: Seq<u8>)
    ensures
        be_nat(seq![b] + t) == b * pow256(t.len()) + be_nat(t),
    decreases t.len(),
{
    let s = seq![b] + t;
    if t.len() == 0 {
        assert(s.drop_last() =~= Seq::<u8>::empty());
        assert(s.last() == b);
        assert(be_nat(Seq::<u8>::empty()) == 0);
        assert(pow256(0) == 1);
        assert(be_nat(s) == be_nat(Seq::<u8>::empty()) * 256 + b);
        assert(t =~= Seq::<u8>::empty());
        assert(be_nat(s) == b * pow256(t.len()) + be_nat(t));
    } else {
        let td = t.drop_last();
        let p = pow256(td.len());
        assert(s.drop_last() =~= seq![b] + td);
        lemma_be_nat_prepend(b, td);
        assert(s.last() == t.last());
        assert(be_nat(s) == (b * p + be_nat(td)) * 256 + t.last());
        assert((b * p + be_nat(td)) * 256 == b * (256 * p) + be_nat(td) * 256)
            by (nonlinear_arith);
        assert(pow256(t.len()) == 256 * p);
        assert(be_nat(t) == be_nat(td) * 256 + t.last());
        assert(be_nat(s) == b * pow256(t.len()) + be_nat(t));
    }
}

/// Leading zero bytes do not change the denoted value.
pub proof fn lemma_be_nat_zero_prefix(s: Seq<u8>, k: nat)
    requires
        k <= s.len(),
        forall|i: int| 0 <= i < k ==> s[i] == 0,
    ensures
        be_nat(s) == be_nat(s.skip(k as int)),
    decreases k,
{
    if k > 0 {
        let t = s.skip(1);
        assert(s =~= seq![s[0]] + t);
        lemma_be_nat_prepend(s[0], t);
        assert(be_nat(s) == be_nat(t));
        assert(forall|i: int| 0 <= i < k - 1 ==> t[i] == s[i + 1] && t[i] == 0);
        lemma_be_nat_zero_prefix(t, (k - 1) as nat);
        assert(t.skip((k - 1) as int) =~= s.skip(k as int));
    } else {
        assert(s.skip(0) =~= s);
    }
}

impl PartialEq for Amount {
    fn eq(&self, other: &Amount) -> (r: bool) {
        let mut i: usize = 0;
        while i < 32
            invariant
                i <= 32,
                forall|j: int| 0 <= j < i ==> self.bytes@[j] == other.bytes@[j],
            decreases 32 - i,
        {
            if self.bytes[i] != other.bytes[i] {
                proof {
                    assert(self.bytes@[i as int] != other.bytes@[i as int]);
                }
                return false;
            }
            i += 1;
        }
        proof {
            assert(self.bytes@ =~= other.bytes@);
            assert(self.bytes =~= other.bytes);
        }
        true
    }
}

impl Eq for Amount {

}

impl vstd::std_specs::cmp::PartialEqSpecImpl for Amount {
    open spec fn obeys_eq_spec() -> bool {
        true
    }

    open spec fn eq_spec(&self, other: &Amount) -> bool {
        self.bytes == other.bytes
    }
}

impl Amount {
    /// Two amounts denoting the same value hold the same bytes: the
    /// 32-byte big-endian form is canonical.
    pub proof fn lemma_value_injective(self, other: Amount)
        requires
            self@ == other@,
        ensures
            self.bytes == other.bytes,
    {
        lemma_be_nat_injective(self.bytes@, other.bytes@);
    }

    /// The amount denoting `v`.
    pub fn from_u64(v: u64) -> (r: Amount)
        ensures
            r@ == v as nat,
    {
        let mut bytes: [u8; 32] = [0;32];
        let mut rem: u64 = v;
        let mut i: usize = 0;
        proof {
            assert(bytes@.len() == 32);
            assert(bytes@.skip(32) =~= Seq::<u8>::empty());
            assert(be_nat(bytes@.skip(32)) == 0);
            assert(pow256(0) == 1);
            assert((rem as nat) * pow256(0) == v as nat);
        }
        while i < 8
            invariant
                i <= 8,
                forall|j: int| 0 <= j < 32 - i ==> bytes@[j] == 0,
                be_nat(bytes@.skip(32 - i as int)) + (rem as nat) * pow256(i as nat) == v as nat,
            decreases 8 - i,
        {
            let ghost pre = bytes@;
            let ghost old_rem = rem as nat;
            let b = (rem % 256) as u8;
            bytes[31 - i] = b;
            rem = rem / 256;
            proof {
                let s = pre.skip(32 - i as int);
                let p = pow256(i as nat);
                assert(bytes@.skip(31 - i as int) =~= seq![b] + s);
                lemma_be_nat_prepend(b, s);
                assert(be_nat(bytes@.skip(31 - i as int)) == (b as nat) * p + be_nat(s));
                assert(pow256((i + 1) as nat) == 256 * p);
                vstd::arithmetic::div_mod::lemma_fundamental_div_mod(old_rem as int, 256);
                assert(old_rem == 256 * (rem as nat) + (b as nat));
                assert((b as nat) * p + (rem as nat) * (256 * p) == old_rem * p)
                    by (nonlinear_arith)
                    requires
                        old_rem == 256 * (rem as nat) + (b as nat),
                ;
            }
            i += 1;
        }
        proof {
            reveal_with_fuel(pow256, 9);
            assert(pow256(8) == 0x10000000000000000);
            let s = bytes@.skip(24);
            assert(rem == 0) by (nonlinear_arith)
                requires
                    be_nat(s) + (rem as nat) * pow256(8) == v as nat,
                    v < pow256(8),
                    pow256(8) == 0x10000000000000000,
            ;
            lemma_be_nat_zero_prefix(bytes@, 24);
        }
        Amount { bytes }
    }

    /// Whether the amount is exactly zero.
    pub fn is_zero(&self) -> (r: bool)
        ensures
            r <==> self@ == 0,
    {
        let z = Amount::from_u64(0);
        proof {
            if self@ == z@ {
                self.lemma_value_injective(z);
            }
        }
        *self == z
    }

    /// Relies on `num256::Uint256`: `from_be_bytes` and `to_be_bytes` read and
    /// write the 256-bit value big-endian, and `checked_add` (forwarded to the
    /// underlying fixed-width integer) returns the sum, or `None` exactly when
    /// the sum does not fit in 256 bits.
    #[verifier::external_body]
    pub fn checked_add(&self, other: &Amount) -> (r: Option<Amount>)
        ensures
            r is Some <==> self@ + other@ < amount_bound(),
            r is Some ==> r->Some_0@ == self@ + other@,
    {
        let a = Uint256::from_be_bytes(&self.bytes);
        let b = Uint256::from_be_bytes(&other.bytes);
        a.checked_add(&b).map(|u| Amount { bytes: u.to_be_bytes() })
    }

    /// Relies on `num256::Uint256`: `checked_sub` returns the difference, or
    /// `None` exactly when the subtrahend exceeds the minuend.
    #[verifier::external_body]
    pub fn checked_sub(&self, other: &Amount) -> (r: Option<Amount>)
        ensures
            r is Some <==> other@ <= self@,
            r is Some ==> r->Some_0@ == self@ - other@,
    {
        let a = Uint256::from_be_bytes(&self.bytes);
        let b = Uint256::from_be_bytes(&other.bytes);
        a.checked_sub(&b).map(|u| Amount { bytes: u.to_be_bytes() })
    }

    /// Relies on `num256::Uint256`: `checked_mul` returns the product, or
    /// `None` exactly when the product does not fit in 256 bits.
    #[verifier::external_body]
    pub fn checked_mul(&self, other: &Amount) -> (r: Option<Amount>)
        ensures
            r is Some <==> self@ * other@ < amount_bound(),
            r is Some ==> r->Some_0@ == self@ * other@,
    {
        let a = Uint256::from_be_bytes(&self.bytes);
        let b = Uint256::from_be_bytes(&other.bytes);
        a.checked_mul(&b).map(|u| Amount { bytes: u.to_be_bytes() })
    }

    /// Relies on `num256::Uint256`: `checked_div` returns the truncating
    /// quotient, or `None` exactly on a zero divisor.
    #[verifier::external_body]
    pub fn checked_div(&self, other: &Amount) -> (r: Option<Amount>)
        ensures
            r is Some <==> other@ != 0,
            r is Some ==> r->Some_0@ == self@ / other@,
    {
        let a = Uint256::from_be_bytes(&self.bytes);
        let b = Uint256::from_be_bytes(&other.bytes);
        a.checked_div(&b).map(|u| Amount { bytes: u.to_be_bytes() })
    }
}

} // verus!
