use vstd::prelude::*;
use crate::BridgeError;
use crate::amount::Amount;
use crate::amount::amount_bound;

verus! {

/// An outbound bridge transfer tagged with a small nonce, so that the
/// otherwise unidentifiable credit event on the destination chain can be
/// recognised among concurrent transfers.
///
/// The tag is a correlation heuristic only, not a security mechanism: any
/// observer of the source chain can read or forge it, and two concurrent
/// transfers may collide on the same tagged total. The caller draws the
/// nonce (uniformly over the full `u16` range) and passes it in.
#[derive(Clone, Copy, Debug)]
pub struct TaggedAmount {
    pub base: Amount,
    pub nonce: u16,
    pub total: Amount,
}

impl TaggedAmount {
    /// The invariant: the transferred total is exactly the base amount plus
    /// the nonce.
    pub open spec fn wf(self) -> bool {
        self.total@ == self.base@ + self.nonce
    }

    /// Tag `base` with `nonce`. Fails only when the tagged total would leave
    /// the 256-bit range.
    pub fn new(base: &Amount, nonce: u16) -> (r: Result<TaggedAmount, BridgeError>)
        ensures
            r is Ok <==> base@ + nonce < amount_bound(),
            r is Ok ==> {
                &&& r->Ok_0.wf()
                &&& r->Ok_0.base@ == base@
                &&& r->Ok_0.nonce == nonce
                &&& r->Ok_0.total@ == base@ + nonce
            },
            r is Err ==> r->Err_0 == BridgeError::AmountOverflow,
    {
        let nonce_amount = Amount::from_u64(nonce as u64);
        match base.checked_add(&nonce_amount) {
            Some(total) => Ok(TaggedAmount { base: *base, nonce, total }),
            None => Err(BridgeError::AmountOverflow),
        }
    }

    /// The base amount, recovered by subtracting the nonce from the total.
    pub fn recovered_base(&self) -> (r: Amount)
        requires
            self.wf(),
        ensures
            r@ == self.base@,
    {
        let nonce_amount = Amount::from_u64(self.nonce as u64);
        match self.total.checked_sub(&nonce_amount) {
            Some(base) => base,
            None => {
                proof {
                    assert(false);
                }
                self.base
            },
        }
    }

    /// Whether an observed credit event carries exactly the tagged total:
    /// the predicate used to correlate the inbound credit.
    pub fn matches_credit(&self, event_amount: &Amount) -> (r: bool)
        ensures
            r <==> event_amount@ == self.total@,
    {
        proof {
            if event_amount@ == self.total@ {
                event_amount.lemma_value_injective(self.total);
            }
        }
        *event_amount == self.total
    }
}

/// Law: tagging round-trips. For every tagged amount, the total less the
/// nonce is exactly the base amount, and a credit amount equals the total
/// exactly when it is the base amount plus the nonce — no other amount
/// matches the tag.
pub proof fn lemma_tag_round_trip(t: TaggedAmount, credit: nat)
    requires
        t.wf(),
    ensures
        t.total@ - t.nonce == t.base@,
        (credit == t.total@) <==> (credit == t.base@ + t.nonce),
{
}

} // verus!
