use vstd::prelude::*;
use crate::BridgeError;
use crate::abi::CallArg;
use crate::abi::EthAddress;
use crate::abi::ObservedEvent;
use crate::abi::encode_call_data;
use crate::abi::lemma_abi_words_three;
use crate::abi::lemma_abi_words_two;
use crate::abi::selector_of;
use crate::abi::well_formed_signature;
use crate::amm::amm_output;
use crate::amm::min_acceptable_output;
use crate::amm::min_acceptable_output_spec;
use crate::amm::quote_output;
use crate::amount::Amount;
use crate::amount::amount_bound;
use crate::amount::be_nat;
use crate::swap::EventFilter;
use crate::swap::EventPredicate;
use crate::swap::SwapDirection;
use crate::swap::SwapPlan;
use crate::tag::TaggedAmount;

verus! {

/// The signature of the token-transfer call that carries a deposit to the
/// bridge contract.
pub open spec fn spec_transfer_signature() -> Seq<char> {
    "transfer(address,uint256)"@
}

fn transfer_signature() -> (r: &'static str)
    ensures
        r@ == spec_transfer_signature(),
        well_formed_signature(r@),
{
    let s = "transfer(address,uint256)";
    proof {
        reveal_strlit("transfer(address,uint256)");
        assert(s@.len() == 25);
        assert(s@[8] == '(');
        assert(s@[24] == ')');
        assert(s@.contains('('));
        assert(s@.contains(')'));
        assert(forall|i: int| 0 <= i < 25 ==> s@[i] != ' ');
    }
    s
}

/// The credit event scanned on the destination chain of a bridge transfer:
/// the token transfer whose data field carries the credited amount.
pub open spec fn spec_credit_event_signature() -> Seq<char> {
    "Transfer(address,address,uint256)"@
}

pub fn credit_event_signature() -> (r: &'static str)
    ensures
        r@ == spec_credit_event_signature(),
{
    "Transfer(address,address,uint256)"
}

/// The pool reserve returned by a `balanceOf`-style contract read: the
/// leading 32-byte word of the response. A shorter response is a failed
/// read, never computed with.
pub fn decode_reserve_response(response: &Vec<u8>) -> (r: Result<Amount, BridgeError>)
    ensures
        r is Ok <==> response@.len() >= 32,
        r is Ok ==> r->Ok_0@ == be_nat(response@.subrange(0, 32)),
        r is Err ==> r->Err_0 == BridgeError::ChainRead,
{
    match crate::abi::decode_amount_word(response, 0) {
        Some(v) => Ok(v),
        None => Err(BridgeError::ChainRead),
    }
}

/// Everything a bridge transfer needs, computed before anything is sent:
/// where to send, what to send, the tag that identifies the credit, and the
/// credit wait to run on the destination chain — when that credit can be
/// observed at all.
pub struct BridgePlan {
    /// The contract the source-chain transaction goes to.
    pub to: EthAddress,
    /// The encoded call, empty for a plain value transfer.
    pub payload: Vec<u8>,
    /// The value the transaction itself carries.
    pub attached_value: Amount,
    /// The tagged amount: the transfer moves `tag.total`, and the credit
    /// event is recognised by carrying exactly that total.
    pub tag: TaggedAmount,
    /// A gas-price override for chains whose default estimate is unusable.
    pub gas_price: Option<Amount>,
    /// A network-id override for the transaction's signature.
    pub network_id: Option<u64>,
    /// The credit wait on the destination chain; `None` where this bridge
    /// direction emits no observable credit event, in which case the
    /// operation is submit-and-return and the caller must poll balances.
    pub credit_wait: Option<EventFilter>,
}

/// The conversion orchestrator's identity and collaborators: the venue, the
/// two bridge contract addresses, the bridged-token contract, and the
/// operator's account. The signing credential and the chain connections
/// stay with the caller; this core only decides what to submit and how to
/// recognise completion.
pub struct TokenBridge {
    pub uniswap_address: EthAddress,
    /// The bridge's contract on the home (sidechain) side.
    pub xdai_home_bridge_address: EthAddress,
    /// The bridge's contract on the foreign (Ethereum) side.
    pub xdai_foreign_bridge_address: EthAddress,
    /// The bridged-token contract on the foreign side.
    pub foreign_dai_contract_address: EthAddress,
    pub own_address: EthAddress,
}

impl TokenBridge {
    pub fn new(
        uniswap_address: EthAddress,
        xdai_home_bridge_address: EthAddress,
        xdai_foreign_bridge_address: EthAddress,
        foreign_dai_contract_address: EthAddress,
        own_address: EthAddress,
    ) -> (r: TokenBridge)
        ensures
            r.uniswap_address == uniswap_address,
            r.xdai_home_bridge_address == xdai_home_bridge_address,
            r.xdai_foreign_bridge_address == xdai_foreign_bridge_address,
            r.foreign_dai_contract_address == foreign_dai_contract_address,
            r.own_address == own_address,
    {
        TokenBridge {
            uniswap_address,
            xdai_home_bridge_address,
            xdai_foreign_bridge_address,
            foreign_dai_contract_address,
            own_address,
        }
    }

    /// Price of the coin in the bridged token: the expected output of
    /// selling `amount` coin against the pool's current reserves. The coin
    /// reserve is the pool's own balance; the token reserve is the pool's
    /// token balance.
    pub fn eth_to_dai_price(&self, amount: &Amount, coin_reserve: &Amount, token_reserve:
        &Amount) -> (r: Result<Amount, BridgeError>)
        requires
            coin_reserve@ > 0,
        ensures
            r is Ok <==> {
                &&& amount@ * token_reserve@ * 997 < amount_bound()
                &&& coin_reserve@ * 1000 + amount@ * 997 < amount_bound()
            },
            r is Ok ==> r->Ok_0@ == amm_output(amount@, coin_reserve@, token_reserve@),
            r is Err ==> r->Err_0 == BridgeError::AmountOverflow,
    {
        quote_output(amount, coin_reserve, token_reserve)
    }

    /// Price of the bridged token in the coin: the expected output of
    /// selling `amount` token against the same reserves, with the reserve
    /// roles swapped.
    pub fn dai_to_eth_price(&self, amount: &Amount, coin_reserve: &Amount, token_reserve:
        &Amount) -> (r: Result<Amount, BridgeError>)
        requires
            token_reserve@ > 0,
        ensures
            r is Ok <==> {
                &&& amount@ * coin_reserve@ * 997 < amount_bound()
                &&& token_reserve@ * 1000 + amount@ * 997 < amount_bound()
            },
            r is Ok ==> r->Ok_0@ == amm_output(amount@, token_reserve@, coin_reserve@),
            r is Err ==> r->Err_0 == BridgeError::AmountOverflow,
    {
        quote_output(amount, token_reserve, coin_reserve)
    }

    /// Plan the sale of `eth_amount` coin for the bridged token: the venue
    /// call carries the slippage-protected minimum output and the on-chain
    /// deadline `block_timestamp + timeout`, the transaction itself carries
    /// the coin, and the confirmation wait is bounded by the same timeout.
    pub fn eth_to_dai_swap(
        &self,
        eth_amount: &Amount,
        timeout: u64,
        block_timestamp: &Amount,
        expected_output: &Amount,
    ) -> (r: Result<SwapPlan, BridgeError>)
        ensures
            r is Ok <==> expected_output@ * 39 < amount_bound() && block_timestamp@ + timeout
                < amount_bound(),
            r is Ok ==> {
                let p = r->Ok_0;
                &&& p.direction == SwapDirection::CoinToToken
                &&& p.min_output@ == min_acceptable_output_spec(expected_output@)
                &&& p.deadline@ == block_timestamp@ + timeout
                &&& p.attached_value@ == eth_amount@
                &&& p.payload@ == selector_of(SwapDirection::CoinToToken.spec_call_signature())
                    + p.min_output.bytes@ + p.deadline.bytes@
                &&& p.confirmation.contract == self.uniswap_address
                &&& p.confirmation.account == self.own_address
                &&& p.confirmation.predicate is AnyEvent
                &&& p.confirmation.timeout_seconds == Some(timeout)
            },
            r is Err ==> r->Err_0 == BridgeError::AmountOverflow,
    {
        let direction = SwapDirection::CoinToToken;
        let min_output = match min_acceptable_output(expected_output) {
            Ok(v) => v,
            Err(e) => {
                return Err(e);
            },
        };
        let timeout_amount = Amount::from_u64(timeout);
        let deadline = match block_timestamp.checked_add(&timeout_amount) {
            Some(v) => v,
            None => {
                return Err(BridgeError::AmountOverflow);
            },
        };
        let mut args: Vec<CallArg> = Vec::new();
        args.push(CallArg::Value(min_output));
        args.push(CallArg::Value(deadline));
        proof {
            assert(args@ =~= seq![CallArg::Value(min_output), CallArg::Value(deadline)]);
            lemma_abi_words_two(CallArg::Value(min_output), CallArg::Value(deadline));
        }
        let payload = encode_call_data(direction.call_signature(), &args);
        proof {
            assert(payload@ =~= selector_of(direction.spec_call_signature())
                + min_output.bytes@ + deadline.bytes@);
        }
        Ok(
            SwapPlan {
                direction,
                payload,
                attached_value: *eth_amount,
                min_output,
                deadline,
                confirmation: EventFilter {
                    contract: self.uniswap_address,
                    account: self.own_address,
                    predicate: EventPredicate::AnyEvent,
                    timeout_seconds: Some(timeout),
                },
            },
        )
    }

    /// Plan the sale of `dai_amount` bridged token for the coin: the venue
    /// call carries the amount sold, the slippage-protected minimum output
    /// and the on-chain deadline; the transaction carries no value.
    pub fn dai_to_eth_swap(
        &self,
        dai_amount: &Amount,
        timeout: u64,
        block_timestamp: &Amount,
        expected_output: &Amount,
    ) -> (r: Result<SwapPlan, BridgeError>)
        ensures
            r is Ok <==> expected_output@ * 39 < amount_bound() && block_timestamp@ + timeout
                < amount_bound(),
            r is Ok ==> {
                let p = r->Ok_0;
                &&& p.direction == SwapDirection::TokenToCoin
                &&& p.min_output@ == min_acceptable_output_spec(expected_output@)
                &&& p.deadline@ == block_timestamp@ + timeout
                &&& p.attached_value@ == 0
                &&& p.payload@ == selector_of(SwapDirection::TokenToCoin.spec_call_signature())
                    + dai_amount.bytes@ + p.min_output.bytes@ + p.deadline.bytes@
                &&& p.confirmation.contract == self.uniswap_address
                &&& p.confirmation.account == self.own_address
                &&& p.confirmation.predicate is AnyEvent
                &&& p.confirmation.timeout_seconds == Some(timeout)
            },
            r is Err ==> r->Err_0 == BridgeError::AmountOverflow,
    {
        let direction = SwapDirection::TokenToCoin;
        let min_output = match min_acceptable_output(expected_output) {
            Ok(v) => v,
            Err(e) => {
                return Err(e);
            },
        };
        let timeout_amount = Amount::from_u64(timeout);
        let deadline = match block_timestamp.checked_add(&timeout_amount) {
            Some(v) => v,
            None => {
                return Err(BridgeError::AmountOverflow);
            },
        };
        let mut args: Vec<CallArg> = Vec::new();
        args.push(CallArg::Value(*dai_amount));
        args.push(CallArg::Value(min_output));
        args.push(CallArg::Value(deadline));
        proof {
            assert(args@ =~= seq![
                CallArg::Value(*dai_amount),
                CallArg::Value(min_output),
                CallArg::Value(deadline),
            ]);
            lemma_abi_words_three(
                CallArg::Value(*dai_amount),
                CallArg::Value(min_output),
                CallArg::Value(deadline),
            );
        }
        let payload = encode_call_data(direction.call_signature(), &args);
        proof {
            assert(payload@ =~= selector_of(direction.spec_call_signature()) + dai_amount.bytes@
                + min_output.bytes@ + deadline.bytes@);
        }
        Ok(
            SwapPlan {
                direction,
                payload,
                attached_value: Amount::from_u64(0),
                min_output,
                deadline,
                confirmation: EventFilter {
                    contract: self.uniswap_address,
                    account: self.own_address,
                    predicate: EventPredicate::AnyEvent,
                    timeout_seconds: Some(timeout),
                },
            },
        )
    }

    /// Plan a deposit of `dai_amount` bridged token into the bridge: a
    /// token transfer of the tagged total to the bridge's foreign contract.
    /// This bridge direction credits the sidechain without an observable
    /// event, so no credit wait is planned: the operation is
    /// submit-and-return, and the caller infers completion by polling
    /// balances.
    pub fn dai_to_xdai_bridge(&self, dai_amount: &Amount, nonce: u16) -> (r: Result<
        BridgePlan,
        BridgeError,
    >)
        ensures
            r is Ok <==> dai_amount@ + nonce < amount_bound(),
            r is Ok ==> {
                let p = r->Ok_0;
                &&& p.tag.wf()
                &&& p.tag.base@ == dai_amount@
                &&& p.tag.nonce == nonce
                &&& p.to == self.foreign_dai_contract_address
                &&& p.payload@ == selector_of(spec_transfer_signature()) + (Seq::new(
                    12,
                    |i: int| 0u8,
                ) + self.xdai_foreign_bridge_address@) + p.tag.total.bytes@
                &&& p.attached_value@ == 0
                &&& p.gas_price is None
                &&& p.network_id is None
                &&& p.credit_wait is None
            },
            r is Err ==> r->Err_0 == BridgeError::AmountOverflow,
    {
        let tag = match TaggedAmount::new(dai_amount, nonce) {
            Ok(t) => t,
            Err(e) => {
                return Err(e);
            },
        };
        let mut args: Vec<CallArg> = Vec::new();
        args.push(CallArg::Account(self.xdai_foreign_bridge_address));
        args.push(CallArg::Value(tag.total));
        proof {
            assert(args@ =~= seq![
                CallArg::Account(self.xdai_foreign_bridge_address),
                CallArg::Value(tag.total),
            ]);
            lemma_abi_words_two(
                CallArg::Account(self.xdai_foreign_bridge_address),
                CallArg::Value(tag.total),
            );
        }
        let payload = encode_call_data(transfer_signature(), &args);
        Ok(
            BridgePlan {
                to: self.foreign_dai_contract_address,
                payload,
                attached_value: Amount::from_u64(0),
                tag,
                gas_price: None,
                network_id: None,
                credit_wait: None,
            },
        )
    }

    /// Plan a withdrawal of `xdai_amount` sidechain coin through the bridge:
    /// a plain value transfer of the tagged total to the bridge's home
    /// contract, signed for the sidechain network with its fixed gas price,
    /// then a wait on the foreign chain for the token-transfer credit
    /// carrying exactly the tagged total.
    pub fn xdai_to_dai_bridge(&self, xdai_amount: &Amount, nonce: u16, timeout_seconds: Option<
        u64,
    >) -> (r: Result<BridgePlan, BridgeError>)
        ensures
            r is Ok <==> xdai_amount@ + nonce < amount_bound(),
            r is Ok ==> {
                let p = r->Ok_0;
                &&& p.tag.wf()
                &&& p.tag.base@ == xdai_amount@
                &&& p.tag.nonce == nonce
                &&& p.to == self.xdai_home_bridge_address
                &&& p.payload@.len() == 0
                &&& p.attached_value@ == p.tag.total@
                &&& p.gas_price matches Some(g) && g@ == 10000000000
                &&& p.network_id == Some(100u64)
                &&& p.credit_wait matches Some(w) && {
                    &&& w.contract == self.foreign_dai_contract_address
                    &&& w.account == self.own_address
                    &&& w.predicate matches EventPredicate::AmountEquals(a) && a@ == p.tag.total@
                    &&& w.timeout_seconds == timeout_seconds
                }
            },
            r is Err ==> r->Err_0 == BridgeError::AmountOverflow,
    {
        let tag = match TaggedAmount::new(xdai_amount, nonce) {
            Ok(t) => t,
            Err(e) => {
                return Err(e);
            },
        };
        Ok(
            BridgePlan {
                to: self.xdai_home_bridge_address,
                payload: Vec::new(),
                attached_value: tag.total,
                tag,
                gas_price: Some(Amount::from_u64(10000000000)),
                network_id: Some(100u64),
                credit_wait: Some(
                    EventFilter {
                        contract: self.foreign_dai_contract_address,
                        account: self.own_address,
                        predicate: EventPredicate::AmountEquals(tag.total),
                        timeout_seconds,
                    },
                ),
            },
        )
    }
}

/// Resolve a bridge transfer from the outcome of its credit wait. No event
/// within the bound is a timeout: the transfer's fate is unknown, not
/// failed. A matching event resolves to the tagged total — the caller
/// recovers the base amount by untagging. An event whose data does not
/// carry the tagged total reached completion past the filter: a protocol
/// mismatch, reported as malformed, never silently accepted.
pub fn complete_bridge_credit(tag: &TaggedAmount, credit: Option<&ObservedEvent>) -> (r: Result<
    Amount,
    BridgeError,
>)
    requires
        tag.wf(),
    ensures
        credit is None ==> r is Err && r->Err_0 == BridgeError::ConfirmationTimeout,
        credit is Some ==> {
            let data = credit->Some_0.data@;
            &&& r is Ok <==> data.len() >= 32 && be_nat(data.subrange(0, 32)) == tag.total@
            &&& r is Ok ==> r->Ok_0@ == tag.total@
            &&& r is Err ==> r->Err_0 == BridgeError::MalformedEventData
        },
{
    match credit {
        None => Err(BridgeError::ConfirmationTimeout),
        Some(ev) => {
            match crate::abi::decode_amount_word(&ev.data, 0) {
                Some(v) => {
                    if tag.matches_credit(&v) {
                        Ok(v)
                    } else {
                        Err(BridgeError::MalformedEventData)
                    }
                },
                None => Err(BridgeError::MalformedEventData),
            }
        },
    }
}

} // verus!
