use crate::decimal::Decimal;
use crate::error::ContractError;
use crate::state::TokenState;
use crate::token::{gov_error, spec_fee, spec_transfer};
use vstd::prelude::*;

verus! {

/// For every amount `a` and well-formed fee fraction `p`: the fee is
/// `floor(a * p)`, it never exceeds `a`, and fee plus net gives back `a`
/// exactly.
pub proof fn lemma_fee_net_split(a: u128, p: Decimal)
    requires
        p.wf(),
    ensures
        0 <= p.spec_mul_floor(a) <= a,
        p.spec_mul_floor(a) + (a - p.spec_mul_floor(a)) == a,
{
    let fi = crate::decimal::DECIMAL_FRACTIONAL as int;
    let t = p.atomics as int;
    let ai = a as int;
    assert(0 <= ai * t <= ai * fi) by (nonlinear_arith)
        requires
            0 <= ai,
            0 <= t <= fi,
    ;
    vstd::arithmetic::div_mod::lemma_div_is_ordered(0, ai * t, fi);
    vstd::arithmetic::div_mod::lemma_div_is_ordered(ai * t, ai * fi, fi);
    assert((ai * fi) / fi == ai) by {
        vstd::arithmetic::div_mod::lemma_div_multiples_vanish(ai, fi);
        assert(fi * ai == ai * fi) by (nonlinear_arith);
    }
}

/// A successful transfer moves value only among sender, recipient and
/// fee receiver, and only as the fee-neutral split: every other balance
/// is untouched, and when the three are distinct their sum is exactly
/// preserved.
pub proof fn lemma_transfer_conserves_sum(
    pre: TokenState,
    sender: Seq<char>,
    recipient: Seq<char>,
    amount: u128,
)
    requires
        pre.config.fee_percent.wf(),
        sender != recipient,
        sender != pre.config.fee_receiver@,
        recipient != pre.config.fee_receiver@,
    ensures
        spec_transfer(pre, sender, recipient, amount) matches Ok(nb) ==> {
            let frcv = pre.config.fee_receiver@;
            &&& nb[sender] + nb[recipient] + nb[frcv] == pre.balance_of(sender) + pre.balance_of(
                recipient,
            ) + pre.balance_of(frcv)
            &&& forall|a: Seq<char>|
                a != sender && a != recipient && a != frcv ==> #[trigger] nb[a]
                    == pre.balance_of(a)
        },
{
    lemma_fee_net_split(amount, pre.config.fee_percent);
}

/// A transfer to oneself with a distinct fee receiver costs the sender
/// exactly the fee, and pays the fee receiver exactly the fee.
pub proof fn lemma_self_transfer_costs_fee(pre: TokenState, sender: Seq<char>, amount: u128)
    requires
        pre.config.fee_percent.wf(),
        sender != pre.config.fee_receiver@,
    ensures
        spec_transfer(pre, sender, sender, amount) matches Ok(nb) ==> {
            let frcv = pre.config.fee_receiver@;
            &&& nb[sender] == pre.balance_of(sender) - spec_fee(pre, amount)
            &&& nb[frcv] == pre.balance_of(frcv) + spec_fee(pre, amount)
        },
{
    lemma_fee_net_split(amount, pre.config.fee_percent);
}

/// Once the contract is locked, the governance gate refuses every
/// caller: the owner is told the contract is locked, anyone else is
/// unauthorized — so no governance mutation, unlocking included, can
/// ever succeed again.
pub proof fn lemma_locked_blocks_governance(s: TokenState, sender: Seq<char>)
    requires
        s.config.immutable_mode,
    ensures
        gov_error(s, sender) is Some,
        sender == s.config.owner@ ==> gov_error(s, sender) == Some(ContractError::ContractLocked),
        sender != s.config.owner@ ==> gov_error(s, sender) == Some(ContractError::Unauthorized),
{
}

} // verus!
