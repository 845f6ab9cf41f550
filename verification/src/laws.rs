use vstd::prelude::*;

use crate::contract::{deposit_fits, designated_ledger, spec_change_exchange_rate};
use crate::contract::{spec_ft_on_transfer, spec_new, spec_set_owner, NotifyOutcomeView, StateView};
use crate::errors::ContractError;
use crate::purpose::{spec_decode_purpose, DepositPurpose};
use crate::rate::convert_overflows;

verus! {

/// One call of an entry point, as its inputs stand at spec level.
pub enum Operation {
    SetOwner { caller: Seq<char>, owner_id: Seq<char> },
    ChangeExchangeRate { caller: Seq<char>, exchange_rate: u32 },
    FtOnTransfer { predecessor: Seq<char>, sender: Seq<char>, amount: u128, msg: Seq<char> },
}

/// The state an operation leads to. An aborted operation and a graceful
/// refund both leave the state as it was.
pub open spec fn apply_operation(s: StateView, op: Operation) -> StateView {
    match op {
        Operation::SetOwner { caller, owner_id } => match spec_set_owner(s, caller, owner_id) {
            Ok(s1) => s1,
            Err(_) => s,
        },
        Operation::ChangeExchangeRate { caller, exchange_rate } => match spec_change_exchange_rate(
            s,
            caller,
            exchange_rate,
        ) {
            Ok(s1) => s1,
            Err(_) => s,
        },
        Operation::FtOnTransfer { predecessor, sender, amount, msg } => match spec_ft_on_transfer(
            s,
            predecessor,
            sender,
            amount,
            msg,
        ) {
            Ok(step) => step.0,
            Err(_) => s,
        },
    }
}

/// The state a whole sequence of operations leads to, applied in order.
pub open spec fn apply_operations(s: StateView, ops: Seq<Operation>) -> StateView
    decreases ops.len(),
{
    if ops.len() == 0 {
        s
    } else {
        apply_operations(apply_operation(s, ops[0]), ops.subrange(1, ops.len() as int))
    }
}

/// The reserve is never negative, whatever sequence of operations has run
/// since initialization: it lives in an unsigned counter and every
/// transition keeps it one.
pub proof fn lemma_reserve_never_negative(
    owner_id: Seq<char>,
    trade_in_token_contract: Seq<char>,
    trade_out_token_contract: Seq<char>,
    ops: Seq<Operation>,
)
    ensures
        apply_operations(
            spec_new(owner_id, trade_in_token_contract, trade_out_token_contract),
            ops,
        ).trade_out_token_deposit >= 0,
{
}

/// The reserve only ever decreases by exactly the amount of the payout
/// request issued within the same operation: a debit without a matching
/// outbound transfer request cannot happen.
pub proof fn lemma_reserve_decrease_matches_payout(
    s: StateView,
    predecessor: Seq<char>,
    sender: Seq<char>,
    amount: u128,
    msg: Seq<char>,
)
    requires
        spec_decode_purpose(msg) == Some(DepositPurpose::DepositTradeOutToken) && predecessor
            == s.trade_out_token_contract ==> deposit_fits(s, amount),
    ensures
        ({
            let r = spec_ft_on_transfer(s, predecessor, sender, amount, msg);
            r matches Ok(step) ==> (step.0.trade_out_token_deposit < s.trade_out_token_deposit
                ==> (step.1 matches NotifyOutcomeView::Converted(t) && t.amount
                == s.trade_out_token_deposit - step.0.trade_out_token_deposit))
        }),
{
}

/// A rate change to the value just set is rejected as a no-op, and by the
/// entry point's contract the rejected call leaves the state unchanged.
pub proof fn lemma_repeated_rate_change_rejected(s: StateView, caller: Seq<char>, exchange_rate: u32)
    requires
        spec_change_exchange_rate(s, caller, exchange_rate) is Ok,
    ensures
        ({
            let s1 = spec_change_exchange_rate(s, caller, exchange_rate)->Ok_0;
            spec_change_exchange_rate(s1, caller, exchange_rate) == Err::<
                StateView,
                ContractError,
            >(ContractError::NoOpRateChange)
        }),
{
}

/// A purpose notified by a ledger other than the one designated for that
/// purpose aborts with `WrongLedger`, and by the entry point's contract the
/// aborted call leaves the state unchanged.
pub proof fn lemma_wrong_ledger_aborts(
    s: StateView,
    predecessor: Seq<char>,
    sender: Seq<char>,
    amount: u128,
    msg: Seq<char>,
)
    requires
        spec_decode_purpose(msg) matches Some(p) && predecessor != designated_ledger(s, p),
    ensures
        spec_ft_on_transfer(s, predecessor, sender, amount, msg) == Err::<
            (StateView, NotifyOutcomeView),
            ContractError,
        >(ContractError::WrongLedger),
{
}

/// A message that fails to decode refunds the full notified amount and
/// mutates nothing.
pub proof fn lemma_undecodable_message_refunds(
    s: StateView,
    predecessor: Seq<char>,
    sender: Seq<char>,
    amount: u128,
    msg: Seq<char>,
)
    requires
        spec_decode_purpose(msg) is None,
    ensures
        spec_ft_on_transfer(s, predecessor, sender, amount, msg) == Ok::<
            (StateView, NotifyOutcomeView),
            ContractError,
        >((s, NotifyOutcomeView::Refunded(amount))),
{
}

/// A conversion whose product overflows refunds the full notified amount
/// and mutates nothing; unlike the aborting validation failures, this is a
/// graceful return.
pub proof fn lemma_overflowing_conversion_refunds(
    s: StateView,
    predecessor: Seq<char>,
    sender: Seq<char>,
    amount: u128,
    msg: Seq<char>,
)
    requires
        spec_decode_purpose(msg) == Some(DepositPurpose::ConvertToTradeOutToken),
        predecessor == s.trade_in_token_contract,
        convert_overflows(amount, s.exchange_rate),
    ensures
        spec_ft_on_transfer(s, predecessor, sender, amount, msg) == Ok::<
            (StateView, NotifyOutcomeView),
            ContractError,
        >((s, NotifyOutcomeView::Refunded(amount))),
{
}

} // verus!
