use vstd::prelude::*;

use crate::errors::ContractError;
use crate::purpose::{decode_purpose, spec_decode_purpose, DepositPurpose};
use crate::rate::{convert, convert_overflows, spec_convert, RATE_SCALE};

verus! {

/// One tera-unit of execution budget.
pub const T_GAS: u64 = 1_000_000_000_000;

/// Fixed execution budget attached to every outbound transfer request.
pub const GAS_FOR_FT_TRANSFER: u64 = 10 * T_GAS;

/// The singleton contract state: the administrator, the two collaborator
/// ledgers, the out-token reserve and the current exchange rate. It is
/// created once by [`TokenMappingContract::new`] and mutated only through
/// the entry points below.
pub struct TokenMappingContract {
    /// Identity of the administrator.
    pub owner_id: String,
    /// Identity of the ledger whose deposits are converted.
    pub trade_in_token_contract: String,
    /// Identity of the ledger whose deposits top up the reserve, and which
    /// is asked to pay converted amounts out.
    pub trade_out_token_contract: String,
    /// Out-token units held by this contract and available for payout.
    pub trade_out_token_deposit: u128,
    /// Out tokens per in token, scaled by [`RATE_SCALE`].
    pub exchange_rate: u32,
}

/// Mathematical model of the contract state.
#[verifier::ext_equal]
pub struct StateView {
    pub owner_id: Seq<char>,
    pub trade_in_token_contract: Seq<char>,
    pub trade_out_token_contract: Seq<char>,
    pub trade_out_token_deposit: u128,
    pub exchange_rate: u32,
}

impl View for TokenMappingContract {
    type V = StateView;

    open spec fn view(&self) -> StateView {
        StateView {
            owner_id: self.owner_id@,
            trade_in_token_contract: self.trade_in_token_contract@,
            trade_out_token_contract: self.trade_out_token_contract@,
            trade_out_token_deposit: self.trade_out_token_deposit,
            exchange_rate: self.exchange_rate,
        }
    }
}

/// A request this contract issues against the out-token ledger, asking it to
/// move `amount` out tokens to `receiver_id`. The request is asynchronous
/// and unconfirmed: the issuing call returns once it is scheduled, and no
/// completion signal is wired back into the reserve accounting.
#[derive(Debug)]
pub struct TransferRequest {
    /// Who receives the out tokens.
    pub receiver_id: String,
    /// How many out tokens to move.
    pub amount: u128,
    /// The fixed execution budget the request carries.
    pub gas: u64,
}

/// Mathematical model of a transfer request.
#[verifier::ext_equal]
pub struct TransferRequestView {
    pub receiver_id: Seq<char>,
    pub amount: u128,
    pub gas: u64,
}

impl View for TransferRequest {
    type V = TransferRequestView;

    open spec fn view(&self) -> TransferRequestView {
        TransferRequestView { receiver_id: self.receiver_id@, amount: self.amount, gas: self.gas }
    }
}

/// What a deposit notification produced, when it did not abort.
#[derive(Debug)]
pub enum NotifyOutcome {
    /// The message failed to decode, or the conversion overflowed: the full
    /// deposit is handed back unconsumed and no state changed.
    Refunded(u128),
    /// A reserve top-up was accepted: the full deposit is kept.
    Accepted,
    /// A conversion was carried out: the full deposit is kept and a payout
    /// request for the converted amount is to be issued.
    Converted(TransferRequest),
}

/// Mathematical model of a notification outcome.
#[verifier::ext_equal]
pub enum NotifyOutcomeView {
    Refunded(u128),
    Accepted,
    Converted(TransferRequestView),
}

impl View for NotifyOutcome {
    type V = NotifyOutcomeView;

    open spec fn view(&self) -> NotifyOutcomeView {
        match self {
            NotifyOutcome::Refunded(amount) => NotifyOutcomeView::Refunded(*amount),
            NotifyOutcome::Accepted => NotifyOutcomeView::Accepted,
            NotifyOutcome::Converted(req) => NotifyOutcomeView::Converted(req@),
        }
    }
}

/// The portion of a notified amount handed back unconsumed: everything on a
/// refund, nothing otherwise.
pub open spec fn spec_unused_amount(o: NotifyOutcomeView) -> u128 {
    match o {
        NotifyOutcomeView::Refunded(amount) => amount,
        NotifyOutcomeView::Accepted => 0,
        NotifyOutcomeView::Converted(_) => 0,
    }
}

impl NotifyOutcome {
    /// The portion of the notified amount the ledger should refund.
    pub fn unused_amount(&self) -> (r: u128)
        ensures
            r == spec_unused_amount(self@),
    {
        match self {
            NotifyOutcome::Refunded(amount) => *amount,
            NotifyOutcome::Accepted => 0,
            NotifyOutcome::Converted(_) => 0,
        }
    }
}

/// The freshly initialized state: empty reserve, rate one for one.
pub open spec fn spec_new(
    owner_id: Seq<char>,
    trade_in_token_contract: Seq<char>,
    trade_out_token_contract: Seq<char>,
) -> StateView {
    StateView {
        owner_id,
        trade_in_token_contract,
        trade_out_token_contract,
        trade_out_token_deposit: 0,
        exchange_rate: RATE_SCALE,
    }
}

/// Owner replacement: rejected unless the caller is the current owner,
/// otherwise unconditional.
pub open spec fn spec_set_owner(
    s: StateView,
    caller: Seq<char>,
    owner_id: Seq<char>,
) -> Result<StateView, ContractError> {
    if caller != s.owner_id {
        Err(ContractError::Unauthorized)
    } else {
        Ok(StateView { owner_id, ..s })
    }
}

/// Rate replacement: rejected unless the caller is the current owner, and
/// rejected as a no-op when the new rate equals the current one.
pub open spec fn spec_change_exchange_rate(
    s: StateView,
    caller: Seq<char>,
    exchange_rate: u32,
) -> Result<StateView, ContractError> {
    if caller != s.owner_id {
        Err(ContractError::Unauthorized)
    } else if exchange_rate == s.exchange_rate {
        Err(ContractError::NoOpRateChange)
    } else {
        Ok(StateView { exchange_rate, ..s })
    }
}

/// The ledger designated for a purpose: top-ups must come from the
/// out-token ledger, conversions from the in-token ledger.
pub open spec fn designated_ledger(s: StateView, p: DepositPurpose) -> Seq<char> {
    match p {
        DepositPurpose::DepositTradeOutToken => s.trade_out_token_contract,
        DepositPurpose::ConvertToTradeOutToken => s.trade_in_token_contract,
    }
}

/// Whether a reserve top-up of `amount` still fits the reserve counter.
pub open spec fn deposit_fits(s: StateView, amount: u128) -> bool {
    s.trade_out_token_deposit + amount <= u128::MAX
}

/// The deposit-notification transition. Decode failure and conversion
/// overflow refund the full amount and leave the state as it was; a wrong
/// notifying ledger, a zero output and an output beyond the reserve abort;
/// otherwise the reserve moves and, for a conversion, a payout request for
/// exactly the debited amount is issued.
pub open spec fn spec_ft_on_transfer(
    s: StateView,
    predecessor: Seq<char>,
    sender: Seq<char>,
    amount: u128,
    msg: Seq<char>,
) -> Result<(StateView, NotifyOutcomeView), ContractError>
    recommends
        spec_decode_purpose(msg) == Some(DepositPurpose::DepositTradeOutToken)
            && predecessor == s.trade_out_token_contract ==> deposit_fits(s, amount),
{
    match spec_decode_purpose(msg) {
        None => Ok((s, NotifyOutcomeView::Refunded(amount))),
        Some(DepositPurpose::DepositTradeOutToken) => {
            if predecessor != s.trade_out_token_contract {
                Err(ContractError::WrongLedger)
            } else {
                Ok(
                    (
                        StateView {
                            trade_out_token_deposit: (s.trade_out_token_deposit + amount) as u128,
                            ..s
                        },
                        NotifyOutcomeView::Accepted,
                    ),
                )
            }
        },
        Some(DepositPurpose::ConvertToTradeOutToken) => {
            if predecessor != s.trade_in_token_contract {
                Err(ContractError::WrongLedger)
            } else if convert_overflows(amount, s.exchange_rate) {
                Ok((s, NotifyOutcomeView::Refunded(amount)))
            } else {
                let output = spec_convert(amount, s.exchange_rate);
                if output == 0 {
                    Err(ContractError::OutputTooSmall)
                } else if output > s.trade_out_token_deposit {
                    Err(ContractError::InsufficientReserve)
                } else {
                    Ok(
                        (
                            StateView {
                                trade_out_token_deposit: (s.trade_out_token_deposit - output) as u128,
                                ..s
                            },
                            NotifyOutcomeView::Converted(
                                TransferRequestView {
                                    receiver_id: sender,
                                    amount: output as u128,
                                    gas: GAS_FOR_FT_TRANSFER,
                                },
                            ),
                        ),
                    )
                }
            }
        },
    }
}

impl TokenMappingContract {
    /// Creates the contract state: empty reserve, rate one for one.
    pub fn new(
        owner_id: String,
        trade_in_token_contract: String,
        trade_out_token_contract: String,
    ) -> (s: Self)
        ensures
            s@ == spec_new(owner_id@, trade_in_token_contract@, trade_out_token_contract@),
    {
        TokenMappingContract {
            owner_id,
            trade_in_token_contract,
            trade_out_token_contract,
            trade_out_token_deposit: 0,
            exchange_rate: RATE_SCALE,
        }
    }

    /// The administrator's identity; anyone may read it.
    pub fn get_owner(&self) -> (r: String)
        ensures
            r@ == self@.owner_id,
    {
        self.owner_id.clone()
    }

    /// Replaces the administrator. `predecessor_id` is the identity on whose
    /// behalf the call is made; only the current owner may do this.
    pub fn set_owner(&mut self, predecessor_id: &String, owner_id: String) -> (r: Result<
        (),
        ContractError,
    >)
        ensures
            r matches Ok(()) ==> Ok::<StateView, ContractError>(final(self)@)
                == spec_set_owner(old(self)@, predecessor_id@, owner_id@),
            r matches Err(e) ==> Err::<StateView, ContractError>(e)
                == spec_set_owner(old(self)@, predecessor_id@, owner_id@)
                && *final(self) == *old(self),
    {
        if !predecessor_id.eq(&self.owner_id) {
            return Err(ContractError::Unauthorized);
        }
        self.owner_id = owner_id;
        Ok(())
    }

    /// Replaces the exchange rate. Only the current owner may do this, and
    /// the new rate must differ from the current one; it takes effect for
    /// every conversion processed afterwards.
    pub fn change_exchange_rate(&mut self, predecessor_id: &String, exchange_rate: u32) -> (r:
        Result<(), ContractError>)
        ensures
            r matches Ok(()) ==> Ok::<StateView, ContractError>(final(self)@)
                == spec_change_exchange_rate(old(self)@, predecessor_id@, exchange_rate),
            r matches Err(e) ==> Err::<StateView, ContractError>(e)
                == spec_change_exchange_rate(old(self)@, predecessor_id@, exchange_rate)
                && *final(self) == *old(self),
    {
        if !predecessor_id.eq(&self.owner_id) {
            return Err(ContractError::Unauthorized);
        }
        if exchange_rate == self.exchange_rate {
            return Err(ContractError::NoOpRateChange);
        }
        self.exchange_rate = exchange_rate;
        Ok(())
    }

    /// The deposit-notification entry point, invoked by a ledger after it
    /// moved `amount` tokens to this contract on behalf of `sender_id`.
    /// `predecessor_id` is the notifying ledger. The outcome's unused
    /// amount is what the ledger should hand back to the sender; an error
    /// means the whole call aborts, so the ledger's own rollback rejects
    /// the deposit. A successful top-up must fit the reserve counter.
    pub fn ft_on_transfer(
        &mut self,
        predecessor_id: &String,
        sender_id: &String,
        amount: u128,
        msg: &String,
    ) -> (r: Result<NotifyOutcome, ContractError>)
        requires
            spec_decode_purpose(msg@) == Some(DepositPurpose::DepositTradeOutToken)
                && predecessor_id@ == old(self)@.trade_out_token_contract ==> deposit_fits(
                old(self)@,
                amount,
            ),
        ensures
            r matches Ok(out) ==> Ok::<(StateView, NotifyOutcomeView), ContractError>(
                (final(self)@, out@),
            ) == spec_ft_on_transfer(old(self)@, predecessor_id@, sender_id@, amount, msg@),
            r matches Ok(out) && out@ is Refunded ==> *final(self) == *old(self),
            r matches Err(e) ==> Err::<(StateView, NotifyOutcomeView), ContractError>(e)
                == spec_ft_on_transfer(old(self)@, predecessor_id@, sender_id@, amount, msg@)
                && *final(self) == *old(self),
    {
        let deposit_purpose = match decode_purpose(msg) {
            Some(purpose) => purpose,
            None => {
                return Ok(NotifyOutcome::Refunded(amount));
            },
        };
        match deposit_purpose {
            DepositPurpose::DepositTradeOutToken => {
                if !predecessor_id.eq(&self.trade_out_token_contract) {
                    return Err(ContractError::WrongLedger);
                }
                self.trade_out_token_deposit = self.trade_out_token_deposit + amount;
                Ok(NotifyOutcome::Accepted)
            },
            DepositPurpose::ConvertToTradeOutToken => {
                if !predecessor_id.eq(&self.trade_in_token_contract) {
                    return Err(ContractError::WrongLedger);
                }
                let send_out_amount = match convert(amount, self.exchange_rate) {
                    Ok(output) => output,
                    Err(_) => {
                        return Ok(NotifyOutcome::Refunded(amount));
                    },
                };
                if send_out_amount == 0 {
                    return Err(ContractError::OutputTooSmall);
                }
                if send_out_amount > self.trade_out_token_deposit {
                    return Err(ContractError::InsufficientReserve);
                }
                self.trade_out_token_deposit = self.trade_out_token_deposit - send_out_amount;
                Ok(
                    NotifyOutcome::Converted(
                        TransferRequest {
                            receiver_id: sender_id.clone(),
                            amount: send_out_amount,
                            gas: GAS_FOR_FT_TRANSFER,
                        },
                    ),
                )
            },
        }
    }
}

} // verus!
