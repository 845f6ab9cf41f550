//! A token-mapping contract: it mediates conversion between two fungible-token
//! ledgers at an administrator-set fixed rate. Deposits tagged for the out
//! token top up an internal reserve; deposits tagged for conversion are
//! exchanged at the current rate against that reserve, and a payout request to
//! the out-token ledger is issued for the converted amount.

mod contract;
mod errors;
mod laws;
mod purpose;
mod rate;

pub use contract::{designated_ledger, deposit_fits, spec_change_exchange_rate, spec_ft_on_transfer};
pub use contract::{spec_new, spec_set_owner, spec_unused_amount};
pub use contract::{NotifyOutcome, NotifyOutcomeView, StateView, TokenMappingContract};
pub use contract::{TransferRequest, TransferRequestView, GAS_FOR_FT_TRANSFER, T_GAS};
pub use errors::ContractError;
pub use laws::{apply_operation, apply_operations, Operation};
pub use laws::{lemma_overflowing_conversion_refunds, lemma_repeated_rate_change_rejected};
pub use laws::{lemma_reserve_decrease_matches_payout, lemma_reserve_never_negative};
pub use laws::{lemma_undecodable_message_refunds, lemma_wrong_ledger_aborts};
pub use purpose::{decode_purpose, encode_purpose, lemma_purpose_round_trip};
pub use purpose::{purpose_tag, spec_decode_purpose, DepositPurpose};
pub use rate::{convert, convert_overflows, spec_convert, Overflow, RATE_SCALE};
