use vstd::prelude::*;

verus! {

/// The purpose tag carried in a deposit-notification message, decoded per
/// call and never persisted: it selects whether the deposit tops up the
/// out-token reserve or is converted at the current rate.
#[derive(Clone, Copy, Debug, PartialEq, Eq, Structural)]
pub enum DepositPurpose {
    /// Top up the contract's reserve of out tokens.
    DepositTradeOutToken,
    /// Convert the deposited in tokens to out tokens at the current rate.
    ConvertToTradeOutToken,
}

/// The wire form of a purpose tag: the variant name as a JSON string.
pub open spec fn purpose_tag(p: DepositPurpose) -> Seq<char> {
    match p {
        DepositPurpose::DepositTradeOutToken => "\"DepositTradeOutToken\""@,
        DepositPurpose::ConvertToTradeOutToken => "\"ConvertToTradeOutToken\""@,
    }
}

/// What a notification message decodes to: exactly one of the two tags;
/// any other content is a decode failure.
pub open spec fn spec_decode_purpose(msg: Seq<char>) -> Option<DepositPurpose> {
    if msg == purpose_tag(DepositPurpose::DepositTradeOutToken) {
        Some(DepositPurpose::DepositTradeOutToken)
    } else if msg == purpose_tag(DepositPurpose::ConvertToTradeOutToken) {
        Some(DepositPurpose::ConvertToTradeOutToken)
    } else {
        None
    }
}

/// Encodes a purpose as the message a ledger attaches to its notification.
pub fn encode_purpose(p: DepositPurpose) -> (r: String)
    ensures
        r@ == purpose_tag(p),
{
    match p {
        DepositPurpose::DepositTradeOutToken => "\"DepositTradeOutToken\"".to_owned(),
        DepositPurpose::ConvertToTradeOutToken => "\"ConvertToTradeOutToken\"".to_owned(),
    }
}

/// Decodes a notification message, or reports a decode failure as `None`.
pub fn decode_purpose(msg: &String) -> (r: Option<DepositPurpose>)
    ensures
        r == spec_decode_purpose(msg@),
{
    let deposit_tag: String = "\"DepositTradeOutToken\"".to_owned();
    let convert_tag: String = "\"ConvertToTradeOutToken\"".to_owned();
    if msg.eq(&deposit_tag) {
        Some(DepositPurpose::DepositTradeOutToken)
    } else if msg.eq(&convert_tag) {
        Some(DepositPurpose::ConvertToTradeOutToken)
    } else {
        None
    }
}

/// An encoded purpose decodes back to itself: the two tags are distinct, so
/// the codec loses nothing.
pub proof fn lemma_purpose_round_trip(p: DepositPurpose)
    ensures
        spec_decode_purpose(purpose_tag(p)) == Some(p),
{
    reveal_strlit("\"DepositTradeOutToken\"");
    reveal_strlit("\"ConvertToTradeOutToken\"");
    assert("\"DepositTradeOutToken\""@.len() != "\"ConvertToTradeOutToken\""@.len());
}

} // verus!
