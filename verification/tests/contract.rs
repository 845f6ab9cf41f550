use token_mapping_contract::{
    convert, decode_purpose, encode_purpose, ContractError, DepositPurpose, NotifyOutcome,
    Overflow, TokenMappingContract, GAS_FOR_FT_TRANSFER,
};

fn fresh_contract() -> TokenMappingContract {
    TokenMappingContract::new(
        "root".to_string(),
        "trade_in_token".to_string(),
        "trade_out_token".to_string(),
    )
}

fn deposit_msg() -> String {
    encode_purpose(DepositPurpose::DepositTradeOutToken)
}

fn convert_msg() -> String {
    encode_purpose(DepositPurpose::ConvertToTradeOutToken)
}

const TOTAL_SUPPLY: u128 = 100_000_000;

fn to_ft_amount(amount: u128) -> u128 {
    let bt_decimals_base = (10 as u128).pow(18);
    amount * bt_decimals_base
}

#[test]
pub fn test_normal_actions() {
    let total_supply = to_ft_amount(TOTAL_SUPPLY);
    let mut contract = fresh_contract();
    //
    // the out-token ledger notifies a reserve top-up by the root account
    //
    let outcome = contract
        .ft_on_transfer(
            &"trade_out_token".to_string(),
            &"root".to_string(),
            total_supply / 20,
            &deposit_msg(),
        )
        .unwrap();
    assert_eq!(outcome.unused_amount(), 0);
    assert_eq!(contract.trade_out_token_deposit, total_supply / 20);
    //
    // the in-token ledger notifies a conversion for alice at the initial
    // one-for-one rate: alice's full deposit is consumed and the same
    // amount of out tokens is paid out to her
    //
    let outcome = contract
        .ft_on_transfer(
            &"trade_in_token".to_string(),
            &"alice".to_string(),
            total_supply / 20,
            &convert_msg(),
        )
        .unwrap();
    assert_eq!(outcome.unused_amount(), 0);
    match outcome {
        NotifyOutcome::Converted(request) => {
            assert_eq!(request.receiver_id, "alice");
            assert_eq!(request.amount, total_supply / 20);
        }
        _ => panic!("expected a payout request"),
    }
    assert_eq!(contract.trade_out_token_deposit, 0);
    //
    // a second conversion of the same size finds the reserve drained
    //
    let result = contract.ft_on_transfer(
        &"trade_in_token".to_string(),
        &"bob".to_string(),
        total_supply / 20,
        &convert_msg(),
    );
    assert_eq!(result.unwrap_err(), ContractError::InsufficientReserve);
    assert_eq!(contract.trade_out_token_deposit, 0);
}

#[test]
fn deposit_tops_up_reserve() {
    // initialize with reserve 0, rate 100, then deposit 1000 from the
    // out-token ledger: the reserve becomes 1000 and nothing is refunded
    let mut contract = fresh_contract();
    assert_eq!(contract.trade_out_token_deposit, 0);
    assert_eq!(contract.exchange_rate, 100);
    let outcome = contract
        .ft_on_transfer(
            &"trade_out_token".to_string(),
            &"root".to_string(),
            1000,
            &deposit_msg(),
        )
        .unwrap();
    assert!(matches!(outcome, NotifyOutcome::Accepted));
    assert_eq!(outcome.unused_amount(), 0);
    assert_eq!(contract.trade_out_token_deposit, 1000);
}

#[test]
fn conversion_pays_out_at_rate_100() {
    // from a reserve of 1000 at rate 100, converting 500 pays 500 out and
    // leaves a reserve of 500
    let mut contract = fresh_contract();
    contract
        .ft_on_transfer(
            &"trade_out_token".to_string(),
            &"root".to_string(),
            1000,
            &deposit_msg(),
        )
        .unwrap();
    let outcome = contract
        .ft_on_transfer(
            &"trade_in_token".to_string(),
            &"alice".to_string(),
            500,
            &convert_msg(),
        )
        .unwrap();
    assert_eq!(outcome.unused_amount(), 0);
    match outcome {
        NotifyOutcome::Converted(request) => {
            assert_eq!(request.receiver_id, "alice");
            assert_eq!(request.amount, 500);
            assert_eq!(request.gas, GAS_FOR_FT_TRANSFER);
        }
        _ => panic!("expected a payout request"),
    }
    assert_eq!(contract.trade_out_token_deposit, 500);
}

#[test]
fn conversion_beyond_reserve_aborts() {
    // with reserve 500 at rate 150, converting 1000 computes 1500, which
    // exceeds the reserve: the call aborts and nothing changes
    let mut contract = fresh_contract();
    contract
        .ft_on_transfer(
            &"trade_out_token".to_string(),
            &"root".to_string(),
            500,
            &deposit_msg(),
        )
        .unwrap();
    contract
        .change_exchange_rate(&"root".to_string(), 150)
        .unwrap();
    let result = contract.ft_on_transfer(
        &"trade_in_token".to_string(),
        &"alice".to_string(),
        1000,
        &convert_msg(),
    );
    assert_eq!(result.unwrap_err(), ContractError::InsufficientReserve);
    assert_eq!(contract.trade_out_token_deposit, 500);
    assert_eq!(contract.exchange_rate, 150);
}

#[test]
fn overflowing_conversion_refunds() {
    // an amount whose product with the rate cannot be formed in 128 bits is
    // handed back in full, with no state change and no payout
    let mut contract = fresh_contract();
    contract
        .ft_on_transfer(
            &"trade_out_token".to_string(),
            &"root".to_string(),
            1000,
            &deposit_msg(),
        )
        .unwrap();
    let outcome = contract
        .ft_on_transfer(
            &"trade_in_token".to_string(),
            &"alice".to_string(),
            u128::MAX,
            &convert_msg(),
        )
        .unwrap();
    match outcome {
        NotifyOutcome::Refunded(amount) => assert_eq!(amount, u128::MAX),
        _ => panic!("expected a refund"),
    }
    assert_eq!(contract.trade_out_token_deposit, 1000);
}

#[test]
fn undecodable_message_refunds() {
    let mut contract = fresh_contract();
    let messages = [
        "".to_string(),
        "DepositTradeOutToken".to_string(),
        "\"depositTradeOutToken\"".to_string(),
        "\"DepositTradeOutToken\" ".to_string(),
        "{\"purpose\":\"DepositTradeOutToken\"}".to_string(),
    ];
    for msg in messages {
        let outcome = contract
            .ft_on_transfer(&"trade_out_token".to_string(), &"root".to_string(), 77, &msg)
            .unwrap();
        match outcome {
            NotifyOutcome::Refunded(amount) => assert_eq!(amount, 77),
            _ => panic!("expected a refund"),
        }
        assert_eq!(outcome.unused_amount(), 77);
        assert_eq!(contract.trade_out_token_deposit, 0);
    }
}

#[test]
fn wrong_ledger_aborts_deposit() {
    let mut contract = fresh_contract();
    let result = contract.ft_on_transfer(
        &"trade_in_token".to_string(),
        &"root".to_string(),
        1000,
        &deposit_msg(),
    );
    assert_eq!(result.unwrap_err(), ContractError::WrongLedger);
    assert_eq!(contract.trade_out_token_deposit, 0);
}

#[test]
fn wrong_ledger_aborts_conversion() {
    let mut contract = fresh_contract();
    contract
        .ft_on_transfer(
            &"trade_out_token".to_string(),
            &"root".to_string(),
            1000,
            &deposit_msg(),
        )
        .unwrap();
    let result = contract.ft_on_transfer(
        &"trade_out_token".to_string(),
        &"alice".to_string(),
        500,
        &convert_msg(),
    );
    assert_eq!(result.unwrap_err(), ContractError::WrongLedger);
    assert_eq!(contract.trade_out_token_deposit, 1000);
}

#[test]
fn zero_output_aborts() {
    // at rate 99, converting 1 truncates to 0: the call aborts rather than
    // paying nothing out
    let mut contract = fresh_contract();
    contract
        .ft_on_transfer(
            &"trade_out_token".to_string(),
            &"root".to_string(),
            1000,
            &deposit_msg(),
        )
        .unwrap();
    contract
        .change_exchange_rate(&"root".to_string(), 99)
        .unwrap();
    let result = contract.ft_on_transfer(
        &"trade_in_token".to_string(),
        &"alice".to_string(),
        1,
        &convert_msg(),
    );
    assert_eq!(result.unwrap_err(), ContractError::OutputTooSmall);
    assert_eq!(contract.trade_out_token_deposit, 1000);
}

#[test]
fn convert_is_truncated_quotient() {
    assert_eq!(convert(999, 150), Ok(1498));
    assert_eq!(convert(500, 100), Ok(500));
    assert_eq!(convert(1, 99), Ok(0));
    assert_eq!(convert(0, 100), Ok(0));
    assert_eq!(convert(u128::MAX, 1), Ok(u128::MAX / 100));
    assert_eq!(convert(u128::MAX / 100, 100), Ok(((u128::MAX / 100) * 100) / 100));
}

#[test]
fn convert_detects_overflow() {
    assert_eq!(convert(u128::MAX, 2), Err(Overflow));
    assert_eq!(convert(u128::MAX, 100), Err(Overflow));
    assert_eq!(convert(u128::MAX / 2 + 1, 2), Err(Overflow));
    assert_eq!(convert(u128::MAX / 2, 2), Ok((u128::MAX - 1) / 100));
}

#[test]
fn rate_change_requires_owner() {
    let mut contract = fresh_contract();
    let result = contract.change_exchange_rate(&"alice".to_string(), 150);
    assert_eq!(result.unwrap_err(), ContractError::Unauthorized);
    assert_eq!(contract.exchange_rate, 100);
}

#[test]
fn repeated_rate_change_is_rejected() {
    let mut contract = fresh_contract();
    contract
        .change_exchange_rate(&"root".to_string(), 150)
        .unwrap();
    assert_eq!(contract.exchange_rate, 150);
    let result = contract.change_exchange_rate(&"root".to_string(), 150);
    assert_eq!(result.unwrap_err(), ContractError::NoOpRateChange);
    assert_eq!(contract.exchange_rate, 150);
    // the initial rate is 100, so re-setting 100 right away is also a no-op
    let mut fresh = fresh_contract();
    let result = fresh.change_exchange_rate(&"root".to_string(), 100);
    assert_eq!(result.unwrap_err(), ContractError::NoOpRateChange);
}

#[test]
fn owner_can_be_replaced() {
    let mut contract = fresh_contract();
    assert_eq!(contract.get_owner(), "root");
    contract
        .set_owner(&"root".to_string(), "alice".to_string())
        .unwrap();
    assert_eq!(contract.get_owner(), "alice");
    // the old owner lost the capability
    let result = contract.set_owner(&"root".to_string(), "root".to_string());
    assert_eq!(result.unwrap_err(), ContractError::Unauthorized);
    // re-assigning the owner to itself is allowed
    contract
        .set_owner(&"alice".to_string(), "alice".to_string())
        .unwrap();
    assert_eq!(contract.get_owner(), "alice");
}

#[test]
fn purpose_codec_round_trips() {
    for purpose in [
        DepositPurpose::DepositTradeOutToken,
        DepositPurpose::ConvertToTradeOutToken,
    ] {
        let encoded = encode_purpose(purpose);
        assert_eq!(decode_purpose(&encoded), Some(purpose));
    }
    assert_eq!(
        encode_purpose(DepositPurpose::DepositTradeOutToken),
        "\"DepositTradeOutToken\""
    );
    assert_eq!(
        encode_purpose(DepositPurpose::ConvertToTradeOutToken),
        "\"ConvertToTradeOutToken\""
    );
    assert_eq!(decode_purpose(&"\"Unknown\"".to_string()), None);
}
