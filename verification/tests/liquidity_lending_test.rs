use liquidity_lending::relay::{
    kamino_borrow_obligation_liquidity, kamino_deposit_reserve_liquidity,
    kamino_repay_obligation_liquidity,
};
use liquidity_lending::{
    KaminoBorrowObligationLiquidity, KaminoDepositReserveLiquidity, KaminoRepayObligationLiquidity,
    ReferrerTokenState,
};

fn key(n: u8) -> [u8; 32] {
    let mut a = [0u8; 32];
    a[0] = n;
    a
}

fn flow(deposit_amount: u64, borrow_amount: u64, repay_amount: u64) {
    let owner = key(1);
    let lending_market = key(3);
    let lending_market_authority = key(4);
    let token_program = key(20);
    let instruction_sysvar_account = key(21);
    let kamino_lending_program = key(22);

    let deposit = KaminoDepositReserveLiquidity {
        owner,
        reserve: key(2),
        lending_market,
        lending_market_authority,
        reserve_liquidity_mint: key(5),
        reserve_liquidity_supply: key(6),
        reserve_collateral_mint: key(7),
        user_source_liquidity: key(8),
        user_destination_collateral: key(9),
        collateral_token_program: key(10),
        liquidity_token_program: key(11),
        instruction_sysvar_account,
        kamino_lending_program,
    };
    let result = kamino_deposit_reserve_liquidity(&deposit, deposit_amount);
    assert!(result.is_ok());
    let ix = result.unwrap();
    let mut expected = vec![13u8];
    expected.extend_from_slice(&deposit_amount.to_le_bytes());
    assert_eq!(ix.data, expected);
    assert_eq!(ix.accounts.len(), 12);
    assert_eq!(ix.program_id, kamino_lending_program);

    let borrow = KaminoBorrowObligationLiquidity {
        owner,
        obligation: key(12),
        lending_market,
        lending_market_authority,
        borrow_reserve: key(13),
        borrow_reserve_liquidity_mint: key(14),
        reserve_source_liquidity: key(15),
        borrow_reserve_liquidity_fee_receiver: key(16),
        user_destination_liquidity: key(17),
        referrer_token_state: ReferrerTokenState::UseFallback,
        token_program,
        instruction_sysvar_account,
        kamino_lending_program,
    };
    let result = kamino_borrow_obligation_liquidity(&borrow, borrow_amount);
    assert!(result.is_ok());
    let ix = result.unwrap();
    let mut expected = vec![23u8];
    expected.extend_from_slice(&borrow_amount.to_le_bytes());
    assert_eq!(ix.data, expected);
    assert_eq!(ix.accounts.len(), 12);

    let repay = KaminoRepayObligationLiquidity {
        owner,
        obligation: key(12),
        lending_market,
        repay_reserve: key(18),
        reserve_liquidity_mint: key(14),
        reserve_destination_liquidity: key(15),
        user_source_liquidity: key(19),
        token_program,
        instruction_sysvar_account,
        kamino_lending_program,
    };
    let result = kamino_repay_obligation_liquidity(&repay, repay_amount);
    assert!(result.is_ok());
    let ix = result.unwrap();
    let mut expected = vec![25u8];
    expected.extend_from_slice(&repay_amount.to_le_bytes());
    assert_eq!(ix.data, expected);
    assert_eq!(ix.accounts.len(), 9);
}

#[test]
fn test_kamino_lending_flow() {
    flow(1_000_000, 500_000, 500_000);
}

#[test]
fn liquidity_lending_test_test_kamino_lending_flow() {
    flow(1_000_000, 500_000, 500_000);
}
