//! Account references and the ordered lists the external protocol expects.
//!
//! Each operation names a fixed sequence of accounts; the external program
//! reads them by position, so order, signer flags and writable flags must
//! match its layout exactly. An entry out of place is not a local error — it
//! is undefined behaviour at the external program — which is why each list
//! builder's contract pins every slot.

use vstd::prelude::*;

verus! {

/// One entry of the ordered account-reference list handed to the external
/// call: a 32-byte address and the flags the call is made with.
#[derive(Clone, Copy, Debug, PartialEq, Eq)]
pub struct AccountRef {
    pub address: [u8; 32],
    pub is_signer: bool,
    pub is_writable: bool,
}

/// A signing, read-only entry.
pub open spec fn signer_ref(address: [u8; 32]) -> AccountRef {
    AccountRef { address, is_signer: true, is_writable: false }
}

/// A non-signing, writable entry.
pub open spec fn writable_ref(address: [u8; 32]) -> AccountRef {
    AccountRef { address, is_signer: false, is_writable: true }
}

/// A non-signing, read-only entry.
pub open spec fn readonly_ref(address: [u8; 32]) -> AccountRef {
    AccountRef { address, is_signer: false, is_writable: false }
}

/// Presence or absence of the optional referrer token state account of the
/// borrow operation. Absence is an explicit variant, not a null: the external
/// protocol demands twelve entries either way, and when the referrer state is
/// absent its slot is filled by repeating the token program reference.
#[derive(Clone, Copy, Debug, PartialEq, Eq)]
pub enum ReferrerTokenState {
    Present([u8; 32]),
    UseFallback,
}

/// The accounts of the deposit operation, each a 32-byte address, in the
/// fields' declaration order. The final field is the external lending program
/// itself: the call's routing target, never part of the account list.
#[derive(Clone, Copy, Debug)]
pub struct KaminoDepositReserveLiquidity {
    pub owner: [u8; 32],
    pub reserve: [u8; 32],
    pub lending_market: [u8; 32],
    pub lending_market_authority: [u8; 32],
    pub reserve_liquidity_mint: [u8; 32],
    pub reserve_liquidity_supply: [u8; 32],
    pub reserve_collateral_mint: [u8; 32],
    pub user_source_liquidity: [u8; 32],
    pub user_destination_collateral: [u8; 32],
    pub collateral_token_program: [u8; 32],
    pub liquidity_token_program: [u8; 32],
    pub instruction_sysvar_account: [u8; 32],
    pub kamino_lending_program: [u8; 32],
}

/// The accounts of the borrow operation; see
/// [`KaminoDepositReserveLiquidity`] for the conventions.
#[derive(Clone, Copy, Debug)]
pub struct KaminoBorrowObligationLiquidity {
    pub owner: [u8; 32],
    pub obligation: [u8; 32],
    pub lending_market: [u8; 32],
    pub lending_market_authority: [u8; 32],
    pub borrow_reserve: [u8; 32],
    pub borrow_reserve_liquidity_mint: [u8; 32],
    pub reserve_source_liquidity: [u8; 32],
    pub borrow_reserve_liquidity_fee_receiver: [u8; 32],
    pub user_destination_liquidity: [u8; 32],
    pub referrer_token_state: ReferrerTokenState,
    pub token_program: [u8; 32],
    pub instruction_sysvar_account: [u8; 32],
    pub kamino_lending_program: [u8; 32],
}

/// The accounts of the repay operation; see
/// [`KaminoDepositReserveLiquidity`] for the conventions.
#[derive(Clone, Copy, Debug)]
pub struct KaminoRepayObligationLiquidity {
    pub owner: [u8; 32],
    pub obligation: [u8; 32],
    pub lending_market: [u8; 32],
    pub repay_reserve: [u8; 32],
    pub reserve_liquidity_mint: [u8; 32],
    pub reserve_destination_liquidity: [u8; 32],
    pub user_source_liquidity: [u8; 32],
    pub token_program: [u8; 32],
    pub instruction_sysvar_account: [u8; 32],
    pub kamino_lending_program: [u8; 32],
}

/// The twelve-entry account list of the deposit operation, in the external
/// protocol's order.
pub open spec fn deposit_accounts(ctx: KaminoDepositReserveLiquidity) -> Seq<AccountRef> {
    seq![
        signer_ref(ctx.owner),
        writable_ref(ctx.reserve),
        readonly_ref(ctx.lending_market),
        readonly_ref(ctx.lending_market_authority),
        readonly_ref(ctx.reserve_liquidity_mint),
        writable_ref(ctx.reserve_liquidity_supply),
        writable_ref(ctx.reserve_collateral_mint),
        writable_ref(ctx.user_source_liquidity),
        writable_ref(ctx.user_destination_collateral),
        readonly_ref(ctx.collateral_token_program),
        readonly_ref(ctx.liquidity_token_program),
        readonly_ref(ctx.instruction_sysvar_account),
    ]
}

/// The slot the optional referrer token state fills: the referrer state
/// itself, writable, when present; the token program reference repeated,
/// read-only, when absent.
pub open spec fn referrer_slot(ctx: KaminoBorrowObligationLiquidity) -> AccountRef {
    match ctx.referrer_token_state {
        ReferrerTokenState::Present(address) => writable_ref(address),
        ReferrerTokenState::UseFallback => readonly_ref(ctx.token_program),
    }
}

/// The twelve-entry account list of the borrow operation, in the external
/// protocol's order; the tenth slot is the referrer token state or its
/// fallback.
pub open spec fn borrow_accounts(ctx: KaminoBorrowObligationLiquidity) -> Seq<AccountRef> {
    seq![
        signer_ref(ctx.owner),
        writable_ref(ctx.obligation),
        readonly_ref(ctx.lending_market),
        readonly_ref(ctx.lending_market_authority),
        writable_ref(ctx.borrow_reserve),
        readonly_ref(ctx.borrow_reserve_liquidity_mint),
        writable_ref(ctx.reserve_source_liquidity),
        writable_ref(ctx.borrow_reserve_liquidity_fee_receiver),
        writable_ref(ctx.user_destination_liquidity),
        referrer_slot(ctx),
        readonly_ref(ctx.token_program),
        readonly_ref(ctx.instruction_sysvar_account),
    ]
}

/// The nine-entry account list of the repay operation, in the external
/// protocol's order.
pub open spec fn repay_accounts(ctx: KaminoRepayObligationLiquidity) -> Seq<AccountRef> {
    seq![
        signer_ref(ctx.owner),
        writable_ref(ctx.obligation),
        readonly_ref(ctx.lending_market),
        writable_ref(ctx.repay_reserve),
        readonly_ref(ctx.reserve_liquidity_mint),
        writable_ref(ctx.reserve_destination_liquidity),
        writable_ref(ctx.user_source_liquidity),
        readonly_ref(ctx.token_program),
        readonly_ref(ctx.instruction_sysvar_account),
    ]
}

/// Builds the deposit operation's account list, slot for slot as
/// [`deposit_accounts`] lays it out.
pub fn deposit_account_list(ctx: &KaminoDepositReserveLiquidity) -> (r: Vec<AccountRef>)
    ensures
        r@ == deposit_accounts(*ctx),
{
    let mut v: Vec<AccountRef> = Vec::new();
    v.push(AccountRef { address: ctx.owner, is_signer: true, is_writable: false });
    v.push(AccountRef { address: ctx.reserve, is_signer: false, is_writable: true });
    v.push(AccountRef { address: ctx.lending_market, is_signer: false, is_writable: false });
    v.push(
        AccountRef { address: ctx.lending_market_authority, is_signer: false, is_writable: false },
    );
    v.push(
        AccountRef { address: ctx.reserve_liquidity_mint, is_signer: false, is_writable: false },
    );
    v.push(
        AccountRef { address: ctx.reserve_liquidity_supply, is_signer: false, is_writable: true },
    );
    v.push(
        AccountRef { address: ctx.reserve_collateral_mint, is_signer: false, is_writable: true },
    );
    v.push(AccountRef { address: ctx.user_source_liquidity, is_signer: false, is_writable: true });
    v.push(
        AccountRef {
            address: ctx.user_destination_collateral,
            is_signer: false,
            is_writable: true,
        },
    );
    v.push(
        AccountRef { address: ctx.collateral_token_program, is_signer: false, is_writable: false },
    );
    v.push(
        AccountRef { address: ctx.liquidity_token_program, is_signer: false, is_writable: false },
    );
    v.push(
        AccountRef {
            address: ctx.instruction_sysvar_account,
            is_signer: false,
            is_writable: false,
        },
    );
    assert(v@ =~= deposit_accounts(*ctx));
    v
}

/// Builds the borrow operation's account list, slot for slot as
/// [`borrow_accounts`] lays it out, substituting the token program reference
/// for an absent referrer token state.
pub fn borrow_account_list(ctx: &KaminoBorrowObligationLiquidity) -> (r: Vec<AccountRef>)
    ensures
        r@ == borrow_accounts(*ctx),
{
    let mut v: Vec<AccountRef> = Vec::new();
    v.push(AccountRef { address: ctx.owner, is_signer: true, is_writable: false });
    v.push(AccountRef { address: ctx.obligation, is_signer: false, is_writable: true });
    v.push(AccountRef { address: ctx.lending_market, is_signer: false, is_writable: false });
    v.push(
        AccountRef { address: ctx.lending_market_authority, is_signer: false, is_writable: false },
    );
    v.push(AccountRef { address: ctx.borrow_reserve, is_signer: false, is_writable: true });
    v.push(
        AccountRef {
            address: ctx.borrow_reserve_liquidity_mint,
            is_signer: false,
            is_writable: false,
        },
    );
    v.push(
        AccountRef { address: ctx.reserve_source_liquidity, is_signer: false, is_writable: true },
    );
    v.push(
        AccountRef {
            address: ctx.borrow_reserve_liquidity_fee_receiver,
            is_signer: false,
            is_writable: true,
        },
    );
    v.push(
        AccountRef {
            address: ctx.user_destination_liquidity,
            is_signer: false,
            is_writable: true,
        },
    );
    match ctx.referrer_token_state {
        ReferrerTokenState::Present(address) => {
            v.push(AccountRef { address, is_signer: false, is_writable: true });
        }
        ReferrerTokenState::UseFallback => {
            v.push(AccountRef { address: ctx.token_program, is_signer: false, is_writable: false });
        }
    }
    v.push(AccountRef { address: ctx.token_program, is_signer: false, is_writable: false });
    v.push(
        AccountRef {
            address: ctx.instruction_sysvar_account,
            is_signer: false,
            is_writable: false,
        },
    );
    assert(v@ =~= borrow_accounts(*ctx));
    v
}

/// Builds the repay operation's account list, slot for slot as
/// [`repay_accounts`] lays it out.
pub fn repay_account_list(ctx: &KaminoRepayObligationLiquidity) -> (r: Vec<AccountRef>)
    ensures
        r@ == repay_accounts(*ctx),
{
    let mut v: Vec<AccountRef> = Vec::new();
    v.push(AccountRef { address: ctx.owner, is_signer: true, is_writable: false });
    v.push(AccountRef { address: ctx.obligation, is_signer: false, is_writable: true });
    v.push(AccountRef { address: ctx.lending_market, is_signer: false, is_writable: false });
    v.push(AccountRef { address: ctx.repay_reserve, is_signer: false, is_writable: true });
    v.push(
        AccountRef { address: ctx.reserve_liquidity_mint, is_signer: false, is_writable: false },
    );
    v.push(
        AccountRef {
            address: ctx.reserve_destination_liquidity,
            is_signer: false,
            is_writable: true,
        },
    );
    v.push(AccountRef { address: ctx.user_source_liquidity, is_signer: false, is_writable: true });
    v.push(AccountRef { address: ctx.token_program, is_signer: false, is_writable: false });
    v.push(
        AccountRef {
            address: ctx.instruction_sysvar_account,
            is_signer: false,
            is_writable: false,
        },
    );
    assert(v@ =~= repay_accounts(*ctx));
    v
}

} // verus!
