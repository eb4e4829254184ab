//! The relay itself: validate, encode, order, and hand off.
//!
//! Each operation's entry point rejects a zero amount before anything else,
//! then produces the complete instruction for the external call — target
//! program, ordered account list, payload — without performing the call. The
//! hosting runtime makes the call and feeds its outcome back through
//! [`propagate_external_result`], which surfaces it unchanged: the relay
//! retries nothing, translates nothing, and keeps no state across calls.

use vstd::prelude::*;
use crate::accounts::{
    AccountRef, KaminoBorrowObligationLiquidity, KaminoDepositReserveLiquidity,
    KaminoRepayObligationLiquidity, borrow_account_list, borrow_accounts, deposit_account_list,
    deposit_accounts, repay_account_list, repay_accounts,
};
use crate::codec::{Selector, encode_payload, payload_bytes, u64_le_bytes};

verus! {

/// The relay's own failures. External failures are not translated into these:
/// they pass through [`propagate_external_result`] untouched.
#[derive(Clone, Copy, Debug, PartialEq, Eq)]
pub enum LendingError {
    InvalidAmount,
    InsufficientFunds,
    InvalidAccountState,
    InvalidProgramId,
    InvalidInstructionData,
}

/// The three relayed operations.
#[derive(Clone, Copy, Debug, PartialEq, Eq)]
pub enum OperationKind {
    Deposit,
    Borrow,
    Repay,
}

/// The one-byte instruction index the external protocol assigns each
/// operation. The values are the external program's ABI, not a choice made
/// here.
pub open spec fn discriminator_of(kind: OperationKind) -> u8 {
    match kind {
        OperationKind::Deposit => 13,
        OperationKind::Borrow => 23,
        OperationKind::Repay => 25,
    }
}

/// Returns the external protocol's one-byte instruction index for `kind`.
pub fn operation_discriminator(kind: &OperationKind) -> (r: u8)
    ensures
        r == discriminator_of(*kind),
{
    match kind {
        OperationKind::Deposit => 13,
        OperationKind::Borrow => 23,
        OperationKind::Repay => 25,
    }
}

/// A validated request: an operation and a positive amount. Zero amounts
/// never make it past [`OperationRequest::new`], so a value of this type
/// always satisfies [`OperationRequest::wf`].
#[derive(Clone, Copy, Debug, PartialEq, Eq)]
pub struct OperationRequest {
    pub kind: OperationKind,
    pub amount: u64,
}

impl OperationRequest {
    /// The request's invariant: the amount is positive.
    pub open spec fn wf(self) -> bool {
        self.amount > 0
    }

    /// Admits exactly the positive amounts; a zero amount is rejected as
    /// `InvalidAmount` before any encoding or external call.
    pub fn new(kind: OperationKind, amount: u64) -> (r: Result<OperationRequest, LendingError>)
        ensures
            r is Ok <==> amount > 0,
            r matches Ok(req) ==> req == (OperationRequest { kind, amount }) && req.wf(),
            r matches Err(e) ==> e == LendingError::InvalidAmount,
    {
        if amount == 0 {
            Err(LendingError::InvalidAmount)
        } else {
            Ok(OperationRequest { kind, amount })
        }
    }
}

/// Everything one external call needs: the target program, the ordered
/// account list, and the payload bytes. Produced complete by an entry point;
/// the hosting runtime only forwards it.
#[derive(Clone, Debug)]
pub struct CpiInstruction {
    pub program_id: [u8; 32],
    pub accounts: Vec<AccountRef>,
    pub data: Vec<u8>,
}

/// The payload an entry point produces for `kind` and `amount`: the one-byte
/// instruction index, then the amount's eight little-endian bytes.
pub open spec fn operation_payload(kind: OperationKind, amount: u64) -> Seq<u8> {
    payload_bytes(Selector::Index(discriminator_of(kind)), amount)
}

/// Serializes one instruction under the one-byte scheme: the index, then the
/// amount's eight little-endian bytes.
pub fn serialize_kamino_instruction(instruction_index: u8, amount: &u64) -> (r: Result<
    Vec<u8>,
    LendingError,
>)
    ensures
        r matches Ok(data) && data@ == seq![instruction_index] + u64_le_bytes(*amount),
{
    let data = encode_payload(&Selector::Index(instruction_index), *amount);
    Ok(data)
}

/// Relays a deposit: rejects a zero amount before any external call, and
/// otherwise produces the deposit instruction — the target program, the
/// twelve ordered deposit accounts, and the payload `13` followed by the
/// amount's little-endian bytes.
pub fn kamino_deposit_reserve_liquidity(
    ctx: &KaminoDepositReserveLiquidity,
    liquidity_amount: u64,
) -> (r: Result<CpiInstruction, LendingError>)
    ensures
        r is Ok <==> liquidity_amount > 0,
        r matches Err(e) ==> e == LendingError::InvalidAmount,
        r matches Ok(ix) ==> {
            &&& ix.program_id == ctx.kamino_lending_program
            &&& ix.accounts@ == deposit_accounts(*ctx)
            &&& ix.data@ == operation_payload(OperationKind::Deposit, liquidity_amount)
        },
{
    let req = match OperationRequest::new(OperationKind::Deposit, liquidity_amount) {
        Ok(req) => req,
        Err(e) => {
            return Err(e);
        },
    };
    let data = match serialize_kamino_instruction(operation_discriminator(&req.kind), &req.amount) {
        Ok(data) => data,
        Err(e) => {
            return Err(e);
        },
    };
    let accounts = deposit_account_list(ctx);
    Ok(CpiInstruction { program_id: ctx.kamino_lending_program, accounts, data })
}

/// Relays a borrow: rejects a zero amount before any external call, and
/// otherwise produces the borrow instruction — the target program, the twelve
/// ordered borrow accounts with the referrer slot filled or substituted, and
/// the payload `23` followed by the amount's little-endian bytes.
pub fn kamino_borrow_obligation_liquidity(
    ctx: &KaminoBorrowObligationLiquidity,
    liquidity_amount: u64,
) -> (r: Result<CpiInstruction, LendingError>)
    ensures
        r is Ok <==> liquidity_amount > 0,
        r matches Err(e) ==> e == LendingError::InvalidAmount,
        r matches Ok(ix) ==> {
            &&& ix.program_id == ctx.kamino_lending_program
            &&& ix.accounts@ == borrow_accounts(*ctx)
            &&& ix.data@ == operation_payload(OperationKind::Borrow, liquidity_amount)
        },
{
    let req = match OperationRequest::new(OperationKind::Borrow, liquidity_amount) {
        Ok(req) => req,
        Err(e) => {
            return Err(e);
        },
    };
    let data = match serialize_kamino_instruction(operation_discriminator(&req.kind), &req.amount) {
        Ok(data) => data,
        Err(e) => {
            return Err(e);
        },
    };
    let accounts = borrow_account_list(ctx);
    Ok(CpiInstruction { program_id: ctx.kamino_lending_program, accounts, data })
}

/// Relays a repay: rejects a zero amount before any external call, and
/// otherwise produces the repay instruction — the target program, the nine
/// ordered repay accounts, and the payload `25` followed by the amount's
/// little-endian bytes.
pub fn kamino_repay_obligation_liquidity(
    ctx: &KaminoRepayObligationLiquidity,
    liquidity_amount: u64,
) -> (r: Result<CpiInstruction, LendingError>)
    ensures
        r is Ok <==> liquidity_amount > 0,
        r matches Err(e) ==> e == LendingError::InvalidAmount,
        r matches Ok(ix) ==> {
            &&& ix.program_id == ctx.kamino_lending_program
            &&& ix.accounts@ == repay_accounts(*ctx)
            &&& ix.data@ == operation_payload(OperationKind::Repay, liquidity_amount)
        },
{
    let req = match OperationRequest::new(OperationKind::Repay, liquidity_amount) {
        Ok(req) => req,
        Err(e) => {
            return Err(e);
        },
    };
    let data = match serialize_kamino_instruction(operation_discriminator(&req.kind), &req.amount) {
        Ok(data) => data,
        Err(e) => {
            return Err(e);
        },
    };
    let accounts = repay_account_list(ctx);
    Ok(CpiInstruction { program_id: ctx.kamino_lending_program, accounts, data })
}

/// Defence-in-depth check that the externally supplied target program
/// reference equals the statically configured target identifier; succeeds
/// exactly on equality and otherwise reports `InvalidProgramId`. The encoding
/// itself does not depend on this check.
pub fn check_target_program(provided: &[u8; 32], expected: &[u8; 32]) -> (r: Result<
    (),
    LendingError,
>)
    ensures
        r is Ok <==> provided@ == expected@,
        r matches Err(e) ==> e == LendingError::InvalidProgramId,
{
    let mut i: usize = 0;
    while i < 32
        invariant
            i <= 32,
            forall|j: int| 0 <= j < i ==> provided@[j] == expected@[j],
        decreases 32 - i,
    {
        if provided[i] != expected[i] {
            return Err(LendingError::InvalidProgramId);
        }
        i += 1;
    }
    proof {
        assert(provided@ =~= expected@);
    }
    Ok(())
}

/// Surfaces the external call primitive's outcome as the relay's own return
/// value, unchanged: no retry, no translation, no inspection of the failure
/// code, and nothing of the relay's mutated on the way through.
pub fn propagate_external_result(call_result: Result<(), u64>) -> (r: Result<(), u64>)
    ensures
        r == call_result,
{
    call_result
}

/// A no-op beyond acknowledging the deployment; always succeeds.
pub fn initialize(ctx: &Initialize) -> (r: Result<(), LendingError>)
    ensures
        r is Ok,
{
    let _ = ctx;
    Ok(())
}

/// The (empty) account list of [`initialize`].
pub struct Initialize {}

/// Argument record of the external deposit instruction: the amount is its
/// only field, so its wire form is exactly the payload's trailing eight
/// little-endian bytes.
#[derive(Clone, Copy, Debug, PartialEq, Eq)]
pub struct DepositReserveLiquidity {
    pub liquidity_amount: u64,
}

/// Argument record of the external borrow instruction; see
/// [`DepositReserveLiquidity`].
#[derive(Clone, Copy, Debug, PartialEq, Eq)]
pub struct BorrowObligationLiquidity {
    pub liquidity_amount: u64,
}

/// Argument record of the external repay instruction; see
/// [`DepositReserveLiquidity`].
#[derive(Clone, Copy, Debug, PartialEq, Eq)]
pub struct RepayObligationLiquidity {
    pub liquidity_amount: u64,
}

} // verus!

