//! The gated operations on a ledger record.
//!
//! Each mutating operation validates its preconditions in a fixed
//! order, surfaces the first violated one as a typed failure, and
//! mutates the record only when all of them hold. The host performs
//! the delegated token move between the validation and the commit; a
//! failure there aborts the whole atomic invocation, so a committed
//! counter always reflects a confirmed move.

use vstd::prelude::*;
use vstd::string::StrSliceExecFns;

use crate::errors::BurnTokenErrors;
use crate::errors::CustomError;
use crate::errors::InitMintErrors;
use crate::errors::MintTokenErrors;
use crate::errors::TransferTokenErrors;
use crate::record::AccountId;
use crate::record::FOREIGN_ADDRESS_LEN;
use crate::record::LedgerOp;
use crate::record::LedgerRecord;
use crate::record::MAX_MINT_WHOLE_TOKENS;
use crate::record::MAX_NAME_LEN;
use crate::record::MAX_SUPPLY;
use crate::record::MAX_SYMBOL_LEN;
use crate::record::PDAInitParams;
use crate::record::SPLMintParams;
use crate::record::ledger_step;
use crate::record::mint_cap;
use crate::record::pow10;

verus! {

proof fn lemma_pow10_monotone(a: nat, b: nat)
    requires
        a <= b,
    ensures
        pow10(a) <= pow10(b),
    decreases b,
{
    if a < b {
        lemma_pow10_monotone(a, (b - 1) as nat);
    }
}

/// The fixed per-transaction mint cap for a token with the given
/// number of decimals, in smallest units.
///
/// Decimals are bounded so that the cap fits a 64-bit counter; the
/// host registers denominations of at most 9 decimals.
pub fn max_mint_per_transaction(decimals: u8) -> (cap: u64)
    requires
        decimals <= 15,
    ensures
        cap == mint_cap(decimals),
{
    let mut p: u64 = 1;
    let mut i: u8 = 0;
    while i < decimals
        invariant
            i <= decimals <= 15,
            p == pow10(i as nat),
        decreases decimals - i,
    {
        proof {
            lemma_pow10_monotone(i as nat, 14);
            assert(pow10(14) == 100_000_000_000_000) by {
                reveal_with_fuel(pow10, 17);
            }
        }
        p = p * 10;
        i = i + 1;
    }
    proof {
        lemma_pow10_monotone(decimals as nat, 15);
        assert(pow10(15) == 1_000_000_000_000_000) by {
            reveal_with_fuel(pow10, 17);
        }
    }
    MAX_MINT_WHOLE_TOKENS * p
}

/// The mint gate: checks the caller's authority, the per-transaction
/// cap, and the burn-backed supply invariant, in that order, then
/// advances `mint_total` and returns the new cumulative total.
///
/// The host mints the amount through the token ledger between the
/// checks and the commit; both sit in one atomic invocation.
pub fn mint_tokens(
    record: &mut LedgerRecord,
    amount: u64,
    caller: AccountId,
    decimals: u8,
) -> (result: Result<u64, MintTokenErrors>)
    requires
        old(record).wf(),
        decimals <= 15,
    ensures
        *final(record) == ledger_step(
            *old(record),
            LedgerOp::Mint { caller, amount, decimals },
        ),
        final(record).wf(),
        final(record).mint_total >= old(record).mint_total,
        final(record).burn_total == old(record).burn_total,
        final(record).authority == old(record).authority,
        final(record).polygon_address == old(record).polygon_address,
        final(record).bump == old(record).bump,
        result is Err ==> *final(record) == *old(record),
        caller != old(record).authority ==> result == Err::<u64, MintTokenErrors>(
            MintTokenErrors::Unauthorized,
        ),
        caller == old(record).authority && amount > mint_cap(decimals) ==> result == Err::<
            u64,
            MintTokenErrors,
        >(MintTokenErrors::ExceedsMaxMintPerTransaction),
        caller == old(record).authority && amount <= mint_cap(decimals) && old(record).mint_total
            + amount > old(record).burn_total ==> result == Err::<u64, MintTokenErrors>(
            MintTokenErrors::ExceedsBurnedAmount,
        ),
        caller == old(record).authority && amount <= mint_cap(decimals) && old(record).mint_total
            + amount <= old(record).burn_total ==> result == Ok::<u64, MintTokenErrors>(
            (old(record).mint_total + amount) as u64,
        ) && final(record).mint_total == old(record).mint_total + amount,
{
    if !(caller == record.authority) {
        return Err(MintTokenErrors::Unauthorized);
    }
    let cap = max_mint_per_transaction(decimals);
    if amount > cap {
        return Err(MintTokenErrors::ExceedsMaxMintPerTransaction);
    }
    // Overflow-safe form of `mint_total + amount <= burn_total`: the
    // record's invariant keeps the subtrahend in range.
    if amount > record.burn_total - record.mint_total {
        return Err(MintTokenErrors::ExceedsBurnedAmount);
    }
    let total_minted_after = record.mint_total + amount;
    record.mint_total = total_minted_after;
    Ok(total_minted_after)
}

/// The burn recorder: rejects a zero amount, then advances
/// `burn_total` with overflow-checked addition and returns the new
/// cumulative total. A sum past the 64-bit range fails and leaves the
/// record untouched.
///
/// The host burns the amount through the token ledger before the
/// commit; ownership of the burned tokens is checked there, not
/// against the record's authority.
pub fn burn_tokens(record: &mut LedgerRecord, amount: u64) -> (result: Result<
    u64,
    BurnTokenErrors,
>)
    ensures
        *final(record) == ledger_step(*old(record), LedgerOp::Burn { amount }),
        old(record).wf() ==> final(record).wf(),
        final(record).burn_total >= old(record).burn_total,
        final(record).mint_total == old(record).mint_total,
        final(record).authority == old(record).authority,
        final(record).polygon_address == old(record).polygon_address,
        final(record).bump == old(record).bump,
        result is Err ==> *final(record) == *old(record),
        amount == 0 ==> result == Err::<u64, BurnTokenErrors>(BurnTokenErrors::InvalidBurnAmount),
        0 < amount && old(record).burn_total + amount > u64::MAX ==> result == Err::<
            u64,
            BurnTokenErrors,
        >(BurnTokenErrors::Overflow),
        0 < amount && old(record).burn_total + amount <= u64::MAX ==> result == Ok::<
            u64,
            BurnTokenErrors,
        >((old(record).burn_total + amount) as u64) && final(record).burn_total == old(
            record,
        ).burn_total + amount,
{
    if amount == 0 {
        return Err(BurnTokenErrors::InvalidBurnAmount);
    }
    match record.burn_total.checked_add(amount) {
        Some(new_total) => {
            record.burn_total = new_total;
            Ok(new_total)
        },
        None => Err(BurnTokenErrors::Overflow),
    }
}

/// The foreign-address registry: checks the caller's authority, then
/// the fixed 42-character address format, and rebinds the record.
pub fn store_polygon_address(
    record: &mut LedgerRecord,
    polygon_address: String,
    caller: AccountId,
) -> (result: Result<(), CustomError>)
    ensures
        *final(record) == ledger_step(
            *old(record),
            LedgerOp::SetAddress { caller, address: polygon_address },
        ),
        old(record).wf() ==> final(record).wf(),
        final(record).mint_total == old(record).mint_total,
        final(record).burn_total == old(record).burn_total,
        final(record).authority == old(record).authority,
        final(record).bump == old(record).bump,
        result is Err ==> *final(record) == *old(record),
        caller != old(record).authority ==> result == Err::<(), CustomError>(
            CustomError::Unauthorized,
        ),
        caller == old(record).authority && polygon_address@.len() != FOREIGN_ADDRESS_LEN ==> result
            == Err::<(), CustomError>(CustomError::InvalidPolygonAddress),
        caller == old(record).authority && polygon_address@.len() == FOREIGN_ADDRESS_LEN ==> result
            == Ok::<(), CustomError>(()) && final(record).polygon_address == polygon_address,
{
    if !(caller == record.authority) {
        return Err(CustomError::Unauthorized);
    }
    if polygon_address.as_str().unicode_len() != FOREIGN_ADDRESS_LEN {
        return Err(CustomError::InvalidPolygonAddress);
    }
    record.polygon_address = polygon_address;
    Ok(())
}

/// The advisory burn-metadata channel: checks the caller's authority
/// and acknowledges the reported amount.
///
/// The amount is caller-supplied and is not cross-checked against
/// `burn_total`; it is an annotation, never an input to an invariant
/// decision.
pub fn track_burn_metadata(record: &LedgerRecord, caller: AccountId, burned_amount: u64) -> (result:
    Result<u64, CustomError>)
    ensures
        caller != record.authority ==> result == Err::<u64, CustomError>(CustomError::Unauthorized),
        caller == record.authority ==> result == Ok::<u64, CustomError>(burned_amount),
{
    if !(caller == record.authority) {
        return Err(CustomError::Unauthorized);
    }
    Ok(burned_amount)
}

/// The transfer pass-through's preconditions: a positive amount that
/// the source balance covers. Touches no ledger record; the host moves
/// the tokens through the token ledger only when this accepts.
pub fn transfer_tokens(from_balance: u64, amount: u64) -> (result: Result<
    (),
    TransferTokenErrors,
>)
    ensures
        amount == 0 ==> result == Err::<(), TransferTokenErrors>(
            TransferTokenErrors::InvalidTransferAmount,
        ),
        0 < amount && from_balance < amount ==> result == Err::<(), TransferTokenErrors>(
            TransferTokenErrors::InsufficientBalance,
        ),
        0 < amount && from_balance >= amount ==> result == Ok::<(), TransferTokenErrors>(()),
{
    if amount == 0 {
        return Err(TransferTokenErrors::InvalidTransferAmount);
    }
    if from_balance < amount {
        return Err(TransferTokenErrors::InsufficientBalance);
    }
    Ok(())
}

/// Validation of the parameters registering a token denomination:
/// bounded supply, name, and symbol, checked in that order.
///
/// That the named mint account is the one being initialized is
/// established by the host when it resolves the accounts, so
/// `MintMismatch` is never produced here.
pub fn init_mint(params: &SPLMintParams) -> (result: Result<(), InitMintErrors>)
    ensures
        params.supply > MAX_SUPPLY ==> result == Err::<(), InitMintErrors>(
            InitMintErrors::SupplyTooLarge,
        ),
        params.supply <= MAX_SUPPLY && params.name@.len() > MAX_NAME_LEN ==> result == Err::<
            (),
            InitMintErrors,
        >(InitMintErrors::NameTooLong),
        params.supply <= MAX_SUPPLY && params.name@.len() <= MAX_NAME_LEN && params.symbol@.len()
            > MAX_SYMBOL_LEN ==> result == Err::<(), InitMintErrors>(InitMintErrors::SymbolTooLong),
        params.supply <= MAX_SUPPLY && params.name@.len() <= MAX_NAME_LEN && params.symbol@.len()
            <= MAX_SYMBOL_LEN ==> result == Ok::<(), InitMintErrors>(()),
{
    if params.supply > MAX_SUPPLY {
        return Err(InitMintErrors::SupplyTooLarge);
    }
    if params.name.as_str().unicode_len() > MAX_NAME_LEN {
        return Err(InitMintErrors::NameTooLong);
    }
    if params.symbol.as_str().unicode_len() > MAX_SYMBOL_LEN {
        return Err(InitMintErrors::SymbolTooLong);
    }
    Ok(())
}

/// Creation of a ledger record: the authority is fixed to the creator,
/// both counters start at zero, and the foreign address is stored
/// verbatim.
///
/// The creation path deliberately skips the 42-character rule the
/// registry enforces, as the update path alone validates it. That a
/// record is created at most once per mint is the host's guarantee:
/// it derives the record's storage address deterministically from the
/// mint identity and rejects a second allocation.
pub fn initialize_pda(params: PDAInitParams, authority: AccountId, bump: u8) -> (record:
    LedgerRecord)
    ensures
        record.authority == authority,
        record.polygon_address == params.polygon_address,
        record.mint_total == 0,
        record.burn_total == 0,
        record.bump == bump,
        record.wf(),
{
    LedgerRecord {
        authority,
        polygon_address: params.polygon_address,
        mint_total: 0,
        burn_total: 0,
        bump,
    }
}

} // verus!
