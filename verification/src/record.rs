//! The per-mint ledger record and its mathematical model.

use vstd::prelude::*;

verus! {

/// Identity of an account on the local chain, as the 256-bit key it is
/// addressed by, split into four 64-bit words (most significant first).
#[derive(Clone, Copy, Debug, PartialEq, Eq, Structural)]
pub struct AccountId {
    pub w0: u64,
    pub w1: u64,
    pub w2: u64,
    pub w3: u64,
}

/// Per-mint accounting state binding a foreign-chain address to
/// cumulative mint and burn counters.
///
/// The host keys one record per mint by a deterministic derivation from
/// a fixed domain tag and the mint's identity; `bump` is the
/// disambiguation byte fixed by that derivation at creation time.
#[verifier::ext_equal]
#[derive(Debug)]
pub struct LedgerRecord {
    /// The only identity permitted to mutate this record.
    pub authority: AccountId,
    /// Bound foreign-chain address; 42 characters when set through the
    /// registry (the creation path stores it verbatim, unchecked).
    pub polygon_address: String,
    /// Cumulative amount minted on the local chain through this record.
    pub mint_total: u64,
    /// Cumulative amount burned (redeemed) through this record.
    pub burn_total: u64,
    /// Disambiguation byte of the record's address derivation.
    pub bump: u8,
}

impl LedgerRecord {
    /// The bridge safety invariant: local supply never outruns
    /// verified redemptions.
    pub open spec fn wf(self) -> bool {
        self.mint_total <= self.burn_total
    }
}

/// Parameters registering a token denomination with the host token
/// ledger.
#[derive(Clone, Debug)]
pub struct SPLMintParams {
    /// Display name of the token.
    pub name: String,
    /// Ticker symbol of the token.
    pub symbol: String,
    /// Total issuable supply, in smallest units.
    pub supply: u64,
    /// Metadata location for the token.
    pub uri: String,
}

/// Parameters for creating a ledger record.
#[derive(Clone, Debug)]
pub struct PDAInitParams {
    /// Foreign-chain address the record is bound to.
    pub polygon_address: String,
}

/// Whole tokens a single mint call may move at most.
pub const MAX_MINT_WHOLE_TOKENS: u64 = 15_000;

/// Largest issuable supply a denomination may register: 600,000 whole
/// tokens of 9 decimals, in smallest units.
pub const MAX_SUPPLY: u64 = 600_000 * 1_000_000_000;

/// Required length, in characters, of a foreign-chain address set
/// through the registry (a 20-byte address written as prefixed hex).
pub const FOREIGN_ADDRESS_LEN: usize = 42;

/// Longest accepted token display name, in characters.
pub const MAX_NAME_LEN: usize = 32;

/// Longest accepted token symbol, in characters.
pub const MAX_SYMBOL_LEN: usize = 10;

pub open spec fn pow10(e: nat) -> nat
    decreases e,
{
    if e == 0 {
        1
    } else {
        10 * pow10((e - 1) as nat)
    }
}

/// The per-transaction mint cap in smallest units: 15,000 whole tokens
/// of the given number of decimals. An anti-snipe rate limit,
/// independent of the supply invariant.
pub open spec fn mint_cap(decimals: u8) -> int {
    MAX_MINT_WHOLE_TOKENS * pow10(decimals as nat)
}

/// One mutating request against a ledger record, as the model sees it.
pub enum LedgerOp {
    /// Mint `amount` smallest units of a token with `decimals` decimals.
    Mint { caller: AccountId, amount: u64, decimals: u8 },
    /// Record a burn of `amount` smallest units.
    Burn { amount: u64 },
    /// Rebind the record to `address`.
    SetAddress { caller: AccountId, address: String },
}

/// The state a record is left in by one request: the updated record
/// when every precondition of the operation holds, the same record
/// otherwise. Failed requests never move a counter.
pub open spec fn ledger_step(r: LedgerRecord, op: LedgerOp) -> LedgerRecord {
    match op {
        LedgerOp::Mint { caller, amount, decimals } => {
            if caller == r.authority && amount <= mint_cap(decimals) && r.mint_total + amount
                <= r.burn_total {
                LedgerRecord { mint_total: (r.mint_total + amount) as u64, ..r }
            } else {
                r
            }
        },
        LedgerOp::Burn { amount } => {
            if 0 < amount && r.burn_total + amount <= u64::MAX {
                LedgerRecord { burn_total: (r.burn_total + amount) as u64, ..r }
            } else {
                r
            }
        },
        LedgerOp::SetAddress { caller, address } => {
            if caller == r.authority && address@.len() == FOREIGN_ADDRESS_LEN {
                LedgerRecord { polygon_address: address, ..r }
            } else {
                r
            }
        },
    }
}

/// The state a record is left in by a sequence of requests, applied in
/// order.
pub open spec fn ledger_run(r: LedgerRecord, ops: Seq<LedgerOp>) -> LedgerRecord
    decreases ops.len(),
{
    if ops.len() == 0 {
        r
    } else {
        ledger_run(ledger_step(r, ops[0]), ops.drop_first())
    }
}

} // verus!
