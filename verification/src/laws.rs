//! The record-level guarantees, stated over whole request sequences.

use vstd::prelude::*;

use crate::record::LedgerOp;
use crate::record::LedgerRecord;
use crate::record::ledger_run;
use crate::record::ledger_step;

verus! {

/// One request, of any kind and whatever its outcome, preserves the
/// bridge safety invariant `mint_total <= burn_total`.
pub proof fn lemma_step_preserves_invariant(r: LedgerRecord, op: LedgerOp)
    requires
        r.wf(),
    ensures
        ledger_step(r, op).wf(),
{
}

/// One request, of any kind and whatever its outcome, never decreases
/// either cumulative counter.
pub proof fn lemma_step_monotonic(r: LedgerRecord, op: LedgerOp)
    ensures
        ledger_step(r, op).mint_total >= r.mint_total,
        ledger_step(r, op).burn_total >= r.burn_total,
{
}

/// Invariant preservation: from a record satisfying the bridge safety
/// invariant, no sequence of requests — however the individual
/// operations succeed or fail — reaches a state where the minted total
/// exceeds the burned total.
pub proof fn lemma_run_preserves_invariant(r: LedgerRecord, ops: Seq<LedgerOp>)
    requires
        r.wf(),
    ensures
        ledger_run(r, ops).wf(),
    decreases ops.len(),
{
    if ops.len() > 0 {
        lemma_step_preserves_invariant(r, ops[0]);
        lemma_run_preserves_invariant(ledger_step(r, ops[0]), ops.drop_first());
    }
}

/// Authorization: a request whose caller is not the record's stored
/// authority leaves the record unchanged. A burn request carries no
/// caller — recording a burn is authorized by ownership of the burned
/// tokens, which the delegated burn itself checks — so it is not a
/// mutation this law speaks of.
pub proof fn lemma_step_requires_authority(r: LedgerRecord, op: LedgerOp)
    requires
        match op {
            LedgerOp::Mint { caller, .. } => caller != r.authority,
            LedgerOp::SetAddress { caller, .. } => caller != r.authority,
            LedgerOp::Burn { .. } => false,
        },
    ensures
        ledger_step(r, op) == r,
{
}

/// Monotonicity: across any sequence of requests, successful or
/// failed, neither cumulative counter ever decreases.
pub proof fn lemma_run_monotonic(r: LedgerRecord, ops: Seq<LedgerOp>)
    ensures
        ledger_run(r, ops).mint_total >= r.mint_total,
        ledger_run(r, ops).burn_total >= r.burn_total,
    decreases ops.len(),
{
    if ops.len() > 0 {
        lemma_step_monotonic(r, ops[0]);
        lemma_run_monotonic(ledger_step(r, ops[0]), ops.drop_first());
    }
}

} // verus!
