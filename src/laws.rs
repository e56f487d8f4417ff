use vstd::prelude::*;

use crate::instructions::{cancel_outcome, withdraw_outcome, Cancel, Withdraw};
use crate::manager::{process_outcome, Instruction};
use crate::pubkey::Pubkey;
use crate::vault::{custody_change, custody_owed, CustomError, Transfer, Vault};

verus! {

/// What a call's result moves into custody (negative when it moves funds out).
pub open spec fn moved(r: Result<Option<Transfer>, CustomError>) -> int {
    match r {
        Ok(t) => custody_change(t),
        Err(_) => 0,
    }
}

/// Runs calls in order against one slot: the slot at the end, and the net
/// amount that their transfers moved into custody.
pub open spec fn run(slot: Option<Vault>, ixs: Seq<Instruction>) -> (Option<Vault>, int)
    decreases ixs.len(),
{
    if ixs.len() == 0 {
        (slot, 0)
    } else {
        let (r, next) = process_outcome(slot, ixs[0]);
        let (end, rest) = run(next, ixs.drop_first());
        (end, moved(r) + rest)
    }
}

/// Each call keeps custody in step with the record: what it moves into or out
/// of custody is exactly the change in what custody holds for the slot.
pub proof fn step_keeps_custody(slot: Option<Vault>, ix: Instruction)
    ensures
        custody_owed(process_outcome(slot, ix).1) == custody_owed(slot) + moved(
            process_outcome(slot, ix).0,
        ),
{
}

/// Custody holds for a vault exactly its amount until the vault is withdrawn
/// or cancelled by both parties, and nothing after: starting from no vault,
/// after any sequence of calls, the net of all transfers into custody equals
/// what the record then in the slot is owed. Funds are never taken out twice,
/// and the balance never goes below zero.
pub proof fn custody_matches_record(ixs: Seq<Instruction>)
    ensures
        run(None, ixs).1 == custody_owed(run(None, ixs).0),
{
    run_tracks_custody(None, ixs);
}

/// From any slot, the net moved into custody by a run is the change in what
/// custody holds for the slot.
pub proof fn run_tracks_custody(slot: Option<Vault>, ixs: Seq<Instruction>)
    ensures
        run(slot, ixs).1 == custody_owed(run(slot, ixs).0) - custody_owed(slot),
    decreases ixs.len(),
{
    if ixs.len() > 0 {
        step_keeps_custody(slot, ixs[0]);
        run_tracks_custody(process_outcome(slot, ixs[0]).1, ixs.drop_first());
    }
}

/// A withdrawal before the unlock time never succeeds, whoever calls it; for
/// the beneficiary of a vault not cancelled by both parties it fails `NotTime`.
pub proof fn withdraw_before_unlock_fails(ctx: Withdraw, vault: Vault, now: u64)
    requires
        now < vault.end_time,
    ensures
        withdraw_outcome(ctx, vault, now) is Err,
        ctx.signer@ == vault.to@ && !vault.mutually_cancelled() ==> withdraw_outcome(ctx, vault, now)
            == Err::<Transfer, CustomError>(CustomError::NotTime),
{
}

/// A withdrawal by anyone but the beneficiary fails `InvalidAccount`, at any time.
pub proof fn withdraw_by_other_fails(ctx: Withdraw, vault: Vault, now: u64)
    requires
        ctx.signer@ != vault.to@,
    ensures
        withdraw_outcome(ctx, vault, now) == Err::<Transfer, CustomError>(CustomError::InvalidAccount),
{
}

/// A second cancellation by the same caller changes nothing and pays nothing;
/// a refused one is refused again.
pub proof fn cancel_twice_is_idempotent(ctx: Cancel, vault: Vault)
    ensures
        cancel_outcome(ctx, cancel_outcome(ctx, vault).1).1 == cancel_outcome(ctx, vault).1,
        cancel_outcome(ctx, vault).0 is Ok ==> cancel_outcome(ctx, cancel_outcome(ctx, vault).1).0
            == Ok::<Option<Transfer>, CustomError>(None),
        cancel_outcome(ctx, vault).0 is Err ==> cancel_outcome(ctx, cancel_outcome(ctx, vault).1).0
            == cancel_outcome(ctx, vault).0,
{
}

/// The refund that mutual cancellation pays to the depositor.
pub open spec fn full_refund(vault: Vault) -> Transfer {
    Transfer::Release { recipient: vault.from, mint: vault.mint, amount: vault.amount }
}

/// Of two results, exactly one pays `t` and the other pays nothing.
pub open spec fn pays_once(
    r1: Result<Option<Transfer>, CustomError>,
    r2: Result<Option<Transfer>, CustomError>,
    t: Transfer,
) -> bool {
    ||| r1 == Ok::<Option<Transfer>, CustomError>(Some(t)) && r2 == Ok::<Option<Transfer>, CustomError>(None)
    ||| r1 == Ok::<Option<Transfer>, CustomError>(None) && r2 == Ok::<Option<Transfer>, CustomError>(Some(t))
}

/// The cancellations of both parties, in either order, pay the full refund to
/// the depositor exactly once and leave the same record behind.
pub proof fn mutual_cancel_pays_once(vault: Vault)
    requires
        vault.from@ != vault.to@,
        !vault.mutually_cancelled(),
    ensures
        ({
            let by_depositor = Cancel { signer: vault.from };
            let by_beneficiary = Cancel { signer: vault.to };
            let (a1, va) = cancel_outcome(by_depositor, vault);
            let (a2, vab) = cancel_outcome(by_beneficiary, va);
            let (b1, vb) = cancel_outcome(by_beneficiary, vault);
            let (b2, vba) = cancel_outcome(by_depositor, vb);
            &&& pays_once(a1, a2, full_refund(vault))
            &&& pays_once(b1, b2, full_refund(vault))
            &&& vab == vba
            &&& vab.mutually_cancelled()
        }),
{
}

/// A close is refused `AccountNotClosed`, and the record kept, unless both
/// parties asked to cancel; then it removes the record and moves no funds.
pub proof fn close_needs_both_flags(vault: Vault, signer: Pubkey)
    ensures
        !vault.mutually_cancelled() ==> process_outcome(Some(vault), Instruction::Close { signer }) == (
            Err::<Option<Transfer>, CustomError>(CustomError::AccountNotClosed),
            Some(vault),
        ),
        vault.mutually_cancelled() ==> process_outcome(Some(vault), Instruction::Close { signer }) == (
            Ok::<Option<Transfer>, CustomError>(None),
            None::<Vault>,
        ),
{
}

} // verus!
