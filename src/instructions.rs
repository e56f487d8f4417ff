use vstd::prelude::*;

use crate::pubkey::Pubkey;
use crate::vault::{CustomError, Transfer, Vault};

verus! {

/// The one-time setup call.
#[derive(Clone, Copy, Debug)]
pub struct Initialize {
    pub signer: Pubkey,
}

/// What a create call brings: who deposits, for whom, which asset, what the
/// depositor holds of it, and whether the vault's key is already taken.
#[derive(Clone, Copy, Debug)]
pub struct Create {
    pub signer: Pubkey,
    pub other: Pubkey,
    pub mint: Pubkey,
    pub user_balance: u64,
    pub vault_exists: bool,
}

/// The caller of a withdrawal.
#[derive(Clone, Copy, Debug)]
pub struct Withdraw {
    pub signer: Pubkey,
}

/// The caller of a cancellation.
#[derive(Clone, Copy, Debug)]
pub struct Cancel {
    pub signer: Pubkey,
}

/// The caller of a close, who gets the record's storage back.
#[derive(Clone, Copy, Debug)]
pub struct Close {
    pub signer: Pubkey,
}

/// The new vault and the deposit that funds it, or why there is none.
pub open spec fn create_outcome(ctx: Create, amount: u64, end_time: u64) -> Result<
    (Vault, Transfer),
    CustomError,
> {
    if ctx.vault_exists {
        Err(CustomError::DuplicateVault)
    } else if ctx.user_balance < amount {
        Err(CustomError::InsufficientFunds)
    } else {
        Ok(
            (
                Vault {
                    from: ctx.signer,
                    to: ctx.other,
                    mint: ctx.mint,
                    amount,
                    from_closed: false,
                    to_closed: false,
                    end_time,
                },
                Transfer::Deposit { owner: ctx.signer, mint: ctx.mint, amount },
            ),
        )
    }
}

/// The payout of a withdrawal, or why there is none; the checks come in this order.
pub open spec fn withdraw_outcome(ctx: Withdraw, vault: Vault, now: u64) -> Result<
    Transfer,
    CustomError,
> {
    if ctx.signer@ != vault.to@ {
        Err(CustomError::InvalidAccount)
    } else if vault.mutually_cancelled() {
        Err(CustomError::AccountClosed)
    } else if now < vault.end_time {
        Err(CustomError::NotTime)
    } else {
        Ok(Transfer::Release { recipient: vault.to, mint: vault.mint, amount: vault.amount })
    }
}

/// The vault with the caller's own flag set, or `None` for a stranger. Where the
/// depositor is also the beneficiary, the beneficiary's flag is the one set.
pub open spec fn cancel_flag(signer: Seq<u8>, vault: Vault) -> Option<Vault> {
    if signer == vault.to@ {
        Some(Vault { to_closed: true, ..vault })
    } else if signer == vault.from@ {
        Some(Vault { from_closed: true, ..vault })
    } else {
        None
    }
}

/// The refund that a cancellation pays: only the one that completes mutual
/// cancellation returns the amount to the depositor.
pub open spec fn refund(before: Vault, after: Vault) -> Option<Transfer> {
    if after.mutually_cancelled() && !before.mutually_cancelled() {
        Some(Transfer::Release { recipient: before.from, mint: before.mint, amount: before.amount })
    } else {
        None
    }
}

/// The result of a cancellation and the vault after it.
pub open spec fn cancel_outcome(ctx: Cancel, vault: Vault) -> (
    Result<Option<Transfer>, CustomError>,
    Vault,
) {
    match cancel_flag(ctx.signer@, vault) {
        Some(after) => (Ok(refund(vault, after)), after),
        None => (Err(CustomError::Unauthorized), vault),
    }
}

/// A close is allowed only once both parties asked to cancel.
pub open spec fn close_outcome(vault: Vault) -> Result<(), CustomError> {
    if vault.mutually_cancelled() {
        Ok(())
    } else {
        Err(CustomError::AccountNotClosed)
    }
}

/// Setup: nothing to decide, it always succeeds.
pub fn initialize(_ctx: &Initialize) -> (r: Result<(), CustomError>)
    ensures
        r is Ok,
{
    Ok(())
}

/// Opens a vault: the depositor (the signer) locks `amount` of `mint` for
/// `other` until `end_time`. Returns the new record and the deposit to make.
pub fn create(ctx: &Create, amount: u64, end_time: u64) -> (r: Result<(Vault, Transfer), CustomError>)
    requires
        amount > 0,
    ensures
        r == create_outcome(*ctx, amount, end_time),
{
    if ctx.vault_exists {
        return Err(CustomError::DuplicateVault);
    }
    if ctx.user_balance < amount {
        return Err(CustomError::InsufficientFunds);
    }
    let vault = Vault {
        from: ctx.signer,
        to: ctx.other,
        mint: ctx.mint,
        amount,
        from_closed: false,
        to_closed: false,
        end_time,
    };
    Ok((vault, Transfer::Deposit { owner: ctx.signer, mint: ctx.mint, amount }))
}

/// The beneficiary takes the whole amount once `now` has reached the unlock
/// time, unless both parties asked to cancel. On success the record is to be
/// deleted.
pub fn withdraw(ctx: &Withdraw, vault: &Vault, now: u64) -> (r: Result<Transfer, CustomError>)
    ensures
        r == withdraw_outcome(*ctx, *vault, now),
{
    if !ctx.signer.same_as(&vault.to) {
        return Err(CustomError::InvalidAccount);
    }
    if vault.is_mutually_cancelled() {
        return Err(CustomError::AccountClosed);
    }
    if now < vault.end_time {
        return Err(CustomError::NotTime);
    }
    Ok(Transfer::Release { recipient: vault.to, mint: vault.mint, amount: vault.amount })
}

/// Records the caller's wish to cancel. The call that completes mutual
/// cancellation returns the refund to the depositor; any other returns none.
pub fn cancel(ctx: &Cancel, vault: &mut Vault) -> (r: Result<Option<Transfer>, CustomError>)
    ensures
        (r, *final(vault)) == cancel_outcome(*ctx, *old(vault)),
{
    let was_cancelled = vault.is_mutually_cancelled();
    if ctx.signer.same_as(&vault.to) {
        vault.to_closed = true;
    } else if ctx.signer.same_as(&vault.from) {
        vault.from_closed = true;
    } else {
        return Err(CustomError::Unauthorized);
    }
    if vault.is_mutually_cancelled() && !was_cancelled {
        Ok(Some(Transfer::Release { recipient: vault.from, mint: vault.mint, amount: vault.amount }))
    } else {
        Ok(None)
    }
}

/// Allows the record to be deleted once both parties asked to cancel. Moves no
/// funds: the refund was paid by the cancellation that completed it.
pub fn close(_ctx: &Close, vault: &Vault) -> (r: Result<(), CustomError>)
    ensures
        r == close_outcome(*vault),
{
    if !vault.is_mutually_cancelled() {
        return Err(CustomError::AccountNotClosed);
    }
    Ok(())
}

} // verus!
