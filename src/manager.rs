use vstd::prelude::*;

use crate::instructions::{
    cancel,
    cancel_outcome,
    close,
    close_outcome,
    create,
    create_outcome,
    withdraw,
    withdraw_outcome,
    Cancel,
    Close,
    Create,
    Withdraw,
};
use crate::pubkey::Pubkey;
use crate::vault::{CustomError, Transfer, Vault};

verus! {

/// One call against the vault kept under one (depositor, beneficiary, asset) key.
#[derive(Clone, Copy, Debug)]
pub enum Instruction {
    Initialize,
    /// `user_balance` is what the signer holds of `mint`.
    Create { signer: Pubkey, other: Pubkey, mint: Pubkey, amount: u64, end_time: u64, user_balance: u64 },
    /// `now` is the ledger's clock, in seconds.
    Withdraw { signer: Pubkey, now: u64 },
    Cancel { signer: Pubkey },
    Close { signer: Pubkey },
}

impl Instruction {
    /// A create locks a positive amount.
    pub open spec fn well_formed(self) -> bool {
        self matches Instruction::Create { amount, .. } ==> amount > 0
    }
}

/// The result of one call and the slot after it. A refused call leaves the
/// slot as it was; a call on an empty slot, other than create, finds the vault
/// closed.
pub open spec fn process_outcome(slot: Option<Vault>, ix: Instruction) -> (
    Result<Option<Transfer>, CustomError>,
    Option<Vault>,
) {
    match ix {
        Instruction::Initialize => (Ok(None), slot),
        Instruction::Create { signer, other, mint, amount, end_time, user_balance } => {
            let ctx = Create { signer, other, mint, user_balance, vault_exists: slot is Some };
            match create_outcome(ctx, amount, end_time) {
                Ok((v, t)) => (Ok(Some(t)), Some(v)),
                Err(e) => (Err(e), slot),
            }
        },
        Instruction::Withdraw { signer, now } => match slot {
            Some(v) => match withdraw_outcome(Withdraw { signer }, v, now) {
                Ok(t) => (Ok(Some(t)), None),
                Err(e) => (Err(e), slot),
            },
            None => (Err(CustomError::AccountClosed), slot),
        },
        Instruction::Cancel { signer } => match slot {
            Some(v) => {
                let (r, after) = cancel_outcome(Cancel { signer }, v);
                (r, Some(after))
            },
            None => (Err(CustomError::AccountClosed), slot),
        },
        Instruction::Close { signer } => match slot {
            Some(v) => match close_outcome(v) {
                Ok(()) => (Ok(None), None),
                Err(e) => (Err(e), slot),
            },
            None => (Err(CustomError::AccountClosed), slot),
        },
    }
}

/// Runs one call against a vault slot as one atomic step: the slot is updated
/// and the transfer that the ledger must make is returned, or the call is
/// refused and nothing changes.
pub fn process(slot: &mut Option<Vault>, ix: &Instruction) -> (r: Result<Option<Transfer>, CustomError>)
    requires
        ix.well_formed(),
    ensures
        (r, *final(slot)) == process_outcome(*old(slot), *ix),
{
    match ix {
        Instruction::Initialize => Ok(None),
        Instruction::Create { signer, other, mint, amount, end_time, user_balance } => {
            let ctx = Create {
                signer: *signer,
                other: *other,
                mint: *mint,
                user_balance: *user_balance,
                vault_exists: slot.is_some(),
            };
            match create(&ctx, *amount, *end_time) {
                Ok((v, t)) => {
                    *slot = Some(v);
                    Ok(Some(t))
                },
                Err(e) => Err(e),
            }
        },
        Instruction::Withdraw { signer, now } => {
            let r = match slot {
                Some(v) => withdraw(&Withdraw { signer: *signer }, v, *now),
                None => return Err(CustomError::AccountClosed),
            };
            match r {
                Ok(t) => {
                    *slot = None;
                    Ok(Some(t))
                },
                Err(e) => Err(e),
            }
        },
        Instruction::Cancel { signer } => match slot {
            Some(v) => cancel(&Cancel { signer: *signer }, v),
            None => Err(CustomError::AccountClosed),
        },
        Instruction::Close { signer } => {
            let r = match slot {
                Some(v) => close(&Close { signer: *signer }, v),
                None => return Err(CustomError::AccountClosed),
            };
            match r {
                Ok(()) => {
                    *slot = None;
                    Ok(None)
                },
                Err(e) => Err(e),
            }
        },
    }
}

} // verus!
