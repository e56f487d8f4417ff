use vstd::prelude::*;

use crate::pubkey::Pubkey;

verus! {

/// Why an operation was refused. A refused operation changes nothing.
#[derive(Clone, Copy, Debug, PartialEq, Eq, Structural)]
pub enum CustomError {
    /// The caller is not the party that the operation is for.
    InvalidAccount,
    /// A withdrawal came before the unlock time.
    NotTime,
    /// The vault was already cancelled by both parties, or no longer exists.
    AccountClosed,
    /// The caller is neither the depositor nor the beneficiary.
    Unauthorized,
    /// A close came before both parties asked to cancel.
    AccountNotClosed,
    /// The depositor holds less than the amount to lock.
    InsufficientFunds,
    /// A vault already exists for this depositor, beneficiary and asset.
    DuplicateVault,
}

/// One escrow arrangement.
#[derive(Clone, Copy, Debug, PartialEq, Eq)]
pub struct Vault {
    /// The depositor.
    pub from: Pubkey,
    /// The beneficiary.
    pub to: Pubkey,
    /// The asset type held.
    pub mint: Pubkey,
    pub amount: u64,
    /// The depositor asked to cancel.
    pub from_closed: bool,
    /// The beneficiary asked to cancel.
    pub to_closed: bool,
    /// The unlock time, in seconds.
    pub end_time: u64,
}

impl Vault {
    /// Both parties asked to cancel: the deposit has gone back to the depositor.
    pub open spec fn mutually_cancelled(self) -> bool {
        self.from_closed && self.to_closed
    }

    pub fn is_mutually_cancelled(&self) -> (r: bool)
        ensures
            r == self.mutually_cancelled(),
    {
        self.from_closed && self.to_closed
    }
}

/// A token transfer for the ledger to carry out, into or out of the custody
/// account of one asset type.
#[derive(Clone, Copy, Debug, PartialEq, Eq)]
pub enum Transfer {
    /// From the owner's account into custody, signed by the owner.
    Deposit { owner: Pubkey, mint: Pubkey, amount: u64 },
    /// From custody to the recipient's account, signed by the escrow authority.
    Release { recipient: Pubkey, mint: Pubkey, amount: u64 },
}

/// How much a transfer adds to the custody account (negative when it takes out).
pub open spec fn custody_change(t: Option<Transfer>) -> int {
    match t {
        Some(Transfer::Deposit { amount, .. }) => amount as int,
        Some(Transfer::Release { amount, .. }) => -(amount as int),
        None => 0,
    }
}

/// What custody holds on behalf of a vault slot: the amount while the vault
/// exists and has not been cancelled by both parties, else nothing.
pub open spec fn custody_owed(slot: Option<Vault>) -> nat {
    match slot {
        Some(v) => if v.mutually_cancelled() { 0 } else { v.amount as nat },
        None => 0,
    }
}

} // verus!
