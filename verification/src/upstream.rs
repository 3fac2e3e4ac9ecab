//! What the token ledger reports of a payment, as plain values.
//!
//! Amounts and indices are given as 128-bit numbers; a host that reads a
//! larger one hands over the greatest 128-bit number in its place, which
//! every rule here treats as it would the larger one.

use vstd::prelude::*;
use crate::principal::Principal;

verus! {

/// An account of the token ledger.
#[derive(Clone, Debug)]
pub struct Account {
    pub owner: Principal,
    pub subaccount: Option<Vec<u8>>,
}

/// Tokens that were destroyed.
#[derive(Clone, Debug)]
pub struct Burn {
    pub from: Account,
    pub memo: Option<Vec<u8>>,
    pub created_at_time: Option<u64>,
    pub amount: u128,
}

/// Tokens that were created.
#[derive(Clone, Debug)]
pub struct Mint1 {
    pub to: Account,
    pub memo: Option<Vec<u8>>,
    pub created_at_time: Option<u64>,
    pub amount: u128,
}

/// Tokens that moved from one account to another.
#[derive(Clone, Debug)]
pub struct Transfer {
    pub to: Account,
    pub fee: Option<u128>,
    pub from: Account,
    pub memo: Option<Vec<u8>>,
    pub created_at_time: Option<u64>,
    pub amount: u128,
}

/// One entry of the token ledger: a burn, a mint or a transfer.
#[derive(Clone, Debug)]
pub struct Transaction1 {
    pub burn: Option<Burn>,
    pub kind: String,
    pub mint: Option<Mint1>,
    pub timestamp: u64,
    pub index: u128,
    pub transfer: Option<Transfer>,
}

/// Why the token ledger refused a transfer or a burn.
#[derive(Clone, Debug)]
pub enum TransferError1 {
    GenericError { message: String, error_code: u128 },
    TemporarilyUnavailable,
    BadBurn { min_burn_amount: u128 },
    Duplicate { duplicate_of: u128 },
    BadFee { expected_fee: u128 },
    CreatedInFuture { ledger_time: u64 },
    TooOld,
    InsufficientFunds { balance: u128 },
}

/// What the token ledger answers to a transfer or a burn: the index of the
/// new entry, or a refusal.
#[derive(Clone, Debug)]
pub enum TransferResult {
    Accepted(u128),
    Refused(TransferError1),
}

/// The part of a payment that the rules read: who paid whom how much.
pub struct Payment {
    pub from: Principal,
    pub to: Principal,
    pub amount: u128,
}

impl Transaction1 {
    /// The payment that an entry records, if it is a transfer.
    pub open spec fn payment(self) -> Option<Payment> {
        match self.transfer {
            Some(t) => Some(Payment { from: t.from.owner, to: t.to.owner, amount: t.amount }),
            None => None,
        }
    }

    /// Reads the payment that an entry records, if it is a transfer.
    pub fn read_payment(&self) -> (r: Option<Payment>)
        ensures
            r == self.payment(),
    {
        match &self.transfer {
            Some(t) => Some(Payment { from: t.from.owner, to: t.to.owner, amount: t.amount }),
            None => None,
        }
    }
}

} // verus!
