//! The creation and the topping up of miners against payments on the token
//! ledger.

use vstd::prelude::*;
use crate::block::Transaction;
use crate::ledger::commit::set_or_kept;
use crate::ledger::{Ledger, LedgerError, WINDOGE_MINER_CREATION_AMOUNT};
use crate::memory::{minus_or_zero, sub_balance, StorageView};
use crate::principal::Principal;
use crate::state::StateView;
use crate::upstream::{Payment, Transaction1};

verus! {

/// What the ledger says to a request to create a miner, before the payment
/// is looked up.
pub open spec fn spawn_guard(state: StateView, caller: Principal, index: u64) -> Result<
    (),
    LedgerError,
> {
    if caller.is_anonymous_spec() {
        Err(LedgerError::Anonymous)
    } else if state.miner_creation_transactions.contains(index) {
        Err(LedgerError::AlreadyProcessed)
    } else {
        Ok(())
    }
}

/// What the ledger says to a request to top up a miner, before the payment
/// is looked up.
pub open spec fn topup_guard(
    state: StateView,
    caller: Principal,
    miner: Principal,
    index: u64,
) -> Result<(), LedgerError> {
    if caller.is_anonymous_spec() {
        Err(LedgerError::Anonymous)
    } else if !state.miner_to_owner.contains_key(miner) {
        Err(LedgerError::MinerNotFound)
    } else if state.miner_creation_transactions.contains(index) {
        Err(LedgerError::AlreadyProcessed)
    } else {
        Ok(())
    }
}

/// What the ledger says of the payment for a new miner: it has to be a
/// transfer from the caller, of at least the creation amount, to the
/// ledger.
pub open spec fn creation_payment(
    payment: Option<Payment>,
    caller: Principal,
    ledger: Principal,
) -> Result<(), LedgerError> {
    match payment {
        None => Err(LedgerError::ExpectedTransfer),
        Some(p) => if p.from != caller {
            Err(LedgerError::NotFromCaller)
        } else if p.amount < WINDOGE_MINER_CREATION_AMOUNT {
            Err(LedgerError::AmountTooLow)
        } else if p.to != ledger {
            Err(LedgerError::NotToLedger)
        } else {
            Ok(())
        },
    }
}

/// What the ledger says of the payment for a top-up: it has to be a
/// transfer from the caller to the ledger, and a tenth of it, which is
/// burned, has to fit in 64 bits.  The tenth is returned.
pub open spec fn topup_payment(
    payment: Option<Payment>,
    caller: Principal,
    ledger: Principal,
) -> Result<u64, LedgerError> {
    match payment {
        None => Err(LedgerError::ExpectedTransfer),
        Some(p) => if p.from != caller {
            Err(LedgerError::NotFromCaller)
        } else if p.to != ledger {
            Err(LedgerError::NotToLedger)
        } else if p.amount / 10 > u64::MAX {
            Err(LedgerError::AmountTooLarge)
        } else {
            Ok((p.amount / 10) as u64)
        },
    }
}

/// The part of the creation amount that is burned: 40 percent.
pub open spec fn creation_burn() -> u64 {
    600_000_000
}

/// Checks the payment for a new miner.
pub fn check_creation_payment(entry: &Transaction1, caller: Principal, ledger: Principal) -> (r:
    Result<(), LedgerError>)
    ensures
        r == creation_payment(entry.payment(), caller, ledger),
{
    match entry.read_payment() {
        None => Err(LedgerError::ExpectedTransfer),
        Some(p) => {
            if p.from != caller {
                Err(LedgerError::NotFromCaller)
            } else if p.amount < WINDOGE_MINER_CREATION_AMOUNT as u128 {
                Err(LedgerError::AmountTooLow)
            } else if p.to != ledger {
                Err(LedgerError::NotToLedger)
            } else {
                Ok(())
            }
        },
    }
}

/// Checks the payment for a top-up and returns the amount to burn.
pub fn check_topup_payment(entry: &Transaction1, caller: Principal, ledger: Principal) -> (r:
    Result<u64, LedgerError>)
    ensures
        r == topup_payment(entry.payment(), caller, ledger),
{
    match entry.read_payment() {
        None => Err(LedgerError::ExpectedTransfer),
        Some(p) => {
            if p.from != caller {
                Err(LedgerError::NotFromCaller)
            } else if p.to != ledger {
                Err(LedgerError::NotToLedger)
            } else {
                let tenth = p.amount / 10;
                if tenth > u64::MAX as u128 {
                    Err(LedgerError::AmountTooLarge)
                } else {
                    Ok(tenth as u64)
                }
            }
        },
    }
}

/// The amount of a payment as a 64-bit number, if it is one.
pub fn payment_tokens(amount: u128) -> (r: Result<u64, LedgerError>)
    ensures
        r == if amount <= u64::MAX {
            Ok::<u64, LedgerError>(amount as u64)
        } else {
            Err::<u64, LedgerError>(LedgerError::AmountTooLarge)
        },
{
    if amount <= u64::MAX as u128 {
        Ok(amount as u64)
    } else {
        Err(LedgerError::AmountTooLarge)
    }
}

/// The part of the creation amount that is burned: 40 percent.
pub fn creation_burn_amount() -> (r: u64)
    ensures
        r == creation_burn(),
        r == WINDOGE_MINER_CREATION_AMOUNT * 40 / 100,
{
    (WINDOGE_MINER_CREATION_AMOUNT * 40) / 100
}

/// The part of a top-up's cycles that is forwarded to the miner: 80
/// percent.
pub fn forwarded_cycles(cycles: u64) -> (r: u64)
    ensures
        r == cycles * 80 / 100,
{
    ((cycles as u128 * 80) / 100) as u64
}

impl Ledger {
    /// Answers a request to create a miner before the payment is looked up:
    /// refused for the anonymous caller and for a payment that was used.
    pub fn check_spawn(&self, caller: Principal, block_index: u64) -> (r: Result<(), LedgerError>)
        ensures
            r == spawn_guard(self.state@, caller, block_index),
    {
        if caller.is_anonymous() {
            return Err(LedgerError::Anonymous);
        }
        if self.state.miner_creation_transactions.contains(&block_index) {
            return Err(LedgerError::AlreadyProcessed);
        }
        Ok(())
    }

    /// Binds a new miner to the caller who paid for it, stores the binding
    /// and marks the payment as used.
    pub fn register_miner(&mut self, miner: Principal, caller: Principal, block_index: u64)
        ensures
            old(self).inv() ==> final(self).inv(),
            final(self).state@ == old(self).state@.with_miner(miner, caller, block_index),
            final(self).storage@.miners == old(self).storage@.miners.insert(
                miner@,
                (caller@, block_index),
            ),
            final(self).storage@.used_payments == old(self).storage@.used_payments.push(
                block_index,
            ) || final(self).storage@.used_payments == old(self).storage@.used_payments,
            final(self).storage@ == (StorageView {
                miners: final(self).storage@.miners,
                used_payments: final(self).storage@.used_payments,
                ..old(self).storage@
            }),
    {
        self.state.new_miner(miner, caller, block_index);
        crate::memory::insert_new_miner(&mut self.storage, miner, caller, block_index);
        let _ = crate::memory::insert_new_transaction(&mut self.storage, block_index);
    }

    /// Counts tokens that were burned on the token ledger.
    pub fn record_burn(&mut self, amount: u64)
        requires
            old(self).state@.exe_burned + amount <= u64::MAX,
            old(self).storage@.burned_exe + amount <= u64::MAX,
        ensures
            old(self).inv() ==> final(self).inv(),
            final(self).state@ == (StateView {
                exe_burned: (old(self).state@.exe_burned + amount) as u64,
                ..old(self).state@
            }),
            set_or_kept(
                final(self).storage@.burned_exe,
                old(self).storage@.burned_exe + amount,
                old(self).storage@.burned_exe,
            ),
            final(self).storage@ == (StorageView {
                burned_exe: final(self).storage@.burned_exe,
                ..old(self).storage@
            }),
    {
        self.state.exe_burned = self.state.exe_burned + amount;
        let _ = crate::memory::add_burned_exe(&mut self.storage, amount);
    }

    /// Answers a request to top up a miner before the payment is looked up:
    /// refused for the anonymous caller, for a miner that is not
    /// registered, and for a payment that was used.
    pub fn check_topup(&self, caller: Principal, miner: Principal, block_index: u64) -> (r: Result<
        (),
        LedgerError,
    >)
        ensures
            r == topup_guard(self.state@, caller, miner, block_index),
    {
        if caller.is_anonymous() {
            return Err(LedgerError::Anonymous);
        }
        if !self.state.miner_to_owner.contains_key(&miner) {
            return Err(LedgerError::MinerNotFound);
        }
        if self.state.miner_creation_transactions.contains(&block_index) {
            return Err(LedgerError::AlreadyProcessed);
        }
        Ok(())
    }

    /// Marks the payment of a top-up as used, once the miner has its cycles.
    pub fn finish_topup(&mut self, block_index: u64)
        ensures
            old(self).inv() ==> final(self).inv(),
            final(self).state@ == (StateView {
                miner_creation_transactions: old(self).state@.miner_creation_transactions.insert(
                    block_index,
                ),
                ..old(self).state@
            }),
            final(self).storage@.used_payments == old(self).storage@.used_payments.push(
                block_index,
            ) || final(self).storage@.used_payments == old(self).storage@.used_payments,
            final(self).storage@ == (StorageView {
                used_payments: final(self).storage@.used_payments,
                ..old(self).storage@
            }),
    {
        let _ = crate::memory::insert_new_transaction(&mut self.storage, block_index);
        self.state.miner_creation_transactions.insert(block_index);
    }

    /// Takes the amount of a mint request from its sender's balance, once
    /// the token ledger has paid it out.
    pub fn mint_settled(&mut self, request: &Transaction)
        ensures
            old(self).inv() ==> final(self).inv(),
            final(self).state@ == old(self).state@,
            final(self).storage@ == (StorageView {
                balances: old(self).storage@.balances.insert(
                    request.sender@,
                    minus_or_zero(old(self).storage@.balance_of(request.sender@), request.amount),
                ),
                ..old(self).storage@
            }),
    {
        sub_balance(&mut self.storage, request.sender, request.amount);
    }

    /// The miners of an owner, oldest first.
    pub fn get_miners(&self, user: Principal) -> (r: Vec<Principal>)
        ensures
            r@ == self.state@.miners_of(user),
    {
        match self.state.principal_to_miner.get(&user) {
            Some(list) => {
                let mut r: Vec<Principal> = Vec::new();
                let mut i: usize = 0;
                while i < list.len()
                    invariant
                        i <= list.len(),
                        r@ == list@.take(i as int),
                    decreases list.len() - i,
                {
                    r.push(list[i]);
                    assert(list@.take(i + 1) =~= list@.take(i as int).push(list@[i as int]));
                    i += 1;
                }
                assert(list@.take(list.len() as int) =~= list@);
                r
            },
            None => Vec::new(),
        }
    }
}

} // verus!
