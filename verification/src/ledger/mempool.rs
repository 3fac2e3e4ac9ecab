//! Admission to the mempool and the assembly of the next template.

use vstd::prelude::*;
use crate::block::{Block, BlockView, Transaction, TransactionArgs};
use crate::ledger::{Assembly, Ledger, LedgerError, TRANSACTION_LIMIT};
use crate::memory::{get_balance, update_current_block, StorageView};
use crate::principal::Principal;
use crate::state::StateView;

verus! {

/// What admission says of a transaction that `caller` asks for.
pub open spec fn admission(
    state: StateView,
    storage: StorageView,
    caller: Principal,
    ledger: Principal,
    args: TransactionArgs,
) -> Result<(), LedgerError> {
    if caller.is_anonymous_spec() {
        Err(LedgerError::Anonymous)
    } else if storage.balance_of(caller@) < args.amount + state.pending_of(caller) {
        Err(LedgerError::InsufficientBalance)
    } else if state.mempool.len() > TRANSACTION_LIMIT {
        Err(LedgerError::Congested)
    } else if args.amount < 1 && args.recipient == ledger {
        Err(LedgerError::ZeroAmount)
    } else {
        Ok(())
    }
}

/// What becomes of an attempt to assemble the next template.
pub open spec fn assembly(state: StateView, storage: StorageView) -> Assembly {
    if state.mempool.len() == 0 {
        Assembly::Empty
    } else if storage.chain.len() == 0 || storage.chain.last().header.height == u64::MAX {
        Assembly::Fault
    } else {
        Assembly::Published
    }
}

/// The template that follows `tip` over the transactions of the mempool.
pub open spec fn template(
    tip: BlockView,
    mempool: Seq<Transaction>,
    difficulty: u32,
    now: u64,
) -> BlockView {
    let header = crate::block::BlockHeader {
        version: 1,
        height: (tip.header.height + 1) as u64,
        prev_hash: tip.hash,
        merkle_root: crate::block::merkle_root(mempool),
        timestamp: now,
        difficulty,
    };
    BlockView {
        header,
        transactions: mempool,
        nonce: 0,
        hash: crate::block::block_hash(header, 0),
    }
}

/// Copies a list of transactions.
pub(crate) fn copy_transactions(txs: &Vec<Transaction>) -> (r: Vec<Transaction>)
    ensures
        r@ == txs@,
{
    let mut r: Vec<Transaction> = Vec::new();
    let mut i: usize = 0;
    while i < txs.len()
        invariant
            i <= txs.len(),
            r@ == txs@.take(i as int),
        decreases txs.len() - i,
    {
        r.push(txs[i]);
        assert(txs@.take(i + 1) =~= txs@.take(i as int).push(txs@[i as int]));
        i += 1;
    }
    assert(txs@.take(txs.len() as int) =~= txs@);
    r
}

impl Ledger {
    /// Admits a transaction to the mempool and reserves its amount.
    ///
    /// Refused for the anonymous caller, for a caller whose balance does not
    /// cover what it has reserved and the amount, while the mempool holds
    /// more than 150 transactions, and for a request to mint nothing.
    pub fn create_transaction(
        &mut self,
        caller: Principal,
        ledger: Principal,
        args: TransactionArgs,
        now: u64,
    ) -> (r: Result<(), LedgerError>)
        ensures
            r == admission(old(self).state@, old(self).storage@, caller, ledger, args),
            final(self).storage@ == old(self).storage@,
            r is Err ==> final(self).state@ == old(self).state@,
            r is Ok ==> final(self).state@ == (StateView {
                pending_balance: old(self).state@.pending_balance.insert(
                    caller,
                    (old(self).state@.pending_of(caller) + args.amount) as u64,
                ),
                mempool: old(self).state@.mempool.push(
                    Transaction {
                        sender: caller,
                        recipient: args.recipient,
                        amount: args.amount,
                        timestamp: now,
                    },
                ),
                ..old(self).state@
            }),
            r is Ok ==> final(self).state@.mempool.len() <= TRANSACTION_LIMIT + 1,
            old(self).inv() ==> final(self).inv(),
            r is Ok ==> final(self).storage@.balance_of(caller@) >= final(self).state@.pending_of(
                caller,
            ),
    {
        if caller.is_anonymous() {
            return Err(LedgerError::Anonymous);
        }
        let pending = match self.state.pending_balance.get(&caller) {
            Some(v) => *v,
            None => 0,
        };
        let balance = get_balance(&self.storage, caller);
        if (balance as u128) < args.amount as u128 + pending as u128 {
            return Err(LedgerError::InsufficientBalance);
        }
        if self.state.mempool.len() > TRANSACTION_LIMIT {
            return Err(LedgerError::Congested);
        }
        if args.amount < 1 && args.recipient == ledger {
            return Err(LedgerError::ZeroAmount);
        }
        self.state.pending_balance.insert(caller, pending + args.amount);
        self.state.mempool.push(
            Transaction {
                sender: caller,
                recipient: args.recipient,
                amount: args.amount,
                timestamp: now,
            },
        );
        Ok(())
    }

    /// Assembles the next template from the whole mempool, on top of the
    /// last committed block, at the current difficulty, and publishes it.
    /// With an empty mempool nothing is built; nor is anything built where
    /// the chain is empty or the next height does not fit in 64 bits, which
    /// a ledger that was started and run by its own operations never meets.
    pub fn create_block(&mut self, now: u64) -> (r: Assembly)
        ensures
            r == assembly(old(self).state@, old(self).storage@),
            old(self).inv() ==> r != Assembly::Fault && final(self).inv(),
            r != Assembly::Published ==> final(self).state@ == old(self).state@ && final(self).storage@ == old(self).storage@,
            r == Assembly::Published ==> final(self).state@ == (StateView {
                current_block: Some(
                    template(
                        old(self).storage@.chain.last(),
                        old(self).state@.mempool,
                        old(self).state@.current_difficulty,
                        now,
                    ),
                ),
                ..old(self).state@
            }) && final(self).storage@ == (StorageView {
                current_block: seq![
                    template(
                        old(self).storage@.chain.last(),
                        old(self).state@.mempool,
                        old(self).state@.current_difficulty,
                        now,
                    ),
                ],
                ..old(self).storage@
            }),
    {
        if self.state.mempool.len() == 0 {
            return Assembly::Empty;
        }
        let length = self.storage.chain.len();
        proof {
            if self.inv() {
                crate::laws::law_heights(self.storage@.chain, length - 1);
            }
        }
        if length == 0 || self.storage.chain[length - 1].header.height == u64::MAX {
            return Assembly::Fault;
        }
        let transactions = copy_transactions(&self.state.mempool);
        let built = Block::new(
            &self.storage.chain[length - 1],
            transactions,
            self.state.current_difficulty,
            now,
        );
        match built {
            Ok(block) => {
                let copy = block.clone();
                self.state.current_block = Some(block);
                update_current_block(&mut self.storage, copy);
            },
            Err(_) => {},
        }
        Assembly::Published
    }

    /// The transactions that wait for a block, oldest first.
    pub fn get_mempool(&self) -> (r: Vec<Transaction>)
        ensures
            r@ == self.state@.mempool,
    {
        copy_transactions(&self.state.mempool)
    }
}

} // verus!
