//! The commit of a valid block.

use vstd::prelude::*;
use crate::block::{sealed, Block, BlockView, Stats, Transaction};
use crate::ledger::consensus::{average_block_time, next_average, next_difficulty, retarget, validation};
use crate::ledger::settlement::{
    balances_after, bump, credits_fit, credits_fit_check, held, mempool_after, mint_requests,
    pending_after, releases_fit, releases_fit_check, settle_balances, settle_mempool,
};
use crate::ledger::{Ledger, LedgerError};
use crate::memory::{
    add_balance, add_block_mined, amount_of, block_count, insert_block, insert_stats,
    update_average_block_time, update_difficulty, update_transaction_count, StorageView,
};
use crate::principal::Principal;
use crate::state::{reward_at, StateView};

verus! {

/// Whether no count or balance leaves 64 bits when `block` is committed.
pub open spec fn commit_fits(
    state: StateView,
    storage: StorageView,
    caller: Principal,
    ledger: Principal,
    block: BlockView,
    stats: Stats,
) -> bool {
    let owner = state.miner_to_owner[caller];
    let txs = block.transactions;
    &&& held(state.miner_to_mined_block, owner) < u64::MAX
    &&& storage.mined_by(owner@) < u64::MAX
    &&& held(state.miner_to_burned_cycles, caller) + stats.cycles_burned <= u64::MAX
    &&& state.transaction_count + txs.len() <= u64::MAX
    &&& storage.transaction_count + txs.len() <= u64::MAX
    &&& releases_fit(state.pending_balance, txs, txs.len())
    &&& credits_fit(storage.balances, txs, ledger, txs.len())
    &&& amount_of(balances_after(storage.balances, txs, ledger, txs.len()), owner@) + reward_at(
        block.header.height,
    ) <= u64::MAX
}

/// What the ledger says to a block that `caller` submits: the reason why
/// it is invalid; for a valid one that the ledger has no block to put it
/// on, or whose commit would take a count or a balance out of 64 bits,
/// that it is out of range; else that it is taken.
pub open spec fn submission(
    state: StateView,
    storage: StorageView,
    caller: Principal,
    ledger: Principal,
    block: BlockView,
    stats: Stats,
) -> Result<(), LedgerError> {
    match validation(state, storage.chain, caller, block) {
        Err(e) => Err(e),
        Ok(_) => if storage.chain.len() >= 1 && commit_fits(
            state,
            storage,
            caller,
            ledger,
            block,
            stats,
        ) {
            Ok(())
        } else {
            Err(LedgerError::OutOfRange)
        },
    }
}

/// The working state after `block`, solved by the miner `caller`, was
/// committed.
pub open spec fn committed_state(
    state: StateView,
    caller: Principal,
    block: BlockView,
    stats: Stats,
) -> StateView {
    let owner = state.miner_to_owner[caller];
    let txs = block.transactions;
    StateView {
        miner_to_mined_block: state.miner_to_mined_block.insert(
            owner,
            (held(state.miner_to_mined_block, owner) + 1) as u64,
        ),
        miner_to_burned_cycles: state.miner_to_burned_cycles.insert(
            caller,
            (held(state.miner_to_burned_cycles, caller) + stats.cycles_burned) as u64,
        ),
        average_block_time: next_average(
            state.average_block_time,
            block.header.height,
            stats.solve_time,
        ) as u64,
        block_height: block.header.height,
        transaction_count: (state.transaction_count + txs.len()) as u64,
        mempool: mempool_after(state.mempool, txs, txs.len()),
        pending_balance: pending_after(state.pending_balance, txs, txs.len()),
        current_difficulty: retarget(state.current_difficulty, stats.solve_time),
        ..state
    }
}

/// The balances after `block` was committed: its transactions settled in
/// order, then the reward for the block's height paid to the owner of the
/// miner.
pub open spec fn committed_balances(
    state: StateView,
    storage: StorageView,
    caller: Principal,
    ledger: Principal,
    block: BlockView,
) -> Map<Seq<u8>, u64> {
    let owner = state.miner_to_owner[caller];
    let settled = balances_after(
        storage.balances,
        block.transactions,
        ledger,
        block.transactions.len(),
    );
    settled.insert(
        owner@,
        (amount_of(settled, owner@) + reward_at(block.header.height)) as u64,
    )
}

/// One of two values: what a durable counter holds after an attempt to set
/// it, which its memory may have refused.
pub open spec fn set_or_kept(now: u64, wanted: int, before: u64) -> bool {
    now == wanted || now == before
}

/// What the ledger keeps after `block` was committed.  The block is
/// appended with its full hash, computed at this moment, in its hash
/// field.  The chain, the
/// statistics, the balances and the counts of mined blocks are exact; each
/// durable counter holds its new value, or its old one where its memory
/// refused the write.
pub open spec fn committed_storage(
    after: StorageView,
    state: StateView,
    storage: StorageView,
    caller: Principal,
    ledger: Principal,
    block: BlockView,
    stats: Stats,
) -> bool {
    let owner = state.miner_to_owner[caller];
    &&& after == (StorageView {
        chain: storage.chain.push(sealed(block)),
        stats: storage.stats.push(stats),
        balances: committed_balances(state, storage, caller, ledger, block),
        blocks_mined: storage.blocks_mined.insert(
            owner@,
            (storage.mined_by(owner@) + 1) as u64,
        ),
        average_block_time: after.average_block_time,
        transaction_count: after.transaction_count,
        difficulty: after.difficulty,
        ..storage
    })
    &&& set_or_kept(
        after.average_block_time,
        next_average(state.average_block_time, block.header.height, stats.solve_time),
        storage.average_block_time,
    )
    &&& set_or_kept(
        after.transaction_count,
        storage.transaction_count + block.transactions.len(),
        storage.transaction_count,
    )
    &&& set_or_kept(
        after.difficulty,
        retarget(state.current_difficulty, stats.solve_time) as int,
        storage.difficulty,
    )
}

impl Ledger {
    /// Commits a block that passed validation: the block is given its full
    /// hash and appended with its statistics, its transactions leave the
    /// mempool and are settled, the owner of the miner is paid the reward
    /// for the block's height, and the difficulty is retargeted.
    ///
    /// Returns the transactions that ask for tokens to be minted, in the
    /// block's order.
    pub fn commit(&mut self, caller: Principal, ledger: Principal, block: Block, stats: Stats) -> (r:
        Vec<Transaction>)
        requires
            old(self).storage@.chain.len() >= 1,
            validation(old(self).state@, old(self).storage@.chain, caller, block@) is Ok,
            commit_fits(old(self).state@, old(self).storage@, caller, ledger, block@, stats),
        ensures
            r@ == mint_requests(block@.transactions, ledger, block@.transactions.len()),
            final(self).state@ == committed_state(old(self).state@, caller, block@, stats),
            committed_storage(
                final(self).storage@,
                old(self).state@,
                old(self).storage@,
                caller,
                ledger,
                block@,
                stats,
            ),
            old(self).inv() ==> final(self).inv(),
    {
        proof {
            if old(self).inv() {
                crate::laws::law_chain_linearity(
                    old(self).state@,
                    old(self).storage@.chain,
                    caller,
                    block@,
                );
                crate::laws::law_proof_of_work(
                    old(self).state@,
                    old(self).storage@.chain,
                    caller,
                    block@,
                );
                crate::laws::law_full_hash(old(self).storage@.chain, block@);
                crate::ledger::settlement::lemma_mempool_shrinks(
                    old(self).state@.mempool,
                    block@.transactions,
                    block@.transactions.len(),
                );
            }
        }
        let owner = match self.state.miner_to_owner.get(&caller) {
            Some(owner) => *owner,
            None => Principal::anonymous(),
        };
        bump(&mut self.state.miner_to_mined_block, owner, 1);
        add_block_mined(&mut self.storage, owner);
        bump(&mut self.state.miner_to_burned_cycles, caller, stats.cycles_burned);
        let block_time = average_block_time(
            self.state.average_block_time,
            block.header.height,
            stats.solve_time,
        );
        self.state.average_block_time = block_time;
        let _ = update_average_block_time(&mut self.storage, block_time);
        self.state.block_height = block.header.height;
        let count = block.transactions.len() as u64;
        self.state.transaction_count = self.state.transaction_count + count;
        let _ = update_transaction_count(&mut self.storage, count);
        settle_mempool(&mut self.state, &block.transactions);
        let mints = settle_balances(&mut self.storage, &block.transactions, ledger);
        let reward = self.state.current_rewards(block.header.height);
        let mut block = block;
        block.calculate_block_hash();
        insert_block(&mut self.storage, block);
        insert_stats(&mut self.storage, stats);
        add_balance(&mut self.storage, owner, reward);
        let next = next_difficulty(self.state.current_difficulty, stats.solve_time);
        if next != self.state.current_difficulty {
            self.state.current_difficulty = next;
            let _ = update_difficulty(&mut self.storage, next as u64);
        }
        mints
    }

    /// Validates a block and, if it is valid, commits it.  An invalid block
    /// changes nothing and is answered with the reason; so is a valid one
    /// whose commit would take a count or a balance out of 64 bits.
    pub fn submit_solution(
        &mut self,
        caller: Principal,
        ledger: Principal,
        block: Block,
        stats: Stats,
    ) -> (r: Result<Vec<Transaction>, LedgerError>)
        ensures
            r is Ok <==> submission(old(self).state@, old(self).storage@, caller, ledger, block@, stats)
                is Ok,
            r matches Err(e) ==> submission(
                old(self).state@,
                old(self).storage@,
                caller,
                ledger,
                block@,
                stats,
            ) == Err::<(), LedgerError>(e) && final(self).state@ == old(self).state@ && final(self).storage@ == old(self).storage@,
            r matches Ok(mints) ==> mints@ == mint_requests(
                block@.transactions,
                ledger,
                block@.transactions.len(),
            ) && final(self).state@ == committed_state(old(self).state@, caller, block@, stats)
                && committed_storage(
                final(self).storage@,
                old(self).state@,
                old(self).storage@,
                caller,
                ledger,
                block@,
                stats,
            ),
            old(self).inv() ==> final(self).inv(),
    {
        match self.validate_solution(caller, &block) {
            Err(e) => Err(e),
            Ok(_) => {
                if self.can_commit(caller, ledger, &block, &stats) {
                    Ok(self.commit(caller, ledger, block, stats))
                } else {
                    Err(LedgerError::OutOfRange)
                }
            },
        }
    }

    /// Whether a block that `caller`, a registered miner, submits can be
    /// committed without any count or balance leaving 64 bits.
    pub fn can_commit(&self, caller: Principal, ledger: Principal, block: &Block, stats: &Stats) -> (r:
        bool)
        requires
            self.state@.miner_to_owner.contains_key(caller),
        ensures
            r == (self.storage@.chain.len() >= 1 && commit_fits(
                self.state@,
                self.storage@,
                caller,
                ledger,
                block@,
                *stats,
            )),
    {
        let owner = match self.state.miner_to_owner.get(&caller) {
            Some(owner) => *owner,
            None => Principal::anonymous(),
        };
        let txs = &block.transactions;
        let count = txs.len() as u64;
        let length = block_count(&self.storage);
        if length == 0 {
            return false;
        }
        let mined = match self.state.miner_to_mined_block.get(&owner) {
            Some(v) => *v,
            None => 0,
        };
        let burned = match self.state.miner_to_burned_cycles.get(&caller) {
            Some(v) => *v,
            None => 0,
        };
        if mined == u64::MAX {
            return false;
        }
        if crate::memory::mined_by(&self.storage, owner) == u64::MAX {
            return false;
        }
        if stats.cycles_burned > u64::MAX - burned {
            return false;
        }
        if count > u64::MAX - self.state.transaction_count {
            return false;
        }
        if count > u64::MAX - crate::memory::get_transaction_count(&self.storage) {
            return false;
        }
        if !releases_fit_check(&self.state.pending_balance, txs) {
            return false;
        }
        let reward = self.state.current_rewards(block.header.height);
        credits_fit_check(&self.storage, txs, ledger, owner, reward)
    }
}

} // verus!
