//! What makes a block valid, and how the difficulty follows the time that
//! blocks take.

use vstd::prelude::*;
use crate::block::{search_hash, Block, BlockView};
use crate::hash::{has_leading_zeros, meets_difficulty};
use crate::ledger::{
    Ledger, LedgerError, BLOCK_TIME, MAX_DIFFICULTY, MIN_DIFFICULTY, TRANSACTION_LIMIT,
};
use crate::memory::{block_count, insert_block, update_difficulty, Storage, StorageView};
use crate::principal::Principal;
use crate::state::{State, StateView, INIT_DIFFICULTY, SEC_NANOS};

verus! {

/// Every block after the first is chained to the hash of the one before it
/// and stands at its own height.
pub open spec fn chain_linked(chain: Seq<BlockView>) -> bool {
    forall|h: int|
        0 < h < chain.len() ==> (#[trigger] chain[h]).header.prev_hash == chain[h - 1].hash
            && chain[h].header.height == h
}

/// Every block's search hash has at least as many leading zeros as its
/// header's difficulty asks for.
pub open spec fn chain_worked(chain: Seq<BlockView>) -> bool {
    forall|h: int|
        0 <= h < chain.len() ==> meets_difficulty(
            search_hash((#[trigger] chain[h]).header, chain[h].nonce),
            chain[h].header.difficulty,
        )
}

/// Whether a difficulty lies within the bounds.
pub open spec fn difficulty_in_bounds(difficulty: u32) -> bool {
    MIN_DIFFICULTY <= difficulty <= MAX_DIFFICULTY
}

/// Every block after the first carries its full hash.
pub open spec fn chain_sealed(chain: Seq<BlockView>) -> bool {
    forall|h: int|
        0 < h < chain.len() ==> (#[trigger] chain[h]).hash == crate::block::block_hash(
            chain[h].header,
            chain[h].nonce,
        )
}

/// What holds of a ledger from its start on, whatever is done with it: the
/// chain begins with a block at height 0, is linked, every block meets its
/// difficulty, and every block after the first carries its full hash; the
/// difficulty lies within the bounds; the mempool holds at most one
/// transaction more than its limit.
pub open spec fn sound(state: StateView, storage: StorageView) -> bool {
    &&& storage.chain.len() >= 1
    &&& storage.chain[0].header.height == 0
    &&& chain_linked(storage.chain)
    &&& chain_worked(storage.chain)
    &&& chain_sealed(storage.chain)
    &&& difficulty_in_bounds(state.current_difficulty)
    &&& state.mempool.len() <= TRANSACTION_LIMIT + 1
}

/// The hash that the next block has to be chained to: that of the last
/// committed block, or 0 for an empty chain.
pub open spec fn tip_hash(chain: Seq<BlockView>) -> u128 {
    if chain.len() > 0 {
        chain.last().hash
    } else {
        0
    }
}

/// What validation says of a block that `caller` submits.
pub open spec fn validation(
    state: StateView,
    chain: Seq<BlockView>,
    caller: Principal,
    block: BlockView,
) -> Result<(), LedgerError> {
    if caller.is_anonymous_spec() {
        Err(LedgerError::Anonymous)
    } else if !state.miner_to_owner.contains_key(caller) {
        Err(LedgerError::UnregisteredMiner)
    } else if block.header.prev_hash != tip_hash(chain) {
        Err(LedgerError::OutdatedChain)
    } else if block.header.height != chain.len() {
        Err(LedgerError::HeightMismatch)
    } else if !meets_difficulty(
        search_hash(block.header, block.nonce),
        block.header.difficulty,
    ) {
        Err(LedgerError::InvalidSolution)
    } else {
        Ok(())
    }
}

/// The difficulty after a block that took `solve_time` nanoseconds: one
/// higher where the block came more than a minute early, one lower where
/// it came more than a minute late, never outside the bounds.
pub open spec fn retarget(difficulty: u32, solve_time: u64) -> u32 {
    if BLOCK_TIME > solve_time {
        if (BLOCK_TIME - solve_time) / (SEC_NANOS as int) > 60 && difficulty < MAX_DIFFICULTY {
            (difficulty + 1) as u32
        } else {
            difficulty
        }
    } else {
        if (solve_time - BLOCK_TIME) / (SEC_NANOS as int) > 60 && difficulty > MIN_DIFFICULTY {
            (difficulty - 1) as u32
        } else {
            difficulty
        }
    }
}

/// The running average of the block time after the block at `height`, which
/// took `solve_time`.
pub open spec fn next_average(average: u64, height: u64, solve_time: u64) -> int {
    (average * (height - 1) + solve_time) / (height as int)
}

/// Computes the difficulty after a block that took `solve_time`.
pub fn next_difficulty(difficulty: u32, solve_time: u64) -> (r: u32)
    ensures
        r == retarget(difficulty, solve_time),
{
    if BLOCK_TIME > solve_time {
        let sec = (BLOCK_TIME - solve_time) / SEC_NANOS;
        if sec > 60 && difficulty < MAX_DIFFICULTY {
            difficulty + 1
        } else {
            difficulty
        }
    } else {
        let sec = (solve_time - BLOCK_TIME) / SEC_NANOS;
        if sec > 60 && difficulty > MIN_DIFFICULTY {
            difficulty - 1
        } else {
            difficulty
        }
    }
}

/// Computes the running average of the block time.
pub fn average_block_time(average: u64, height: u64, solve_time: u64) -> (r: u64)
    requires
        height >= 1,
    ensures
        r == next_average(average, height, solve_time),
{
    let before = height - 1;
    assert(average * before <= 0xffff_ffff_ffff_ffff * before) by (nonlinear_arith)
        requires
            average <= 0xffff_ffff_ffff_ffff,
            before >= 0,
    ;
    assert(0xffff_ffff_ffff_ffff * before + 0xffff_ffff_ffff_ffff == 0xffff_ffff_ffff_ffff
        * height) by (nonlinear_arith)
        requires
            before == height - 1,
    ;
    assert(0xffff_ffff_ffff_ffff * height <= 0xffff_ffff_ffff_ffff * 0xffff_ffff_ffff_ffff)
        by (nonlinear_arith)
        requires
            height <= 0xffff_ffff_ffff_ffff,
    ;
    let total: u128 = (average as u128) * (before as u128) + (solve_time as u128);
    let quotient = total / (height as u128);
    assert(quotient <= 0xffff_ffff_ffff_ffff) by (nonlinear_arith)
        requires
            quotient == total / (height as u128),
            total <= 0xffff_ffff_ffff_ffff * height,
            height >= 1,
    ;
    quotient as u64
}

impl Ledger {
    /// What holds of the ledger from its start on: see [`sound`].
    pub open spec fn inv(&self) -> bool {
        sound(self.state@, self.storage@)
    }

    /// A ledger that has done nothing yet: the initial state, the genesis
    /// block appended to the chain, and the initial difficulty written to
    /// its counter.
    pub fn init(storage: Storage) -> (r: Ledger)
        ensures
            r.state@ == crate::state::initial_state(),
            r.storage@ == (StorageView {
                chain: storage@.chain.push(crate::block::genesis_view()),
                difficulty: r.storage@.difficulty,
                ..storage@
            }),
            crate::ledger::commit::set_or_kept(
                r.storage@.difficulty,
                INIT_DIFFICULTY as int,
                storage@.difficulty,
            ),
            storage@.chain.len() == 0 ==> r.inv(),
    {
        let ghost given = storage@;
        let mut storage = storage;
        insert_block(&mut storage, Block::genesis());
        let _ = update_difficulty(&mut storage, INIT_DIFFICULTY as u64);
        proof {
            crate::laws::law_genesis_chain();
            if given.chain.len() == 0 {
                assert(storage@.chain =~= seq![crate::block::genesis_view()]);
            }
        }
        Ledger { state: State::new(), storage }
    }

    /// Checks a block that `caller` submits: the caller is a registered
    /// miner, the block is chained to the tip and stands at the next height,
    /// and its search hash meets its difficulty.
    pub fn validate_solution(&self, caller: Principal, block: &Block) -> (r: Result<
        (),
        LedgerError,
    >)
        ensures
            r == validation(self.state@, self.storage@.chain, caller, block@),
    {
        if caller.is_anonymous() {
            return Err(LedgerError::Anonymous);
        }
        if !self.state.miner_to_owner.contains_key(&caller) {
            return Err(LedgerError::UnregisteredMiner);
        }
        let length = self.storage.chain.len();
        let tip = if length > 0 {
            self.storage.chain[length - 1].hash
        } else {
            0
        };
        assert(tip == tip_hash(self.storage@.chain));
        if block.header.prev_hash != tip {
            return Err(LedgerError::OutdatedChain);
        }
        if block.header.height != block_count(&self.storage) {
            return Err(LedgerError::HeightMismatch);
        }
        let hash = block.search_hash();
        if !has_leading_zeros(hash, block.header.difficulty) {
            return Err(LedgerError::InvalidSolution);
        }
        Ok(())
    }
}

} // verus!
