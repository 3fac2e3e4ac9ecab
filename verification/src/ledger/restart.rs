//! The working state that is rebuilt from what is kept, after a restart.

use vstd::prelude::*;
use crate::ledger::{Ledger, MAX_DIFFICULTY, MIN_DIFFICULTY};
use crate::memory::{Storage, StorageView};
use crate::principal::Principal;
use crate::stable::{lists_map, MinerEntry};
use crate::state::{State, StateView, INIT_DIFFICULTY};

verus! {

/// The state after the first `n` of a list of miners were bound to their
/// owners, starting from `state`.
pub open spec fn with_miners(state: StateView, miners: Seq<MinerEntry>, n: nat) -> StateView
    decreases n,
{
    if n == 0 {
        state
    } else {
        with_miners(state, miners, (n - 1) as nat).with_miner(
            miners[n - 1].miner,
            miners[n - 1].owner,
            miners[n - 1].index,
        )
    }
}

/// Binding miners changes nothing but the bindings and the set of used
/// payments.
pub proof fn lemma_with_miners_frame(state: StateView, miners: Seq<MinerEntry>, n: nat)
    ensures
        with_miners(state, miners, n) == (StateView {
            miner_creation_transactions: with_miners(state, miners, n).miner_creation_transactions,
            miner_to_owner: with_miners(state, miners, n).miner_to_owner,
            principal_to_miner: with_miners(state, miners, n).principal_to_miner,
            ..state
        }),
    decreases n,
{
    if n > 0 {
        lemma_with_miners_frame(state, miners, (n - 1) as nat);
    }
}

/// The map that holds the first `n` pairs of a list.
pub open spec fn map_of(pairs: Seq<(Principal, u64)>, n: nat) -> Map<Principal, u64>
    decreases n,
{
    if n == 0 {
        Map::empty()
    } else {
        map_of(pairs, (n - 1) as nat).insert(pairs[n - 1].0, pairs[n - 1].1)
    }
}

/// The difficulty that a restart takes up: the stored one where it lies
/// within the bounds, and the initial one where it does not (as where none
/// was ever stored).
pub open spec fn restored_difficulty(stored: u64) -> u32 {
    if MIN_DIFFICULTY <= stored <= MAX_DIFFICULTY {
        stored as u32
    } else {
        INIT_DIFFICULTY
    }
}

/// The working state that a restart rebuilds from what is kept, given the
/// stored miners, the stored counts of mined blocks and the stored list of
/// updated miners in the order in which they were read.
///
/// The mempool, the reservations and the cycles burned by each miner start
/// empty; only the payments that created a miner count as used.
pub open spec fn restored(
    storage: StorageView,
    miners: Seq<MinerEntry>,
    mined: Seq<(Principal, u64)>,
    updated: Seq<Principal>,
) -> StateView {
    StateView {
        exe_burned: storage.burned_exe,
        transaction_count: storage.transaction_count,
        average_block_time: storage.average_block_time,
        current_difficulty: restored_difficulty(storage.difficulty),
        block_height: match storage.latest() {
            Some(b) => b.header.height,
            None => 0,
        },
        current_block: if storage.current_block.len() > 0 {
            Some(storage.current_block[0])
        } else {
            None
        },
        miner_to_mined_block: map_of(mined, mined.len()),
        updated_miners: updated,
        ..with_miners(crate::state::initial_state(), miners, miners.len())
    }
}

/// The bytes of each identifier of a list.
pub open spec fn principal_bytes(list: Seq<Principal>) -> Seq<Seq<u8>> {
    list.map_values(|p: Principal| p@)
}

/// A stored miner as a pair of its identifier and what is stored under it.
pub open spec fn miner_pairs(miners: Seq<MinerEntry>) -> Seq<(Principal, (Seq<u8>, u64))> {
    miners.map_values(|e: MinerEntry| (e.miner, (e.owner@, e.index)))
}

impl Ledger {
    /// Rebuilds the working state from what is kept, after a restart.
    pub fn post_upgrade(storage: Storage) -> (r: Ledger)
        ensures
            r.storage@ == storage@,
            crate::ledger::consensus::difficulty_in_bounds(r.state@.current_difficulty),
            crate::ledger::consensus::sound(
                (StateView {
                    current_difficulty: restored_difficulty(storage@.difficulty),
                    ..crate::state::initial_state()
                }),
                storage@,
            ) ==> r.inv(),
            exists|miners: Seq<MinerEntry>, mined: Seq<(Principal, u64)>, updated: Seq<Principal>|
                lists_map(miner_pairs(miners), storage@.miners) && lists_map(
                    mined,
                    storage@.blocks_mined,
                ) && principal_bytes(updated) == storage@.updated_miners && r.state@ == restored(
                    storage@,
                    miners,
                    mined,
                    updated,
                ),
    {
        let mut state = State::new();
        let miners = crate::memory::get_miner_to_owner_and_index(&storage);
        let mut i: usize = 0;
        while i < miners.len()
            invariant
                i <= miners.len(),
                state@ == with_miners(crate::state::initial_state(), miners@, i as nat),
            decreases miners.len() - i,
        {
            let entry = miners[i];
            state.new_miner(entry.miner, entry.owner, entry.index);
            i += 1;
        }
        state.exe_burned = crate::memory::get_burned_exe(&storage);
        state.transaction_count = crate::memory::get_transaction_count(&storage);
        state.average_block_time = crate::memory::get_average_block_time(&storage);
        let stored = crate::memory::difficulty(&storage);
        state.current_difficulty = if stored >= MIN_DIFFICULTY as u64 && stored
            <= MAX_DIFFICULTY as u64 {
            stored as u32
        } else {
            INIT_DIFFICULTY
        };
        let length = storage.chain.len();
        if length > 0 {
            state.block_height = storage.chain[length - 1].header.height;
        }
        if storage.current_block.len() > 0 {
            state.current_block = Some(storage.current_block[0].clone());
        }
        let mined = crate::memory::get_users_to_block_mined(&storage);
        let mut k: usize = 0;
        let ghost before = state@;
        proof {
            lemma_with_miners_frame(crate::state::initial_state(), miners@, miners@.len());
        }
        while k < mined.len()
            invariant
                k <= mined.len(),
                before.miner_to_mined_block == Map::<Principal, u64>::empty(),
                state@ == (StateView { miner_to_mined_block: map_of(mined@, k as nat), ..before }),
            decreases mined.len() - k,
        {
            let pair = mined[k];
            state.miner_to_mined_block.insert(pair.0, pair.1);
            k += 1;
        }
        let updated = crate::memory::get_all_updated_miners(&storage);
        assert(principal_bytes(updated@) =~= storage@.updated_miners);
        state.updated_miners = updated;
        let r = Ledger { state, storage };
        assert(r.state@ == restored(r.storage@, miners@, mined@, r.state.updated_miners@));
        r
    }
}

} // verus!
