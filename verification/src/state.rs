//! The ledger's working state.

use vstd::prelude::*;
use std::collections::BTreeSet;
use crate::block::{Block, BlockView, Transaction};
use crate::collections::PrincipalMap;
use crate::principal::Principal;

verus! {

broadcast use vstd::std_specs::btree::group_btree_axioms;

/// What the first blocks pay their miner's owner.
pub const COINBASE_REWARDS: u64 = 60_000_000_000;

/// The difficulty a new ledger starts with.
pub const INIT_DIFFICULTY: u32 = 26;

/// The number of blocks after which the reward halves.
pub const BLOCK_HALVING: u64 = 17_500;

/// Nanoseconds in a second.
pub const SEC_NANOS: u64 = 1_000_000_000;

/// The textual form of the token ledger's identifier.
pub const BIL_LEDGER_ID: &'static str = "ktra4-taaaa-aaaag-atveq-cai";

/// The bytes of the token ledger's identifier.
pub open spec fn bil_ledger_bytes() -> Seq<u8> {
    seq![0u8, 0, 0, 0, 0, 192, 157, 73, 1, 1]
}

/// The token ledger's identifier.
pub fn bil_ledger_id() -> (r: Principal)
    ensures
        r.wf(),
        r@ == bil_ledger_bytes(),
{
    let r = Principal::from_array([0u8, 0, 0, 0, 0, 192, 157, 73, 1, 1]);
    assert(r@ =~= bil_ledger_bytes());
    r
}

/// The reward for a block that is mined when the chain holds `block_count`
/// blocks: the first reward, halved once for every 17,500 blocks.
pub open spec fn reward_at(block_count: u64) -> u64 {
    COINBASE_REWARDS >> (block_count / BLOCK_HALVING)
}

/// The number of blocks still to be mined before the reward halves next.
pub open spec fn blocks_to_halving(block_count: u64) -> u64 {
    (BLOCK_HALVING - block_count % BLOCK_HALVING) as u64
}

/// The ledger's working state.
pub struct State {
    pub current_difficulty: u32,
    pub transaction_count: u64,
    pub block_height: u64,
    pub exe_burned: u64,
    pub average_block_time: u64,
    pub current_block: Option<Block>,
    pub bil_ledger_id: Principal,
    pub miner_to_burned_cycles: PrincipalMap<u64>,
    pub miner_to_mined_block: PrincipalMap<u64>,
    pub principal_to_miner: PrincipalMap<Vec<Principal>>,
    pub miner_to_owner: PrincipalMap<Principal>,
    pub miner_creation_transactions: BTreeSet<u64>,
    pub mempool: Vec<Transaction>,
    pub pending_balance: PrincipalMap<u64>,
    pub updated_miners: Vec<Principal>,
}

/// The working state as a mathematical value.
pub struct StateView {
    pub current_difficulty: u32,
    pub transaction_count: u64,
    pub block_height: u64,
    pub exe_burned: u64,
    pub average_block_time: u64,
    pub current_block: Option<BlockView>,
    pub bil_ledger_id: Principal,
    pub miner_to_burned_cycles: Map<Principal, u64>,
    pub miner_to_mined_block: Map<Principal, u64>,
    pub principal_to_miner: Map<Principal, Seq<Principal>>,
    pub miner_to_owner: Map<Principal, Principal>,
    pub miner_creation_transactions: Set<u64>,
    pub mempool: Seq<Transaction>,
    pub pending_balance: Map<Principal, u64>,
    pub updated_miners: Seq<Principal>,
}

impl StateView {
    /// The miners of `owner`, oldest first; none where it has no entry.
    pub open spec fn miners_of(self, owner: Principal) -> Seq<Principal> {
        if self.principal_to_miner.contains_key(owner) {
            self.principal_to_miner[owner]
        } else {
            Seq::empty()
        }
    }

    /// What `account` has reserved in the mempool; 0 where it has no entry.
    pub open spec fn pending_of(self, account: Principal) -> u64 {
        if self.pending_balance.contains_key(account) {
            self.pending_balance[account]
        } else {
            0
        }
    }

    /// The state after a miner was bound to its owner by the payment with
    /// the given index.
    pub open spec fn with_miner(self, miner: Principal, owner: Principal, index: u64) -> StateView {
        StateView {
            miner_creation_transactions: self.miner_creation_transactions.insert(index),
            miner_to_owner: self.miner_to_owner.insert(miner, owner),
            principal_to_miner: self.principal_to_miner.insert(
                owner,
                self.miners_of(owner).push(miner),
            ),
            ..self
        }
    }
}

/// The state of a ledger that has done nothing yet.
pub open spec fn initial_state() -> StateView {
    StateView {
        current_difficulty: INIT_DIFFICULTY,
        transaction_count: 0,
        block_height: 0,
        exe_burned: 0,
        average_block_time: 0,
        current_block: None,
        bil_ledger_id: Principal::with_bytes(bil_ledger_bytes()),
        miner_to_burned_cycles: Map::empty(),
        miner_to_mined_block: Map::empty(),
        principal_to_miner: Map::empty(),
        miner_to_owner: Map::empty(),
        miner_creation_transactions: Set::empty(),
        mempool: Seq::empty(),
        pending_balance: Map::empty(),
        updated_miners: Seq::empty(),
    }
}

impl View for State {
    type V = StateView;

    open spec fn view(&self) -> StateView {
        StateView {
            current_difficulty: self.current_difficulty,
            transaction_count: self.transaction_count,
            block_height: self.block_height,
            exe_burned: self.exe_burned,
            average_block_time: self.average_block_time,
            current_block: match self.current_block {
                Some(b) => Some(b@),
                None => None,
            },
            bil_ledger_id: self.bil_ledger_id,
            miner_to_burned_cycles: self.miner_to_burned_cycles@,
            miner_to_mined_block: self.miner_to_mined_block@,
            principal_to_miner: self.principal_to_miner@.map_values(|v: Vec<Principal>| v@),
            miner_to_owner: self.miner_to_owner@,
            miner_creation_transactions: self.miner_creation_transactions@,
            mempool: self.mempool@,
            pending_balance: self.pending_balance@,
            updated_miners: self.updated_miners@,
        }
    }
}

impl State {
    /// The state of a ledger that has done nothing yet: difficulty 26, every
    /// counter 0, no template, no miners, an empty mempool.
    pub fn new() -> (r: State)
        ensures
            r@ == initial_state(),
    {
        let id = bil_ledger_id();
        let r = State {
            current_difficulty: INIT_DIFFICULTY,
            transaction_count: 0,
            block_height: 0,
            exe_burned: 0,
            average_block_time: 0,
            current_block: None,
            bil_ledger_id: id,
            miner_to_burned_cycles: PrincipalMap::new(),
            miner_to_mined_block: PrincipalMap::new(),
            principal_to_miner: PrincipalMap::new(),
            miner_to_owner: PrincipalMap::new(),
            miner_creation_transactions: BTreeSet::new(),
            mempool: Vec::new(),
            pending_balance: PrincipalMap::new(),
            updated_miners: Vec::new(),
        };
        proof {
            id.lemma_with_bytes();
            assert(r@.principal_to_miner =~= Map::empty());
        }
        r
    }

    /// Binds a miner to its owner and marks the payment that created it as
    /// used.
    pub fn new_miner(&mut self, miner: Principal, caller: Principal, block_index: u64)
        ensures
            final(self)@ == old(self)@.with_miner(miner, caller, block_index),
    {
        self.miner_creation_transactions.insert(block_index);
        self.miner_to_owner.insert(miner, caller);
        let mut miners = match self.principal_to_miner.remove(&caller) {
            Some(list) => list,
            None => Vec::new(),
        };
        miners.push(miner);
        self.principal_to_miner.insert(caller, miners);
        assert(self@.principal_to_miner =~= old(self)@.with_miner(
            miner,
            caller,
            block_index,
        ).principal_to_miner);
    }

    /// The reward for the next block, where the chain holds `block_count`
    /// blocks.
    pub fn current_rewards(&self, block_count: u64) -> (r: u64)
        ensures
            r == reward_at(block_count),
    {
        let halvings = block_count / BLOCK_HALVING;
        if halvings >= 64 {
            assert(60_000_000_000u64 >> halvings == 0) by (bit_vector)
                requires
                    halvings >= 64,
            ;
            0
        } else {
            COINBASE_REWARDS >> halvings
        }
    }
}

} // verus!
