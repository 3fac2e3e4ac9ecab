//! What holds of every chain and every state that the ledger can reach.

use vstd::prelude::*;
use crate::block::{
    block_hash, genesis_view, merkle_root, sealed, search_bytes, search_hash, transaction_hash,
    BlockView, Stats, Transaction, TransactionArgs,
};
use crate::hash::{lemma_leading_zeros_bounds, meets_difficulty};
use crate::ledger::commit::{committed_balances, committed_state};
use crate::ledger::settlement::balances_after;
use crate::ledger::consensus::{
    chain_linked, chain_sealed, chain_worked, difficulty_in_bounds, validation,
};
use crate::ledger::mempool::admission;
use crate::ledger::miners::spawn_guard;
use crate::ledger::restart::restored_difficulty;
use crate::ledger::{LedgerError, TRANSACTION_LIMIT};
use crate::memory::{amount_of, StorageView};
use crate::principal::Principal;
use crate::state::{initial_state, reward_at, StateView, BLOCK_HALVING, COINBASE_REWARDS};

verus! {

/// A chain that holds only the genesis block is linked, and its block meets
/// its difficulty.
pub proof fn law_genesis_chain()
    ensures
        chain_linked(seq![genesis_view()]),
        chain_worked(seq![genesis_view()]),
        chain_sealed(seq![genesis_view()]),
{
    let g = genesis_view();
    lemma_leading_zeros_bounds(search_hash(g.header, g.nonce));
}

/// Chain linearity: a linked chain stays linked when a block that passed
/// validation is appended with its full hash.  Every block after the first
/// is then chained to the hash of the one before it and stands at its own
/// height.
pub proof fn law_chain_linearity(
    state: StateView,
    chain: Seq<BlockView>,
    caller: Principal,
    block: BlockView,
)
    requires
        chain_linked(chain),
        validation(state, chain, caller, block) is Ok,
    ensures
        chain_linked(chain.push(sealed(block))),
{
    let longer = chain.push(sealed(block));
    assert forall|h: int| 0 < h < longer.len() implies (#[trigger] longer[h]).header.prev_hash
        == longer[h - 1].hash && longer[h].header.height == h by {
        if h < chain.len() {
            assert(longer[h] == chain[h]);
            assert(longer[h - 1] == chain[h - 1]);
        } else {
            assert(longer[h] == sealed(block));
            assert(longer[h - 1] == chain.last());
        }
    }
}

/// Heights: in a linked chain that begins at height 0, the block at
/// position `h` stands at height `h`.
pub proof fn law_heights(chain: Seq<BlockView>, h: int)
    requires
        chain.len() >= 1,
        chain[0].header.height == 0,
        chain_linked(chain),
        0 <= h < chain.len(),
    ensures
        chain[h].header.height == h,
{
}

/// Proof of work: where every block of a chain meets its difficulty, so
/// does every block after one that passed validation is appended.
pub proof fn law_proof_of_work(
    state: StateView,
    chain: Seq<BlockView>,
    caller: Principal,
    block: BlockView,
)
    requires
        chain_worked(chain),
        validation(state, chain, caller, block) is Ok,
    ensures
        chain_worked(chain.push(sealed(block))),
{
    let longer = chain.push(sealed(block));
    assert forall|h: int| 0 <= h < longer.len() implies meets_difficulty(
        search_hash((#[trigger] longer[h]).header, longer[h].nonce),
        longer[h].header.difficulty,
    ) by {
        if h < chain.len() {
            assert(longer[h] == chain[h]);
        }
    }
}

/// Full hashes: where every block after the first carries its full hash,
/// so does every block after one is appended with its full hash.
pub proof fn law_full_hash(chain: Seq<BlockView>, block: BlockView)
    requires
        chain_sealed(chain),
    ensures
        chain_sealed(chain.push(sealed(block))),
        chain.push(sealed(block)).last().hash == block_hash(block.header, block.nonce),
{
    let longer = chain.push(sealed(block));
    assert forall|h: int| 0 < h < longer.len() implies (#[trigger] longer[h]).hash == block_hash(
        longer[h].header,
        longer[h].nonce,
    ) by {
        if h < chain.len() {
            assert(longer[h] == chain[h]);
        }
    }
}

/// Difficulty bounds: a new ledger starts within the bounds, a commit moves
/// the difficulty by at most one step and never out of the bounds, and a
/// restart takes up a difficulty within the bounds.
pub proof fn law_difficulty_bounds(
    state: StateView,
    caller: Principal,
    block: BlockView,
    stats: Stats,
)
    ensures
        difficulty_in_bounds(initial_state().current_difficulty),
        forall|stored: u64| difficulty_in_bounds(#[trigger] restored_difficulty(stored)),
        committed_state(state, caller, block, stats).current_difficulty
            - state.current_difficulty <= 1,
        state.current_difficulty - committed_state(
            state,
            caller,
            block,
            stats,
        ).current_difficulty <= 1,
        difficulty_in_bounds(state.current_difficulty) ==> difficulty_in_bounds(
            committed_state(state, caller, block, stats).current_difficulty,
        ),
{
}

/// Reward schedule: the block at a height is paid 60,000,000,000 halved
/// once for every 17,500 of the height; so the reward starts at
/// 60,000,000,000 and is half as much, rounded down, 17,500 blocks later.
pub proof fn law_reward_schedule(block_count: u64)
    requires
        block_count + BLOCK_HALVING <= u64::MAX,
    ensures
        block_count < BLOCK_HALVING ==> reward_at(block_count) == COINBASE_REWARDS,
        reward_at((block_count + BLOCK_HALVING) as u64) == reward_at(block_count) / 2,
{
    let k: u64 = block_count / BLOCK_HALVING;
    assert((block_count + BLOCK_HALVING) / (BLOCK_HALVING as int) == k + 1);
    assert(60_000_000_000u64 >> 0u64 == 60_000_000_000u64) by (bit_vector);
    assert(60_000_000_000u64 >> ((k + 1) as u64) == (60_000_000_000u64 >> k) / 2) by (bit_vector)
        requires
            k < 0xffff_ffff_ffff_ffffu64,
    ;
}

/// An account that neither sends nor receives among the first `n` of a
/// list of transactions holds after their settlement what it held before.
pub proof fn law_untouched_balance(
    balances: Map<Seq<u8>, u64>,
    txs: Seq<Transaction>,
    ledger: Principal,
    n: nat,
    account: Seq<u8>,
)
    requires
        n <= txs.len(),
        forall|i: int|
            0 <= i < n ==> (#[trigger] txs[i]).sender@ != account && txs[i].recipient@ != account,
    ensures
        amount_of(balances_after(balances, txs, ledger, n), account) == amount_of(balances, account),
    decreases n,
{
    if n > 0 {
        law_untouched_balance(balances, txs, ledger, (n - 1) as nat, account);
        assert(txs[n - 1].sender@ != account && txs[n - 1].recipient@ != account);
    }
}

/// Reward by height: the owner of the miner that solved a block is paid
/// the reward for the block's height; where the owner neither sends nor
/// receives in the block, its balance rises by exactly that.
pub proof fn law_reward_by_height(
    state: StateView,
    storage: StorageView,
    caller: Principal,
    ledger: Principal,
    block: BlockView,
)
    requires
        forall|i: int|
            0 <= i < block.transactions.len() ==> (#[trigger] block.transactions[i]).sender@
                != state.miner_to_owner[caller]@ && block.transactions[i].recipient@
                != state.miner_to_owner[caller]@,
        storage.balance_of(state.miner_to_owner[caller]@) + reward_at(block.header.height)
            <= u64::MAX,
    ensures
        amount_of(
            committed_balances(state, storage, caller, ledger, block),
            state.miner_to_owner[caller]@,
        ) == storage.balance_of(state.miner_to_owner[caller]@) + reward_at(block.header.height),
{
    law_untouched_balance(
        storage.balances,
        block.transactions,
        ledger,
        block.transactions.len(),
        state.miner_to_owner[caller]@,
    );
}

/// Mempool bound: after an admission to a mempool that held fewer than 150
/// transactions, the mempool holds at most 150.
pub proof fn law_mempool_bound(
    state: StateView,
    storage: StorageView,
    caller: Principal,
    ledger: Principal,
    args: TransactionArgs,
    now: u64,
)
    requires
        admission(state, storage, caller, ledger, args) is Ok,
        state.mempool.len() < TRANSACTION_LIMIT,
    ensures
        state.mempool.push(
            Transaction {
                sender: caller,
                recipient: args.recipient,
                amount: args.amount,
                timestamp: now,
            },
        ).len() <= TRANSACTION_LIMIT,
{
}

/// Pending balances: an admission leaves the caller's reservation at or
/// below its balance.
pub proof fn law_pending_covered(
    state: StateView,
    storage: StorageView,
    caller: Principal,
    ledger: Principal,
    args: TransactionArgs,
)
    requires
        admission(state, storage, caller, ledger, args) is Ok,
    ensures
        0 <= state.pending_of(caller) + args.amount <= storage.balance_of(caller@),
{
}

/// Spawn idempotence: once a miner was created for a payment, every later
/// request with the same payment is refused as already processed.
pub proof fn law_spawn_once(
    state: StateView,
    miner: Principal,
    owner: Principal,
    index: u64,
    caller: Principal,
)
    requires
        !caller.is_anonymous_spec(),
    ensures
        spawn_guard(state.with_miner(miner, owner, index), caller, index) == Err::<
            (),
            LedgerError,
        >(LedgerError::AlreadyProcessed),
{
}

/// Hash determinism: the search hash depends on nothing but the version,
/// the previous hash, the Merkle root, the timestamp and the nonce; the
/// full hash depends on nothing but the header and the nonce.
pub proof fn law_hash_determinism(a: BlockView, b: BlockView)
    requires
        a.header.version == b.header.version,
        a.header.prev_hash == b.header.prev_hash,
        a.header.merkle_root == b.header.merkle_root,
        a.header.timestamp == b.header.timestamp,
        a.nonce == b.nonce,
    ensures
        search_hash(a.header, a.nonce) == search_hash(b.header, b.nonce),
        a.header == b.header ==> block_hash(a.header, a.nonce) == block_hash(b.header, b.nonce),
{
    assert(search_bytes(a.header, a.nonce) == search_bytes(b.header, b.nonce));
}

/// Merkle roots of short lists: the root of no transactions is 0, and the
/// root of one transaction is that transaction's hash.
pub proof fn law_merkle_short(tx: Transaction)
    ensures
        merkle_root(Seq::<Transaction>::empty()) == 0,
        merkle_root(seq![tx]) == transaction_hash(tx),
{
    let none = Seq::<Transaction>::empty().map_values(|t: Transaction| transaction_hash(t));
    assert(none.len() == 0);
    let one = seq![tx].map_values(|t: Transaction| transaction_hash(t));
    assert(one.len() == 1);
    assert(one[0] == transaction_hash(tx));
}

} // verus!
