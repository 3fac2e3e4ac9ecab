//! How the transactions of a committed block are settled: they leave the
//! mempool, their reservations are released, and their amounts move between
//! the balances.

use vstd::prelude::*;
use crate::block::Transaction;
use crate::collections::PrincipalMap;
use crate::memory::{add_balance, amount_of, get_balance, minus_or_zero, sub_balance, Storage, StorageView};
use crate::principal::Principal;
use crate::state::{State, StateView};

verus! {

/// The position of the first transaction equal to `tx` in a list; the
/// list's length where there is none.
pub open spec fn first_index(pool: Seq<Transaction>, tx: Transaction) -> int
    decreases pool.len(),
{
    if pool.len() == 0 {
        0
    } else if pool[0] == tx {
        0
    } else {
        1 + first_index(pool.drop_first(), tx)
    }
}

/// A list without the first transaction equal to `tx`.
pub open spec fn without_first(pool: Seq<Transaction>, tx: Transaction) -> Seq<Transaction> {
    if first_index(pool, tx) < pool.len() {
        pool.remove(first_index(pool, tx))
    } else {
        pool
    }
}

/// The mempool after the first `n` of `txs` were taken out of it, each at
/// its first occurrence.
pub open spec fn mempool_after(pool: Seq<Transaction>, txs: Seq<Transaction>, n: nat) -> Seq<
    Transaction,
>
    decreases n,
{
    if n == 0 {
        pool
    } else {
        without_first(mempool_after(pool, txs, (n - 1) as nat), txs[n - 1])
    }
}

/// Taking transactions out of the mempool does not make it longer.
pub proof fn lemma_mempool_shrinks(pool: Seq<Transaction>, txs: Seq<Transaction>, n: nat)
    ensures
        mempool_after(pool, txs, n).len() <= pool.len(),
    decreases n,
{
    if n > 0 {
        lemma_mempool_shrinks(pool, txs, (n - 1) as nat);
        let before = mempool_after(pool, txs, (n - 1) as nat);
        lemma_first_index_bounds(before, txs[n - 1]);
    }
}

/// The first position of a transaction lies between 0 and the list's length.
pub proof fn lemma_first_index_bounds(pool: Seq<Transaction>, tx: Transaction)
    ensures
        0 <= first_index(pool, tx) <= pool.len(),
    decreases pool.len(),
{
    if pool.len() > 0 && pool[0] != tx {
        lemma_first_index_bounds(pool.drop_first(), tx);
    }
}

/// The amount under `key`; 0 where there is none.
pub open spec fn held(map: Map<Principal, u64>, key: Principal) -> u64 {
    if map.contains_key(key) {
        map[key]
    } else {
        0
    }
}

/// The reservations after that of `tx` was released: its sender's entry,
/// where it has one, is lowered by the amount.
pub open spec fn release(pending: Map<Principal, u64>, tx: Transaction) -> Map<Principal, u64> {
    if pending.contains_key(tx.sender) {
        pending.insert(tx.sender, (pending[tx.sender] - tx.amount) as u64)
    } else {
        pending
    }
}

/// The reservations after those of the first `n` of `txs` were released.
pub open spec fn pending_after(pending: Map<Principal, u64>, txs: Seq<Transaction>, n: nat) -> Map<
    Principal,
    u64,
>
    decreases n,
{
    if n == 0 {
        pending
    } else {
        release(pending_after(pending, txs, (n - 1) as nat), txs[n - 1])
    }
}

/// Whether every one of the first `n` releases leaves its entry at 0 or
/// above.
pub open spec fn releases_fit(pending: Map<Principal, u64>, txs: Seq<Transaction>, n: nat) -> bool {
    forall|i: int|
        0 <= i < n ==> held(pending_after(pending, txs, i as nat), (#[trigger] txs[i]).sender)
            >= txs[i].amount || !pending_after(pending, txs, i as nat).contains_key(txs[i].sender)
}

/// The balances after one transaction was settled.  A transaction to the
/// ledger itself asks for tokens to be minted and moves nothing here; any
/// other credits the recipient and then debits the sender, whose balance
/// does not go below 0.
pub open spec fn settle(balances: Map<Seq<u8>, u64>, tx: Transaction, ledger: Principal) -> Map<
    Seq<u8>,
    u64,
> {
    if tx.recipient == ledger {
        balances
    } else {
        let credited = balances.insert(
            tx.recipient@,
            (amount_of(balances, tx.recipient@) + tx.amount) as u64,
        );
        credited.insert(tx.sender@, minus_or_zero(amount_of(credited, tx.sender@), tx.amount))
    }
}

/// The balances after the first `n` of `txs` were settled.
pub open spec fn balances_after(
    balances: Map<Seq<u8>, u64>,
    txs: Seq<Transaction>,
    ledger: Principal,
    n: nat,
) -> Map<Seq<u8>, u64>
    decreases n,
{
    if n == 0 {
        balances
    } else {
        settle(balances_after(balances, txs, ledger, (n - 1) as nat), txs[n - 1], ledger)
    }
}

/// Whether every credit among the first `n` settlements fits in 64 bits.
pub open spec fn credits_fit(
    balances: Map<Seq<u8>, u64>,
    txs: Seq<Transaction>,
    ledger: Principal,
    n: nat,
) -> bool {
    forall|i: int|
        0 <= i < n ==> (#[trigger] txs[i]).recipient == ledger || amount_of(
            balances_after(balances, txs, ledger, i as nat),
            txs[i].recipient@,
        ) + txs[i].amount <= u64::MAX
}

/// Those of the first `n` of `txs` that ask for tokens to be minted, in
/// order: the ones sent to the ledger itself.
pub open spec fn mint_requests(txs: Seq<Transaction>, ledger: Principal, n: nat) -> Seq<
    Transaction,
>
    decreases n,
{
    if n == 0 {
        Seq::empty()
    } else if txs[n - 1].recipient == ledger {
        mint_requests(txs, ledger, (n - 1) as nat).push(txs[n - 1])
    } else {
        mint_requests(txs, ledger, (n - 1) as nat)
    }
}

/// Takes the first transaction equal to `tx` out of the pool.
pub(crate) fn remove_first(pool: &mut Vec<Transaction>, tx: &Transaction)
    ensures
        final(pool)@ == without_first(old(pool)@, *tx),
{
    let mut i: usize = 0;
    assert(pool@.skip(0) =~= pool@);
    while i < pool.len()
        invariant
            i <= pool.len(),
            pool@ == old(pool)@,
            first_index(pool@, *tx) == i + first_index(pool@.skip(i as int), *tx),
        decreases pool.len() - i,
    {
        assert(pool@.skip(i as int)[0] == pool@[i as int]);
        if pool[i] == *tx {
            pool.remove(i);
            return ;
        }
        assert(pool@.skip(i as int).drop_first() =~= pool@.skip(i + 1));
        i += 1;
    }
    assert(pool@.skip(i as int).len() == 0);
}

/// Adds `by` to the amount under `key`, starting from 0 where there is none.
pub(crate) fn bump(map: &mut PrincipalMap<u64>, key: Principal, by: u64)
    requires
        held(old(map)@, key) + by <= u64::MAX,
    ensures
        final(map)@ == old(map)@.insert(key, (held(old(map)@, key) + by) as u64),
{
    let current = match map.get(&key) {
        Some(v) => *v,
        None => 0,
    };
    map.insert(key, current + by);
}

/// Releases the reservation of one transaction.
pub(crate) fn release_one(pending: &mut PrincipalMap<u64>, tx: &Transaction)
    requires
        held(old(pending)@, tx.sender) >= tx.amount || !old(pending)@.contains_key(tx.sender),
    ensures
        final(pending)@ == release(old(pending)@, *tx),
{
    let current = match pending.get(&tx.sender) {
        Some(v) => Some(*v),
        None => None,
    };
    match current {
        Some(v) => {
            pending.insert(tx.sender, v - tx.amount);
        },
        None => {},
    }
}

/// Takes the transactions of a committed block out of the mempool and
/// releases their reservations.
pub(crate) fn settle_mempool(state: &mut State, txs: &Vec<Transaction>)
    requires
        releases_fit(old(state)@.pending_balance, txs@, txs@.len()),
    ensures
        final(state)@ == (StateView {
            mempool: mempool_after(old(state)@.mempool, txs@, txs@.len()),
            pending_balance: pending_after(old(state)@.pending_balance, txs@, txs@.len()),
            ..old(state)@
        }),
{
    let mut i: usize = 0;
    while i < txs.len()
        invariant
            i <= txs.len(),
            releases_fit(old(state)@.pending_balance, txs@, txs@.len()),
            state@ == (StateView {
                mempool: mempool_after(old(state)@.mempool, txs@, i as nat),
                pending_balance: pending_after(old(state)@.pending_balance, txs@, i as nat),
                ..old(state)@
            }),
        decreases txs.len() - i,
    {
        let tx = txs[i];
        assert(tx == txs@[i as int]);
        remove_first(&mut state.mempool, &tx);
        release_one(&mut state.pending_balance, &tx);
        i += 1;
    }
}

/// Settles the transactions of a committed block on the balances and
/// returns those that ask for tokens to be minted.
pub(crate) fn settle_balances(storage: &mut Storage, txs: &Vec<Transaction>, ledger: Principal) -> (r: Vec<
    Transaction,
>)
    requires
        credits_fit(old(storage)@.balances, txs@, ledger, txs@.len()),
    ensures
        final(storage)@ == (StorageView {
            balances: balances_after(old(storage)@.balances, txs@, ledger, txs@.len()),
            ..old(storage)@
        }),
        r@ == mint_requests(txs@, ledger, txs@.len()),
{
    let mut mints: Vec<Transaction> = Vec::new();
    let mut i: usize = 0;
    while i < txs.len()
        invariant
            i <= txs.len(),
            credits_fit(old(storage)@.balances, txs@, ledger, txs@.len()),
            storage@ == (StorageView {
                balances: balances_after(old(storage)@.balances, txs@, ledger, i as nat),
                ..old(storage)@
            }),
            mints@ == mint_requests(txs@, ledger, i as nat),
        decreases txs.len() - i,
    {
        let tx = txs[i];
        assert(tx == txs@[i as int]);
        if tx.recipient == ledger {
            mints.push(tx);
        } else {
            add_balance(storage, tx.recipient, tx.amount);
            sub_balance(storage, tx.sender, tx.amount);
        }
        i += 1;
    }
    mints
}

/// Whether every release of a list of transactions leaves its entry at 0 or
/// above.
pub(crate) fn releases_fit_check(pending: &PrincipalMap<u64>, txs: &Vec<Transaction>) -> (r: bool)
    ensures
        r == releases_fit(pending@, txs@, txs@.len()),
{
    let mut copy: PrincipalMap<u64> = PrincipalMap::new();
    let entries = pending.entries();
    proof {
        pending.lemma_entries();
    }
    let mut k: usize = 0;
    while k < entries.len()
        invariant
            k <= entries.len(),
            pending.wf(),
            entries@ == pending.entries_view(),
            forall|i: int|
                0 <= i < entries@.len() ==> pending@.contains_key(#[trigger] entries@[i].0)
                    && pending@[entries@[i].0] == entries@[i].1,
            forall|key: Principal|
                pending@.contains_key(key) ==> exists|i: int|
                    0 <= i < entries@.len() && #[trigger] entries@[i].0 == key,
            forall|key: Principal| #[trigger]
                copy@.contains_key(key) <==> exists|i: int|
                    0 <= i < k && #[trigger] entries@[i].0 == key,
            forall|key: Principal| #[trigger] copy@.contains_key(key) ==> copy@[key] == pending@[key],
        decreases entries.len() - k,
    {
        let entry = entries[k];
        copy.insert(entry.0, entry.1);
        assert forall|key: Principal| #[trigger]
            copy@.contains_key(key) <==> exists|i: int|
                0 <= i < k + 1 && #[trigger] entries@[i].0 == key by {
            if key == entry.0 {
                assert(entries@[k as int].0 == key);
            }
        }
        k += 1;
    }
    assert(copy@ =~= pending@);
    let mut i: usize = 0;
    while i < txs.len()
        invariant
            i <= txs.len(),
            copy@ == pending_after(pending@, txs@, i as nat),
            releases_fit(pending@, txs@, i as nat),
        decreases txs.len() - i,
    {
        let tx = txs[i];
        assert(tx == txs@[i as int]);
        let fits = match copy.get(&tx.sender) {
            Some(v) => *v >= tx.amount,
            None => true,
        };
        if !fits {
            assert(!(held(pending_after(pending@, txs@, i as nat), txs@[i as int].sender)
                >= txs@[i as int].amount || !pending_after(
                pending@,
                txs@,
                i as nat,
            ).contains_key(txs@[i as int].sender)));
            return false;
        }
        release_one(&mut copy, &tx);
        i += 1;
    }
    true
}

/// The balance of `account` after some settlements: what the overlay holds
/// for it, or else what is stored.
pub open spec fn overlaid(
    overlay: Map<Principal, u64>,
    base: Map<Seq<u8>, u64>,
    account: Principal,
) -> u64 {
    if overlay.contains_key(account) {
        overlay[account]
    } else {
        amount_of(base, account@)
    }
}

/// Reads a balance through the overlay.
pub(crate) fn overlaid_balance(overlay: &PrincipalMap<u64>, storage: &Storage, account: Principal) -> (r: u64)
    ensures
        r == overlaid(overlay@, storage@.balances, account),
{
    match overlay.get(&account) {
        Some(v) => *v,
        None => get_balance(storage, account),
    }
}

/// Whether every credit of a list of settlements, and the reward paid to
/// `owner` after them, fits in 64 bits.
pub(crate) fn credits_fit_check(
    storage: &Storage,
    txs: &Vec<Transaction>,
    ledger: Principal,
    owner: Principal,
    reward: u64,
) -> (r: bool)
    ensures
        r == (credits_fit(storage@.balances, txs@, ledger, txs@.len()) && amount_of(
            balances_after(storage@.balances, txs@, ledger, txs@.len()),
            owner@,
        ) + reward <= u64::MAX),
{
    let mut overlay: PrincipalMap<u64> = PrincipalMap::new();
    let ghost base = storage@.balances;
    let mut i: usize = 0;
    while i < txs.len()
        invariant
            i <= txs.len(),
            base == storage@.balances,
            credits_fit(base, txs@, ledger, i as nat),
            forall|p: Principal|
                p.wf() ==> #[trigger] overlaid(overlay@, base, p) == amount_of(
                    balances_after(base, txs@, ledger, i as nat),
                    p@,
                ),
        decreases txs.len() - i,
    {
        let tx = txs[i];
        assert(tx == txs@[i as int]);
        let ghost before = overlay@;
        let ghost settled = balances_after(base, txs@, ledger, i as nat);
        if !(tx.recipient == ledger) {
            let recipient = overlaid_balance(&overlay, storage, tx.recipient);
            proof {
                use_type_invariant(&tx.recipient);
                use_type_invariant(&tx.sender);
                assert(recipient == overlaid(before, base, tx.recipient));
            }
            if tx.amount > u64::MAX - recipient {
                assert(!(txs@[i as int].recipient == ledger || amount_of(
                    balances_after(base, txs@, ledger, i as nat),
                    txs@[i as int].recipient@,
                ) + txs@[i as int].amount <= u64::MAX));
                return false;
            }
            overlay.insert(tx.recipient, recipient + tx.amount);
            let sender = overlaid_balance(&overlay, storage, tx.sender);
            let rest = if sender >= tx.amount {
                sender - tx.amount
            } else {
                0
            };
            let ghost credited = overlay@;
            overlay.insert(tx.sender, rest);
            proof {
                let after = settle(settled, tx, ledger);
                let mid = settled.insert(
                    tx.recipient@,
                    (amount_of(settled, tx.recipient@) + tx.amount) as u64,
                );
                assert forall|p: Principal| p.wf() implies #[trigger] overlaid(credited, base, p)
                    == amount_of(mid, p@) by {
                    assert(overlaid(before, base, p) == amount_of(settled, p@));
                    if p != tx.recipient {
                        if p@ == tx.recipient@ {
                            p.lemma_view_injective(tx.recipient);
                        }
                    }
                }
                assert(sender == overlaid(credited, base, tx.sender));
                assert forall|p: Principal| p.wf() implies #[trigger] overlaid(overlay@, base, p)
                    == amount_of(after, p@) by {
                    assert(overlaid(credited, base, p) == amount_of(mid, p@));
                    if p != tx.sender {
                        if p@ == tx.sender@ {
                            p.lemma_view_injective(tx.sender);
                        }
                    }
                }
            }
        }
        i += 1;
    }
    let last = overlaid_balance(&overlay, storage, owner);
    proof {
        use_type_invariant(&owner);
        assert(last == overlaid(overlay@, base, owner));
    }
    reward <= u64::MAX - last
}

} // verus!
