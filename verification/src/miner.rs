//! The mining worker: the nonce search and the worker's own bookkeeping.
//!
//! A worker searches one chunk of nonces at a time and hands control back to
//! its host between chunks.  The host supplies the time and the worker's
//! balance of cycles, submits what the search finds, and re-enters.

use vstd::prelude::*;
use crate::block::{search_hash, search_hash_of, Block, BlockHeader, BlockView, Stats};
use crate::hash::{has_leading_zeros, meets_difficulty};
use crate::principal::Principal;

verus! {

/// The textual form of the identifier of the ledger that workers report to.
pub const LEDGER_ID: &'static str = "hx36f-waaaa-aaaai-aq32q-cai";

/// The number of nonces searched in one go.
pub const CHUNK_SIZE: u64 = 1_000_000;

/// The seconds between two looks at the ledger's template.
pub const REFRESH_SECS: u64 = 60;

/// The counters are refreshed after every this many empty chunks.
pub const STATS_EVERY: u64 = 5;

/// The bytes of the identifier of the ledger that workers report to.
pub open spec fn ledger_bytes() -> Seq<u8> {
    seq![0u8, 0, 0, 0, 1, 0, 134, 245, 1, 1]
}

/// The identifier of the ledger that workers report to.
pub fn ledger_id() -> (r: Principal)
    ensures
        r.wf(),
        r@ == ledger_bytes(),
{
    let r = Principal::from_array([0u8, 0, 0, 0, 1, 0, 134, 245, 1, 1]);
    assert(r@ =~= ledger_bytes());
    r
}

/// A 128-bit value turned left by `k` bits, for `k` between 1 and 127.
pub open spec fn rotl(x: u128, k: u32) -> u128 {
    (x << k) | (x >> ((128 - k) as u32))
}

/// A 128-bit value turned right by `k` bits, for `k` between 1 and 127.
pub open spec fn rotr(x: u128, k: u32) -> u128 {
    (x >> k) | (x << ((128 - k) as u32))
}

/// One stream of the generator: a value mixed with itself shifted left,
/// then right, then left again.
pub open spec fn xorshift_stream(seed: u128, left: u32, right: u32, again: u32) -> u128 {
    let a = seed ^ (seed << left);
    let b = a ^ (a >> right);
    b ^ (b << again)
}

/// The sum of two 128-bit values, without the carry out of the top bit.
pub open spec fn wrapping_sum(a: u128, b: u128) -> u128 {
    if a + b > u128::MAX {
        (a + b - 0x1_0000_0000_0000_0000_0000_0000_0000_0000) as u128
    } else {
        (a + b) as u128
    }
}

/// The nonce that three seeds give: each seed runs through its own stream,
/// the three results are turned by 32 bits left, 29 right and 37 left, and
/// added without carry.
pub open spec fn xorshift(seed1: u128, seed2: u128, seed3: u128) -> u128 {
    wrapping_sum(
        wrapping_sum(
            rotl(xorshift_stream(seed1, 13, 17, 5), 32),
            rotr(xorshift_stream(seed2, 7, 11, 3), 29),
        ),
        rotl(xorshift_stream(seed3, 9, 13, 7), 37),
    )
}

/// The nonce that the worker with number `miner_id` tries at step `i` of a
/// chunk that started at time `seed`.
pub open spec fn candidate(seed: u64, i: u64, miner_id: u32) -> u128 {
    xorshift(seed as u128, i as u128, miner_id as u128)
}

/// Whether a nonce solves a header: the search hash has at least as many
/// leading zeros as the header's difficulty.
pub open spec fn solves(header: BlockHeader, nonce: u128) -> bool {
    meets_difficulty(search_hash(header, nonce), header.difficulty)
}

/// Whether a caller may start a search: the worker itself or the ledger.
pub open spec fn may_search(caller: Principal, worker: Principal, ledger: Principal) -> bool {
    caller == worker || caller == ledger
}

/// Computes a pseudo-random nonce from three seeds.
pub fn xorshift_random(seed1: u128, seed2: u128, seed3: u128) -> (r: u128)
    ensures
        r == xorshift(seed1, seed2, seed3),
{
    let mut seed1 = seed1;
    let mut seed2 = seed2;
    let mut seed3 = seed3;
    seed1 ^= seed1 << 13;
    seed1 ^= seed1 >> 17;
    seed1 ^= seed1 << 5;

    seed2 ^= seed2 << 7;
    seed2 ^= seed2 >> 11;
    seed2 ^= seed2 << 3;

    seed3 ^= seed3 << 9;
    seed3 ^= seed3 >> 13;
    seed3 ^= seed3 << 7;

    let mix1 = (seed1 << 32) | (seed1 >> 96);
    let mix2 = (seed2 >> 29) | (seed2 << 99);
    let mix3 = (seed3 << 37) | (seed3 >> 91);

    mix1.wrapping_add(mix2).wrapping_add(mix3)
}

/// Computes the hash that a block is held against the difficulty by.
pub fn calculate_hash(block: &Block) -> (r: u128)
    ensures
        r == search_hash(block.header, block.nonce),
{
    block.search_hash()
}

/// Checks whether a caller may start a search.
pub fn is_authorized(caller: Principal, worker: Principal, ledger: Principal) -> (r: bool)
    ensures
        r == may_search(caller, worker, ledger),
{
    caller == worker || caller == ledger
}

/// Whether `step` is the first step of a chunk, from `from` on, whose nonce
/// solves the header.
pub open spec fn first_solving(
    header: BlockHeader,
    seed: u64,
    miner_id: u32,
    from: u64,
    step: u64,
) -> bool {
    &&& from <= step < CHUNK_SIZE
    &&& solves(header, candidate(seed, step, miner_id))
    &&& forall|j: u64| from <= j < step ==> !solves(header, #[trigger] candidate(seed, j, miner_id))
}

/// Whether no step of a chunk, from `from` on, solves the header.
pub open spec fn none_solving(header: BlockHeader, seed: u64, miner_id: u32, from: u64) -> bool {
    forall|j: u64| from <= j < CHUNK_SIZE ==> !solves(header, #[trigger] candidate(seed, j, miner_id))
}

/// Searches the rest of a chunk, from step `from` on, for the first nonce
/// that solves the header, and returns its step.
pub fn search_chunk(header: &BlockHeader, seed: u64, miner_id: u32, from: u64) -> (r: Option<u64>)
    ensures
        r matches Some(i) ==> first_solving(*header, seed, miner_id, from, i),
        r is None ==> none_solving(*header, seed, miner_id, from),
{
    let mut i: u64 = from;
    while i < CHUNK_SIZE
        invariant
            from <= i,
            forall|j: u64| from <= j < i ==> !solves(*header, #[trigger] candidate(seed, j, miner_id)),
        decreases CHUNK_SIZE - i,
    {
        let nonce = xorshift_random(seed as u128, i as u128, miner_id as u128);
        let hash = search_hash_of(header, nonce);
        if has_leading_zeros(hash, header.difficulty) {
            return Some(i);
        }
        i += 1;
    }
    None
}

/// The state of one worker.
pub struct MinerState {
    pub ledger_id: Principal,
    pub owner: Principal,
    pub cycles_burned: u64,
    pub blocks_mined: u64,
    pub last_mining_timestamp: u64,
    pub is_mining: bool,
    pub time_spent_mining: u64,
    pub mining_start_time: u64,
    pub mining_start_cycles: u64,
    pub mining_temp_time: u64,
    pub mining_temp_cycles: u64,
    pub current_block: Option<Block>,
    pub miner_id: u32,
    pub mining_cycle: u64,
}

/// The state of a worker as a mathematical value.
pub struct MinerStateView {
    pub ledger_id: Principal,
    pub owner: Principal,
    pub cycles_burned: u64,
    pub blocks_mined: u64,
    pub last_mining_timestamp: u64,
    pub is_mining: bool,
    pub time_spent_mining: u64,
    pub mining_start_time: u64,
    pub mining_start_cycles: u64,
    pub mining_temp_time: u64,
    pub mining_temp_cycles: u64,
    pub current_block: Option<BlockView>,
    pub miner_id: u32,
    pub mining_cycle: u64,
}

impl View for MinerState {
    type V = MinerStateView;

    open spec fn view(&self) -> MinerStateView {
        MinerStateView {
            ledger_id: self.ledger_id,
            owner: self.owner,
            cycles_burned: self.cycles_burned,
            blocks_mined: self.blocks_mined,
            last_mining_timestamp: self.last_mining_timestamp,
            is_mining: self.is_mining,
            time_spent_mining: self.time_spent_mining,
            mining_start_time: self.mining_start_time,
            mining_start_cycles: self.mining_start_cycles,
            mining_temp_time: self.mining_temp_time,
            mining_temp_cycles: self.mining_temp_cycles,
            current_block: match self.current_block {
                Some(b) => Some(b@),
                None => None,
            },
            miner_id: self.miner_id,
            mining_cycle: self.mining_cycle,
        }
    }
}

impl MinerStateView {
    /// The state after the counters were refreshed at time `now`, with
    /// `balance` cycles left: the time and the cycles spent since the last
    /// refresh are added to the totals, and the marks move to now.
    pub open spec fn refreshed(self, is_mining: bool, now: u64, balance: u64) -> MinerStateView {
        MinerStateView {
            time_spent_mining: (self.time_spent_mining + (now - self.mining_temp_time)) as u64,
            cycles_burned: (self.cycles_burned + (self.mining_temp_cycles - balance)) as u64,
            is_mining,
            last_mining_timestamp: now,
            mining_temp_time: now,
            mining_temp_cycles: balance,
            ..self
        }
    }

    /// Whether a refresh at time `now` with `balance` cycles left keeps every
    /// counter within 64 bits: time and balance have not run backwards and
    /// the totals have room.
    pub open spec fn refresh_fits(self, now: u64, balance: u64) -> bool {
        &&& now >= self.mining_temp_time
        &&& self.mining_temp_cycles >= balance
        &&& self.time_spent_mining + (now - self.mining_temp_time) <= u64::MAX
        &&& self.cycles_burned + (self.mining_temp_cycles - balance) <= u64::MAX
    }

    /// The state after a new template arrived at time `now`, with `balance`
    /// cycles left.
    pub open spec fn with_template(self, block: BlockView, now: u64, balance: u64) -> MinerStateView {
        MinerStateView {
            current_block: Some(block),
            is_mining: true,
            last_mining_timestamp: now,
            mining_start_cycles: balance,
            mining_start_time: now,
            mining_temp_time: now,
            mining_temp_cycles: balance,
            miner_id: (now % 300) as u32,
            mining_cycle: 0,
            ..self
        }
    }

    /// Whether a template that the ledger offers is to replace the one
    /// held: there is an offer, and it differs from what is held.
    pub open spec fn wants(self, offer: Option<BlockView>) -> bool {
        match offer {
            None => false,
            Some(b) => self.current_block != Some(b),
        }
    }
}

/// The state of a worker that has done nothing yet.
pub open spec fn initial_miner(owner: Principal) -> MinerStateView {
    MinerStateView {
        ledger_id: Principal::with_bytes(ledger_bytes()),
        owner,
        cycles_burned: 0,
        blocks_mined: 0,
        last_mining_timestamp: 0,
        is_mining: false,
        time_spent_mining: 0,
        mining_start_time: 0,
        mining_start_cycles: 0,
        mining_temp_time: 0,
        mining_temp_cycles: 0,
        current_block: None,
        miner_id: 0,
        mining_cycle: 0,
    }
}

/// The low 64 bits of a 128-bit amount.
pub open spec fn low_64(amount: u128) -> u64 {
    (amount % 0x1_0000_0000_0000_0000) as u64
}

impl MinerState {
    /// The state of a worker that has done nothing yet.
    pub fn from_init(owner: Principal) -> (r: MinerState)
        ensures
            r@ == initial_miner(owner),
    {
        let id = ledger_id();
        proof {
            id.lemma_with_bytes();
        }
        MinerState {
            ledger_id: id,
            blocks_mined: 0,
            owner,
            cycles_burned: 0,
            is_mining: false,
            last_mining_timestamp: 0,
            time_spent_mining: 0,
            mining_start_time: 0,
            mining_start_cycles: 0,
            mining_temp_time: 0,
            mining_temp_cycles: 0,
            current_block: None,
            miner_id: 0,
            mining_cycle: 0,
        }
    }

    /// Refreshes the counters at time `now`, with `balance` cycles left.
    pub fn update_mining_stats(&mut self, is_mining: bool, now: u64, balance: u64)
        requires
            old(self)@.refresh_fits(now, balance),
        ensures
            final(self)@ == old(self)@.refreshed(is_mining, now, balance),
    {
        self.time_spent_mining = self.time_spent_mining + (now - self.mining_temp_time);
        self.cycles_burned = self.cycles_burned + (self.mining_temp_cycles - balance);
        self.is_mining = is_mining;
        self.last_mining_timestamp = now;
        self.mining_temp_time = now;
        self.mining_temp_cycles = balance;
    }

    /// Whether a refresh at time `now` with `balance` cycles left keeps
    /// every counter within 64 bits.
    pub fn can_update_mining_stats(&self, now: u64, balance: u64) -> (r: bool)
        ensures
            r == self@.refresh_fits(now, balance),
    {
        now >= self.mining_temp_time && self.mining_temp_cycles >= balance && (now
            - self.mining_temp_time) <= u64::MAX - self.time_spent_mining && (
        self.mining_temp_cycles - balance) <= u64::MAX - self.cycles_burned
    }

    /// What the worker reports with a solved block: the cycles and the time
    /// spent since the template arrived.
    pub fn solution_stats(&self, worker: Principal, now: u64, balance: u64) -> (r: Stats)
        requires
            self.mining_start_cycles >= balance,
            now >= self.mining_start_time,
        ensures
            r == (Stats {
                cycles_burned: (self.mining_start_cycles - balance) as u64,
                timestamp: now,
                solve_time: (now - self.mining_start_time) as u64,
                miner: worker,
            }),
    {
        Stats {
            cycles_burned: self.mining_start_cycles - balance,
            timestamp: now,
            solve_time: now - self.mining_start_time,
            miner: worker,
        }
    }

    /// The template with the nonce found at step `step` of a chunk that
    /// started at time `seed`; `None` where no template is held.
    pub fn solved_block(&self, seed: u64, step: u64) -> (r: Option<Block>)
        ensures
            r is Some <==> self.current_block is Some,
            r is Some ==> r->0@ == (BlockView {
                nonce: candidate(seed, step, self.miner_id),
                ..self.current_block->0@
            }),
    {
        match &self.current_block {
            Some(block) => {
                let mut solved = block.clone();
                solved.nonce = xorshift_random(seed as u128, step as u128, self.miner_id as u128);
                Some(solved)
            },
            None => None,
        }
    }

    /// Books a solution that the ledger accepted: the counters are
    /// refreshed, mining stops, and one more block is counted.
    pub fn solution_accepted(&mut self, now: u64, balance: u64)
        requires
            old(self)@.refresh_fits(now, balance),
            old(self).blocks_mined < u64::MAX,
        ensures
            final(self)@ == (MinerStateView {
                blocks_mined: (old(self).blocks_mined + 1) as u64,
                ..old(self)@.refreshed(false, now, balance)
            }),
    {
        self.update_mining_stats(false, now, balance);
        self.blocks_mined = self.blocks_mined + 1;
    }

    /// Counts a chunk that ended without a solution, and says whether the
    /// counters are due for a refresh: after every fifth such chunk.
    pub fn chunk_finished(&mut self) -> (r: bool)
        requires
            old(self).mining_cycle < u64::MAX,
        ensures
            final(self)@ == (MinerStateView {
                mining_cycle: (old(self).mining_cycle + 1) as u64,
                ..old(self)@
            }),
            r == ((old(self).mining_cycle + 1) % 5 == 0),
    {
        self.mining_cycle = self.mining_cycle + 1;
        self.mining_cycle % STATS_EVERY == 0
    }

    /// Takes a new template: the marks are reset to now, a new worker
    /// number is drawn from the time, and the count of chunks starts over.
    /// Says whether a search has to be started: when none was running.
    pub fn new_block_found(&mut self, block: Block, now: u64, balance: u64) -> (r: bool)
        ensures
            r == !old(self).is_mining,
            final(self)@ == old(self)@.with_template(block@, now, balance),
    {
        let should_start_mining = !self.is_mining;
        self.current_block = Some(block);
        self.is_mining = true;
        self.last_mining_timestamp = now;
        self.mining_start_cycles = balance;
        self.mining_start_time = now;
        self.mining_temp_time = now;
        self.mining_temp_cycles = balance;
        self.miner_id = (now % 300) as u32;
        self.mining_cycle = 0;
        should_start_mining
    }

    /// Takes a template that is pushed to the worker together with the
    /// worker number to search under.  Only the ledger may push: from any
    /// other caller nothing changes and `None` is returned.  From the ledger
    /// the template is taken as a new one, with the given number in place
    /// of one drawn from the time, and the answer says whether a search
    /// has to be started.
    pub fn push_block(
        &mut self,
        caller: Principal,
        block: Block,
        miner_id: u32,
        now: u64,
        balance: u64,
    ) -> (r: Option<bool>)
        ensures
            caller != old(self).ledger_id ==> r is None && final(self)@ == old(self)@,
            caller == old(self).ledger_id ==> r == Some(!old(self).is_mining) && final(self)@
                == (MinerStateView {
                miner_id,
                ..old(self)@.with_template(block@, now, balance)
            }),
    {
        if !(caller == self.ledger_id) {
            return None;
        }
        let start = self.new_block_found(block, now, balance);
        self.miner_id = miner_id;
        Some(start)
    }

    /// Whether a template that the ledger offers is to replace the one
    /// held.
    pub fn update_block(&self, offer: &Option<Block>) -> (r: bool)
        ensures
            r == self@.wants(
                match *offer {
                    Some(b) => Some(b@),
                    None => None,
                },
            ),
    {
        match offer {
            None => false,
            Some(block) => match &self.current_block {
                Some(held) => !(*held == *block),
                None => true,
            },
        }
    }

    /// Notes that a search could not be started.
    pub fn mining_stopped(&mut self)
        ensures
            final(self)@ == (MinerStateView { is_mining: false, ..old(self)@ }),
    {
        self.is_mining = false;
    }

    /// Takes cycles that were sent to the worker: both marks of the balance
    /// are raised by the low 64 bits of the amount, so that the cycles do
    /// not count as burned.
    pub fn receive(&mut self, accepted: u128)
        requires
            old(self).mining_start_cycles + low_64(accepted) <= u64::MAX,
            old(self).mining_temp_cycles + low_64(accepted) <= u64::MAX,
        ensures
            final(self)@ == (MinerStateView {
                mining_start_cycles: (old(self).mining_start_cycles + low_64(accepted)) as u64,
                mining_temp_cycles: (old(self).mining_temp_cycles + low_64(accepted)) as u64,
                ..old(self)@
            }),
    {
        let amount = (accepted & 0xffff_ffff_ffff_ffff) as u64;
        assert(accepted & 0xffff_ffff_ffff_ffff == accepted % 0x1_0000_0000_0000_0000)
            by (bit_vector);
        self.mining_start_cycles = self.mining_start_cycles + amount;
        self.mining_temp_cycles = self.mining_temp_cycles + amount;
    }
}

/// What has happened in a worker's search.
#[derive(Clone, Copy, Debug)]
pub enum SearchEvent {
    /// `caller` asks the worker `worker` to search a chunk.
    Started { caller: Principal, worker: Principal },
    /// The ledger refused the solution found at `step`.
    Refused { step: u64 },
    /// The ledger accepted the solution.
    Accepted,
    /// The worker could not re-enter itself.
    RequeueFailed,
}

/// What a worker is to do next in its search.
#[derive(Debug)]
pub enum SearchAction {
    /// Nothing more: the caller may not search, or the search is over.
    Stop,
    /// Submit this block, the template with the nonce found at `step`.
    Submit { block: Block, step: u64 },
    /// The chunk holds no further solution: re-enter for the next chunk.
    Requeue,
    /// No template is held, or a counter has run out of its range.
    Fault,
}

/// An action as a mathematical value.
pub enum SearchActionView {
    Stop,
    Submit { block: BlockView, step: u64 },
    Requeue,
    Fault,
}

impl View for SearchAction {
    type V = SearchActionView;

    open spec fn view(&self) -> SearchActionView {
        match *self {
            SearchAction::Stop => SearchActionView::Stop,
            SearchAction::Submit { block, step } => SearchActionView::Submit { block: block@, step },
            SearchAction::Requeue => SearchActionView::Requeue,
            SearchAction::Fault => SearchActionView::Fault,
        }
    }
}

/// The step at which the search goes on after the solution at `step` was
/// refused.
pub open spec fn step_after(step: u64) -> u64 {
    if step < CHUNK_SIZE {
        (step + 1) as u64
    } else {
        CHUNK_SIZE
    }
}

/// What a search from step `from` on comes to.
///
/// Without a template it is a fault.  The first step that solves the
/// template is to be submitted, and nothing changes.  Where no step solves
/// it, the chunk is counted and, after every fifth such chunk, the counters
/// are refreshed; then the worker is to re-enter.  Where the count or the
/// refresh would leave 64 bits, it is a fault and nothing changes.
pub open spec fn searched(
    before: MinerStateView,
    seed: u64,
    now: u64,
    balance: u64,
    from: u64,
    after: MinerStateView,
    action: SearchActionView,
) -> bool {
    match before.current_block {
        None => action == SearchActionView::Fault && after == before,
        Some(template) => {
            let counted = MinerStateView {
                mining_cycle: (before.mining_cycle + 1) as u64,
                ..before
            };
            let due = (before.mining_cycle + 1) % 5 == 0;
            let fits = before.mining_cycle < u64::MAX && (due ==> before.refresh_fits(
                now,
                balance,
            ));
            match action {
                SearchActionView::Submit { block, step } => {
                    &&& first_solving(template.header, seed, before.miner_id, from, step)
                    &&& block == (BlockView {
                        nonce: candidate(seed, step, before.miner_id),
                        ..template
                    })
                    &&& after == before
                },
                SearchActionView::Requeue => {
                    &&& none_solving(template.header, seed, before.miner_id, from)
                    &&& fits
                    &&& after == if due {
                        counted.refreshed(true, now, balance)
                    } else {
                        counted
                    }
                },
                SearchActionView::Fault => {
                    &&& none_solving(template.header, seed, before.miner_id, from)
                    &&& !fits
                    &&& after == before
                },
                SearchActionView::Stop => false,
            }
        },
    }
}

/// What follows an event of the search.
///
/// A start by a caller that is neither the worker nor the ledger is
/// refused before any search: nothing changes and the worker stops.  A
/// start by either of them searches the chunk from its first step, and a
/// refused solution makes the search go on after its step.  An accepted
/// solution is booked and ends the search.  A failure to re-enter
/// refreshes the counters, notes that mining has stopped, and ends the
/// search.
pub open spec fn search_outcome(
    before: MinerStateView,
    event: SearchEvent,
    seed: u64,
    now: u64,
    balance: u64,
    after: MinerStateView,
    action: SearchActionView,
) -> bool {
    match event {
        SearchEvent::Started { caller, worker } => if may_search(
            caller,
            worker,
            before.ledger_id,
        ) {
            searched(before, seed, now, balance, 0, after, action)
        } else {
            action == SearchActionView::Stop && after == before
        },
        SearchEvent::Refused { step } => searched(
            before,
            seed,
            now,
            balance,
            step_after(step),
            after,
            action,
        ),
        SearchEvent::Accepted => if before.refresh_fits(now, balance) && before.blocks_mined
            < u64::MAX {
            action == SearchActionView::Stop && after == (MinerStateView {
                blocks_mined: (before.blocks_mined + 1) as u64,
                ..before.refreshed(false, now, balance)
            })
        } else {
            action == SearchActionView::Fault && after == before
        },
        SearchEvent::RequeueFailed => if before.refresh_fits(now, balance) {
            action == SearchActionView::Stop && after == before.refreshed(false, now, balance)
        } else {
            action == SearchActionView::Fault && after == before
        },
    }
}

/// Searches a worker's template from step `from` on.
fn search_from(state: &mut MinerState, seed: u64, now: u64, balance: u64, from: u64) -> (action:
    SearchAction)
    ensures
        searched(old(state)@, seed, now, balance, from, final(state)@, action@),
{
    let found = match &state.current_block {
        None => {
            return SearchAction::Fault;
        },
        Some(template) => search_chunk(&template.header, seed, state.miner_id, from),
    };
    match found {
        Some(step) => {
            match state.solved_block(seed, step) {
                Some(block) => SearchAction::Submit { block, step },
                None => SearchAction::Fault,
            }
        },
        None => {
            if state.mining_cycle == u64::MAX {
                return SearchAction::Fault;
            }
            let due = (state.mining_cycle + 1) % STATS_EVERY == 0;
            if due && !state.can_update_mining_stats(now, balance) {
                return SearchAction::Fault;
            }
            let refresh = state.chunk_finished();
            if refresh {
                state.update_mining_stats(true, now, balance);
            }
            SearchAction::Requeue
        },
    }
}

/// Says what follows an event of a worker's search, and books it.
///
/// The caller of a start is checked before anything else: only the worker
/// itself and the ledger start a search.
pub fn find_solution(
    state: &mut MinerState,
    event: SearchEvent,
    seed: u64,
    now: u64,
    balance: u64,
) -> (action: SearchAction)
    ensures
        search_outcome(old(state)@, event, seed, now, balance, final(state)@, action@),
{
    match event {
        SearchEvent::Started { caller, worker } => {
            if !is_authorized(caller, worker, state.ledger_id) {
                return SearchAction::Stop;
            }
            search_from(state, seed, now, balance, 0)
        },
        SearchEvent::Refused { step } => {
            let from = if step < CHUNK_SIZE {
                step + 1
            } else {
                CHUNK_SIZE
            };
            search_from(state, seed, now, balance, from)
        },
        SearchEvent::Accepted => {
            if !state.can_update_mining_stats(now, balance) || state.blocks_mined == u64::MAX {
                return SearchAction::Fault;
            }
            state.solution_accepted(now, balance);
            SearchAction::Stop
        },
        SearchEvent::RequeueFailed => {
            if !state.can_update_mining_stats(now, balance) {
                return SearchAction::Fault;
            }
            state.update_mining_stats(false, now, balance);
            SearchAction::Stop
        },
    }
}

} // verus!
