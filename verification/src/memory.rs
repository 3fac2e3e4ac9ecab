//! What the ledger keeps: the chain, the solve statistics, the balances, the
//! miners and the counters.
//!
//! The counters, the balances, the miners and the log of used payments live
//! in durable structures.  The chain, the statistics and the open template
//! are worked on as plain lists.  For each of them there is a durable
//! archive of records, strings of bytes that the host encodes and decodes:
//! the host archives what was appended and, after a restart, loads the
//! lists from the archives.

use vstd::prelude::*;
use ic_stable_structures::cell::ValueError;
use ic_stable_structures::log::WriteError;
use crate::block::{Block, BlockView, Stats};
use crate::principal::Principal;
use crate::stable::{
    amount_entries, amount_map_region, byte_log_data_region, byte_log_entries,
    byte_log_index_region, cell_region, cell_value, index_log_data_region,
    index_log_index_region, list_entries, list_region, lists_map, log_entries, miner_entries,
    miner_map_region, record_set_entries, record_set_region, AmountMap, ByteLog, CounterCell,
    IndexLog, MinerEntry, MinerMap, PrincipalList, RecordSet, Regions,
};

verus! {

/// The region that maps each miner to its owner.
pub const MINER_TO_OWNER_MEM_ID: u8 = 0;

/// The index region of the log of used payments.
pub const TX_LOG_INDX_MEM_ID: u8 = 1;

/// The data region of the log of used payments.
pub const TX_LOG_DATA_MEM_ID: u8 = 2;

/// The index region of the chain.
pub const CHAIN_INDX_MEM_ID: u8 = 3;

/// The data region of the chain.
pub const CHAIN_DATA_MEM_ID: u8 = 4;

/// The region of the balances.
pub const USER_TO_BALANCE_MEM_ID: u8 = 5;

/// The index region of the solve statistics.
pub const STATS_INDX_MEM_ID: u8 = 6;

/// The data region of the solve statistics.
pub const STATS_DATA_MEM_ID: u8 = 7;

/// The index region of the state snapshots.
pub const STATE_INDX_MEM_ID: u8 = 8;

/// The data region of the state snapshots.
pub const STATE_DATA_MEM_ID: u8 = 9;

/// The region of the burned-token counter.
pub const BURNED_EXE_MEM_ID: u8 = 10;

/// The region of the transaction counter.
pub const TRANSACTION_COUNT_MEM_ID: u8 = 11;

/// The region of the average block time.
pub const AVERAGE_BLOCK_TIME_MEM_ID: u8 = 12;

/// The region of the difficulty.
pub const DIFFICULTY_MEM_ID: u8 = 13;

/// The region of the open template.
pub const CURRENT_BLOCK_MEM_ID: u8 = 14;

/// The region that counts the blocks each owner has mined.
pub const USER_TO_BLOCK_MINED_MEM_ID: u8 = 15;

/// The region of the list of updated miners.
pub const UPDATED_MINERS_MEM_ID: u8 = 16;

/// Why the durable structures could not be opened.
#[derive(Clone, Copy, Debug, PartialEq, Eq, Structural)]
pub enum StorageError {
    /// The log of used payments is not readable.
    UsedPayments,
    /// The archive of the chain is not readable.
    Chain,
    /// The archive of the statistics is not readable.
    Stats,
    /// The archive of state snapshots is not readable.
    States,
    /// The burned-token counter is not readable.
    BurnedExe,
    /// The transaction counter is not readable.
    TransactionCount,
    /// The average block time is not readable.
    AverageBlockTime,
    /// The difficulty is not readable.
    Difficulty,
    /// The list of updated miners is not readable.
    UpdatedMiners,
}

/// Everything the ledger keeps.
pub struct Storage {
    pub miner_to_owner: MinerMap,
    pub tx_log: IndexLog,
    pub chain: Vec<Block>,
    pub chain_archive: ByteLog,
    pub user_to_balance: AmountMap,
    pub stats: Vec<Stats>,
    pub stats_archive: ByteLog,
    pub state_archive: ByteLog,
    pub burned_exe: CounterCell,
    pub transaction_count: CounterCell,
    pub average_block_time: CounterCell,
    pub difficulty: CounterCell,
    pub current_block: Vec<Block>,
    pub current_block_archive: RecordSet,
    pub user_to_block_mined: AmountMap,
    pub updated_miners: PrincipalList,
}

/// The regions of stable memory that the durable structures stand over.
pub struct Placement {
    pub miner_to_owner: u8,
    pub tx_log_index: u8,
    pub tx_log_data: u8,
    pub chain_index: u8,
    pub chain_data: u8,
    pub user_to_balance: u8,
    pub stats_index: u8,
    pub stats_data: u8,
    pub state_index: u8,
    pub state_data: u8,
    pub burned_exe: u8,
    pub transaction_count: u8,
    pub average_block_time: u8,
    pub difficulty: u8,
    pub current_block: u8,
    pub user_to_block_mined: u8,
    pub updated_miners: u8,
}

/// The placement of a storage that was opened: every structure over the
/// region of its own that is set aside for it.
pub open spec fn standard_placement() -> Placement {
    Placement {
        miner_to_owner: MINER_TO_OWNER_MEM_ID,
        tx_log_index: TX_LOG_INDX_MEM_ID,
        tx_log_data: TX_LOG_DATA_MEM_ID,
        chain_index: CHAIN_INDX_MEM_ID,
        chain_data: CHAIN_DATA_MEM_ID,
        user_to_balance: USER_TO_BALANCE_MEM_ID,
        stats_index: STATS_INDX_MEM_ID,
        stats_data: STATS_DATA_MEM_ID,
        state_index: STATE_INDX_MEM_ID,
        state_data: STATE_DATA_MEM_ID,
        burned_exe: BURNED_EXE_MEM_ID,
        transaction_count: TRANSACTION_COUNT_MEM_ID,
        average_block_time: AVERAGE_BLOCK_TIME_MEM_ID,
        difficulty: DIFFICULTY_MEM_ID,
        current_block: CURRENT_BLOCK_MEM_ID,
        user_to_block_mined: USER_TO_BLOCK_MINED_MEM_ID,
        updated_miners: UPDATED_MINERS_MEM_ID,
    }
}

/// What is kept, as a mathematical value.
pub struct StorageView {
    /// The owner and payment index of each miner, by the miner's bytes.
    pub miners: Map<Seq<u8>, (Seq<u8>, u64)>,
    /// The indices of the payments that were used, oldest first.
    pub used_payments: Seq<u64>,
    /// The committed blocks; the block at position `h` has height `h`.
    pub chain: Seq<BlockView>,
    /// The balance of each account, by its bytes.
    pub balances: Map<Seq<u8>, u64>,
    /// The statistics of each solved block, oldest first.
    pub stats: Seq<Stats>,
    pub burned_exe: u64,
    pub transaction_count: u64,
    pub average_block_time: u64,
    pub difficulty: u64,
    /// The open template: no block or one.
    pub current_block: Seq<BlockView>,
    /// The number of blocks each owner has mined, by the owner's bytes.
    pub blocks_mined: Map<Seq<u8>, u64>,
    /// The miners that were updated, oldest first.
    pub updated_miners: Seq<Seq<u8>>,
    /// The archived records of the chain, oldest first.
    pub chain_records: Seq<Seq<u8>>,
    /// The archived records of the statistics, oldest first.
    pub stats_records: Seq<Seq<u8>>,
    /// The archived snapshots of the working state, oldest first.
    pub state_records: Seq<Seq<u8>>,
    /// The archived records of the open template.
    pub current_block_records: Set<Seq<u8>>,
    /// The region that each durable structure stands over.
    pub placement: Placement,
}

/// The views of a list of blocks.
pub open spec fn block_views(blocks: Seq<Block>) -> Seq<BlockView> {
    blocks.map_values(|b: Block| b@)
}

/// The amount under `key`; 0 where there is none.
pub open spec fn amount_of(map: Map<Seq<u8>, u64>, key: Seq<u8>) -> u64 {
    if map.contains_key(key) {
        map[key]
    } else {
        0
    }
}

impl StorageView {
    /// The balance of the account with the given bytes.
    pub open spec fn balance_of(self, account: Seq<u8>) -> u64 {
        amount_of(self.balances, account)
    }

    /// The number of blocks the owner with the given bytes has mined.
    pub open spec fn mined_by(self, owner: Seq<u8>) -> u64 {
        amount_of(self.blocks_mined, owner)
    }

    /// The last committed block, if there is one.
    pub open spec fn latest(self) -> Option<BlockView> {
        if self.chain.len() > 0 {
            Some(self.chain.last())
        } else {
            None
        }
    }
}

impl View for Storage {
    type V = StorageView;

    open spec fn view(&self) -> StorageView {
        StorageView {
            miners: miner_entries(self.miner_to_owner),
            used_payments: log_entries(self.tx_log),
            chain: block_views(self.chain@),
            balances: amount_entries(self.user_to_balance),
            stats: self.stats@,
            burned_exe: cell_value(self.burned_exe),
            transaction_count: cell_value(self.transaction_count),
            average_block_time: cell_value(self.average_block_time),
            difficulty: cell_value(self.difficulty),
            current_block: block_views(self.current_block@),
            blocks_mined: amount_entries(self.user_to_block_mined),
            updated_miners: list_entries(self.updated_miners),
            chain_records: byte_log_entries(self.chain_archive),
            stats_records: byte_log_entries(self.stats_archive),
            state_records: byte_log_entries(self.state_archive),
            current_block_records: record_set_entries(self.current_block_archive),
            placement: Placement {
                miner_to_owner: miner_map_region(self.miner_to_owner),
                tx_log_index: index_log_index_region(self.tx_log),
                tx_log_data: index_log_data_region(self.tx_log),
                chain_index: byte_log_index_region(self.chain_archive),
                chain_data: byte_log_data_region(self.chain_archive),
                user_to_balance: amount_map_region(self.user_to_balance),
                stats_index: byte_log_index_region(self.stats_archive),
                stats_data: byte_log_data_region(self.stats_archive),
                state_index: byte_log_index_region(self.state_archive),
                state_data: byte_log_data_region(self.state_archive),
                burned_exe: cell_region(self.burned_exe),
                transaction_count: cell_region(self.transaction_count),
                average_block_time: cell_region(self.average_block_time),
                difficulty: cell_region(self.difficulty),
                current_block: record_set_region(self.current_block_archive),
                user_to_block_mined: amount_map_region(self.user_to_block_mined),
                updated_miners: list_region(self.updated_miners),
            },
        }
    }
}

/// The durable structures as an attempt to open them left them: each map
/// opened, and each log, counter and list either opened or with the reason
/// why it is not readable.
pub struct Opened {
    pub miner_to_owner: MinerMap,
    pub tx_log: Result<IndexLog, ic_stable_structures::log::InitError>,
    pub chain_archive: Result<ByteLog, ic_stable_structures::log::InitError>,
    pub user_to_balance: AmountMap,
    pub stats_archive: Result<ByteLog, ic_stable_structures::log::InitError>,
    pub state_archive: Result<ByteLog, ic_stable_structures::log::InitError>,
    pub burned_exe: Result<CounterCell, ic_stable_structures::cell::InitError>,
    pub transaction_count: Result<CounterCell, ic_stable_structures::cell::InitError>,
    pub average_block_time: Result<CounterCell, ic_stable_structures::cell::InitError>,
    pub difficulty: Result<CounterCell, ic_stable_structures::cell::InitError>,
    pub current_block_archive: RecordSet,
    pub user_to_block_mined: AmountMap,
    pub updated_miners: Result<PrincipalList, ic_stable_structures::vec::InitError>,
}

impl Opened {
    /// The first structure that is not readable, in the order in which the
    /// structures are looked at; `None` where all are.
    pub open spec fn failure(self) -> Option<StorageError> {
        if self.tx_log is Err {
            Some(StorageError::UsedPayments)
        } else if self.chain_archive is Err {
            Some(StorageError::Chain)
        } else if self.stats_archive is Err {
            Some(StorageError::Stats)
        } else if self.state_archive is Err {
            Some(StorageError::States)
        } else if self.burned_exe is Err {
            Some(StorageError::BurnedExe)
        } else if self.transaction_count is Err {
            Some(StorageError::TransactionCount)
        } else if self.average_block_time is Err {
            Some(StorageError::AverageBlockTime)
        } else if self.difficulty is Err {
            Some(StorageError::Difficulty)
        } else if self.updated_miners is Err {
            Some(StorageError::UpdatedMiners)
        } else {
            None
        }
    }

    /// What is kept once every structure is readable: the durable
    /// structures hold what they held, and the working lists are empty.
    pub open spec fn kept(self) -> StorageView {
        StorageView {
            miners: miner_entries(self.miner_to_owner),
            used_payments: log_entries(self.tx_log->Ok_0),
            chain: Seq::empty(),
            balances: amount_entries(self.user_to_balance),
            stats: Seq::empty(),
            burned_exe: cell_value(self.burned_exe->Ok_0),
            transaction_count: cell_value(self.transaction_count->Ok_0),
            average_block_time: cell_value(self.average_block_time->Ok_0),
            difficulty: cell_value(self.difficulty->Ok_0),
            current_block: Seq::empty(),
            blocks_mined: amount_entries(self.user_to_block_mined),
            updated_miners: list_entries(self.updated_miners->Ok_0),
            chain_records: byte_log_entries(self.chain_archive->Ok_0),
            stats_records: byte_log_entries(self.stats_archive->Ok_0),
            state_records: byte_log_entries(self.state_archive->Ok_0),
            current_block_records: record_set_entries(self.current_block_archive),
            placement: Placement {
                miner_to_owner: miner_map_region(self.miner_to_owner),
                tx_log_index: index_log_index_region(self.tx_log->Ok_0),
                tx_log_data: index_log_data_region(self.tx_log->Ok_0),
                chain_index: byte_log_index_region(self.chain_archive->Ok_0),
                chain_data: byte_log_data_region(self.chain_archive->Ok_0),
                user_to_balance: amount_map_region(self.user_to_balance),
                stats_index: byte_log_index_region(self.stats_archive->Ok_0),
                stats_data: byte_log_data_region(self.stats_archive->Ok_0),
                state_index: byte_log_index_region(self.state_archive->Ok_0),
                state_data: byte_log_data_region(self.state_archive->Ok_0),
                burned_exe: cell_region(self.burned_exe->Ok_0),
                transaction_count: cell_region(self.transaction_count->Ok_0),
                average_block_time: cell_region(self.average_block_time->Ok_0),
                difficulty: cell_region(self.difficulty->Ok_0),
                current_block: record_set_region(self.current_block_archive),
                user_to_block_mined: amount_map_region(self.user_to_block_mined),
                updated_miners: list_region(self.updated_miners->Ok_0),
            },
        }
    }
}

impl Storage {
    /// Opens the durable structures, each over the region of its own that
    /// is set aside for it.  The working lists start empty; what the
    /// durable structures hold is whatever was stored before.
    ///
    /// Whether a structure is readable is decided by what its region
    /// holds; [`Storage::assemble`] says what is made of each outcome.
    pub fn open() -> (r: Result<Storage, StorageError>)
        ensures
            r is Ok ==> r->Ok_0@.placement == standard_placement(),
            r is Ok ==> r->Ok_0@.chain == Seq::<BlockView>::empty() && r->Ok_0@.stats
                == Seq::<Stats>::empty() && r->Ok_0@.current_block == Seq::<BlockView>::empty(),
            r is Ok ==> r->Ok_0@.miners.dom().finite(),
    {
        let regions = Regions::open();
        Storage::assemble(
            Opened {
                miner_to_owner: MinerMap::init(&regions, MINER_TO_OWNER_MEM_ID),
                tx_log: IndexLog::init(&regions, TX_LOG_INDX_MEM_ID, TX_LOG_DATA_MEM_ID),
                chain_archive: ByteLog::init(&regions, CHAIN_INDX_MEM_ID, CHAIN_DATA_MEM_ID),
                user_to_balance: AmountMap::init(&regions, USER_TO_BALANCE_MEM_ID),
                stats_archive: ByteLog::init(&regions, STATS_INDX_MEM_ID, STATS_DATA_MEM_ID),
                state_archive: ByteLog::init(&regions, STATE_INDX_MEM_ID, STATE_DATA_MEM_ID),
                burned_exe: CounterCell::init(&regions, BURNED_EXE_MEM_ID),
                transaction_count: CounterCell::init(&regions, TRANSACTION_COUNT_MEM_ID),
                average_block_time: CounterCell::init(&regions, AVERAGE_BLOCK_TIME_MEM_ID),
                difficulty: CounterCell::init(&regions, DIFFICULTY_MEM_ID),
                current_block_archive: RecordSet::init(&regions, CURRENT_BLOCK_MEM_ID),
                user_to_block_mined: AmountMap::init(&regions, USER_TO_BLOCK_MINED_MEM_ID),
                updated_miners: PrincipalList::init(&regions, UPDATED_MINERS_MEM_ID),
            },
        )
    }

    /// Makes the storage of structures that were opened: where one of them
    /// is not readable, the first such is named; where all are, they are
    /// put together around empty working lists.
    pub fn assemble(parts: Opened) -> (r: Result<Storage, StorageError>)
        ensures
            r is Ok <==> parts.failure() is None,
            r is Err ==> parts.failure() == Some(r->Err_0),
            r is Ok ==> r->Ok_0@ == parts.kept(),
    {
        let tx_log = match parts.tx_log {
            Ok(log) => log,
            Err(_) => {
                return Err(StorageError::UsedPayments);
            },
        };
        let chain_archive = match parts.chain_archive {
            Ok(log) => log,
            Err(_) => {
                return Err(StorageError::Chain);
            },
        };
        let stats_archive = match parts.stats_archive {
            Ok(log) => log,
            Err(_) => {
                return Err(StorageError::Stats);
            },
        };
        let state_archive = match parts.state_archive {
            Ok(log) => log,
            Err(_) => {
                return Err(StorageError::States);
            },
        };
        let burned_exe = match parts.burned_exe {
            Ok(cell) => cell,
            Err(_) => {
                return Err(StorageError::BurnedExe);
            },
        };
        let transaction_count = match parts.transaction_count {
            Ok(cell) => cell,
            Err(_) => {
                return Err(StorageError::TransactionCount);
            },
        };
        let average_block_time = match parts.average_block_time {
            Ok(cell) => cell,
            Err(_) => {
                return Err(StorageError::AverageBlockTime);
            },
        };
        let difficulty = match parts.difficulty {
            Ok(cell) => cell,
            Err(_) => {
                return Err(StorageError::Difficulty);
            },
        };
        let updated_miners = match parts.updated_miners {
            Ok(list) => list,
            Err(_) => {
                return Err(StorageError::UpdatedMiners);
            },
        };
        let r = Storage {
            miner_to_owner: parts.miner_to_owner,
            tx_log,
            chain: Vec::new(),
            chain_archive,
            user_to_balance: parts.user_to_balance,
            stats: Vec::new(),
            stats_archive,
            state_archive,
            burned_exe,
            transaction_count,
            average_block_time,
            difficulty,
            current_block: Vec::new(),
            current_block_archive: parts.current_block_archive,
            user_to_block_mined: parts.user_to_block_mined,
            updated_miners,
        };
        assert(r@.chain =~= Seq::<BlockView>::empty());
        assert(r@.current_block =~= Seq::<BlockView>::empty());
        Ok(r)
    }

    /// Puts the chain, the statistics and the template that the host has
    /// decoded from the archives in place of the working lists.
    pub fn load(&mut self, chain: Vec<Block>, stats: Vec<Stats>, current_block: Option<Block>)
        ensures
            final(self)@ == (StorageView {
                chain: block_views(chain@),
                stats: stats@,
                current_block: match current_block {
                    Some(b) => seq![b@],
                    None => Seq::<BlockView>::empty(),
                },
                ..old(self)@
            }),
    {
        let mut current: Vec<Block> = Vec::new();
        match current_block {
            Some(b) => {
                current.push(b);
            },
            None => {},
        }
        assert(block_views(current@) =~= match current_block {
            Some(b) => seq![b@],
            None => Seq::<BlockView>::empty(),
        });
        self.chain = chain;
        self.stats = stats;
        self.current_block = current;
    }
}

/// Reads every record of a log, oldest first.
fn read_records(log: &ByteLog) -> (r: Vec<Vec<u8>>)
    ensures
        r@.len() == byte_log_entries(*log).len(),
        forall|i: int| 0 <= i < r@.len() ==> (#[trigger] r@[i])@ == byte_log_entries(*log)[i],
{
    let n = log.len();
    let mut r: Vec<Vec<u8>> = Vec::new();
    let mut i: u64 = 0;
    while i < n
        invariant
            i <= n,
            n == byte_log_entries(*log).len(),
            r@.len() == i,
            forall|j: int| 0 <= j < i ==> (#[trigger] r@[j])@ == byte_log_entries(*log)[j],
        decreases n - i,
    {
        match log.get(i) {
            Some(record) => {
                r.push(record);
            },
            None => {},
        }
        i += 1;
    }
    r
}

/// Archives the record of a committed block and returns its position.
pub fn archive_block(storage: &mut Storage, record: &Vec<u8>) -> (r: Result<u64, WriteError>)
    ensures
        r is Ok ==> r->Ok_0 == old(storage)@.chain_records.len() && final(storage)@
            == (StorageView {
            chain_records: old(storage)@.chain_records.push(record@),
            ..old(storage)@
        }),
        r is Err ==> final(storage)@ == old(storage)@,
{
    storage.chain_archive.append(record)
}

/// The archived records of the chain, oldest first.
pub fn archived_blocks(storage: &Storage) -> (r: Vec<Vec<u8>>)
    ensures
        r@.len() == storage@.chain_records.len(),
        forall|i: int| 0 <= i < r@.len() ==> (#[trigger] r@[i])@ == storage@.chain_records[i],
{
    read_records(&storage.chain_archive)
}

/// Archives the record of a solved block's statistics and returns its
/// position.
pub fn archive_stats(storage: &mut Storage, record: &Vec<u8>) -> (r: Result<u64, WriteError>)
    ensures
        r is Ok ==> r->Ok_0 == old(storage)@.stats_records.len() && final(storage)@
            == (StorageView {
            stats_records: old(storage)@.stats_records.push(record@),
            ..old(storage)@
        }),
        r is Err ==> final(storage)@ == old(storage)@,
{
    storage.stats_archive.append(record)
}

/// The archived records of the statistics, oldest first.
pub fn archived_stats(storage: &Storage) -> (r: Vec<Vec<u8>>)
    ensures
        r@.len() == storage@.stats_records.len(),
        forall|i: int| 0 <= i < r@.len() ==> (#[trigger] r@[i])@ == storage@.stats_records[i],
{
    read_records(&storage.stats_archive)
}

/// Archives the record of the open template in place of what was archived.
pub fn archive_current_block(storage: &mut Storage, record: Vec<u8>)
    ensures
        final(storage)@ == (StorageView {
            current_block_records: Set::<Seq<u8>>::empty().insert(record@),
            ..old(storage)@
        }),
{
    storage.current_block_archive.clear();
    storage.current_block_archive.insert(record);
}

/// The archived records of the open template: none or one, unless the
/// archive was written by other means.
pub fn archived_current_block(storage: &Storage) -> (r: Vec<Vec<u8>>)
    ensures
        forall|i: int| 0 <= i < r@.len() ==> storage@.current_block_records.contains(#[trigger] r@[i]@),
        forall|k: Seq<u8>|
            storage@.current_block_records.contains(k) ==> exists|i: int|
                0 <= i < r@.len() && #[trigger] r@[i]@ == k,
        forall|i: int, j: int| 0 <= i < j < r@.len() ==> r@[i]@ != r@[j]@,
{
    storage.current_block_archive.entries()
}

/// Archives a snapshot of the working state and returns its position.
pub fn add_state(storage: &mut Storage, record: &Vec<u8>) -> (r: Result<u64, WriteError>)
    ensures
        r is Ok ==> r->Ok_0 == old(storage)@.state_records.len() && final(storage)@
            == (StorageView {
            state_records: old(storage)@.state_records.push(record@),
            ..old(storage)@
        }),
        r is Err ==> final(storage)@ == old(storage)@,
{
    storage.state_archive.append(record)
}

/// The last archived snapshot of the working state, if there is one.
pub fn get_last_state(storage: &Storage) -> (r: Option<Vec<u8>>)
    ensures
        r is Some <==> storage@.state_records.len() > 0,
        r is Some ==> r->0@ == storage@.state_records.last(),
{
    let n = storage.state_archive.len();
    if n == 0 {
        None
    } else {
        storage.state_archive.get(n - 1)
    }
}

/// Adds `amount` to the count of burned tokens and returns the count before.
pub fn add_burned_exe(storage: &mut Storage, amount: u64) -> (r: Result<u64, ValueError>)
    requires
        old(storage)@.burned_exe + amount <= u64::MAX,
    ensures
        r is Ok ==> r->Ok_0 == old(storage)@.burned_exe && final(storage)@ == (StorageView {
            burned_exe: (old(storage)@.burned_exe + amount) as u64,
            ..old(storage)@
        }),
        r is Err ==> final(storage)@ == old(storage)@,
{
    let current = get_burned_exe(storage);
    storage.burned_exe.set(current + amount)
}

/// The count of burned tokens.
pub fn get_burned_exe(storage: &Storage) -> (r: u64)
    ensures
        r == storage@.burned_exe,
{
    storage.burned_exe.get()
}

/// Adds `amount` to the count of settled transactions and returns the count
/// before.
pub fn update_transaction_count(storage: &mut Storage, amount: u64) -> (r: Result<u64, ValueError>)
    requires
        old(storage)@.transaction_count + amount <= u64::MAX,
    ensures
        r is Ok ==> r->Ok_0 == old(storage)@.transaction_count && final(storage)@ == (StorageView {
            transaction_count: (old(storage)@.transaction_count + amount) as u64,
            ..old(storage)@
        }),
        r is Err ==> final(storage)@ == old(storage)@,
{
    let current = get_transaction_count(storage);
    storage.transaction_count.set(current + amount)
}

/// The count of settled transactions.
pub fn get_transaction_count(storage: &Storage) -> (r: u64)
    ensures
        r == storage@.transaction_count,
{
    storage.transaction_count.get()
}

/// Sets the average block time and returns the one before.
pub fn update_average_block_time(storage: &mut Storage, amount: u64) -> (r: Result<
    u64,
    ValueError,
>)
    ensures
        r is Ok ==> r->Ok_0 == old(storage)@.average_block_time && final(storage)@ == (StorageView {
            average_block_time: amount,
            ..old(storage)@
        }),
        r is Err ==> final(storage)@ == old(storage)@,
{
    storage.average_block_time.set(amount)
}

/// The average block time.
pub fn get_average_block_time(storage: &Storage) -> (r: u64)
    ensures
        r == storage@.average_block_time,
{
    storage.average_block_time.get()
}

/// Sets the stored difficulty and returns the one before.
pub fn update_difficulty(storage: &mut Storage, amount: u64) -> (r: Result<u64, ValueError>)
    ensures
        r is Ok ==> r->Ok_0 == old(storage)@.difficulty && final(storage)@ == (StorageView {
            difficulty: amount,
            ..old(storage)@
        }),
        r is Err ==> final(storage)@ == old(storage)@,
{
    storage.difficulty.set(amount)
}

/// The stored difficulty.
pub fn difficulty(storage: &Storage) -> (r: u64)
    ensures
        r == storage@.difficulty,
{
    storage.difficulty.get()
}

/// The open template: no block or one.
pub fn current_block(storage: &Storage) -> (r: Vec<Block>)
    ensures
        block_views(r@) == storage@.current_block,
{
    clone_blocks(&storage.current_block)
}

/// Replaces the open template.
pub fn update_current_block(storage: &mut Storage, block: Block)
    ensures
        final(storage)@ == (StorageView { current_block: seq![block@], ..old(storage)@ }),
{
    storage.current_block.clear();
    storage.current_block.push(block);
    assert(block_views(storage.current_block@) =~= seq![block@]);
}

/// Copies a list of blocks.
fn clone_blocks(blocks: &Vec<Block>) -> (r: Vec<Block>)
    ensures
        block_views(r@) == block_views(blocks@),
{
    let mut r: Vec<Block> = Vec::new();
    let mut i: usize = 0;
    while i < blocks.len()
        invariant
            i <= blocks.len(),
            r@.len() == i,
            forall|j: int| 0 <= j < i ==> r@[j]@ == blocks@[j]@,
        decreases blocks.len() - i,
    {
        r.push(blocks[i].clone());
        i += 1;
    }
    assert(block_views(r@) =~= block_views(blocks@));
    r
}

/// The number of blocks each owner has mined, one entry for each owner.
pub fn get_users_to_block_mined(storage: &Storage) -> (r: Vec<(Principal, u64)>)
    ensures
        lists_map(r@, storage@.blocks_mined),
{
    storage.user_to_block_mined.entries()
}

/// Counts one more block for `user`.
pub fn add_block_mined(storage: &mut Storage, user: Principal)
    requires
        old(storage)@.mined_by(user@) < u64::MAX,
    ensures
        final(storage)@ == (StorageView {
            blocks_mined: old(storage)@.blocks_mined.insert(
                user@,
                (old(storage)@.mined_by(user@) + 1) as u64,
            ),
            ..old(storage)@
        }),
{
    let count = mined_by(storage, user);
    storage.user_to_block_mined.insert(&user, count + 1);
}

/// The number of blocks that `user` has mined; 0 for one that has mined
/// none.
pub fn mined_by(storage: &Storage, user: Principal) -> (r: u64)
    ensures
        r == storage@.mined_by(user@),
{
    match storage.user_to_block_mined.get(&user) {
        Some(n) => n,
        None => 0,
    }
}

/// Appends a miner to the list of updated miners.
pub fn add_updated_miner(storage: &mut Storage, miner: Principal) -> (r: Result<
    (),
    ic_stable_structures::GrowFailed,
>)
    ensures
        r is Ok ==> final(storage)@ == (StorageView {
            updated_miners: old(storage)@.updated_miners.push(miner@),
            ..old(storage)@
        }),
        r is Err ==> final(storage)@ == old(storage)@,
{
    storage.updated_miners.push(&miner)
}

/// The miners that were updated, oldest first.
pub fn get_all_updated_miners(storage: &Storage) -> (r: Vec<Principal>)
    ensures
        r@.len() == storage@.updated_miners.len(),
        forall|i: int| 0 <= i < r@.len() ==> r@[i]@ == storage@.updated_miners[i],
{
    let n = storage.updated_miners.len();
    let mut r: Vec<Principal> = Vec::new();
    let mut i: u64 = 0;
    while i < n
        invariant
            i <= n,
            n == storage@.updated_miners.len(),
            r@.len() == i,
            forall|j: int| 0 <= j < i ==> r@[j]@ == storage@.updated_miners[j],
        decreases n - i,
    {
        match storage.updated_miners.get(i) {
            Some(p) => {
                r.push(p);
            },
            None => {},
        }
        i += 1;
    }
    r
}

/// Appends a block to the chain and returns its position.
pub fn insert_block(storage: &mut Storage, block: Block) -> (r: u64)
    ensures
        r == old(storage)@.chain.len(),
        final(storage)@ == (StorageView {
            chain: old(storage)@.chain.push(block@),
            ..old(storage)@
        }),
{
    let index = storage.chain.len() as u64;
    storage.chain.push(block);
    assert(block_views(storage.chain@) =~= block_views(old(storage).chain@).push(block@));
    index
}

/// The whole chain, oldest block first.
pub fn all_blocks(storage: &Storage) -> (r: Vec<Block>)
    ensures
        block_views(r@) == storage@.chain,
{
    clone_blocks(&storage.chain)
}

/// The last committed block, if there is one.
pub fn latest_block(storage: &Storage) -> (r: Option<Block>)
    ensures
        r is Some <==> storage@.chain.len() > 0,
        r is Some ==> r->0@ == storage@.chain.last(),
{
    let n = storage.chain.len();
    if n == 0 {
        None
    } else {
        Some(storage.chain[n - 1].clone())
    }
}

/// The number of committed blocks.
pub fn block_count(storage: &Storage) -> (r: u64)
    ensures
        r == storage@.chain.len(),
{
    storage.chain.len() as u64
}

/// The block at position `index`, if the chain is that long.
pub fn get_block(storage: &Storage, index: u64) -> (r: Option<Block>)
    ensures
        r is Some <==> index < storage@.chain.len(),
        r is Some ==> r->0@ == storage@.chain[index as int],
{
    if index < storage.chain.len() as u64 {
        Some(storage.chain[index as usize].clone())
    } else {
        None
    }
}

/// Records the index of a payment as used and returns its position in the
/// log.
pub fn insert_new_transaction(storage: &mut Storage, block: u64) -> (r: Result<u64, WriteError>)
    ensures
        r is Ok ==> r->Ok_0 == old(storage)@.used_payments.len() && final(storage)@
            == (StorageView {
            used_payments: old(storage)@.used_payments.push(block),
            ..old(storage)@
        }),
        r is Err ==> final(storage)@ == old(storage)@,
{
    storage.tx_log.append(block)
}

/// The indices of all used payments, oldest first.
pub fn get_all_transactions(storage: &Storage) -> (r: Vec<u64>)
    ensures
        r@ == storage@.used_payments,
{
    let n = storage.tx_log.len();
    let mut r: Vec<u64> = Vec::new();
    let mut i: u64 = 0;
    while i < n
        invariant
            i <= n,
            n == storage@.used_payments.len(),
            r@ == storage@.used_payments.take(i as int),
        decreases n - i,
    {
        match storage.tx_log.get(i) {
            Some(index) => {
                r.push(index);
            },
            None => {},
        }
        assert(storage@.used_payments.take(i + 1) =~= storage@.used_payments.take(i as int).push(
            storage@.used_payments[i as int],
        ));
        i += 1;
    }
    assert(storage@.used_payments.take(n as int) =~= storage@.used_payments);
    r
}

/// The index of the used payment at position `index` of the log.
pub fn get_transaction(storage: &Storage, index: u64) -> (r: Option<u64>)
    ensures
        r == if index < storage@.used_payments.len() {
            Some(storage@.used_payments[index as int])
        } else {
            None
        },
{
    storage.tx_log.get(index)
}

/// The number of used payments.
pub fn transaction_count(storage: &Storage) -> (r: u64)
    ensures
        r == storage@.used_payments.len(),
{
    storage.tx_log.len()
}

/// Stores a miner with its owner and the index of the payment that
/// created it.
pub fn insert_new_miner(storage: &mut Storage, miner: Principal, owner: Principal, block_index: u64)
    ensures
        final(storage)@ == (StorageView {
            miners: old(storage)@.miners.insert(miner@, (owner@, block_index)),
            ..old(storage)@
        }),
        final(storage)@.miners.dom().finite(),
        old(storage)@.miners.dom().finite() ==> final(storage)@.miners.len() == old(storage)@.miners.len() + if old(storage)@.miners.contains_key(miner@) {
            0int
        } else {
            1int
        },
{
    storage.miner_to_owner.insert(&miner, &owner, block_index);
    proof {
        let before = old(storage)@.miners;
        if before.dom().finite() {
            vstd::set::axiom_set_insert_len(before.dom(), miner@);
            assert(before.insert(miner@, (owner@, block_index)).dom() =~= before.dom().insert(
                miner@,
            ));
        }
    }
}

/// The owner of a miner, if the miner is stored.
pub fn get_miner_owner(storage: &Storage, miner: Principal) -> (r: Option<Principal>)
    ensures
        r is Some <==> storage@.miners.contains_key(miner@),
        r is Some ==> r->0@ == storage@.miners[miner@].0,
{
    match storage.miner_to_owner.get(&miner) {
        Some(entry) => Some(entry.0),
        None => None,
    }
}

/// The number of stored miners, of which there are finitely many.
pub fn miner_count(storage: &Storage) -> (r: u64)
    ensures
        storage@.miners.dom().finite(),
        r == storage@.miners.len(),
{
    storage.miner_to_owner.len()
}

/// Every stored miner with its owner and payment index, each miner once.
pub fn get_miner_to_owner_and_index(storage: &Storage) -> (r: Vec<MinerEntry>)
    ensures
        lists_map(
            r@.map_values(|e: MinerEntry| (e.miner, (e.owner@, e.index))),
            storage@.miners,
        ),
{
    storage.miner_to_owner.entries()
}

/// Adds `amount` to the balance of `user`.
pub fn add_balance(storage: &mut Storage, user: Principal, amount: u64)
    requires
        old(storage)@.balance_of(user@) + amount <= u64::MAX,
    ensures
        final(storage)@ == (StorageView {
            balances: old(storage)@.balances.insert(
                user@,
                (old(storage)@.balance_of(user@) + amount) as u64,
            ),
            ..old(storage)@
        }),
{
    let balance = get_balance(storage, user);
    storage.user_to_balance.insert(&user, balance + amount);
}

/// What is left of an amount after another is taken from it, and 0 where
/// the other is greater.
pub open spec fn minus_or_zero(amount: u64, taken: u64) -> u64 {
    if amount >= taken {
        (amount - taken) as u64
    } else {
        0
    }
}

/// Takes `amount` from the balance of `user`; a balance that is smaller
/// becomes 0.
pub fn sub_balance(storage: &mut Storage, user: Principal, amount: u64)
    ensures
        final(storage)@ == (StorageView {
            balances: old(storage)@.balances.insert(
                user@,
                minus_or_zero(old(storage)@.balance_of(user@), amount),
            ),
            ..old(storage)@
        }),
{
    let balance = get_balance(storage, user);
    let rest = if balance >= amount {
        balance - amount
    } else {
        0
    };
    storage.user_to_balance.insert(&user, rest);
}

/// The balance of `user`; 0 for an account that was never credited.
pub fn get_balance(storage: &Storage, user: Principal) -> (r: u64)
    ensures
        r == storage@.balance_of(user@),
{
    match storage.user_to_balance.get(&user) {
        Some(balance) => balance,
        None => 0,
    }
}

/// Appends the statistics of a solved block and returns their position.
pub fn insert_stats(storage: &mut Storage, stats: Stats) -> (r: u64)
    ensures
        r == old(storage)@.stats.len(),
        final(storage)@ == (StorageView {
            stats: old(storage)@.stats.push(stats),
            ..old(storage)@
        }),
{
    let index = storage.stats.len() as u64;
    storage.stats.push(stats);
    index
}

/// The statistics at position `index`, if there are that many.
pub fn get_stat(storage: &Storage, index: u64) -> (r: Option<Stats>)
    ensures
        r == if index < storage@.stats.len() {
            Some(storage@.stats[index as int])
        } else {
            None
        },
{
    if index < storage.stats.len() as u64 {
        Some(storage.stats[index as usize])
    } else {
        None
    }
}

/// All statistics, oldest first.
pub fn all_stats(storage: &Storage) -> (r: Vec<Stats>)
    ensures
        r@ == storage@.stats,
{
    let mut r: Vec<Stats> = Vec::new();
    let mut i: usize = 0;
    while i < storage.stats.len()
        invariant
            i <= storage.stats.len(),
            r@ == storage.stats@.take(i as int),
        decreases storage.stats.len() - i,
    {
        r.push(storage.stats[i]);
        assert(storage.stats@.take(i + 1) =~= storage.stats@.take(i as int).push(
            storage.stats@[i as int],
        ));
        i += 1;
    }
    assert(storage.stats@.take(storage.stats.len() as int) =~= storage.stats@);
    r
}

/// The statistics at position `index`, if there are that many.
pub fn get_stats(storage: &Storage, index: u64) -> (r: Option<Stats>)
    ensures
        r == if index < storage@.stats.len() {
            Some(storage@.stats[index as int])
        } else {
            None
        },
{
    get_stat(storage, index)
}

} // verus!
