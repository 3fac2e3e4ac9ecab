use windoge_pow::block::{Block, Stats};
use windoge_pow::memory::{
    add_state, archive_block, archive_current_block, archive_stats, archived_blocks,
    archived_current_block, archived_stats, get_last_state, mined_by, add_balance, add_block_mined, add_burned_exe, add_updated_miner, all_blocks, all_stats,
    block_count, current_block, difficulty, get_all_transactions, get_all_updated_miners,
    get_average_block_time, get_balance, get_block, get_burned_exe, get_miner_owner,
    get_miner_to_owner_and_index, get_stat, get_stats, get_transaction, get_transaction_count,
    get_users_to_block_mined, insert_block, insert_new_miner, insert_new_transaction,
    insert_stats, latest_block, miner_count, sub_balance, transaction_count,
    update_average_block_time, update_current_block, update_difficulty,
    update_transaction_count, Opened, Storage, StorageError,
};
use windoge_pow::principal::Principal;

fn who(bytes: &[u8]) -> Principal {
    Principal::from_slice(bytes).unwrap()
}

fn fresh() -> Storage {
    Storage::open().unwrap()
}

#[test]
fn fresh_storage_is_empty() {
    let s = fresh();
    assert_eq!(get_burned_exe(&s), 0);
    assert_eq!(get_transaction_count(&s), 0);
    assert_eq!(get_average_block_time(&s), 0);
    assert_eq!(difficulty(&s), 0);
    assert_eq!(block_count(&s), 0);
    assert_eq!(transaction_count(&s), 0);
    assert_eq!(miner_count(&s), 0);
    assert!(latest_block(&s).is_none());
    assert!(current_block(&s).is_empty());
    assert!(get_all_transactions(&s).is_empty());
    assert_eq!(get_balance(&s, who(&[1])), 0);
}

#[test]
fn load_puts_the_decoded_lists_in_place() {
    let mut b = Block::genesis();
    b.hash = 5;
    let stats = Stats { cycles_burned: 1, timestamp: 2, solve_time: 3, miner: who(&[9]) };
    let mut s = fresh();
    s.load(vec![Block::genesis(), b.clone()], vec![stats], Some(b.clone()));
    assert_eq!(block_count(&s), 2);
    assert!(latest_block(&s).unwrap() == b);
    assert_eq!(all_stats(&s).len(), 1);
    assert_eq!(current_block(&s).len(), 1);
    assert!(current_block(&s)[0] == b);
}

#[test]
fn burned_exe_adds_up() {
    let mut s = fresh();
    assert_eq!(add_burned_exe(&mut s, 5).unwrap(), 0);
    assert_eq!(add_burned_exe(&mut s, 7).unwrap(), 5);
    assert_eq!(get_burned_exe(&s), 12);
}

#[test]
fn transaction_count_adds_up() {
    let mut s = fresh();
    assert_eq!(update_transaction_count(&mut s, 3).unwrap(), 0);
    assert_eq!(update_transaction_count(&mut s, 4).unwrap(), 3);
    assert_eq!(get_transaction_count(&s), 7);
}

#[test]
fn average_block_time_is_replaced() {
    let mut s = fresh();
    assert_eq!(update_average_block_time(&mut s, 30).unwrap(), 0);
    assert_eq!(update_average_block_time(&mut s, 20).unwrap(), 30);
    assert_eq!(get_average_block_time(&s), 20);
}

#[test]
fn difficulty_is_replaced() {
    let mut s = fresh();
    assert_eq!(update_difficulty(&mut s, 27).unwrap(), 0);
    assert_eq!(update_difficulty(&mut s, 26).unwrap(), 27);
    assert_eq!(difficulty(&s), 26);
}

#[test]
fn counters_do_not_touch_each_other() {
    let mut s = fresh();
    add_burned_exe(&mut s, 1).unwrap();
    update_transaction_count(&mut s, 2).unwrap();
    update_average_block_time(&mut s, 3).unwrap();
    update_difficulty(&mut s, 4).unwrap();
    assert_eq!(get_burned_exe(&s), 1);
    assert_eq!(get_transaction_count(&s), 2);
    assert_eq!(get_average_block_time(&s), 3);
    assert_eq!(difficulty(&s), 4);
}

#[test]
fn current_block_holds_one_block() {
    let mut s = fresh();
    let mut a = Block::genesis();
    a.nonce = 1;
    let mut b = Block::genesis();
    b.nonce = 2;
    update_current_block(&mut s, a);
    update_current_block(&mut s, b.clone());
    let held = current_block(&s);
    assert_eq!(held.len(), 1);
    assert!(held[0] == b);
}

#[test]
fn blocks_mined_count_up_per_owner() {
    let mut s = fresh();
    add_block_mined(&mut s, who(&[1]));
    add_block_mined(&mut s, who(&[1]));
    add_block_mined(&mut s, who(&[2]));
    let mut all = get_users_to_block_mined(&s);
    all.sort_by(|a, b| a.0.as_slice().cmp(b.0.as_slice()));
    assert_eq!(all.len(), 2);
    assert!(all[0].0 == who(&[1]));
    assert_eq!(all[0].1, 2);
    assert!(all[1].0 == who(&[2]));
    assert_eq!(all[1].1, 1);
}

#[test]
fn updated_miners_keep_their_order() {
    let mut s = fresh();
    add_updated_miner(&mut s, who(&[3])).unwrap();
    add_updated_miner(&mut s, who(&[1, 1])).unwrap();
    add_updated_miner(&mut s, who(&[3])).unwrap();
    let all = get_all_updated_miners(&s);
    assert_eq!(all.len(), 3);
    assert!(all[0] == who(&[3]));
    assert!(all[1] == who(&[1, 1]));
    assert!(all[2] == who(&[3]));
}

#[test]
fn chain_appends_and_reads_back() {
    let mut s = fresh();
    let mut a = Block::genesis();
    a.hash = 11;
    let mut b = Block::genesis();
    b.hash = 22;
    assert_eq!(insert_block(&mut s, a.clone()), 0);
    assert_eq!(insert_block(&mut s, b.clone()), 1);
    assert_eq!(block_count(&s), 2);
    assert!(get_block(&s, 0).unwrap() == a);
    assert!(get_block(&s, 1).unwrap() == b);
    assert!(get_block(&s, 2).is_none());
    assert!(latest_block(&s).unwrap() == b);
    let all = all_blocks(&s);
    assert_eq!(all.len(), 2);
    assert!(all[0] == a);
    assert!(all[1] == b);
}

#[test]
fn used_payments_append_and_read_back() {
    let mut s = fresh();
    assert_eq!(insert_new_transaction(&mut s, 42).unwrap(), 0);
    assert_eq!(insert_new_transaction(&mut s, 7).unwrap(), 1);
    assert_eq!(insert_new_transaction(&mut s, u64::MAX).unwrap(), 2);
    assert_eq!(transaction_count(&s), 3);
    assert_eq!(get_transaction(&s, 0), Some(42));
    assert_eq!(get_transaction(&s, 1), Some(7));
    assert_eq!(get_transaction(&s, 2), Some(u64::MAX));
    assert_eq!(get_transaction(&s, 3), None);
    assert_eq!(get_all_transactions(&s), vec![42, 7, u64::MAX]);
}

#[test]
fn miners_are_stored_with_owner_and_index() {
    let mut s = fresh();
    insert_new_miner(&mut s, who(&[1]), who(&[9]), 5);
    insert_new_miner(&mut s, who(&[2]), who(&[9]), 6);
    insert_new_miner(&mut s, who(&[1]), who(&[8]), 7);
    assert_eq!(miner_count(&s), 2);
    assert!(get_miner_owner(&s, who(&[1])).unwrap() == who(&[8]));
    assert!(get_miner_owner(&s, who(&[2])).unwrap() == who(&[9]));
    assert!(get_miner_owner(&s, who(&[3])).is_none());
    let mut all = get_miner_to_owner_and_index(&s);
    all.sort_by(|a, b| a.miner.as_slice().cmp(b.miner.as_slice()));
    assert_eq!(all.len(), 2);
    assert!(all[0].miner == who(&[1]) && all[0].owner == who(&[8]) && all[0].index == 7);
    assert!(all[1].miner == who(&[2]) && all[1].owner == who(&[9]) && all[1].index == 6);
}

#[test]
fn balances_add_and_subtract() {
    let mut s = fresh();
    add_balance(&mut s, who(&[1]), 100);
    add_balance(&mut s, who(&[1]), 50);
    add_balance(&mut s, who(&[2]), 1);
    assert_eq!(get_balance(&s, who(&[1])), 150);
    sub_balance(&mut s, who(&[1]), 60);
    assert_eq!(get_balance(&s, who(&[1])), 90);
    assert_eq!(get_balance(&s, who(&[2])), 1);
}

#[test]
fn balance_does_not_go_below_zero() {
    let mut s = fresh();
    add_balance(&mut s, who(&[1]), 10);
    sub_balance(&mut s, who(&[1]), 11);
    assert_eq!(get_balance(&s, who(&[1])), 0);
    sub_balance(&mut s, who(&[5]), 3);
    assert_eq!(get_balance(&s, who(&[5])), 0);
}

#[test]
fn stats_append_and_read_back() {
    let mut s = fresh();
    let a = Stats { cycles_burned: 1, timestamp: 2, solve_time: 3, miner: who(&[9]) };
    let b = Stats { cycles_burned: 4, timestamp: 5, solve_time: 6, miner: who(&[8]) };
    assert_eq!(insert_stats(&mut s, a), 0);
    assert_eq!(insert_stats(&mut s, b), 1);
    let got = get_stat(&s, 1).unwrap();
    assert_eq!((got.cycles_burned, got.timestamp, got.solve_time), (4, 5, 6));
    assert!(got.miner == who(&[8]));
    assert!(get_stat(&s, 2).is_none());
    assert_eq!(get_stats(&s, 0).unwrap().solve_time, 3);
    assert_eq!(all_stats(&s).len(), 2);
    assert_eq!(all_stats(&s)[0].cycles_burned, 1);
}

#[test]
fn block_archive_appends_and_reads_back() {
    let mut s = fresh();
    assert!(archived_blocks(&s).is_empty());
    assert_eq!(archive_block(&mut s, &vec![1, 2, 3]).unwrap(), 0);
    assert_eq!(archive_block(&mut s, &vec![]).unwrap(), 1);
    assert_eq!(archive_block(&mut s, &vec![9; 300]).unwrap(), 2);
    assert_eq!(archived_blocks(&s), vec![vec![1, 2, 3], vec![], vec![9; 300]]);
    assert!(archived_stats(&s).is_empty());
    assert_eq!(block_count(&s), 0);
}

#[test]
fn stats_archive_appends_and_reads_back() {
    let mut s = fresh();
    assert_eq!(archive_stats(&mut s, &vec![4]).unwrap(), 0);
    assert_eq!(archive_stats(&mut s, &vec![5, 6]).unwrap(), 1);
    assert_eq!(archived_stats(&s), vec![vec![4], vec![5, 6]]);
    assert!(archived_blocks(&s).is_empty());
}

#[test]
fn template_archive_holds_the_last_record() {
    let mut s = fresh();
    assert!(archived_current_block(&s).is_empty());
    archive_current_block(&mut s, vec![1, 1]);
    archive_current_block(&mut s, vec![2]);
    assert_eq!(archived_current_block(&s), vec![vec![2]]);
}

#[test]
fn state_archive_gives_the_last_snapshot() {
    let mut s = fresh();
    assert!(get_last_state(&s).is_none());
    assert_eq!(add_state(&mut s, &vec![1]).unwrap(), 0);
    assert_eq!(add_state(&mut s, &vec![2, 3]).unwrap(), 1);
    assert_eq!(get_last_state(&s), Some(vec![2, 3]));
}

#[test]
fn mined_by_reads_the_count_of_one_owner() {
    let mut s = fresh();
    assert_eq!(mined_by(&s, who(&[1])), 0);
    add_block_mined(&mut s, who(&[1]));
    assert_eq!(mined_by(&s, who(&[1])), 1);
    assert_eq!(mined_by(&s, who(&[2])), 0);
}

fn opened() -> Opened {
    let s = fresh();
    Opened {
        miner_to_owner: s.miner_to_owner,
        tx_log: Ok(s.tx_log),
        chain_archive: Ok(s.chain_archive),
        user_to_balance: s.user_to_balance,
        stats_archive: Ok(s.stats_archive),
        state_archive: Ok(s.state_archive),
        burned_exe: Ok(s.burned_exe),
        transaction_count: Ok(s.transaction_count),
        average_block_time: Ok(s.average_block_time),
        difficulty: Ok(s.difficulty),
        current_block_archive: s.current_block_archive,
        user_to_block_mined: s.user_to_block_mined,
        updated_miners: Ok(s.updated_miners),
    }
}

fn log_failure() -> ic_stable_structures::log::InitError {
    ic_stable_structures::log::InitError::InvalidIndex
}

fn cell_failure() -> ic_stable_structures::cell::InitError {
    ic_stable_structures::cell::InitError::ValueTooLarge { value_size: 9 }
}

#[test]
fn readable_structures_are_put_together() {
    let mut s = Storage::assemble(opened()).ok().unwrap();
    assert_eq!(block_count(&s), 0);
    assert!(all_stats(&s).is_empty());
    assert!(current_block(&s).is_empty());
    add_burned_exe(&mut s, 3).unwrap();
    assert_eq!(get_burned_exe(&s), 3);
}

#[test]
fn assembly_keeps_what_the_structures_hold() {
    let mut first = fresh();
    add_burned_exe(&mut first, 4).unwrap();
    update_difficulty(&mut first, 30).unwrap();
    insert_new_transaction(&mut first, 8).unwrap();
    add_balance(&mut first, who(&[1]), 12);
    archive_block(&mut first, &vec![7]).unwrap();
    let parts = Opened {
        miner_to_owner: first.miner_to_owner,
        tx_log: Ok(first.tx_log),
        chain_archive: Ok(first.chain_archive),
        user_to_balance: first.user_to_balance,
        stats_archive: Ok(first.stats_archive),
        state_archive: Ok(first.state_archive),
        burned_exe: Ok(first.burned_exe),
        transaction_count: Ok(first.transaction_count),
        average_block_time: Ok(first.average_block_time),
        difficulty: Ok(first.difficulty),
        current_block_archive: first.current_block_archive,
        user_to_block_mined: first.user_to_block_mined,
        updated_miners: Ok(first.updated_miners),
    };
    let s = Storage::assemble(parts).ok().unwrap();
    assert_eq!(get_burned_exe(&s), 4);
    assert_eq!(difficulty(&s), 30);
    assert_eq!(get_all_transactions(&s), vec![8]);
    assert_eq!(get_balance(&s, who(&[1])), 12);
    assert_eq!(archived_blocks(&s), vec![vec![7]]);
}

#[test]
fn assembly_names_the_first_unreadable_structure() {
    let mut parts = opened();
    parts.tx_log = Err(log_failure());
    parts.chain_archive = Err(log_failure());
    assert_eq!(Storage::assemble(parts).err(), Some(StorageError::UsedPayments));

    let mut parts = opened();
    parts.chain_archive = Err(log_failure());
    parts.updated_miners = Err(ic_stable_structures::vec::InitError::OutOfMemory);
    assert_eq!(Storage::assemble(parts).err(), Some(StorageError::Chain));

    let mut parts = opened();
    parts.stats_archive = Err(log_failure());
    parts.difficulty = Err(cell_failure());
    assert_eq!(Storage::assemble(parts).err(), Some(StorageError::Stats));

    let mut parts = opened();
    parts.state_archive = Err(log_failure());
    assert_eq!(Storage::assemble(parts).err(), Some(StorageError::States));

    let mut parts = opened();
    parts.burned_exe = Err(cell_failure());
    parts.transaction_count = Err(cell_failure());
    assert_eq!(Storage::assemble(parts).err(), Some(StorageError::BurnedExe));

    let mut parts = opened();
    parts.transaction_count = Err(cell_failure());
    assert_eq!(Storage::assemble(parts).err(), Some(StorageError::TransactionCount));

    let mut parts = opened();
    parts.average_block_time = Err(cell_failure());
    parts.difficulty = Err(cell_failure());
    assert_eq!(Storage::assemble(parts).err(), Some(StorageError::AverageBlockTime));

    let mut parts = opened();
    parts.difficulty = Err(cell_failure());
    assert_eq!(Storage::assemble(parts).err(), Some(StorageError::Difficulty));

    let mut parts = opened();
    parts.updated_miners = Err(ic_stable_structures::vec::InitError::OutOfMemory);
    assert_eq!(Storage::assemble(parts).err(), Some(StorageError::UpdatedMiners));
}
