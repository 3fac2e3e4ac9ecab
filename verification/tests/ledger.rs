use windoge_pow::block::{Block, Stats, Transaction, TransactionArgs};
use windoge_pow::ledger::consensus::{average_block_time, next_difficulty};
use windoge_pow::ledger::miners::{
    check_creation_payment, check_topup_payment, creation_burn_amount, forwarded_cycles,
    payment_tokens,
};
use windoge_pow::ledger::{
    Assembly, Ledger, LedgerError, BLOCK_TIME, MAX_DIFFICULTY, MIN_DIFFICULTY, TRANSACTION_LIMIT,
};
use windoge_pow::memory::{
    add_balance, block_count, current_block, difficulty, get_all_transactions, get_balance,
    get_burned_exe, get_users_to_block_mined, miner_count, Storage,
};
use windoge_pow::miner::{search_chunk, xorshift_random};
use windoge_pow::principal::Principal;
use windoge_pow::state::{State, INIT_DIFFICULTY, SEC_NANOS};
use windoge_pow::upstream::{Account, Transaction1, Transfer};

fn acct(bytes: &[u8]) -> Principal {
    Principal::from_slice(bytes).unwrap()
}

fn a() -> Principal {
    acct(&[0xa])
}

fn b() -> Principal {
    acct(&[0xb])
}

fn owner() -> Principal {
    acct(&[0x10])
}

fn miner() -> Principal {
    acct(&[0x11])
}

fn me() -> Principal {
    acct(&[0xee])
}

fn new_ledger() -> Ledger {
    Ledger::init(Storage::open().unwrap())
}

fn ledger_with_miner() -> Ledger {
    let mut ledger = new_ledger();
    ledger.register_miner(miner(), owner(), 1);
    ledger
}

fn stats(solve_time: u64) -> Stats {
    Stats { cycles_burned: 10, timestamp: 2000, solve_time, miner: miner() }
}

fn solve(mut block: Block) -> Block {
    let step = search_chunk(&block.header, 42, 7, 0).unwrap();
    block.nonce = xorshift_random(42, step as u128, 7);
    block
}

fn transfer_entry(from: Principal, to: Principal, amount: u128) -> Transaction1 {
    Transaction1 {
        burn: None,
        kind: "transfer".to_string(),
        mint: None,
        timestamp: 0,
        index: 42,
        transfer: Some(Transfer {
            to: Account { owner: to, subaccount: None },
            fee: None,
            from: Account { owner: from, subaccount: None },
            memo: None,
            created_at_time: None,
            amount,
        }),
    }
}

/// A ledger where A holds `balance`, has asked to send `amount` to B, and
/// the template over that transaction is open at difficulty 1.
fn ledger_with_template(balance: u64, amount: u64) -> Ledger {
    let mut ledger = ledger_with_miner();
    add_balance(&mut ledger.storage, a(), balance);
    ledger.state.current_difficulty = 1;
    ledger
        .create_transaction(a(), me(), TransactionArgs { recipient: b(), amount }, 1000)
        .unwrap();
    assert_eq!(ledger.create_block(1234), Assembly::Published);
    ledger
}

#[test]
fn a_fresh_ledger_holds_the_genesis_block() {
    let ledger = new_ledger();
    let latest = ledger.get_latest_block().unwrap();
    assert_eq!(latest.header.height, 0);
    assert_eq!(latest.header.prev_hash, 0);
    assert_eq!(latest.hash, 0);
    assert_eq!(block_count(&ledger.storage), 1);
    assert!(latest == Block::genesis());
}

#[test]
fn a_new_ledger_starts_at_the_initial_difficulty() {
    let ledger = new_ledger();
    assert_eq!(ledger.get_difficulty(), INIT_DIFFICULTY);
    assert_eq!(ledger.get_difficulty(), 26);
    assert!(ledger.get_mempool().is_empty());
    assert!(ledger.get_current_block().is_none());
    assert_eq!(ledger.state.block_height, 0);
}

#[test]
fn no_template_is_built_from_an_empty_mempool() {
    let mut ledger = new_ledger();
    assert_eq!(ledger.create_block(1234), Assembly::Empty);
    assert!(ledger.get_current_block().is_none());
    assert!(current_block(&ledger.storage).is_empty());
}

#[test]
fn template_covers_the_whole_mempool() {
    let mut ledger = ledger_with_miner();
    add_balance(&mut ledger.storage, a(), 100);
    ledger.create_transaction(a(), me(), TransactionArgs { recipient: b(), amount: 10 }, 1).unwrap();
    ledger.create_transaction(a(), me(), TransactionArgs { recipient: b(), amount: 20 }, 2).unwrap();
    assert_eq!(ledger.create_block(1234), Assembly::Published);
    let block = ledger.get_current_block().unwrap();
    assert_eq!(block.header.height, 1);
    assert_eq!(block.header.prev_hash, 0);
    assert_eq!(block.header.timestamp, 1234);
    assert_eq!(block.header.difficulty, 26);
    assert_eq!(block.header.version, 1);
    assert_eq!(block.nonce, 0);
    assert_eq!(block.transactions.len(), 2);
    assert_eq!(block.header.merkle_root, Block::calculate_merkle_root(&block.transactions));
    let mut again = block.clone();
    again.calculate_block_hash();
    assert_eq!(again.hash, block.hash);
    assert_eq!(current_block(&ledger.storage).len(), 1);
    assert!(current_block(&ledger.storage)[0] == block);
    assert_eq!(ledger.get_mempool().len(), 2);
}

#[test]
fn a_solved_block_is_accepted_and_settled() {
    let mut ledger = ledger_with_template(100, 100);
    let block = solve(ledger.get_current_block().unwrap());
    assert_eq!(block.header.height, 1);
    assert_eq!(block.header.prev_hash, 0);
    let mints = ledger.submit_solution(miner(), me(), block.clone(), stats(5)).unwrap();
    assert!(mints.is_empty());
    assert_eq!(block_count(&ledger.storage), 2);
    let mut sealed = block.clone();
    sealed.calculate_block_hash();
    assert!(ledger.get_latest_block().unwrap() == sealed);
    assert_ne!(sealed.hash, block.hash);
    assert_eq!(ledger.get_balance_of(a()), 0);
    assert_eq!(ledger.get_balance_of(b()), 100);
    assert_eq!(ledger.get_balance_of(owner()), 60_000_000_000);
    assert_eq!(ledger.get_balance_of(miner()), 0);
    assert!(ledger.get_mempool().is_empty());
    assert_eq!(ledger.state.block_height, 1);
    assert_eq!(ledger.state.transaction_count, 1);
    assert_eq!(ledger.state.average_block_time, 5);
    assert_eq!(*ledger.state.pending_balance.get(&a()).unwrap(), 0);
    assert_eq!(*ledger.state.miner_to_mined_block.get(&owner()).unwrap(), 1);
    assert_eq!(*ledger.state.miner_to_burned_cycles.get(&miner()).unwrap(), 10);
    let mined = get_users_to_block_mined(&ledger.storage);
    assert_eq!(mined.len(), 1);
    assert!(mined[0].0 == owner() && mined[0].1 == 1);
}

#[test]
fn a_block_on_a_stale_tip_is_refused() {
    let mut ledger = ledger_with_template(100, 100);
    let block = solve(ledger.get_current_block().unwrap());
    ledger.submit_solution(miner(), me(), block.clone(), stats(5)).unwrap();
    assert_ne!(ledger.get_latest_block().unwrap().hash, 0);
    let again = ledger.submit_solution(miner(), me(), block, stats(5));
    assert_eq!(again, Err(LedgerError::OutdatedChain));
    assert_eq!(block_count(&ledger.storage), 2);
    assert_eq!(ledger.get_balance_of(owner()), 60_000_000_000);
}

#[test]
fn a_block_at_the_wrong_height_is_refused() {
    let mut ledger = ledger_with_template(100, 100);
    let mut block = ledger.get_current_block().unwrap();
    block.header.height = 2;
    let block = solve(block);
    assert_eq!(
        ledger.submit_solution(miner(), me(), block, stats(5)),
        Err(LedgerError::HeightMismatch)
    );
    assert_eq!(block_count(&ledger.storage), 1);
}

#[test]
fn a_block_with_too_little_work_is_refused() {
    let mut ledger = ledger_with_template(100, 100);
    let mut block = ledger.get_current_block().unwrap();
    block.header.difficulty = 26;
    assert!(block.search_hash().leading_zeros() < 26);
    let r = ledger.submit_solution(miner(), me(), block, stats(5));
    assert_eq!(r, Err(LedgerError::InvalidSolution));
    assert_eq!(r.unwrap_err().message(), "Invalid solution");
    assert_eq!(block_count(&ledger.storage), 1);
    assert_eq!(ledger.get_balance_of(a()), 100);
    assert_eq!(ledger.get_mempool().len(), 1);
}

#[test]
fn only_registered_miners_may_submit() {
    let mut ledger = ledger_with_template(100, 100);
    let block = solve(ledger.get_current_block().unwrap());
    assert_eq!(
        ledger.submit_solution(Principal::anonymous(), me(), block.clone(), stats(5)),
        Err(LedgerError::Anonymous)
    );
    assert_eq!(
        ledger.submit_solution(owner(), me(), block.clone(), stats(5)),
        Err(LedgerError::UnregisteredMiner)
    );
    assert_eq!(ledger.validate_solution(miner(), &block), Ok(()));
}

#[test]
fn validation_checks_in_order() {
    let ledger = ledger_with_template(100, 100);
    let mut block = ledger.get_current_block().unwrap();
    block.header.prev_hash = 9;
    block.header.height = 7;
    block.header.difficulty = 129;
    assert_eq!(ledger.validate_solution(miner(), &block), Err(LedgerError::OutdatedChain));
    block.header.prev_hash = 0;
    assert_eq!(ledger.validate_solution(miner(), &block), Err(LedgerError::HeightMismatch));
    block.header.height = 1;
    assert_eq!(ledger.validate_solution(miner(), &block), Err(LedgerError::InvalidSolution));
}

#[test]
fn the_reward_halves_every_17500_blocks() {
    let state = State::new();
    assert_eq!(state.current_rewards(0), 60_000_000_000);
    assert_eq!(state.current_rewards(17_499), 60_000_000_000);
    assert_eq!(state.current_rewards(17_500), 30_000_000_000);
    assert_eq!(state.current_rewards(34_999), 30_000_000_000);
    assert_eq!(state.current_rewards(35_000), 15_000_000_000);
    assert_eq!(state.current_rewards(17_500 * 35), 1);
    assert_eq!(state.current_rewards(17_500 * 36), 0);
    assert_eq!(state.current_rewards(17_500 * 64), 0);
    assert_eq!(state.current_rewards(u64::MAX), 0);
}

#[test]
fn rewards_and_halving_are_read_from_the_chain() {
    let ledger = new_ledger();
    assert_eq!(ledger.get_current_rewards(), 60_000_000_000);
    assert_eq!(ledger.get_next_halving(), 17_499);
}

#[test]
fn a_payment_creates_only_one_miner() {
    let mut ledger = new_ledger();
    assert_eq!(ledger.check_spawn(a(), 42), Ok(()));
    assert_eq!(
        check_creation_payment(&transfer_entry(a(), me(), 1_500_000_000), a(), me()),
        Ok(())
    );
    ledger.register_miner(miner(), a(), 42);
    let again = ledger.check_spawn(a(), 42);
    assert_eq!(again, Err(LedgerError::AlreadyProcessed));
    assert_eq!(again.unwrap_err().message(), "transaction already processed");
    assert_eq!(ledger.check_spawn(b(), 42), Err(LedgerError::AlreadyProcessed));
    assert_eq!(ledger.check_spawn(a(), 43), Ok(()));
}

#[test]
fn a_registered_miner_is_bound_and_stored() {
    let mut ledger = new_ledger();
    ledger.register_miner(miner(), owner(), 42);
    ledger.register_miner(acct(&[0x12]), owner(), 43);
    assert!(*ledger.state.miner_to_owner.get(&miner()).unwrap() == owner());
    let miners = ledger.get_miners(owner());
    assert_eq!(miners.len(), 2);
    assert!(miners[0] == miner());
    assert!(miners[1] == acct(&[0x12]));
    assert!(ledger.get_miners(a()).is_empty());
    assert_eq!(miner_count(&ledger.storage), 2);
    assert_eq!(get_all_transactions(&ledger.storage), vec![42, 43]);
    assert!(ledger.state.miner_creation_transactions.contains(&42));
}

#[test]
fn spawn_is_refused_for_the_anonymous_caller() {
    let ledger = new_ledger();
    assert_eq!(ledger.check_spawn(Principal::anonymous(), 1), Err(LedgerError::Anonymous));
}

#[test]
fn creation_payment_must_be_a_large_enough_transfer_from_the_caller_to_the_ledger() {
    let good = transfer_entry(a(), me(), 1_500_000_000);
    assert_eq!(check_creation_payment(&good, a(), me()), Ok(()));
    assert_eq!(check_creation_payment(&good, b(), me()), Err(LedgerError::NotFromCaller));
    assert_eq!(check_creation_payment(&good, a(), b()), Err(LedgerError::NotToLedger));
    let low = transfer_entry(a(), me(), 1_499_999_999);
    assert_eq!(check_creation_payment(&low, a(), me()), Err(LedgerError::AmountTooLow));
    assert_eq!(check_creation_payment(&low, a(), b()), Err(LedgerError::AmountTooLow));
    let huge = transfer_entry(a(), me(), u128::MAX);
    assert_eq!(check_creation_payment(&huge, a(), me()), Ok(()));
    let mut none = transfer_entry(a(), me(), 1_500_000_000);
    none.transfer = None;
    assert_eq!(check_creation_payment(&none, a(), me()), Err(LedgerError::ExpectedTransfer));
}

#[test]
fn forty_percent_of_the_creation_amount_is_burned() {
    assert_eq!(creation_burn_amount(), 600_000_000);
}

#[test]
fn burns_are_counted() {
    let mut ledger = new_ledger();
    ledger.record_burn(600_000_000);
    ledger.record_burn(5);
    assert_eq!(ledger.state.exe_burned, 600_000_005);
    assert_eq!(get_burned_exe(&ledger.storage), 600_000_005);
}

#[test]
fn topup_needs_a_registered_miner_and_a_fresh_payment() {
    let mut ledger = ledger_with_miner();
    assert_eq!(ledger.check_topup(Principal::anonymous(), miner(), 5), Err(LedgerError::Anonymous));
    assert_eq!(ledger.check_topup(a(), a(), 5), Err(LedgerError::MinerNotFound));
    assert_eq!(ledger.check_topup(a(), miner(), 1), Err(LedgerError::AlreadyProcessed));
    assert_eq!(ledger.check_topup(a(), miner(), 5), Ok(()));
    ledger.finish_topup(5);
    assert_eq!(ledger.check_topup(a(), miner(), 5), Err(LedgerError::AlreadyProcessed));
    assert_eq!(get_all_transactions(&ledger.storage), vec![1, 5]);
}

#[test]
fn topup_payment_burns_a_tenth() {
    let good = transfer_entry(a(), me(), 1_000);
    assert_eq!(check_topup_payment(&good, a(), me()), Ok(100));
    assert_eq!(check_topup_payment(&transfer_entry(a(), me(), 19), a(), me()), Ok(1));
    assert_eq!(check_topup_payment(&good, b(), me()), Err(LedgerError::NotFromCaller));
    assert_eq!(check_topup_payment(&good, a(), b()), Err(LedgerError::NotToLedger));
    let mut none = transfer_entry(a(), me(), 1_000);
    none.transfer = None;
    assert_eq!(check_topup_payment(&none, a(), me()), Err(LedgerError::ExpectedTransfer));
    let edge = transfer_entry(a(), me(), (u64::MAX as u128) * 10 + 9);
    assert_eq!(check_topup_payment(&edge, a(), me()), Ok(u64::MAX));
    let over = transfer_entry(a(), me(), (u64::MAX as u128) * 10 + 10);
    assert_eq!(check_topup_payment(&over, a(), me()), Err(LedgerError::AmountTooLarge));
}

#[test]
fn payment_tokens_must_fit_in_64_bits() {
    assert_eq!(payment_tokens(0), Ok(0));
    assert_eq!(payment_tokens(u64::MAX as u128), Ok(u64::MAX));
    assert_eq!(payment_tokens(u64::MAX as u128 + 1), Err(LedgerError::AmountTooLarge));
}

#[test]
fn eighty_percent_of_the_cycles_are_forwarded() {
    assert_eq!(forwarded_cycles(100), 80);
    assert_eq!(forwarded_cycles(0), 0);
    assert_eq!(forwarded_cycles(4), 3);
    assert_eq!(forwarded_cycles(u64::MAX), ((u64::MAX as u128) * 80 / 100) as u64);
}

#[test]
fn a_reservation_blocks_a_second_spend_until_the_first_is_settled() {
    let mut ledger = ledger_with_miner();
    add_balance(&mut ledger.storage, a(), 100);
    ledger.state.current_difficulty = 1;
    let sixty = TransactionArgs { recipient: b(), amount: 60 };
    assert_eq!(ledger.create_transaction(a(), me(), sixty, 1), Ok(()));
    let second = ledger.create_transaction(a(), me(), sixty, 2);
    assert_eq!(second, Err(LedgerError::InsufficientBalance));
    assert_eq!(second.unwrap_err().message(), "insufficient balance");
    assert_eq!(*ledger.state.pending_balance.get(&a()).unwrap(), 60);
    assert_eq!(ledger.get_mempool().len(), 1);
    assert_eq!(ledger.create_block(1234), Assembly::Published);
    let block = solve(ledger.get_current_block().unwrap());
    ledger.submit_solution(miner(), me(), block, stats(5)).unwrap();
    assert_eq!(ledger.get_balance_of(a()), 40);
    assert_eq!(*ledger.state.pending_balance.get(&a()).unwrap(), 0);
    let forty = TransactionArgs { recipient: b(), amount: 40 };
    assert_eq!(ledger.create_transaction(a(), me(), forty, 3), Ok(()));
    let one = TransactionArgs { recipient: b(), amount: 1 };
    assert_eq!(ledger.create_transaction(a(), me(), one, 4), Err(LedgerError::InsufficientBalance));
}

#[test]
fn admission_reserves_and_appends() {
    let mut ledger = new_ledger();
    add_balance(&mut ledger.storage, a(), 100);
    ledger.create_transaction(a(), me(), TransactionArgs { recipient: b(), amount: 30 }, 77).unwrap();
    let pool = ledger.get_mempool();
    assert_eq!(pool.len(), 1);
    assert!(
        pool[0] == Transaction { sender: a(), recipient: b(), amount: 30, timestamp: 77 }
    );
    assert_eq!(*ledger.state.pending_balance.get(&a()).unwrap(), 30);
    assert_eq!(get_balance(&ledger.storage, a()), 100);
    assert!(get_balance(&ledger.storage, a()) >= *ledger.state.pending_balance.get(&a()).unwrap());
}

#[test]
fn admission_is_refused_for_the_anonymous_caller() {
    let mut ledger = new_ledger();
    let r = ledger.create_transaction(
        Principal::anonymous(),
        me(),
        TransactionArgs { recipient: b(), amount: 0 },
        1,
    );
    assert_eq!(r, Err(LedgerError::Anonymous));
    assert_eq!(r.unwrap_err().message(), "caller is anonymous");
}

#[test]
fn admission_does_not_overflow_on_huge_amounts() {
    let mut ledger = new_ledger();
    add_balance(&mut ledger.storage, a(), 100);
    ledger.create_transaction(a(), me(), TransactionArgs { recipient: b(), amount: 10 }, 1).unwrap();
    let r = ledger.create_transaction(
        a(),
        me(),
        TransactionArgs { recipient: b(), amount: u64::MAX },
        2,
    );
    assert_eq!(r, Err(LedgerError::InsufficientBalance));
}

#[test]
fn a_request_to_mint_nothing_is_refused() {
    let mut ledger = new_ledger();
    let r = ledger.create_transaction(a(), me(), TransactionArgs { recipient: me(), amount: 0 }, 1);
    assert_eq!(r, Err(LedgerError::ZeroAmount));
    assert_eq!(r.unwrap_err().message(), "amount must be greater than 0");
    assert_eq!(
        ledger.create_transaction(a(), me(), TransactionArgs { recipient: b(), amount: 0 }, 1),
        Ok(())
    );
}

#[test]
fn the_mempool_refuses_once_it_holds_more_than_the_limit() {
    let mut ledger = new_ledger();
    add_balance(&mut ledger.storage, a(), 1000);
    let one = TransactionArgs { recipient: b(), amount: 1 };
    for i in 0..TRANSACTION_LIMIT as u64 {
        assert_eq!(ledger.create_transaction(a(), me(), one, i), Ok(()));
        assert!(ledger.get_mempool().len() <= TRANSACTION_LIMIT);
    }
    assert_eq!(ledger.get_mempool().len(), 150);
    assert_eq!(ledger.create_transaction(a(), me(), one, 150), Ok(()));
    assert_eq!(ledger.get_mempool().len(), 151);
    let r = ledger.create_transaction(a(), me(), one, 151);
    assert_eq!(r, Err(LedgerError::Congested));
    assert_eq!(
        r.unwrap_err().message(),
        "network is congested, transactions can be processed in next block"
    );
    assert_eq!(ledger.get_mempool().len(), 151);
}

#[test]
fn a_mint_request_is_returned_and_settled_later() {
    let mut ledger = ledger_with_miner();
    add_balance(&mut ledger.storage, a(), 100);
    ledger.state.current_difficulty = 1;
    ledger.create_transaction(a(), me(), TransactionArgs { recipient: me(), amount: 25 }, 1).unwrap();
    ledger.create_transaction(a(), me(), TransactionArgs { recipient: b(), amount: 5 }, 2).unwrap();
    ledger.create_block(1234);
    let block = solve(ledger.get_current_block().unwrap());
    let mints = ledger.submit_solution(miner(), me(), block, stats(5)).unwrap();
    assert_eq!(mints.len(), 1);
    assert!(mints[0] == Transaction { sender: a(), recipient: me(), amount: 25, timestamp: 1 });
    assert_eq!(ledger.get_balance_of(a()), 95);
    assert_eq!(ledger.get_balance_of(me()), 0);
    assert_eq!(ledger.get_balance_of(b()), 5);
    ledger.mint_settled(&mints[0]);
    assert_eq!(ledger.get_balance_of(a()), 70);
}

#[test]
fn a_commit_takes_only_the_first_matching_transaction_out_of_the_mempool() {
    let mut ledger = ledger_with_miner();
    add_balance(&mut ledger.storage, a(), 100);
    ledger.state.current_difficulty = 1;
    let ten = TransactionArgs { recipient: b(), amount: 10 };
    ledger.create_transaction(a(), me(), ten, 1).unwrap();
    ledger.create_block(1234);
    ledger.create_transaction(a(), me(), ten, 1).unwrap();
    ledger.create_transaction(a(), me(), ten, 2).unwrap();
    let block = solve(ledger.get_current_block().unwrap());
    ledger.submit_solution(miner(), me(), block, stats(5)).unwrap();
    let pool = ledger.get_mempool();
    assert_eq!(pool.len(), 2);
    assert_eq!(pool[0].timestamp, 1);
    assert_eq!(pool[1].timestamp, 2);
    assert_eq!(*ledger.state.pending_balance.get(&a()).unwrap(), 20);
    assert_eq!(ledger.get_balance_of(a()), 90);
}

#[test]
fn difficulty_rises_after_a_fast_block() {
    assert_eq!(next_difficulty(26, 0), 27);
    assert_eq!(next_difficulty(26, BLOCK_TIME - 61 * SEC_NANOS), 27);
    assert_eq!(next_difficulty(26, BLOCK_TIME - 60 * SEC_NANOS - 999_999_999), 26);
    assert_eq!(next_difficulty(26, BLOCK_TIME - 60 * SEC_NANOS), 26);
    assert_eq!(next_difficulty(MAX_DIFFICULTY, 0), MAX_DIFFICULTY);
    assert_eq!(next_difficulty(47, 0), 48);
}

#[test]
fn difficulty_falls_after_a_slow_block() {
    assert_eq!(next_difficulty(26, u64::MAX), 25);
    assert_eq!(next_difficulty(26, BLOCK_TIME + 61 * SEC_NANOS), 25);
    assert_eq!(next_difficulty(26, BLOCK_TIME + 60 * SEC_NANOS), 26);
    assert_eq!(next_difficulty(26, BLOCK_TIME), 26);
    assert_eq!(next_difficulty(MIN_DIFFICULTY, u64::MAX), MIN_DIFFICULTY);
    assert_eq!(next_difficulty(25, u64::MAX), 24);
}

#[test]
fn a_commit_retargets_and_stores_the_difficulty() {
    let mut ledger = ledger_with_template(100, 100);
    ledger.state.current_difficulty = 26;
    let block = solve(ledger.get_current_block().unwrap());
    ledger.submit_solution(miner(), me(), block, stats(5)).unwrap();
    assert_eq!(ledger.get_difficulty(), 27);
    assert_eq!(difficulty(&ledger.storage), 27);
}

#[test]
fn average_block_time_is_the_running_mean() {
    assert_eq!(average_block_time(0, 1, 500), 500);
    assert_eq!(average_block_time(500, 2, 100), 300);
    assert_eq!(average_block_time(300, 3, 301), 300);
    assert_eq!(average_block_time(u64::MAX, u64::MAX, u64::MAX), u64::MAX);
    assert_eq!(average_block_time(u64::MAX, 2, 0), u64::MAX / 2);
}

#[test]
fn a_restart_rebuilds_the_state_from_what_is_kept() {
    let mut ledger = ledger_with_template(100, 100);
    ledger.state.current_difficulty = 26;
    let template = ledger.get_current_block().unwrap();
    let block = solve(template.clone());
    ledger.submit_solution(miner(), me(), block, stats(5)).unwrap();
    ledger.record_burn(9);
    ledger.register_miner(acct(&[0x12]), owner(), 2);
    let restored = Ledger::post_upgrade(ledger.storage);
    assert_eq!(restored.state.current_difficulty, 27);
    assert_eq!(restored.state.exe_burned, 9);
    assert_eq!(restored.state.transaction_count, 1);
    assert_eq!(restored.state.average_block_time, 5);
    assert_eq!(restored.state.block_height, 1);
    assert!(restored.state.current_block.as_ref().unwrap() == &template);
    assert!(*restored.state.miner_to_owner.get(&miner()).unwrap() == owner());
    assert_eq!(restored.get_miners(owner()).len(), 2);
    assert!(restored.state.miner_creation_transactions.contains(&1));
    assert!(restored.state.miner_creation_transactions.contains(&2));
    assert_eq!(*restored.state.miner_to_mined_block.get(&owner()).unwrap(), 1);
    assert!(restored.get_mempool().is_empty());
    assert!(restored.state.pending_balance.get(&a()).is_none());
    assert_eq!(restored.get_balance_of(b()), 100);
    assert_eq!(block_count(&restored.storage), 2);
}

#[test]
fn a_restart_before_any_retarget_keeps_the_initial_difficulty() {
    let ledger = new_ledger();
    assert_eq!(difficulty(&ledger.storage), 26);
    let restored = Ledger::post_upgrade(ledger.storage);
    assert_eq!(restored.state.current_difficulty, 26);
}

#[test]
fn a_restart_takes_a_stored_difficulty_only_within_the_bounds() {
    for (stored, taken) in [(0u64, 26u32), (23, 26), (24, 24), (48, 48), (49, 26), (1 << 32, 26), ((1 << 32) + 30, 26)] {
        let mut ledger = new_ledger();
        windoge_pow::memory::update_difficulty(&mut ledger.storage, stored).unwrap();
        let restored = Ledger::post_upgrade(ledger.storage);
        assert_eq!(restored.state.current_difficulty, taken);
    }
}

#[test]
fn every_error_has_its_message() {
    assert_eq!(LedgerError::Anonymous.message(), "caller is anonymous");
    assert_eq!(LedgerError::UnregisteredMiner.message(), "Unregistered miner");
    assert_eq!(LedgerError::OutdatedChain.message(), "Block references outdated chain state");
    assert_eq!(LedgerError::HeightMismatch.message(), "Block height mismatch");
    assert_eq!(LedgerError::InvalidSolution.message(), "Invalid solution");
    assert_eq!(LedgerError::InsufficientBalance.message(), "insufficient balance");
    assert_eq!(LedgerError::ZeroAmount.message(), "amount must be greater than 0");
    assert_eq!(LedgerError::AlreadyProcessed.message(), "transaction already processed");
    assert_eq!(LedgerError::ExpectedTransfer.message(), "expected transfer");
    assert_eq!(LedgerError::NotFromCaller.message(), "transfer not from caller");
    assert_eq!(LedgerError::AmountTooLow.message(), "transfer amount too low");
    assert_eq!(LedgerError::NotToLedger.message(), "transfer not to BIL canister");
    assert_eq!(LedgerError::MinerNotFound.message(), "miner not found");
    assert_eq!(LedgerError::AmountTooLarge.message(), "Failed to convert Nat to u64");
    assert_eq!(LedgerError::OutOfRange.message(), "a count or a balance is out of range");
}

#[test]
fn a_commit_that_fits_can_be_committed() {
    let mut ledger = ledger_with_template(100, 100);
    let block = solve(ledger.get_current_block().unwrap());
    assert_eq!(ledger.validate_solution(miner(), &block), Ok(()));
    assert!(ledger.can_commit(miner(), me(), &block, &stats(5)));
    let mints = ledger.commit(miner(), me(), block, stats(5));
    assert!(mints.is_empty());
    assert_eq!(block_count(&ledger.storage), 2);
    assert_eq!(ledger.get_balance_of(b()), 100);
}

#[test]
fn a_commit_that_would_overflow_a_balance_cannot_be_committed() {
    let mut ledger = ledger_with_template(100, 100);
    add_balance(&mut ledger.storage, b(), u64::MAX - 99);
    let block = solve(ledger.get_current_block().unwrap());
    assert!(!ledger.can_commit(miner(), me(), &block, &stats(5)));
}

#[test]
fn a_commit_that_would_overflow_the_reward_cannot_be_committed() {
    let mut ledger = ledger_with_template(100, 100);
    add_balance(&mut ledger.storage, owner(), u64::MAX - 60_000_000_000 + 1);
    let block = solve(ledger.get_current_block().unwrap());
    assert!(!ledger.can_commit(miner(), me(), &block, &stats(5)));
    let mut other = ledger_with_template(100, 100);
    add_balance(&mut other.storage, owner(), u64::MAX - 60_000_000_000);
    assert!(other.can_commit(miner(), me(), &block, &stats(5)));
}

#[test]
fn a_commit_that_would_release_more_than_is_reserved_cannot_be_committed() {
    let mut ledger = ledger_with_template(100, 100);
    let mut block = ledger.get_current_block().unwrap();
    block.transactions.push(block.transactions[0]);
    assert!(!ledger.can_commit(miner(), me(), &block, &stats(5)));
    block.transactions.pop();
    assert!(ledger.can_commit(miner(), me(), &block, &stats(5)));
    let mut huge = stats(5);
    huge.cycles_burned = u64::MAX;
    assert!(ledger.can_commit(miner(), me(), &block, &huge));
    ledger.state.miner_to_burned_cycles.insert(miner(), 1);
    assert!(!ledger.can_commit(miner(), me(), &block, &huge));
}

#[test]
fn a_sender_may_receive_and_spend_within_one_block() {
    let mut ledger = ledger_with_miner();
    add_balance(&mut ledger.storage, a(), 50);
    add_balance(&mut ledger.storage, b(), 10);
    ledger.state.current_difficulty = 1;
    ledger.create_transaction(a(), me(), TransactionArgs { recipient: b(), amount: 50 }, 1).unwrap();
    ledger.create_transaction(b(), me(), TransactionArgs { recipient: a(), amount: 10 }, 2).unwrap();
    ledger.create_block(1234);
    let block = solve(ledger.get_current_block().unwrap());
    assert!(ledger.can_commit(miner(), me(), &block, &stats(5)));
    ledger.submit_solution(miner(), me(), block, stats(5)).unwrap();
    assert_eq!(ledger.get_balance_of(a()), 10);
    assert_eq!(ledger.get_balance_of(b()), 50);
}

#[test]
fn committed_blocks_are_chained_and_meet_their_difficulty() {
    let mut ledger = ledger_with_miner();
    add_balance(&mut ledger.storage, a(), 100);
    for round in 0..3u64 {
        ledger.state.current_difficulty = 2;
        ledger
            .create_transaction(a(), me(), TransactionArgs { recipient: b(), amount: 10 }, round)
            .unwrap();
        assert_eq!(ledger.create_block(1000 + round), Assembly::Published);
        let block = solve(ledger.get_current_block().unwrap());
        ledger.submit_solution(miner(), me(), block, stats(5)).unwrap();
    }
    let chain = windoge_pow::memory::all_blocks(&ledger.storage);
    assert_eq!(chain.len(), 4);
    for h in 1..chain.len() {
        assert_eq!(chain[h].header.prev_hash, chain[h - 1].hash);
        assert_eq!(chain[h].header.height, h as u64);
    }
    for block in &chain {
        assert!(block.search_hash().leading_zeros() >= block.header.difficulty);
    }
    assert_eq!(ledger.get_balance_of(owner()), 180_000_000_000);
    assert_eq!(ledger.state.transaction_count, 3);
    assert_eq!(windoge_pow::memory::all_stats(&ledger.storage).len(), 3);
}

fn ledger_at_height(length: usize) -> Ledger {
    let mut ledger = ledger_with_miner();
    let mut chain = Vec::new();
    for h in 0..length {
        let mut block = Block::genesis();
        block.header.height = h as u64;
        chain.push(block);
    }
    ledger.storage.load(chain, Vec::new(), None);
    add_balance(&mut ledger.storage, a(), 100);
    ledger.state.current_difficulty = 1;
    ledger
        .create_transaction(a(), me(), TransactionArgs { recipient: b(), amount: 1 }, 1)
        .unwrap();
    assert_eq!(ledger.create_block(1234), Assembly::Published);
    ledger
}

#[test]
fn the_block_before_a_halving_is_paid_the_full_reward() {
    let mut ledger = ledger_at_height(17_499);
    let block = solve(ledger.get_current_block().unwrap());
    assert_eq!(block.header.height, 17_499);
    ledger.submit_solution(miner(), me(), block, stats(5)).unwrap();
    assert_eq!(ledger.get_balance_of(owner()), 60_000_000_000);
    assert_eq!(ledger.get_current_rewards(), 30_000_000_000);
}

#[test]
fn the_block_at_a_halving_is_paid_half() {
    let mut ledger = ledger_at_height(17_500);
    let block = solve(ledger.get_current_block().unwrap());
    assert_eq!(block.header.height, 17_500);
    ledger.submit_solution(miner(), me(), block, stats(5)).unwrap();
    assert_eq!(ledger.get_balance_of(owner()), 30_000_000_000);
}

#[test]
fn a_committed_block_carries_its_full_hash() {
    let mut ledger = ledger_with_template(100, 100);
    let mut block = solve(ledger.get_current_block().unwrap());
    block.hash = 12345;
    ledger.submit_solution(miner(), me(), block.clone(), stats(5)).unwrap();
    let stored = ledger.get_latest_block().unwrap();
    let mut again = stored.clone();
    again.calculate_block_hash();
    assert_eq!(stored.hash, again.hash);
    assert_ne!(stored.hash, 12345);
    assert_eq!(stored.nonce, block.nonce);
    assert_eq!(stored.header, block.header);
}

#[test]
fn the_count_of_miners_grows_by_one_for_a_new_miner() {
    let mut ledger = new_ledger();
    assert_eq!(miner_count(&ledger.storage), 0);
    ledger.register_miner(miner(), owner(), 1);
    assert_eq!(miner_count(&ledger.storage), 1);
    ledger.register_miner(miner(), a(), 2);
    assert_eq!(miner_count(&ledger.storage), 1);
    ledger.register_miner(acct(&[0x12]), a(), 3);
    assert_eq!(miner_count(&ledger.storage), 2);
}

#[test]
fn a_valid_block_whose_commit_would_overflow_is_refused_and_changes_nothing() {
    let mut ledger = ledger_with_template(100, 100);
    add_balance(&mut ledger.storage, b(), u64::MAX - 99);
    let block = solve(ledger.get_current_block().unwrap());
    assert_eq!(
        ledger.submit_solution(miner(), me(), block, stats(5)),
        Err(LedgerError::OutOfRange)
    );
    assert_eq!(block_count(&ledger.storage), 1);
    assert_eq!(ledger.get_balance_of(a()), 100);
    assert_eq!(ledger.get_balance_of(owner()), 0);
    assert_eq!(ledger.get_mempool().len(), 1);
    assert_eq!(ledger.state.transaction_count, 0);
}

#[test]
fn no_template_is_built_without_a_block_to_build_on() {
    let mut ledger = ledger_with_miner();
    add_balance(&mut ledger.storage, a(), 100);
    ledger.create_transaction(a(), me(), TransactionArgs { recipient: b(), amount: 1 }, 1).unwrap();
    ledger.storage.load(Vec::new(), Vec::new(), None);
    assert_eq!(ledger.create_block(1234), Assembly::Fault);
    assert!(ledger.get_current_block().is_none());
    let mut tip = Block::genesis();
    tip.header.height = u64::MAX;
    ledger.storage.load(vec![tip], Vec::new(), None);
    assert_eq!(ledger.create_block(1234), Assembly::Fault);
    assert!(ledger.get_current_block().is_none());
}
