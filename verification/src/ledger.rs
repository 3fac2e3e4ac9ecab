//! The ledger: block validation and commit, difficulty control, mempool
//! admission and the bookkeeping of miners.
//!
//! Every operation takes the caller, the ledger's own identifier and the
//! time as plain values.  What has to wait for another party (a payment
//! looked up on the token ledger, a miner created, tokens burned) is done by
//! the host between two operations of the ledger.

use vstd::prelude::*;
use crate::block::Block;
use crate::memory::{block_count, get_balance, latest_block, Storage};
use crate::principal::Principal;
use crate::state::{blocks_to_halving, reward_at, State, BLOCK_HALVING};

pub mod commit;
pub mod consensus;
pub mod mempool;
pub mod miners;
pub mod restart;
pub mod settlement;

verus! {

/// The time a block is meant to take, in nanoseconds: five minutes.
pub const BLOCK_TIME: u64 = 300_000_000_000;

/// The highest difficulty.
pub const MAX_DIFFICULTY: u32 = 48;

/// The lowest difficulty.
pub const MIN_DIFFICULTY: u32 = 24;

/// The mempool takes no transaction while it holds more than this many.
pub const TRANSACTION_LIMIT: usize = 150;

/// What a payment has to amount to at least for a miner to be created.
pub const WINDOGE_MINER_CREATION_AMOUNT: u64 = 1_500_000_000;

/// The cycles a new miner is created with.
pub const MINER_CREATION_CYCLES: u64 = 2_500_000_000_000;

/// The seconds after which assembly is tried again when the mempool is empty.
pub const EMPTY_MEMPOOL_RETRY_SECS: u64 = 20;

/// The seconds between a commit and the assembly of the next template.
pub const NEXT_BLOCK_DELAY_SECS: u64 = 1;

/// Why the ledger refused a request.
#[derive(Clone, Copy, Debug, PartialEq, Eq, Structural)]
pub enum LedgerError {
    /// The caller is the anonymous identifier.
    Anonymous,
    /// The caller is not a registered miner.
    UnregisteredMiner,
    /// The block does not build on the last committed block.
    OutdatedChain,
    /// The block's height is not the next one.
    HeightMismatch,
    /// The block's search hash has too few leading zeros.
    InvalidSolution,
    /// The caller's balance does not cover what it has reserved and the amount.
    InsufficientBalance,
    /// The mempool is full.
    Congested,
    /// A request to mint nothing.
    ZeroAmount,
    /// The payment was used before.
    AlreadyProcessed,
    /// The payment is not a transfer.
    ExpectedTransfer,
    /// The payment was not made by the caller.
    NotFromCaller,
    /// The payment is smaller than a miner costs.
    AmountTooLow,
    /// The payment was not made to the ledger.
    NotToLedger,
    /// The miner to top up is not registered.
    MinerNotFound,
    /// An amount does not fit in 64 bits.
    AmountTooLarge,
    /// A count or a balance would leave 64 bits.
    OutOfRange,
}

impl LedgerError {
    /// The short reason that the caller is given.
    pub open spec fn message_spec(self) -> Seq<char> {
        match self {
            LedgerError::Anonymous => "caller is anonymous"@,
            LedgerError::UnregisteredMiner => "Unregistered miner"@,
            LedgerError::OutdatedChain => "Block references outdated chain state"@,
            LedgerError::HeightMismatch => "Block height mismatch"@,
            LedgerError::InvalidSolution => "Invalid solution"@,
            LedgerError::InsufficientBalance => "insufficient balance"@,
            LedgerError::Congested => {
                "network is congested, transactions can be processed in next block"@
            },
            LedgerError::ZeroAmount => "amount must be greater than 0"@,
            LedgerError::AlreadyProcessed => "transaction already processed"@,
            LedgerError::ExpectedTransfer => "expected transfer"@,
            LedgerError::NotFromCaller => "transfer not from caller"@,
            LedgerError::AmountTooLow => "transfer amount too low"@,
            LedgerError::NotToLedger => "transfer not to BIL canister"@,
            LedgerError::MinerNotFound => "miner not found"@,
            LedgerError::AmountTooLarge => "Failed to convert Nat to u64"@,
            LedgerError::OutOfRange => "a count or a balance is out of range"@,
        }
    }

    /// The short reason that the caller is given.
    pub fn message(&self) -> (r: &'static str)
        ensures
            r@ == self.message_spec(),
    {
        match self {
            LedgerError::Anonymous => "caller is anonymous",
            LedgerError::UnregisteredMiner => "Unregistered miner",
            LedgerError::OutdatedChain => "Block references outdated chain state",
            LedgerError::HeightMismatch => "Block height mismatch",
            LedgerError::InvalidSolution => "Invalid solution",
            LedgerError::InsufficientBalance => "insufficient balance",
            LedgerError::Congested => {
                "network is congested, transactions can be processed in next block"
            },
            LedgerError::ZeroAmount => "amount must be greater than 0",
            LedgerError::AlreadyProcessed => "transaction already processed",
            LedgerError::ExpectedTransfer => "expected transfer",
            LedgerError::NotFromCaller => "transfer not from caller",
            LedgerError::AmountTooLow => "transfer amount too low",
            LedgerError::NotToLedger => "transfer not to BIL canister",
            LedgerError::MinerNotFound => "miner not found",
            LedgerError::AmountTooLarge => "Failed to convert Nat to u64",
            LedgerError::OutOfRange => "a count or a balance is out of range",
        }
    }
}

/// What became of an attempt to assemble the next template.
#[derive(Clone, Copy, Debug, PartialEq, Eq, Structural)]
pub enum Assembly {
    /// The mempool is empty: nothing was built, and assembly is to be tried
    /// again after 20 seconds.
    Empty,
    /// A new template was published.
    Published,
    /// There is no block to build on, or the next height does not fit in
    /// 64 bits: nothing was built.
    Fault,
}

/// The ledger: its working state and what it keeps.
pub struct Ledger {
    pub state: State,
    pub storage: Storage,
}

impl Ledger {
    /// The current difficulty.
    pub fn get_difficulty(&self) -> (r: u32)
        ensures
            r == self.state@.current_difficulty,
    {
        self.state.current_difficulty
    }

    /// The reward for the next block.
    pub fn get_current_rewards(&self) -> (r: u64)
        ensures
            r == reward_at(self.storage@.chain.len() as u64),
    {
        self.state.current_rewards(block_count(&self.storage))
    }

    /// The open template, if there is one.
    pub fn get_current_block(&self) -> (r: Option<Block>)
        ensures
            r is Some <==> self.state@.current_block is Some,
            r is Some ==> r->0@ == self.state@.current_block->0,
    {
        match &self.state.current_block {
            Some(block) => Some(block.clone()),
            None => None,
        }
    }

    /// The number of blocks still to be mined before the reward halves next.
    pub fn get_next_halving(&self) -> (r: u64)
        ensures
            r == blocks_to_halving(self.storage@.chain.len() as u64),
    {
        let mined_blocks = block_count(&self.storage);
        BLOCK_HALVING - (mined_blocks % BLOCK_HALVING)
    }

    /// The balance of an account.
    pub fn get_balance_of(&self, user: Principal) -> (r: u64)
        ensures
            r == self.storage@.balance_of(user@),
    {
        get_balance(&self.storage, user)
    }

    /// The last committed block, if there is one.
    pub fn get_latest_block(&self) -> (r: Option<Block>)
        ensures
            r is Some <==> self.storage@.chain.len() > 0,
            r is Some ==> r->0@ == self.storage@.chain.last(),
    {
        latest_block(&self.storage)
    }
}

} // verus!
