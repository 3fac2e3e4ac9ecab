//! Transactions, blocks and their hashes.

use vstd::prelude::*;
use vstd::bytes::*;
use vstd::std_specs::cmp::PartialEqSpecImpl;
use crate::hash::{chunk_views, hash128, hash_chunks};
use crate::principal::{principal_text, Principal};

verus! {

/// What a client asks for when it creates a transaction.
#[derive(Clone, Copy, Debug)]
pub struct TransactionArgs {
    pub recipient: Principal,
    pub amount: u64,
}

/// A transfer of value from one account to another.
#[derive(Clone, Copy, Debug)]
pub struct Transaction {
    pub sender: Principal,
    pub recipient: Principal,
    pub amount: u64,
    pub timestamp: u64,
}

/// The part of a block that commits to its place in the chain.
#[derive(Clone, Copy, Debug, PartialEq, Eq, Structural)]
pub struct BlockHeader {
    pub version: u32,
    pub height: u64,
    pub prev_hash: u128,
    pub merkle_root: u128,
    pub timestamp: u64,
    pub difficulty: u32,
}

/// A header, the transactions it covers, the nonce that solves it and its
/// full hash.
#[derive(Debug)]
pub struct Block {
    pub header: BlockHeader,
    pub transactions: Vec<Transaction>,
    pub nonce: u128,
    pub hash: u128,
}

/// A block as a mathematical value.
pub struct BlockView {
    pub header: BlockHeader,
    pub transactions: Seq<Transaction>,
    pub nonce: u128,
    pub hash: u128,
}

/// What a miner reports with a solved block.
#[derive(Clone, Copy, Debug)]
pub struct Stats {
    pub cycles_burned: u64,
    pub timestamp: u64,
    pub solve_time: u64,
    pub miner: Principal,
}

/// The decimal digits of a number, as ASCII bytes, without leading zeros.
pub open spec fn decimal(n: nat) -> Seq<u8>
    decreases n,
{
    if n < 10 {
        seq![(48 + n) as u8]
    } else {
        decimal(n / 10).push((48 + n % 10) as u8)
    }
}

/// Writes a number in decimal.
pub fn decimal_digits(n: u64) -> (r: Vec<u8>)
    ensures
        r@ == decimal(n as nat),
    decreases n,
{
    if n < 10 {
        let mut v: Vec<u8> = Vec::new();
        v.push(48 + n as u8);
        assert(v@ =~= decimal(n as nat));
        v
    } else {
        let mut v = decimal_digits(n / 10);
        v.push(48 + (n % 10) as u8);
        v
    }
}

/// Appends a copy of `tail` to `buf`.
fn append_bytes(buf: &mut Vec<u8>, tail: &Vec<u8>)
    ensures
        final(buf)@ == old(buf)@ + tail@,
{
    let mut i: usize = 0;
    while i < tail.len()
        invariant
            i <= tail.len(),
            buf@ == old(buf)@ + tail@.take(i as int),
        decreases tail.len() - i,
    {
        buf.push(tail[i]);
        assert(tail@.take(i + 1) =~= tail@.take(i as int).push(tail@[i as int]));
        i += 1;
    }
    assert(tail@.take(tail.len() as int) =~= tail@);
}

/// The text that a transaction is hashed by: the sender's and the
/// recipient's textual forms and the amount in decimal, one after another.
pub open spec fn transaction_text(tx: Transaction) -> Seq<u8> {
    principal_text(tx.sender@) + principal_text(tx.recipient@) + decimal(tx.amount as nat)
}

/// The hash of one transaction: a Merkle leaf.
pub open spec fn transaction_hash(tx: Transaction) -> u128 {
    hash128(seq![transaction_text(tx)])
}

/// The hash of two Merkle nodes: the left one's little-endian bytes and then
/// the right one's, written to the hasher one after the other.
pub open spec fn pair_hash(left: u128, right: u128) -> u128 {
    hash128(seq![spec_u128_to_le_bytes(left), spec_u128_to_le_bytes(right)])
}

/// The next level of a Merkle tree: neighbours are hashed in pairs, and a
/// last node without a neighbour is paired with itself.
pub open spec fn merkle_level(nodes: Seq<u128>) -> Seq<u128> {
    Seq::new(
        ((nodes.len() + 1) / 2) as nat,
        |i: int|
            pair_hash(
                nodes[2 * i],
                if 2 * i + 1 < nodes.len() {
                    nodes[2 * i + 1]
                } else {
                    nodes[2 * i]
                },
            ),
    )
}

/// The root over a list of nodes: 0 for none, the node itself for one, and
/// otherwise the root of the next level.
pub open spec fn merkle_fold(nodes: Seq<u128>) -> u128
    decreases nodes.len(),
{
    if nodes.len() == 0 {
        0
    } else if nodes.len() == 1 {
        nodes[0]
    } else {
        merkle_fold(merkle_level(nodes))
    }
}

/// The Merkle root of a list of transactions.
pub open spec fn merkle_root(transactions: Seq<Transaction>) -> u128 {
    merkle_fold(transactions.map_values(|tx: Transaction| transaction_hash(tx)))
}

/// The full hash of a block: every header field and the nonce, each written
/// to the hasher on its own, in little-endian bytes.
pub open spec fn block_hash(header: BlockHeader, nonce: u128) -> u128 {
    hash128(
        seq![
            spec_u32_to_le_bytes(header.version),
            spec_u64_to_le_bytes(header.height),
            spec_u128_to_le_bytes(header.prev_hash),
            spec_u128_to_le_bytes(header.merkle_root),
            spec_u64_to_le_bytes(header.timestamp),
            spec_u32_to_le_bytes(header.difficulty),
            spec_u128_to_le_bytes(nonce),
        ],
    )
}

/// The bytes that the proof-of-work search hashes: version, previous hash,
/// Merkle root, timestamp and nonce.  Height and difficulty are left out.
pub open spec fn search_bytes(header: BlockHeader, nonce: u128) -> Seq<u8> {
    spec_u32_to_le_bytes(header.version) + spec_u128_to_le_bytes(header.prev_hash)
        + spec_u128_to_le_bytes(header.merkle_root) + spec_u64_to_le_bytes(header.timestamp)
        + spec_u128_to_le_bytes(nonce)
}

/// The hash that is held against the difficulty.
pub open spec fn search_hash(header: BlockHeader, nonce: u128) -> u128 {
    hash128(seq![search_bytes(header, nonce)])
}

/// A block with its full hash in place of whatever its hash field held.
pub open spec fn sealed(block: BlockView) -> BlockView {
    BlockView { hash: block_hash(block.header, block.nonce), ..block }
}

/// The first block of every chain.
pub open spec fn genesis_view() -> BlockView {
    BlockView {
        header: BlockHeader {
            version: 1,
            height: 0,
            prev_hash: 0,
            merkle_root: 0,
            timestamp: 0,
            difficulty: 0,
        },
        transactions: Seq::empty(),
        nonce: 0,
        hash: 0,
    }
}

/// Computes the search hash of a header with a nonce.
pub fn search_hash_of(header: &BlockHeader, nonce: u128) -> (h: u128)
    ensures
        h == search_hash(*header, nonce),
{
    let mut data = u32_to_le_bytes(header.version);
    let prev_hash = u128_to_le_bytes(header.prev_hash);
    append_bytes(&mut data, &prev_hash);
    let merkle_root = u128_to_le_bytes(header.merkle_root);
    append_bytes(&mut data, &merkle_root);
    let timestamp = u64_to_le_bytes(header.timestamp);
    append_bytes(&mut data, &timestamp);
    let nonce_bytes = u128_to_le_bytes(nonce);
    append_bytes(&mut data, &nonce_bytes);
    let mut chunks: Vec<Vec<u8>> = Vec::new();
    chunks.push(data);
    assert(chunk_views(chunks@) =~= seq![search_bytes(*header, nonce)]);
    hash_chunks(&chunks)
}

impl View for Block {
    type V = BlockView;

    open spec fn view(&self) -> BlockView {
        BlockView {
            header: self.header,
            transactions: self.transactions@,
            nonce: self.nonce,
            hash: self.hash,
        }
    }
}

impl PartialEq for Transaction {
    fn eq(&self, other: &Transaction) -> (r: bool) {
        self.sender == other.sender && self.recipient == other.recipient && self.amount
            == other.amount && self.timestamp == other.timestamp
    }
}

impl PartialEqSpecImpl for Transaction {
    open spec fn obeys_eq_spec() -> bool {
        true
    }

    open spec fn eq_spec(&self, other: &Transaction) -> bool {
        *self == *other
    }
}

impl Eq for Transaction {

}

impl Clone for Block {
    fn clone(&self) -> (r: Block)
        ensures
            r@ == self@,
    {
        let mut transactions: Vec<Transaction> = Vec::new();
        let mut i: usize = 0;
        while i < self.transactions.len()
            invariant
                i <= self.transactions.len(),
                transactions@ == self.transactions@.take(i as int),
            decreases self.transactions.len() - i,
        {
            transactions.push(self.transactions[i]);
            assert(self.transactions@.take(i + 1) =~= self.transactions@.take(i as int).push(
                self.transactions@[i as int],
            ));
            i += 1;
        }
        assert(self.transactions@.take(self.transactions.len() as int) =~= self.transactions@);
        Block { header: self.header, transactions, nonce: self.nonce, hash: self.hash }
    }
}

impl PartialEq for Block {
    fn eq(&self, other: &Block) -> (r: bool) {
        if !(self.header == other.header && self.nonce == other.nonce && self.hash == other.hash
            && self.transactions.len() == other.transactions.len()) {
            return false;
        }
        let mut i: usize = 0;
        while i < self.transactions.len()
            invariant
                i <= self.transactions.len(),
                self.transactions.len() == other.transactions.len(),
                forall|j: int| 0 <= j < i ==> self.transactions@[j] == other.transactions@[j],
            decreases self.transactions.len() - i,
        {
            if !(self.transactions[i] == other.transactions[i]) {
                return false;
            }
            i += 1;
        }
        assert(self.transactions@ =~= other.transactions@);
        true
    }
}

impl PartialEqSpecImpl for Block {
    open spec fn obeys_eq_spec() -> bool {
        true
    }

    open spec fn eq_spec(&self, other: &Block) -> bool {
        self@ == other@
    }
}

impl Eq for Block {

}

impl Block {
    /// Builds the template that follows `prev_block`: one higher, chained to
    /// its hash, over the given transactions, with nonce 0 and the full hash
    /// of that state.
    pub fn new(
        prev_block: &Block,
        transactions: Vec<Transaction>,
        difficulty: u32,
        timestamp: u64,
    ) -> (r: Result<Block, String>)
        requires
            prev_block.header.height < u64::MAX,
        ensures
            r is Ok,
            r->Ok_0@.header == (BlockHeader {
                version: 1,
                height: (prev_block.header.height + 1) as u64,
                prev_hash: prev_block.hash,
                merkle_root: merkle_root(transactions@),
                timestamp,
                difficulty,
            }),
            r->Ok_0@.transactions == transactions@,
            r->Ok_0@.nonce == 0,
            r->Ok_0@.hash == block_hash(r->Ok_0@.header, 0),
    {
        let merkle_root = Block::calculate_merkle_root(transactions.as_slice());
        let header = BlockHeader {
            version: 1,
            height: prev_block.header.height + 1,
            prev_hash: prev_block.hash,
            merkle_root,
            timestamp,
            difficulty,
        };
        let mut block = Block { header, transactions, nonce: 0, hash: 0 };
        block.calculate_block_hash();
        Ok(block)
    }

    /// Hashes one transaction by its textual form.
    pub fn hash_transaction(transaction: &Transaction) -> (h: u128)
        ensures
            h == transaction_hash(*transaction),
    {
        let mut text = transaction.sender.text_bytes();
        let recipient = transaction.recipient.text_bytes();
        append_bytes(&mut text, &recipient);
        let amount = decimal_digits(transaction.amount);
        append_bytes(&mut text, &amount);
        let mut chunks: Vec<Vec<u8>> = Vec::new();
        chunks.push(text);
        assert(chunk_views(chunks@) =~= seq![transaction_text(*transaction)]);
        hash_chunks(&chunks)
    }

    /// Hashes two Merkle nodes into their parent.
    pub fn hash_pair(left: u128, right: u128) -> (h: u128)
        ensures
            h == pair_hash(left, right),
    {
        let mut chunks: Vec<Vec<u8>> = Vec::new();
        chunks.push(u128_to_le_bytes(left));
        chunks.push(u128_to_le_bytes(right));
        assert(chunk_views(chunks@) =~= seq![
            spec_u128_to_le_bytes(left),
            spec_u128_to_le_bytes(right),
        ]);
        hash_chunks(&chunks)
    }

    /// Computes the Merkle root of a list of transactions; 0 for none.
    pub fn calculate_merkle_root(transactions: &[Transaction]) -> (root: u128)
        ensures
            root == merkle_root(transactions@),
    {
        let ghost leaves = transactions@.map_values(|tx: Transaction| transaction_hash(tx));
        if transactions.len() == 0 {
            return 0;
        }
        let mut hashes: Vec<u128> = Vec::new();
        let mut i: usize = 0;
        while i < transactions.len()
            invariant
                i <= transactions.len(),
                hashes@.len() == i,
                forall|j: int| 0 <= j < i ==> hashes@[j] == transaction_hash(transactions@[j]),
            decreases transactions.len() - i,
        {
            hashes.push(Block::hash_transaction(&transactions[i]));
            i += 1;
        }
        assert(hashes@ =~= leaves);
        while hashes.len() > 1
            invariant
                hashes@.len() >= 1,
                merkle_fold(hashes@) == merkle_fold(leaves),
            decreases hashes@.len(),
        {
            let pairs = hashes.len() / 2 + hashes.len() % 2;
            let mut next: Vec<u128> = Vec::new();
            let mut k: usize = 0;
            while k < pairs
                invariant
                    k <= pairs,
                    pairs == (hashes@.len() + 1) / 2,
                    next@.len() == k,
                    forall|j: int| 0 <= j < k ==> next@[j] == merkle_level(hashes@)[j],
                decreases pairs - k,
            {
                assert(2 * k + 1 <= hashes.len());
                let left = hashes[2 * k];
                let right = if 2 * k + 1 < hashes.len() {
                    hashes[2 * k + 1]
                } else {
                    hashes[2 * k]
                };
                next.push(Block::hash_pair(left, right));
                k += 1;
            }
            assert(next@ =~= merkle_level(hashes@));
            hashes = next;
        }
        hashes[0]
    }

    /// Sets the block's hash to its full hash.
    pub fn calculate_block_hash(&mut self)
        ensures
            final(self)@ == (BlockView {
                hash: block_hash(old(self).header, old(self).nonce),
                ..old(self)@
            }),
    {
        let mut chunks: Vec<Vec<u8>> = Vec::new();
        chunks.push(u32_to_le_bytes(self.header.version));
        chunks.push(u64_to_le_bytes(self.header.height));
        chunks.push(u128_to_le_bytes(self.header.prev_hash));
        chunks.push(u128_to_le_bytes(self.header.merkle_root));
        chunks.push(u64_to_le_bytes(self.header.timestamp));
        chunks.push(u32_to_le_bytes(self.header.difficulty));
        chunks.push(u128_to_le_bytes(self.nonce));
        assert(chunk_views(chunks@) =~= seq![
            spec_u32_to_le_bytes(self.header.version),
            spec_u64_to_le_bytes(self.header.height),
            spec_u128_to_le_bytes(self.header.prev_hash),
            spec_u128_to_le_bytes(self.header.merkle_root),
            spec_u64_to_le_bytes(self.header.timestamp),
            spec_u32_to_le_bytes(self.header.difficulty),
            spec_u128_to_le_bytes(self.nonce),
        ]);
        self.hash = hash_chunks(&chunks);
    }

    /// Computes the hash that the proof-of-work search holds against the
    /// difficulty.
    pub fn search_hash(&self) -> (h: u128)
        ensures
            h == search_hash(self.header, self.nonce),
    {
        search_hash_of(&self.header, self.nonce)
    }

    /// The first block of every chain: height 0, all hashes 0, no
    /// transactions, nonce 0.
    pub fn genesis() -> (r: Block)
        ensures
            r@ == genesis_view(),
    {
        Block {
            header: BlockHeader {
                version: 1,
                height: 0,
                prev_hash: 0,
                merkle_root: 0,
                timestamp: 0,
                difficulty: 0,
            },
            transactions: Vec::new(),
            nonce: 0,
            hash: 0,
        }
    }
}

} // verus!
