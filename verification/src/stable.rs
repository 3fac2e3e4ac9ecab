//! The durable collections that the ledger is stored in.
//!
//! Each type here holds one structure of `ic_stable_structures` over a region
//! of stable memory.  Verus does not look inside them: what a structure holds
//! has a name, and the contracts of the small functions below say, over those
//! names, what the structure's own methods do.  None of these contracts is
//! proved; each states what the structure's source shows.
//!
//! Each structure stands over a region, or over two, of stable memory: the
//! region has a name too, which the structure gets when it is opened and
//! keeps whatever is written to it.  Two structures over one region would
//! write into each other, and nothing said here of either would hold; the
//! storage opens each over a region of its own.
//!
//! Where stable memory cannot grow, a cell, a log or a list answers with an
//! error and stays as it was; a map stops the program, as every write of a
//! `StableBTreeMap` does.  A region that holds the layout of another
//! structure, or a log entry that is no CBOR number, stops the program
//! when it is opened or read: that is the state of the machine, which no
//! condition on an argument can name.

use vstd::prelude::*;
use ic_stable_structures::memory_manager::{MemoryId, MemoryManager, VirtualMemory};
use ic_stable_structures::{DefaultMemoryImpl, StableBTreeMap, StableCell, StableLog, StableVec};
use crate::principal::Principal;

verus! {

/// `ic_stable_structures::cell::ValueError`: why a cell refused a value.
#[verifier::external_type_specification]
#[verifier::external_body]
pub struct ExValueError(ic_stable_structures::cell::ValueError);

/// `ic_stable_structures::cell::InitError`: why a cell could not be opened.
#[verifier::external_type_specification]
#[verifier::external_body]
pub struct ExCellInitError(ic_stable_structures::cell::InitError);

/// `ic_stable_structures::log::InitError`: why a log could not be opened.
#[verifier::external_type_specification]
#[verifier::external_body]
pub struct ExLogInitError(ic_stable_structures::log::InitError);

/// `ic_stable_structures::log::WriteError`: why a log refused an entry.
#[verifier::external_type_specification]
#[verifier::external_body]
pub struct ExWriteError(ic_stable_structures::log::WriteError);

/// `ic_stable_structures::vec::InitError`: why a list could not be opened.
#[verifier::external_type_specification]
#[verifier::external_body]
pub struct ExVecInitError(ic_stable_structures::vec::InitError);

/// `ic_stable_structures::GrowFailed`: stable memory could not grow.
#[verifier::external_type_specification]
#[verifier::external_body]
pub struct ExGrowFailed(ic_stable_structures::GrowFailed);

/// Stable memory, divided into numbered regions.
#[verifier::external_body]
pub struct Regions {
    inner: MemoryManager<DefaultMemoryImpl>,
}

/// A durable 64-bit counter.
#[verifier::external_body]
pub struct CounterCell {
    inner: StableCell<u64, VirtualMemory<DefaultMemoryImpl>>,
}

/// A durable append-only log of 64-bit numbers, each stored in CBOR.  It is
/// read as a log that holds nothing but what `append` wrote.
#[verifier::external_body]
pub struct IndexLog {
    inner: StableLog<Vec<u8>, VirtualMemory<DefaultMemoryImpl>, VirtualMemory<DefaultMemoryImpl>>,
}

/// A durable append-only log of records, each a string of bytes.
#[verifier::external_body]
pub struct ByteLog {
    inner: StableLog<Vec<u8>, VirtualMemory<DefaultMemoryImpl>, VirtualMemory<DefaultMemoryImpl>>,
}

/// A durable set of records, each a string of bytes.
#[verifier::external_body]
pub struct RecordSet {
    inner: StableBTreeMap<Vec<u8>, (), VirtualMemory<DefaultMemoryImpl>>,
}

/// A durable map from identifiers to 64-bit amounts.
#[verifier::external_body]
pub struct AmountMap {
    inner: StableBTreeMap<candid::Principal, u64, VirtualMemory<DefaultMemoryImpl>>,
}

/// A durable map from a miner to its owner and the index of the payment
/// that created it.
#[verifier::external_body]
pub struct MinerMap {
    inner: StableBTreeMap<
        candid::Principal,
        (candid::Principal, u64),
        VirtualMemory<DefaultMemoryImpl>,
    >,
}

/// A durable list of identifiers.
#[verifier::external_body]
pub struct PrincipalList {
    inner: StableVec<candid::Principal, VirtualMemory<DefaultMemoryImpl>>,
}

/// A miner, its owner and the index of the payment that created it.
#[derive(Clone, Copy, Debug)]
pub struct MinerEntry {
    pub miner: Principal,
    pub owner: Principal,
    pub index: u64,
}

/// The number a counter holds.
pub uninterp spec fn cell_value(cell: CounterCell) -> u64;

/// The region a counter stands over.
pub uninterp spec fn cell_region(cell: CounterCell) -> u8;

/// The region of a log of numbers that holds the index.
pub uninterp spec fn index_log_index_region(log: IndexLog) -> u8;

/// The region of a log of numbers that holds the entries.
pub uninterp spec fn index_log_data_region(log: IndexLog) -> u8;

/// The region of a log of records that holds the index.
pub uninterp spec fn byte_log_index_region(log: ByteLog) -> u8;

/// The region of a log of records that holds the records.
pub uninterp spec fn byte_log_data_region(log: ByteLog) -> u8;

/// The region a set of records stands over.
pub uninterp spec fn record_set_region(set: RecordSet) -> u8;

/// The region a map of amounts stands over.
pub uninterp spec fn amount_map_region(map: AmountMap) -> u8;

/// The region a map of miners stands over.
pub uninterp spec fn miner_map_region(map: MinerMap) -> u8;

/// The region a list of identifiers stands over.
pub uninterp spec fn list_region(list: PrincipalList) -> u8;

/// Whether a map holds `count` entries: it is finite and that is its size.
pub open spec fn holds<K, V>(map: Map<K, V>, count: u64) -> bool {
    map.dom().finite() && map.len() == count
}

/// The numbers in a log, oldest first.
pub uninterp spec fn log_entries(log: IndexLog) -> Seq<u64>;

/// The records in a log, oldest first.
pub uninterp spec fn byte_log_entries(log: ByteLog) -> Seq<Seq<u8>>;

/// The records in a set.
pub uninterp spec fn record_set_entries(set: RecordSet) -> Set<Seq<u8>>;

/// The amounts in a map, each under the bytes of its identifier.
pub uninterp spec fn amount_entries(map: AmountMap) -> Map<Seq<u8>, u64>;

/// The owner and payment index of each miner, under the bytes of the miner's
/// identifier; the owner is given by its bytes too.
pub uninterp spec fn miner_entries(map: MinerMap) -> Map<Seq<u8>, (Seq<u8>, u64)>;

/// The identifiers in a list, each by its bytes, oldest first.
pub uninterp spec fn list_entries(list: PrincipalList) -> Seq<Seq<u8>>;

/// Whether a list of pairs holds exactly the pairs of a map, each key once.
pub open spec fn lists_map<V>(pairs: Seq<(Principal, V)>, map: Map<Seq<u8>, V>) -> bool {
    &&& forall|i: int|
        0 <= i < pairs.len() ==> map.contains_key(#[trigger] pairs[i].0@) && map[pairs[i].0@]
            == pairs[i].1
    &&& forall|k: Seq<u8>|
        map.contains_key(k) ==> exists|i: int| 0 <= i < pairs.len() && #[trigger] pairs[i].0@ == k
    &&& forall|i: int, j: int| 0 <= i < j < pairs.len() ==> pairs[i].0@ != pairs[j].0@
}

impl Regions {
    /// Opens the process's stable memory with `MemoryManager::init` on
    /// `DefaultMemoryImpl::default()`.  Nothing is claimed of what it holds.
    #[verifier::external_body]
    pub(crate) fn open() -> (r: Regions) {
        Regions { inner: MemoryManager::init(DefaultMemoryImpl::default()) }
    }
}

impl CounterCell {
    /// `StableCell::init` over region `id`, with 0 for a cell that was never
    /// written.  `MemoryId::new` refuses 255.  Nothing is claimed of the
    /// value: it is whatever the region held.
    #[verifier::external_body]
    pub(crate) fn init(regions: &Regions, id: u8) -> (r: Result<
        CounterCell,
        ic_stable_structures::cell::InitError,
    >)
        requires
            id < 255,
        ensures
            r is Ok ==> cell_region(r->Ok_0) == id,
    {
        match StableCell::init(regions.inner.get(MemoryId::new(id)), 0u64) {
            Ok(inner) => Ok(CounterCell { inner }),
            Err(e) => Err(e),
        }
    }

    /// `StableCell::get`: the value held.
    #[verifier::external_body]
    pub(crate) fn get(&self) -> (r: u64)
        ensures
            r == cell_value(*self),
    {
        *self.inner.get()
    }

    /// `StableCell::set`: on success the cell holds `value` and the value it
    /// held before is returned; on failure it holds what it held.
    #[verifier::external_body]
    pub(crate) fn set(&mut self, value: u64) -> (r: Result<
        u64,
        ic_stable_structures::cell::ValueError,
    >)
        ensures
            r is Ok ==> r->Ok_0 == cell_value(*old(self)) && cell_value(*final(self)) == value,
            r is Err ==> cell_value(*final(self)) == cell_value(*old(self)),
            cell_region(*final(self)) == cell_region(*old(self)),
    {
        self.inner.set(value)
    }
}

impl IndexLog {
    /// `StableLog::init` over an index region and a data region.  Nothing is
    /// claimed of the entries: they are whatever the regions held.
    #[verifier::external_body]
    pub(crate) fn init(regions: &Regions, index_id: u8, data_id: u8) -> (r: Result<
        IndexLog,
        ic_stable_structures::log::InitError,
    >)
        requires
            index_id < 255,
            data_id < 255,
        ensures
            r is Ok ==> index_log_index_region(r->Ok_0) == index_id,
            r is Ok ==> index_log_data_region(r->Ok_0) == data_id,
    {
        let index = regions.inner.get(MemoryId::new(index_id));
        let data = regions.inner.get(MemoryId::new(data_id));
        match StableLog::init(index, data) {
            Ok(inner) => Ok(IndexLog { inner }),
            Err(e) => Err(e),
        }
    }

    /// `StableLog::append` of the number's CBOR encoding, written by
    /// `ciborium::ser::into_writer`: on success the number is the new last
    /// entry and its index is returned; on failure the log is unchanged.
    #[verifier::external_body]
    pub(crate) fn append(&mut self, value: u64) -> (r: Result<
        u64,
        ic_stable_structures::log::WriteError,
    >)
        ensures
            r is Ok ==> r->Ok_0 == log_entries(*old(self)).len() && log_entries(*final(self))
                == log_entries(*old(self)).push(value),
            r is Err ==> log_entries(*final(self)) == log_entries(*old(self)),
            index_log_index_region(*final(self)) == index_log_index_region(*old(self)),
            index_log_data_region(*final(self)) == index_log_data_region(*old(self)),
    {
        let mut bytes: Vec<u8> = Vec::new();
        ciborium::ser::into_writer(&value, &mut bytes).unwrap();
        self.inner.append(&bytes)
    }

    /// `StableLog::get`, decoded by `ciborium::de::from_reader`: the entry at
    /// `index`, if the log is that long.
    #[verifier::external_body]
    pub(crate) fn get(&self, index: u64) -> (r: Option<u64>)
        ensures
            r == if index < log_entries(*self).len() {
                Some(log_entries(*self)[index as int])
            } else {
                None
            },
    {
        match self.inner.get(index) {
            Some(bytes) => Some(ciborium::de::from_reader(bytes.as_slice()).unwrap()),
            None => None,
        }
    }

    /// `StableLog::len`: the number of entries.
    #[verifier::external_body]
    pub(crate) fn len(&self) -> (r: u64)
        ensures
            r == log_entries(*self).len(),
    {
        self.inner.len()
    }
}

impl ByteLog {
    /// `StableLog::init` over an index region and a data region.  Nothing is
    /// claimed of the records: they are whatever the regions held.
    #[verifier::external_body]
    pub(crate) fn init(regions: &Regions, index_id: u8, data_id: u8) -> (r: Result<
        ByteLog,
        ic_stable_structures::log::InitError,
    >)
        requires
            index_id < 255,
            data_id < 255,
        ensures
            r is Ok ==> byte_log_index_region(r->Ok_0) == index_id,
            r is Ok ==> byte_log_data_region(r->Ok_0) == data_id,
    {
        let index = regions.inner.get(MemoryId::new(index_id));
        let data = regions.inner.get(MemoryId::new(data_id));
        match StableLog::init(index, data) {
            Ok(inner) => Ok(ByteLog { inner }),
            Err(e) => Err(e),
        }
    }

    /// `StableLog::append`: on success the record is the new last entry and
    /// its index is returned; on failure the log is unchanged.
    #[verifier::external_body]
    pub(crate) fn append(&mut self, record: &Vec<u8>) -> (r: Result<
        u64,
        ic_stable_structures::log::WriteError,
    >)
        ensures
            r is Ok ==> r->Ok_0 == byte_log_entries(*old(self)).len() && byte_log_entries(
                *final(self),
            ) == byte_log_entries(*old(self)).push(record@),
            r is Err ==> byte_log_entries(*final(self)) == byte_log_entries(*old(self)),
            byte_log_index_region(*final(self)) == byte_log_index_region(*old(self)),
            byte_log_data_region(*final(self)) == byte_log_data_region(*old(self)),
    {
        self.inner.append(record)
    }

    /// `StableLog::get`: the record at `index`, if the log is that long.
    #[verifier::external_body]
    pub(crate) fn get(&self, index: u64) -> (r: Option<Vec<u8>>)
        ensures
            r is Some <==> index < byte_log_entries(*self).len(),
            r is Some ==> r->0@ == byte_log_entries(*self)[index as int],
    {
        self.inner.get(index)
    }

    /// `StableLog::len`: the number of records.
    #[verifier::external_body]
    pub(crate) fn len(&self) -> (r: u64)
        ensures
            r == byte_log_entries(*self).len(),
    {
        self.inner.len()
    }
}

impl RecordSet {
    /// `StableBTreeMap::init` over region `id`.  Nothing is claimed of the
    /// records: they are whatever the region held.
    #[verifier::external_body]
    pub(crate) fn init(regions: &Regions, id: u8) -> (r: RecordSet)
        requires
            id < 255,
        ensures
            record_set_region(r) == id,
    {
        RecordSet { inner: StableBTreeMap::init(regions.inner.get(MemoryId::new(id))) }
    }

    /// `StableBTreeMap::clear_new`: the set is empty afterwards.
    #[verifier::external_body]
    pub(crate) fn clear(&mut self)
        ensures
            record_set_entries(*final(self)) == Set::<Seq<u8>>::empty(),
            record_set_region(*final(self)) == record_set_region(*old(self)),
    {
        self.inner.clear_new();
    }

    /// `StableBTreeMap::insert` of the record as a key: the set holds it
    /// afterwards, beside what it held.
    #[verifier::external_body]
    pub(crate) fn insert(&mut self, record: Vec<u8>)
        ensures
            record_set_entries(*final(self)) == record_set_entries(*old(self)).insert(record@),
            record_set_region(*final(self)) == record_set_region(*old(self)),
    {
        self.inner.insert(record, ());
    }

    /// `StableBTreeMap::keys`, collected: every record once.
    #[verifier::external_body]
    pub(crate) fn entries(&self) -> (r: Vec<Vec<u8>>)
        ensures
            forall|i: int| 0 <= i < r@.len() ==> record_set_entries(*self).contains(#[trigger] r@[i]@),
            forall|k: Seq<u8>|
                record_set_entries(*self).contains(k) ==> exists|i: int|
                    0 <= i < r@.len() && #[trigger] r@[i]@ == k,
            forall|i: int, j: int| 0 <= i < j < r@.len() ==> r@[i]@ != r@[j]@,
    {
        self.inner.keys().collect()
    }
}

impl AmountMap {
    /// `StableBTreeMap::init` over region `id`.  Nothing is claimed of the
    /// entries: they are whatever the region held.
    #[verifier::external_body]
    pub(crate) fn init(regions: &Regions, id: u8) -> (r: AmountMap)
        requires
            id < 255,
        ensures
            amount_map_region(r) == id,
    {
        AmountMap { inner: StableBTreeMap::init(regions.inner.get(MemoryId::new(id))) }
    }

    /// `StableBTreeMap::get`: the amount under `key`, if there is one.
    #[verifier::external_body]
    pub(crate) fn get(&self, key: &Principal) -> (r: Option<u64>)
        ensures
            r == if amount_entries(*self).contains_key(key@) {
                Some(amount_entries(*self)[key@])
            } else {
                None
            },
    {
        self.inner.get(&candid::Principal::from_slice(key.as_slice()))
    }

    /// `StableBTreeMap::insert`: `value` stands under `key` afterwards, and
    /// what stood there before is returned.
    #[verifier::external_body]
    pub(crate) fn insert(&mut self, key: &Principal, value: u64) -> (r: Option<u64>)
        ensures
            amount_entries(*final(self)) == amount_entries(*old(self)).insert(key@, value),
            r == if amount_entries(*old(self)).contains_key(key@) {
                Some(amount_entries(*old(self))[key@])
            } else {
                None
            },
            amount_map_region(*final(self)) == amount_map_region(*old(self)),
    {
        self.inner.insert(candid::Principal::from_slice(key.as_slice()), value)
    }

    /// `StableBTreeMap::iter`, collected: every entry once.
    #[verifier::external_body]
    pub(crate) fn entries(&self) -> (r: Vec<(Principal, u64)>)
        ensures
            lists_map(r@, amount_entries(*self)),
    {
        self.inner.iter().map(|(k, v)| (Principal::from_slice(k.as_slice()).unwrap(), v)).collect()
    }
}

impl MinerMap {
    /// `StableBTreeMap::init` over region `id`.  Nothing is claimed of the
    /// entries: they are whatever the region held.
    #[verifier::external_body]
    pub(crate) fn init(regions: &Regions, id: u8) -> (r: MinerMap)
        requires
            id < 255,
        ensures
            miner_map_region(r) == id,
            miner_entries(r).dom().finite(),
    {
        MinerMap { inner: StableBTreeMap::init(regions.inner.get(MemoryId::new(id))) }
    }

    /// `StableBTreeMap::get`: the owner and payment index of `miner`, if it
    /// has an entry.
    #[verifier::external_body]
    pub(crate) fn get(&self, miner: &Principal) -> (r: Option<(Principal, u64)>)
        ensures
            r is Some <==> miner_entries(*self).contains_key(miner@),
            r matches Some(found) ==> (found.0@, found.1) == miner_entries(*self)[miner@],
    {
        match self.inner.get(&candid::Principal::from_slice(miner.as_slice())) {
            Some((owner, index)) => Some((Principal::from_slice(owner.as_slice()).unwrap(), index)),
            None => None,
        }
    }

    /// `StableBTreeMap::insert`: the miner's entry is the given owner and
    /// index afterwards, among finitely many.
    #[verifier::external_body]
    pub(crate) fn insert(&mut self, miner: &Principal, owner: &Principal, index: u64)
        ensures
            miner_entries(*final(self)) == miner_entries(*old(self)).insert(
                miner@,
                (owner@, index),
            ),
            miner_map_region(*final(self)) == miner_map_region(*old(self)),
            miner_entries(*final(self)).dom().finite(),
    {
        let key = candid::Principal::from_slice(miner.as_slice());
        self.inner.insert(key, (candid::Principal::from_slice(owner.as_slice()), index));
    }

    /// `StableBTreeMap::len`: the number of entries, of which there are
    /// finitely many.
    #[verifier::external_body]
    pub(crate) fn len(&self) -> (r: u64)
        ensures
            holds(miner_entries(*self), r),
    {
        self.inner.len()
    }

    /// `StableBTreeMap::iter`, collected: every entry once, as the miner, its
    /// owner and the payment index.
    #[verifier::external_body]
    pub(crate) fn entries(&self) -> (r: Vec<MinerEntry>)
        ensures
            lists_map(
                r@.map_values(|e: MinerEntry| (e.miner, (e.owner@, e.index))),
                miner_entries(*self),
            ),
    {
        self.inner.iter().map(
            |(k, v)|
                MinerEntry {
                    miner: Principal::from_slice(k.as_slice()).unwrap(),
                    owner: Principal::from_slice(v.0.as_slice()).unwrap(),
                    index: v.1,
                },
        ).collect()
    }
}

impl PrincipalList {
    /// `StableVec::init` over region `id`.  Nothing is claimed of the
    /// entries: they are whatever the region held.
    #[verifier::external_body]
    pub(crate) fn init(regions: &Regions, id: u8) -> (r: Result<
        PrincipalList,
        ic_stable_structures::vec::InitError,
    >)
        requires
            id < 255,
        ensures
            r is Ok ==> list_region(r->Ok_0) == id,
    {
        match StableVec::init(regions.inner.get(MemoryId::new(id))) {
            Ok(inner) => Ok(PrincipalList { inner }),
            Err(e) => Err(e),
        }
    }

    /// `StableVec::push`: on success the identifier is the new last entry; on
    /// failure the list is unchanged.
    #[verifier::external_body]
    pub(crate) fn push(&mut self, item: &Principal) -> (r: Result<
        (),
        ic_stable_structures::GrowFailed,
    >)
        ensures
            r is Ok ==> list_entries(*final(self)) == list_entries(*old(self)).push(item@),
            r is Err ==> list_entries(*final(self)) == list_entries(*old(self)),
            list_region(*final(self)) == list_region(*old(self)),
    {
        self.inner.push(&candid::Principal::from_slice(item.as_slice()))
    }

    /// `StableVec::get`: the entry at `index`, if the list is that long.
    #[verifier::external_body]
    pub(crate) fn get(&self, index: u64) -> (r: Option<Principal>)
        ensures
            r is Some <==> index < list_entries(*self).len(),
            r is Some ==> r->0@ == list_entries(*self)[index as int],
    {
        match self.inner.get(index) {
            Some(p) => Principal::from_slice(p.as_slice()),
            None => None,
        }
    }

    /// `StableVec::len`: the number of entries.
    #[verifier::external_body]
    pub(crate) fn len(&self) -> (r: u64)
        ensures
            r == list_entries(*self).len(),
    {
        self.inner.len()
    }
}

} // verus!
