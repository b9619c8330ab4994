use vstd::prelude::*;

use crate::address::{Address, same_address};
use crate::error::RegistryError;
use crate::records::{Record, check_record_fits, record_fits};

verus! {

/// A write-once key-value store of records: an address, once filled, keeps its record.
pub struct RecordStore {
    entries: Vec<(Address, Record)>,
    contents: Ghost<Map<Address, Record>>,
}

impl View for RecordStore {
    type V = Map<Address, Record>;

    closed spec fn view(&self) -> Map<Address, Record> {
        self.contents@
    }
}

impl RecordStore {
    /// Each entry is in the map, each address of the map has an entry, and no
    /// address has two entries.
    pub closed spec fn wf(&self) -> bool {
        &&& forall|i: int|
            0 <= i < self.entries@.len() ==> #[trigger] self.contents@.contains_key(
                self.entries@[i].0,
            ) && self.contents@[self.entries@[i].0] == self.entries@[i].1
        &&& forall|a: Address|
            #[trigger] self.contents@.contains_key(a) ==> exists|i: int|
                0 <= i < self.entries@.len() && #[trigger] self.entries@[i].0 == a
        &&& forall|i: int, j: int|
            0 <= i < self.entries@.len() && 0 <= j < self.entries@.len() && i != j
                ==> #[trigger] self.entries@[i].0 != #[trigger] self.entries@[j].0
    }

    /// An empty store.
    pub fn new() -> (r: RecordStore)
        ensures
            r.wf(),
            r@ == Map::<Address, Record>::empty(),
    {
        RecordStore { entries: Vec::new(), contents: Ghost(Map::empty()) }
    }

    /// Number of records held.
    pub fn len(&self) -> (r: usize)
        requires
            self.wf(),
        ensures
            r == self@.len(),
    {
        proof {
            self.lemma_len();
        }
        self.entries.len()
    }

    proof fn lemma_len(&self)
        requires
            self.wf(),
        ensures
            self@.len() == self.entries@.len(),
    {
        let keys = Seq::new(self.entries@.len(), |i: int| self.entries@[i].0);
        assert forall|i: int, j: int| 0 <= i < keys.len() && 0 <= j < keys.len() && i != j
            implies keys[i] != keys[j] by {
            assert(self.entries@[i].0 != self.entries@[j].0);
        }
        keys.unique_seq_to_set();
        assert(keys.to_set() =~= self@.dom()) by {
            assert forall|a: Address| #[trigger] self@.dom().contains(a) implies keys.to_set().contains(a) by {
                let i = choose|i: int| 0 <= i < self.entries@.len() && #[trigger] self.entries@[i].0 == a;
                assert(keys[i] == a);
            }
            assert forall|a: Address| keys.to_set().contains(a) implies #[trigger] self@.dom().contains(a) by {
                let i = choose|i: int| 0 <= i < keys.len() && keys[i] == a;
                assert(self.contents@.contains_key(self.entries@[i].0));
            }
        }
    }

    /// Index of the entry at `address`, if any.
    fn find(&self, address: &Address) -> (r: Option<usize>)
        requires
            self.wf(),
        ensures
            r is None <==> !self@.contains_key(*address),
            r matches Some(i) ==> (i < self.entries@.len() && self.entries@[i as int].0 == *address
                && self@[*address] == self.entries@[i as int].1),
    {
        let mut i: usize = 0;
        while i < self.entries.len()
            invariant
                self.wf(),
                i <= self.entries@.len(),
                forall|j: int| 0 <= j < i ==> self.entries@[j].0 != *address,
            decreases self.entries@.len() - i,
        {
            if same_address(&self.entries[i].0, address) {
                assert(self.contents@.contains_key(self.entries@[i as int].0));
                return Some(i);
            }
            i = i + 1;
        }
        None
    }

    /// Whether a record is held at `address`.
    pub fn contains(&self, address: &Address) -> (r: bool)
        requires
            self.wf(),
        ensures
            r == self@.contains_key(*address),
    {
        self.find(address).is_some()
    }

    /// The record at `address`; `NotFound` when the address is empty.
    pub fn read(&self, address: &Address) -> (r: Result<&Record, RegistryError>)
        requires
            self.wf(),
        ensures
            self@.contains_key(*address) ==> r == Ok::<&Record, RegistryError>(&self@[*address]),
            !self@.contains_key(*address) ==> r == Err::<&Record, RegistryError>(
                RegistryError::NotFound,
            ),
    {
        match self.find(address) {
            Some(i) => Ok(&self.entries[i].1),
            None => Err(RegistryError::NotFound),
        }
    }

    /// Stores `record` at `address` if the address is empty and the record fits
    /// its layout. Nothing changes on failure.
    pub fn create_if_absent(&mut self, address: Address, record: Record) -> (r: Result<
        (),
        RegistryError,
    >)
        requires
            old(self).wf(),
        ensures
            final(self).wf(),
            r == create_result(old(self)@, address, record),
            r is Ok ==> final(self)@ == old(self)@.insert(address, record),
            r is Err ==> final(self)@ == old(self)@,
    {
        if !check_record_fits(&record) {
            return Err(RegistryError::ValidationError);
        }
        if self.contains(&address) {
            return Err(RegistryError::AlreadyExists);
        }
        let ghost old_entries = self.entries@;
        self.entries.push((address, record));
        self.contents = Ghost(self.contents@.insert(address, record));
        assert forall|i: int| 0 <= i < old_entries.len() implies old_entries[i].0 != address by {
            assert(old(self).contents@.contains_key(old_entries[i].0));
        }
        assert forall|i: int| 0 <= i < self.entries@.len() implies #[trigger] self.contents@.contains_key(
            self.entries@[i].0) && self.contents@[self.entries@[i].0] == self.entries@[i].1 by {
            if i < old_entries.len() {
                assert(old(self).contents@.contains_key(old_entries[i].0));
            }
        }
        assert forall|a: Address| #[trigger] self.contents@.contains_key(a) implies exists|i: int|
            0 <= i < self.entries@.len() && #[trigger] self.entries@[i].0 == a by {
            if a != address {
                let i = choose|i: int| 0 <= i < old_entries.len() && #[trigger] old_entries[i].0 == a;
                assert(self.entries@[i].0 == a);
            } else {
                assert(self.entries@[old_entries.len() as int].0 == a);
            }
        }
        Ok(())
    }
}

/// What `create_if_absent` returns: `ValidationError` for a record that does not
/// fit its layout, else `AlreadyExists` for a filled address, else success.
pub open spec fn create_result(store: Map<Address, Record>, address: Address, record: Record) -> Result<
    (),
    RegistryError,
> {
    if !record_fits(record) {
        Err(RegistryError::ValidationError)
    } else if store.contains_key(address) {
        Err(RegistryError::AlreadyExists)
    } else {
        Ok(())
    }
}

} // verus!
