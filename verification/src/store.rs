use vstd::prelude::*;

use crate::address::ADDRESS_BYTES;
use crate::bytes::{bytes_eq, copy_bytes};
use crate::error::BlogError;
use crate::record::{BlogEntryState, RecordModel};

verus! {

/// The mathematical value of one occupied record slot: the bytes it
/// reserves, the identity that paid for the allocation, and the record.
#[verifier::ext_equal]
pub ghost struct SlotModel {
    pub size: nat,
    pub payer: Seq<u8>,
    pub record: RecordModel,
}

/// Every record observable in a store sits at a 32-byte address and is well
/// formed; a store never exposes a partially filled slot.
pub open spec fn store_inv(m: Map<Seq<u8>, SlotModel>) -> bool {
    forall|k: Seq<u8>| #[trigger] m.contains_key(k) ==> k.len() == ADDRESS_BYTES
        && m[k].record.wf()
}

/// What reading an address yields: the record stored there, or nothing.
pub open spec fn load_spec(m: Map<Seq<u8>, SlotModel>, addr: Seq<u8>) -> Option<RecordModel> {
    if m.contains_key(addr) {
        Some(m[addr].record)
    } else {
        None
    }
}

/// The slot size after a resize request: the slot grows when asked to, and
/// never shrinks below what it already reserves.
pub open spec fn grown(cur: nat, requested: nat) -> nat {
    if requested > cur {
        requested
    } else {
        cur
    }
}

struct StoreSlot {
    address: Vec<u8>,
    size: usize,
    payer: Vec<u8>,
    record: BlogEntryState,
}

impl View for StoreSlot {
    type V = SlotModel;

    closed spec fn view(&self) -> SlotModel {
        SlotModel { size: self.size as nat, payer: self.payer@, record: self.record@ }
    }
}

spec fn slots_map(s: Seq<StoreSlot>) -> Map<Seq<u8>, SlotModel>
    decreases s.len(),
{
    if s.len() == 0 {
        Map::empty()
    } else {
        slots_map(s.drop_last()).insert(s.last().address@, s.last()@)
    }
}

spec fn unique_addrs(s: Seq<StoreSlot>) -> bool {
    forall|i: int, j: int| 0 <= i < j < s.len()
        ==> (#[trigger] s[i]).address@ != (#[trigger] s[j]).address@
}

spec fn slots_wf(s: Seq<StoreSlot>) -> bool {
    &&& unique_addrs(s)
    &&& forall|i: int| 0 <= i < s.len()
        ==> (#[trigger] s[i]).address@.len() == ADDRESS_BYTES && s[i]@.record.wf()
}

proof fn lemma_unique_drop_last(s: Seq<StoreSlot>)
    requires
        unique_addrs(s),
        s.len() > 0,
    ensures
        unique_addrs(s.drop_last()),
{
    assert forall|i: int, j: int| 0 <= i < j < s.drop_last().len()
        implies (#[trigger] s.drop_last()[i]).address@ != (#[trigger] s.drop_last()[j]).address@
    by {
        assert(s.drop_last()[i] == s[i]);
        assert(s.drop_last()[j] == s[j]);
    }
}

/// An address occurs in the map exactly when some slot carries it.
proof fn lemma_slots_map_contains(s: Seq<StoreSlot>, k: Seq<u8>)
    ensures
        slots_map(s).contains_key(k) <==> exists|i: int|
            0 <= i < s.len() && (#[trigger] s[i]).address@ == k,
    decreases s.len(),
{
    if s.len() == 0 {
    } else {
        let t = s.drop_last();
        lemma_slots_map_contains(t, k);
        if slots_map(s).contains_key(k) {
            if s.last().address@ == k {
                assert((#[trigger] s[s.len() - 1]).address@ == k);
            } else {
                let i = choose|i: int| 0 <= i < t.len() && (#[trigger] t[i]).address@ == k;
                assert((#[trigger] s[i]).address@ == k);
            }
        }
        if exists|i: int| 0 <= i < s.len() && (#[trigger] s[i]).address@ == k {
            let i = choose|i: int| 0 <= i < s.len() && (#[trigger] s[i]).address@ == k;
            if i < s.len() - 1 {
                assert((#[trigger] t[i]).address@ == k);
            }
        }
    }
}

/// With unique addresses, the map sends each slot's address to that slot.
proof fn lemma_slots_map_index(s: Seq<StoreSlot>, i: int)
    requires
        unique_addrs(s),
        0 <= i < s.len(),
    ensures
        slots_map(s).contains_key(s[i].address@),
        slots_map(s)[s[i].address@] == s[i]@,
    decreases s.len(),
{
    if i == s.len() - 1 {
    } else {
        lemma_unique_drop_last(s);
        lemma_slots_map_index(s.drop_last(), i);
        assert(s.drop_last()[i] == s[i]);
        assert(s[i].address@ != s[s.len() - 1].address@);
    }
}

/// Appending a slot inserts its address into the map.
proof fn lemma_slots_map_push(s: Seq<StoreSlot>, x: StoreSlot)
    ensures
        slots_map(s.push(x)) == slots_map(s).insert(x.address@, x@),
{
    assert(s.push(x).drop_last() =~= s);
    assert(s.push(x).last() == x);
}

/// Dropping the slot at `i` keeps the others apart and leaves nothing at the
/// dropped slot's address.
proof fn lemma_unique_remove(s: Seq<StoreSlot>, i: int)
    requires
        unique_addrs(s),
        0 <= i < s.len(),
    ensures
        unique_addrs(s.remove(i)),
        forall|j: int| 0 <= j < s.remove(i).len()
            ==> (#[trigger] s.remove(i)[j]).address@ != s[i].address@,
{
    let t = s.remove(i);
    assert forall|j: int| 0 <= j < t.len() implies (#[trigger] t[j]).address@ != s[i].address@
    by {
        if j < i {
            assert(t[j] == s[j]);
        } else {
            assert(t[j] == s[j + 1]);
        }
    }
    assert forall|a: int, b: int| 0 <= a < b < t.len()
        implies (#[trigger] t[a]).address@ != (#[trigger] t[b]).address@
    by {
        if a < i {
            assert(t[a] == s[a]);
        } else {
            assert(t[a] == s[a + 1]);
        }
        if b < i {
            assert(t[b] == s[b]);
        } else {
            assert(t[b] == s[b + 1]);
        }
    }
}

/// Dropping the slot at `i` removes exactly its address from the map.
proof fn lemma_slots_map_remove(s: Seq<StoreSlot>, i: int)
    requires
        unique_addrs(s),
        0 <= i < s.len(),
    ensures
        slots_map(s.remove(i)) == slots_map(s).remove(s[i].address@),
    decreases s.len(),
{
    let k = s[i].address@;
    lemma_unique_drop_last(s);
    if i == s.len() - 1 {
        assert(s.remove(i) =~= s.drop_last());
        lemma_slots_map_contains(s.drop_last(), k);
        if slots_map(s.drop_last()).contains_key(k) {
            let j = choose|j: int|
                0 <= j < s.drop_last().len() && (#[trigger] s.drop_last()[j]).address@ == k;
            assert(s[j].address@ == s[i].address@);
            assert(false);
        }
        assert(slots_map(s).remove(k) =~= slots_map(s.drop_last()));
    } else {
        let t = s.drop_last();
        lemma_slots_map_remove(t, i);
        assert(s.remove(i).drop_last() =~= t.remove(i));
        assert(s.remove(i).last() == s.last());
        assert(s.remove(i).len() > 0);
        assert(k != s.last().address@);
        assert(slots_map(t).remove(k).insert(s.last().address@, s.last()@) =~= slots_map(
            t,
        ).insert(s.last().address@, s.last()@).remove(k).insert(
            s.last().address@,
            s.last()@,
        ));
        assert(slots_map(s).remove(k).insert(s.last().address@, s.last()@) =~= slots_map(
            s,
        ).remove(k));
    }
}

/// The record store adapter: address-keyed, size-bounded slots, one record
/// per slot. Allocation, in-place overwrite, and reclamation are each atomic:
/// a failed operation leaves the store exactly as it was.
pub struct RecordStore {
    slots: Vec<StoreSlot>,
}

impl View for RecordStore {
    type V = Map<Seq<u8>, SlotModel>;

    closed spec fn view(&self) -> Map<Seq<u8>, SlotModel> {
        slots_map(self.slots@)
    }
}

impl RecordStore {
    /// Internal well-formedness: slot addresses are distinct, and every slot
    /// holds a well-formed record at a 32-byte address.
    pub closed spec fn wf(&self) -> bool {
        slots_wf(self.slots@)
    }

    /// A well-formed store only ever exposes well-formed records.
    pub proof fn lemma_store_inv(&self)
        requires
            self.wf(),
        ensures
            store_inv(self@),
    {
        assert forall|k: Seq<u8>| #[trigger] self@.contains_key(k) implies k.len()
            == ADDRESS_BYTES && self@[k].record.wf() by {
            lemma_slots_map_contains(self.slots@, k);
            let i = choose|i: int|
                0 <= i < self.slots@.len() && (#[trigger] self.slots@[i]).address@ == k;
            lemma_slots_map_index(self.slots@, i);
        }
    }

    /// An empty store.
    pub fn new() -> (r: RecordStore)
        ensures
            r.wf(),
            r@ == Map::<Seq<u8>, SlotModel>::empty(),
    {
        RecordStore { slots: Vec::new() }
    }

    fn find_index(&self, address: &Vec<u8>) -> (r: Option<usize>)
        ensures
            match r {
                Some(i) => i < self.slots@.len() && self.slots@[i as int].address@ == address@,
                None => forall|j: int| 0 <= j < self.slots@.len()
                    ==> (#[trigger] self.slots@[j]).address@ != address@,
            },
    {
        let n = self.slots.len();
        let mut i: usize = 0;
        while i < n
            invariant
                n == self.slots@.len(),
                i <= n,
                forall|j: int| 0 <= j < i ==> (#[trigger] self.slots@[j]).address@ != address@,
            decreases n - i,
        {
            if bytes_eq(&self.slots[i].address, address) {
                return Some(i);
            }
            i += 1;
        }
        None
    }

    /// Reads the record at `address`, if one is allocated there.
    pub fn load(&self, address: &Vec<u8>) -> (r: Option<&BlogEntryState>)
        requires
            self.wf(),
        ensures
            match r {
                Some(rec) => load_spec(self@, address@) == Some(rec@),
                None => load_spec(self@, address@) is None,
            },
    {
        match self.find_index(address) {
            Some(i) => {
                proof {
                    lemma_slots_map_index(self.slots@, i as int);
                }
                Some(&self.slots[i].record)
            },
            None => {
                proof {
                    lemma_slots_map_contains(self.slots@, address@);
                }
                None
            },
        }
    }

    /// Reports how many bytes the slot at `address` reserves.
    pub fn slot_size(&self, address: &Vec<u8>) -> (r: Option<usize>)
        requires
            self.wf(),
        ensures
            match r {
                Some(sz) => self@.contains_key(address@) && sz as nat == self@[address@].size,
                None => !self@.contains_key(address@),
            },
    {
        match self.find_index(address) {
            Some(i) => {
                proof {
                    lemma_slots_map_index(self.slots@, i as int);
                }
                Some(self.slots[i].size)
            },
            None => {
                proof {
                    lemma_slots_map_contains(self.slots@, address@);
                }
                None
            },
        }
    }

    /// Allocates a slot of `size` bytes at `address`, paid for by `payer`,
    /// and fills it with `record`. Fails when the address is occupied,
    /// leaving the existing record untouched.
    pub fn allocate(
        &mut self,
        address: &Vec<u8>,
        size: usize,
        payer: &Vec<u8>,
        record: BlogEntryState,
    ) -> (r: Result<(), BlogError>)
        requires
            old(self).wf(),
            address@.len() == ADDRESS_BYTES,
            record@.wf(),
        ensures
            final(self).wf(),
            match r {
                Ok(_) => !old(self)@.contains_key(address@) && final(self)@ == old(self)@.insert(
                    address@,
                    SlotModel { size: size as nat, payer: payer@, record: record@ },
                ),
                Err(e) => e == BlogError::AlreadyExists && old(self)@.contains_key(address@)
                    && final(self)@ == old(self)@,
            },
    {
        match self.find_index(address) {
            Some(i) => {
                proof {
                    lemma_slots_map_index(self.slots@, i as int);
                }
                Err(BlogError::AlreadyExists)
            },
            None => {
                proof {
                    lemma_slots_map_contains(self.slots@, address@);
                }
                let slot = StoreSlot {
                    address: copy_bytes(address),
                    size,
                    payer: copy_bytes(payer),
                    record,
                };
                let ghost gslot = slot;
                let ghost s0 = self.slots@;
                self.slots.push(slot);
                proof {
                    lemma_slots_map_push(s0, gslot);
                    assert forall|a: int, b: int| 0 <= a < b < self.slots@.len()
                        implies (#[trigger] self.slots@[a]).address@ != (
                    #[trigger] self.slots@[b]).address@ by {
                        assert(self.slots@[a] == s0[a]);
                        if b < s0.len() {
                            assert(self.slots@[b] == s0[b]);
                        }
                    }
                    assert forall|a: int| 0 <= a < self.slots@.len()
                        implies (#[trigger] self.slots@[a]).address@.len() == ADDRESS_BYTES
                        && self.slots@[a]@.record.wf() by {
                        if a < s0.len() {
                            assert(self.slots@[a] == s0[a]);
                        }
                    }
                }
                Ok(())
            },
        }
    }

    /// Overwrites the record at `address` in place, growing the slot to
    /// `new_size` if it reserved less; the slot never shrinks, and bytes the
    /// engine reserved beyond the record are left as they were. The owner
    /// identity and the title of the stored record cannot change.
    pub fn resize_and_store(
        &mut self,
        address: &Vec<u8>,
        new_size: usize,
        record: BlogEntryState,
    ) -> (r: Result<(), BlogError>)
        requires
            old(self).wf(),
            record@.wf(),
            old(self)@.contains_key(address@) ==> record@.owner == old(self)@[address@].record.owner
                && record@.title == old(self)@[address@].record.title,
        ensures
            final(self).wf(),
            match r {
                Ok(_) => old(self)@.contains_key(address@) && final(self)@ == old(self)@.insert(
                    address@,
                    SlotModel {
                        size: grown(old(self)@[address@].size, new_size as nat),
                        payer: old(self)@[address@].payer,
                        record: record@,
                    },
                ),
                Err(e) => e == BlogError::NotFound && !old(self)@.contains_key(address@)
                    && final(self)@ == old(self)@,
            },
    {
        match self.find_index(address) {
            None => {
                proof {
                    lemma_slots_map_contains(self.slots@, address@);
                }
                Err(BlogError::NotFound)
            },
            Some(i) => {
                proof {
                    lemma_slots_map_index(self.slots@, i as int);
                }
                let cur = self.slots[i].size;
                let stored_size = if new_size > cur {
                    new_size
                } else {
                    cur
                };
                let payer = copy_bytes(&self.slots[i].payer);
                let addr_copy = copy_bytes(address);
                let ghost s0 = self.slots@;
                let _ = self.slots.remove(i);
                proof {
                    lemma_slots_map_remove(s0, i as int);
                    lemma_unique_remove(s0, i as int);
                }
                let slot = StoreSlot { address: addr_copy, size: stored_size, payer, record };
                let ghost gslot = slot;
                let ghost s1 = self.slots@;
                self.slots.push(slot);
                proof {
                    lemma_slots_map_push(s1, gslot);
                    assert(final(self)@ =~= old(self)@.insert(
                        address@,
                        SlotModel {
                            size: grown(old(self)@[address@].size, new_size as nat),
                            payer: old(self)@[address@].payer,
                            record: record@,
                        },
                    ));
                    assert forall|a: int, b: int| 0 <= a < b < self.slots@.len()
                        implies (#[trigger] self.slots@[a]).address@ != (
                    #[trigger] self.slots@[b]).address@ by {
                        assert(self.slots@[a] == s1[a]);
                        if b < s1.len() {
                            assert(self.slots@[b] == s1[b]);
                        }
                    }
                    assert forall|a: int| 0 <= a < self.slots@.len()
                        implies (#[trigger] self.slots@[a]).address@.len() == ADDRESS_BYTES
                        && self.slots@[a]@.record.wf() by {
                        if a < s1.len() {
                            assert(self.slots@[a] == s1[a]);
                            if a < i {
                                assert(s1[a] == s0[a]);
                            } else {
                                assert(s1[a] == s0[a + 1]);
                            }
                        }
                    }
                }
                Ok(())
            },
        }
    }

    /// Deallocates the slot at `address`; the engine returns the reserved
    /// resources to `refund_to`, and this reports how many bytes were freed.
    pub fn reclaim(&mut self, address: &Vec<u8>, refund_to: &Vec<u8>) -> (r: Result<
        usize,
        BlogError,
    >)
        requires
            old(self).wf(),
        ensures
            final(self).wf(),
            match r {
                Ok(sz) => old(self)@.contains_key(address@)
                    && sz as nat == old(self)@[address@].size
                    && final(self)@ == old(self)@.remove(address@),
                Err(e) => e == BlogError::NotFound && !old(self)@.contains_key(address@)
                    && final(self)@ == old(self)@,
            },
    {
        let _ = refund_to;
        match self.find_index(address) {
            None => {
                proof {
                    lemma_slots_map_contains(self.slots@, address@);
                }
                Err(BlogError::NotFound)
            },
            Some(i) => {
                proof {
                    lemma_slots_map_index(self.slots@, i as int);
                }
                let ghost s0 = self.slots@;
                let removed = self.slots.remove(i);
                proof {
                    lemma_slots_map_remove(s0, i as int);
                    lemma_unique_remove(s0, i as int);
                    assert forall|a: int| 0 <= a < self.slots@.len()
                        implies (#[trigger] self.slots@[a]).address@.len() == ADDRESS_BYTES
                        && self.slots@[a]@.record.wf() by {
                        if a < i {
                            assert(self.slots@[a] == s0[a]);
                        } else {
                            assert(self.slots@[a] == s0[a + 1]);
                        }
                    }
                }
                Ok(removed.size)
            },
        }
    }
}

} // verus!
