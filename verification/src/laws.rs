use vstd::prelude::*;

use crate::error::BlogError;
use crate::lifecycle::{create_transition, delete_transition, update_transition};
use crate::store::{load_spec, SlotModel};
use crate::{valid_content, valid_title};

verus! {

/// Creating a record at a free address succeeds, and a load at that address
/// then yields exactly the given fields, with `created_at` equal to
/// `updated_at`.
pub proof fn lemma_create_then_load(
    m: Map<Seq<u8>, SlotModel>,
    addr: Seq<u8>,
    owner: Seq<u8>,
    title: Seq<u8>,
    content: Seq<u8>,
    now: int,
)
    requires
        valid_title(title),
        valid_content(content),
        !m.contains_key(addr),
    ensures
        create_transition(m, addr, owner, title, content, now).1 == Ok::<(), BlogError>(()),
        ({
            let m1 = create_transition(m, addr, owner, title, content, now).0;
            &&& load_spec(m1, addr) is Some
            &&& load_spec(m1, addr)->Some_0.owner == owner
            &&& load_spec(m1, addr)->Some_0.title == title
            &&& load_spec(m1, addr)->Some_0.content == content
            &&& load_spec(m1, addr)->Some_0.created_at == load_spec(m1, addr)->Some_0.updated_at
        }),
{
}

/// A create with an empty or oversized title reports `InvalidTitle` and
/// allocates nothing.
pub proof fn lemma_create_invalid_title(
    m: Map<Seq<u8>, SlotModel>,
    addr: Seq<u8>,
    owner: Seq<u8>,
    title: Seq<u8>,
    content: Seq<u8>,
    now: int,
)
    requires
        !valid_title(title),
    ensures
        create_transition(m, addr, owner, title, content, now).1 == Err::<(), BlogError>(
            BlogError::InvalidTitle,
        ),
        create_transition(m, addr, owner, title, content, now).0 == m,
{
}

/// A create with an empty or oversized content reports `InvalidContent` and
/// allocates nothing.
pub proof fn lemma_create_invalid_content(
    m: Map<Seq<u8>, SlotModel>,
    addr: Seq<u8>,
    owner: Seq<u8>,
    title: Seq<u8>,
    content: Seq<u8>,
    now: int,
)
    requires
        valid_title(title),
        !valid_content(content),
    ensures
        create_transition(m, addr, owner, title, content, now).1 == Err::<(), BlogError>(
            BlogError::InvalidContent,
        ),
        create_transition(m, addr, owner, title, content, now).0 == m,
{
}

/// An update with an empty or oversized content reports `InvalidContent`
/// and mutates nothing.
pub proof fn lemma_update_invalid_content(
    m: Map<Seq<u8>, SlotModel>,
    addr: Seq<u8>,
    caller: Seq<u8>,
    content: Seq<u8>,
    now: int,
)
    requires
        !valid_content(content),
    ensures
        update_transition(m, addr, caller, content, now).1 == Err::<(), BlogError>(
            BlogError::InvalidContent,
        ),
        update_transition(m, addr, caller, content, now).0 == m,
{
}

/// Creating twice at the same address fails the second time with
/// `AlreadyExists`, and the record the first create stored is unchanged.
pub proof fn lemma_create_twice(
    m: Map<Seq<u8>, SlotModel>,
    addr: Seq<u8>,
    owner: Seq<u8>,
    title: Seq<u8>,
    content: Seq<u8>,
    now: int,
    content2: Seq<u8>,
    now2: int,
)
    requires
        valid_title(title),
        valid_content(content),
        valid_content(content2),
        !m.contains_key(addr),
    ensures
        ({
            let m1 = create_transition(m, addr, owner, title, content, now).0;
            &&& create_transition(m1, addr, owner, title, content2, now2).1 == Err::<
                (),
                BlogError,
            >(BlogError::AlreadyExists)
            &&& create_transition(m1, addr, owner, title, content2, now2).0 == m1
            &&& load_spec(create_transition(m1, addr, owner, title, content2, now2).0, addr)
                == load_spec(m1, addr)
        }),
{
}

/// An update by an identity other than the record's owner reports
/// `Unauthorized` and leaves the record unchanged.
pub proof fn lemma_update_unauthorized(
    m: Map<Seq<u8>, SlotModel>,
    addr: Seq<u8>,
    caller: Seq<u8>,
    content: Seq<u8>,
    now: int,
)
    requires
        m.contains_key(addr),
        m[addr].record.owner != caller,
    ensures
        update_transition(m, addr, caller, content, now).1 is Err,
        update_transition(m, addr, caller, content, now).1 == if valid_content(content) {
            Err::<(), BlogError>(BlogError::Unauthorized)
        } else {
            Err::<(), BlogError>(BlogError::InvalidContent)
        },
        update_transition(m, addr, caller, content, now).0 == m,
{
}

/// A delete by an identity other than the record's owner reports
/// `Unauthorized` and leaves the record in place.
pub proof fn lemma_delete_unauthorized(m: Map<Seq<u8>, SlotModel>, addr: Seq<u8>, caller: Seq<u8>)
    requires
        m.contains_key(addr),
        m[addr].record.owner != caller,
    ensures
        delete_transition(m, addr, caller).1 == Err::<(), BlogError>(BlogError::Unauthorized),
        delete_transition(m, addr, caller).0 == m,
{
}

/// Creating a record and then updating it as its owner succeeds and yields
/// the new content, the same owner, and `updated_at` strictly after
/// `created_at` whenever the clock moved forward between the calls.
pub proof fn lemma_create_update_round_trip(
    m: Map<Seq<u8>, SlotModel>,
    addr: Seq<u8>,
    owner: Seq<u8>,
    title: Seq<u8>,
    content: Seq<u8>,
    content2: Seq<u8>,
    now: int,
    now2: int,
)
    requires
        valid_title(title),
        valid_content(content),
        valid_content(content2),
        !m.contains_key(addr),
        now < now2,
    ensures
        ({
            let m1 = create_transition(m, addr, owner, title, content, now).0;
            let m2 = update_transition(m1, addr, owner, content2, now2).0;
            &&& update_transition(m1, addr, owner, content2, now2).1 == Ok::<(), BlogError>(())
            &&& load_spec(m2, addr) is Some
            &&& load_spec(m2, addr)->Some_0.content == content2
            &&& load_spec(m2, addr)->Some_0.owner == owner
            &&& load_spec(m2, addr)->Some_0.title == title
            &&& load_spec(m2, addr)->Some_0.updated_at > load_spec(m2, addr)->Some_0.created_at
        }),
{
}

/// Deleting a record as its owner succeeds, a load afterwards finds
/// nothing, and the store is exactly as it was before the create: a second
/// create with the same title and owner starts from a clean slate.
pub proof fn lemma_create_delete_then_absent(
    m: Map<Seq<u8>, SlotModel>,
    addr: Seq<u8>,
    owner: Seq<u8>,
    title: Seq<u8>,
    content: Seq<u8>,
    now: int,
)
    requires
        valid_title(title),
        valid_content(content),
        !m.contains_key(addr),
    ensures
        ({
            let m1 = create_transition(m, addr, owner, title, content, now).0;
            let m2 = delete_transition(m1, addr, owner).0;
            &&& delete_transition(m1, addr, owner).1 == Ok::<(), BlogError>(())
            &&& load_spec(m2, addr) is None
            &&& m2 == m
        }),
{
    let m1 = create_transition(m, addr, owner, title, content, now).0;
    let m2 = delete_transition(m1, addr, owner).0;
    assert(m2 =~= m);
}

/// Every failing operation aborts with no partial effect: whatever the
/// failure — validation, occupancy, existence or authorization — the store
/// is exactly as it was.
pub proof fn lemma_failed_operations_change_nothing(
    m: Map<Seq<u8>, SlotModel>,
    addr: Seq<u8>,
    caller: Seq<u8>,
    title: Seq<u8>,
    content: Seq<u8>,
    now: int,
)
    ensures
        create_transition(m, addr, caller, title, content, now).1 is Err ==> create_transition(
            m,
            addr,
            caller,
            title,
            content,
            now,
        ).0 == m,
        update_transition(m, addr, caller, content, now).1 is Err ==> update_transition(
            m,
            addr,
            caller,
            content,
            now,
        ).0 == m,
        delete_transition(m, addr, caller).1 is Err ==> delete_transition(m, addr, caller).0 == m,
{
}

/// A successful update never reassigns the owner, never rewrites the title,
/// never touches `created_at` or the paying identity, and never shrinks the
/// slot.
pub proof fn lemma_update_preserves_identity(
    m: Map<Seq<u8>, SlotModel>,
    addr: Seq<u8>,
    caller: Seq<u8>,
    content: Seq<u8>,
    now: int,
)
    requires
        update_transition(m, addr, caller, content, now).1 is Ok,
    ensures
        ({
            let m1 = update_transition(m, addr, caller, content, now).0;
            &&& m.contains_key(addr)
            &&& m1.contains_key(addr)
            &&& m1[addr].record.owner == m[addr].record.owner
            &&& m1[addr].record.title == m[addr].record.title
            &&& m1[addr].record.created_at == m[addr].record.created_at
            &&& m1[addr].payer == m[addr].payer
            &&& m1[addr].size >= m[addr].size
        }),
{
}

} // verus!
