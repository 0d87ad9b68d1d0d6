use vstd::prelude::*;

use crate::address::{derive_spec, derived_addr, ADDRESS_BYTES, MAX_SEED_BYTES};
use crate::auth::authorize;
use crate::bytes::copy_bytes;
use crate::error::BlogError;
use crate::record::{BlogEntryState, RecordModel, IDENTITY_BYTES, RECORD_SLOT_BYTES};
use crate::store::{grown, RecordStore, SlotModel};
use crate::{valid_content, valid_title, validate_content, validate_title};

verus! {

/// The record a successful create stores: owned by its creator, with both
/// timestamps set to the creation instant.
pub open spec fn new_record(owner: Seq<u8>, title: Seq<u8>, content: Seq<u8>, now: int) -> RecordModel {
    RecordModel { owner, title, content, created_at: now, updated_at: now }
}

/// What `create` does to the store at `addr`: validate the title, then the
/// content, then allocate — an occupied address is left untouched.
pub open spec fn create_transition(
    m: Map<Seq<u8>, SlotModel>,
    addr: Seq<u8>,
    owner: Seq<u8>,
    title: Seq<u8>,
    content: Seq<u8>,
    now: int,
) -> (Map<Seq<u8>, SlotModel>, Result<(), BlogError>) {
    if !valid_title(title) {
        (m, Err(BlogError::InvalidTitle))
    } else if !valid_content(content) {
        (m, Err(BlogError::InvalidContent))
    } else if m.contains_key(addr) {
        (m, Err(BlogError::AlreadyExists))
    } else {
        (
            m.insert(
                addr,
                SlotModel {
                    size: RECORD_SLOT_BYTES as nat,
                    payer: owner,
                    record: new_record(owner, title, content, now),
                },
            ),
            Ok(()),
        )
    }
}

/// What `update` does to the store at `addr`: validate the content, demand
/// an existing record owned by `caller`, then overwrite the content and
/// refresh `updated_at` — owner, title, `created_at` and the paying identity
/// are untouched, and the slot never shrinks.
pub open spec fn update_transition(
    m: Map<Seq<u8>, SlotModel>,
    addr: Seq<u8>,
    caller: Seq<u8>,
    content: Seq<u8>,
    now: int,
) -> (Map<Seq<u8>, SlotModel>, Result<(), BlogError>) {
    if !valid_content(content) {
        (m, Err(BlogError::InvalidContent))
    } else if !m.contains_key(addr) {
        (m, Err(BlogError::NotFound))
    } else if m[addr].record.owner != caller {
        (m, Err(BlogError::Unauthorized))
    } else {
        (
            m.insert(
                addr,
                SlotModel {
                    size: grown(m[addr].size, RECORD_SLOT_BYTES as nat),
                    payer: m[addr].payer,
                    record: RecordModel {
                        owner: m[addr].record.owner,
                        title: m[addr].record.title,
                        content,
                        created_at: m[addr].record.created_at,
                        updated_at: now,
                    },
                },
            ),
            Ok(()),
        )
    }
}

/// What `delete` does to the store at `addr`: demand an existing record
/// owned by `caller`, then reclaim the slot.
pub open spec fn delete_transition(
    m: Map<Seq<u8>, SlotModel>,
    addr: Seq<u8>,
    caller: Seq<u8>,
) -> (Map<Seq<u8>, SlotModel>, Result<(), BlogError>) {
    if !m.contains_key(addr) {
        (m, Err(BlogError::NotFound))
    } else if m[addr].record.owner != caller {
        (m, Err(BlogError::Unauthorized))
    } else {
        (m.remove(addr), Ok(()))
    }
}

/// Creates a record at an already-derived address.
pub fn create_at(
    store: &mut RecordStore,
    address: &Vec<u8>,
    caller: &Vec<u8>,
    title: Vec<u8>,
    content: Vec<u8>,
    now: i64,
) -> (r: Result<(), BlogError>)
    requires
        old(store).wf(),
        address@.len() == ADDRESS_BYTES,
        caller@.len() == IDENTITY_BYTES,
    ensures
        final(store).wf(),
        final(store)@ == create_transition(
            old(store)@,
            address@,
            caller@,
            title@,
            content@,
            now as int,
        ).0,
        r == create_transition(old(store)@, address@, caller@, title@, content@, now as int).1,
{
    if let Err(e) = validate_title(&title) {
        return Err(e);
    }
    if let Err(e) = validate_content(&content) {
        return Err(e);
    }
    let owner = copy_bytes(caller);
    let record = BlogEntryState { owner, title, content, created_at: now, updated_at: now };
    let r = store.allocate(address, RECORD_SLOT_BYTES, caller, record);
    proof {
        if r is Ok {
            assert(r == Ok::<(), BlogError>(r->Ok_0));
        }
    }
    r
}

/// Updates the content of the record at an already-derived address.
pub fn update_at(
    store: &mut RecordStore,
    address: &Vec<u8>,
    caller: &Vec<u8>,
    content: Vec<u8>,
    now: i64,
) -> (r: Result<(), BlogError>)
    requires
        old(store).wf(),
        caller@.len() == IDENTITY_BYTES,
    ensures
        final(store).wf(),
        final(store)@ == update_transition(old(store)@, address@, caller@, content@, now as int).0,
        r == update_transition(old(store)@, address@, caller@, content@, now as int).1,
{
    if let Err(e) = validate_content(&content) {
        return Err(e);
    }
    let (owner, title, created_at) = match store.load(address) {
        None => {
            return Err(BlogError::NotFound);
        },
        Some(existing) => {
            if authorize(existing, caller).is_err() {
                return Err(BlogError::Unauthorized);
            }
            proof {
                store.lemma_store_inv();
            }
            (copy_bytes(&existing.owner), copy_bytes(&existing.title), existing.created_at)
        },
    };
    let record = BlogEntryState { owner, title, content, created_at, updated_at: now };
    match store.resize_and_store(address, RECORD_SLOT_BYTES, record) {
        Ok(_) => Ok(()),
        Err(e) => {
            // Dead branch: the record was just confirmed to exist.
            proof {
                assert(false);
            }
            Err(e)
        },
    }
}

/// Deletes the record at an already-derived address, reclaiming its slot
/// for the caller.
pub fn delete_at(store: &mut RecordStore, address: &Vec<u8>, caller: &Vec<u8>) -> (r: Result<
    (),
    BlogError,
>)
    requires
        old(store).wf(),
    ensures
        final(store).wf(),
        final(store)@ == delete_transition(old(store)@, address@, caller@).0,
        r == delete_transition(old(store)@, address@, caller@).1,
{
    match store.load(address) {
        None => {
            return Err(BlogError::NotFound);
        },
        Some(existing) => {
            if authorize(existing, caller).is_err() {
                return Err(BlogError::Unauthorized);
            }
        },
    }
    match store.reclaim(address, caller) {
        Ok(_) => Ok(()),
        Err(e) => {
            // Dead branch: the record was just confirmed to exist.
            proof {
                assert(false);
            }
            Err(e)
        },
    }
}

/// What the execution environment hands a create instruction: the verified
/// signer identity, the record fields, and the clock reading.
pub struct CreateEntry {
    /// Identity that signed the instruction; becomes the record's owner and
    /// pays for the allocation.
    pub caller: Vec<u8>,
    pub title: Vec<u8>,
    pub content: Vec<u8>,
    /// Reading of the trusted clock, as a Unix timestamp.
    pub now: i64,
}

/// What the execution environment hands an update instruction.
pub struct UpdateBlog {
    /// Identity that signed the instruction; must own the record.
    pub caller: Vec<u8>,
    /// Title of the record to update; only addresses the record.
    pub title: Vec<u8>,
    pub content: Vec<u8>,
    /// Reading of the trusted clock, as a Unix timestamp.
    pub now: i64,
}

/// What the execution environment hands a delete instruction.
pub struct DeleteBlog {
    /// Identity that signed the instruction; must own the record.
    pub caller: Vec<u8>,
    /// Title of the record to delete.
    pub title: Vec<u8>,
}

/// Creates the blog entry filed under `entry.title` for `entry.caller`:
/// derives the address from the namespace, title and caller, validates both
/// fields, and allocates the record, with `entry.caller` as its owner and
/// both timestamps set to `entry.now`. Callable only when the address
/// derivation succeeds; `try_create_blog_entry` drops that condition.
pub fn create_blog_entry(
    store: &mut RecordStore,
    ns: &Vec<u8>,
    module_id: &Vec<u8>,
    entry: CreateEntry,
) -> (r: Result<(), BlogError>)
    requires
        old(store).wf(),
        1 <= ns@.len() <= MAX_SEED_BYTES,
        entry.caller@.len() == IDENTITY_BYTES,
        module_id@.len() == ADDRESS_BYTES,
        valid_title(entry.title@) && valid_content(entry.content@) ==> derive_spec(
            ns@,
            entry.title@,
            entry.caller@,
            module_id@,
        ) is Some,
    ensures
        final(store).wf(),
        !(valid_title(entry.title@) && valid_content(entry.content@))
            ==> final(store)@ == old(store)@,
        !valid_title(entry.title@) ==> r == Err::<(), BlogError>(BlogError::InvalidTitle),
        valid_title(entry.title@) && !valid_content(entry.content@) ==> r == Err::<
            (),
            BlogError,
        >(BlogError::InvalidContent),
        valid_title(entry.title@) && valid_content(entry.content@) ==> ({
            let a = derived_addr(ns@, entry.title@, entry.caller@, module_id@);
            &&& final(store)@ == create_transition(
                old(store)@,
                a,
                entry.caller@,
                entry.title@,
                entry.content@,
                entry.now as int,
            ).0
            &&& r == create_transition(
                old(store)@,
                a,
                entry.caller@,
                entry.title@,
                entry.content@,
                entry.now as int,
            ).1
        }),
{
    if let Err(e) = validate_title(&entry.title) {
        return Err(e);
    }
    if let Err(e) = validate_content(&entry.content) {
        return Err(e);
    }
    match crate::address::derive(ns, &entry.title, &entry.caller, module_id) {
        Some(d) => create_at(
            store,
            &d.address,
            &entry.caller,
            entry.title,
            entry.content,
            entry.now,
        ),
        None => {
            // Dead branch: the requires guarantees a derivable address.
            proof {
                assert(false);
            }
            Err(BlogError::NotFound)
        },
    }
}

/// Creates the blog entry filed under `entry.title` for `entry.caller`,
/// reporting a failed address derivation as `None` instead of demanding it
/// cannot happen.
pub fn try_create_blog_entry(
    store: &mut RecordStore,
    ns: &Vec<u8>,
    module_id: &Vec<u8>,
    entry: CreateEntry,
) -> (r: Option<Result<(), BlogError>>)
    requires
        old(store).wf(),
        1 <= ns@.len() <= MAX_SEED_BYTES,
        entry.caller@.len() == IDENTITY_BYTES,
        module_id@.len() == ADDRESS_BYTES,
    ensures
        final(store).wf(),
        r is None ==> valid_title(entry.title@) && valid_content(entry.content@) && derive_spec(
            ns@,
            entry.title@,
            entry.caller@,
            module_id@,
        ) is None && final(store)@ == old(store)@,
        r is Some ==> ({
            let res = r->Some_0;
            &&& !(valid_title(entry.title@) && valid_content(entry.content@)) ==> final(store)@
                == old(store)@
            &&& !valid_title(entry.title@) ==> res == Err::<(), BlogError>(BlogError::InvalidTitle)
            &&& valid_title(entry.title@) && !valid_content(entry.content@) ==> res == Err::<
                (),
                BlogError,
            >(BlogError::InvalidContent)
            &&& valid_title(entry.title@) && valid_content(entry.content@) ==> ({
                let a = derived_addr(ns@, entry.title@, entry.caller@, module_id@);
                &&& final(store)@ == create_transition(
                    old(store)@,
                    a,
                    entry.caller@,
                    entry.title@,
                    entry.content@,
                    entry.now as int,
                ).0
                &&& res == create_transition(
                    old(store)@,
                    a,
                    entry.caller@,
                    entry.title@,
                    entry.content@,
                    entry.now as int,
                ).1
            })
        }),
{
    let title_ok = validate_title(&entry.title).is_ok();
    let content_ok = validate_content(&entry.content).is_ok();
    if !title_ok || !content_ok {
        return Some(create_blog_entry(store, ns, module_id, entry));
    }
    match crate::address::derive(ns, &entry.title, &entry.caller, module_id) {
        None => None,
        Some(_) => Some(create_blog_entry(store, ns, module_id, entry)),
    }
}

/// Updates the content of the blog entry filed under `entry.title` by
/// `entry.caller`: derives the address, validates the content, and
/// overwrites the record if it exists and the caller owns it, refreshing
/// `updated_at` to `entry.now`. Callable only when the address derivation
/// succeeds; `try_update_blog_entry` drops that condition.
pub fn update_blog_entry(
    store: &mut RecordStore,
    ns: &Vec<u8>,
    module_id: &Vec<u8>,
    entry: UpdateBlog,
) -> (r: Result<(), BlogError>)
    requires
        old(store).wf(),
        1 <= ns@.len() <= MAX_SEED_BYTES,
        entry.caller@.len() == IDENTITY_BYTES,
        module_id@.len() == ADDRESS_BYTES,
        entry.title@.len() <= 50,
        valid_content(entry.content@) ==> derive_spec(
            ns@,
            entry.title@,
            entry.caller@,
            module_id@,
        ) is Some,
    ensures
        final(store).wf(),
        !valid_content(entry.content@) ==> r == Err::<(), BlogError>(BlogError::InvalidContent)
            && final(store)@ == old(store)@,
        valid_content(entry.content@) ==> ({
            let a = derived_addr(ns@, entry.title@, entry.caller@, module_id@);
            &&& final(store)@ == update_transition(
                old(store)@,
                a,
                entry.caller@,
                entry.content@,
                entry.now as int,
            ).0
            &&& r == update_transition(
                old(store)@,
                a,
                entry.caller@,
                entry.content@,
                entry.now as int,
            ).1
        }),
{
    if let Err(e) = validate_content(&entry.content) {
        return Err(e);
    }
    match crate::address::derive(ns, &entry.title, &entry.caller, module_id) {
        Some(d) => update_at(store, &d.address, &entry.caller, entry.content, entry.now),
        None => {
            // Dead branch: the requires guarantees a derivable address.
            proof {
                assert(false);
            }
            Err(BlogError::NotFound)
        },
    }
}

/// Updates the content of the blog entry filed under `entry.title`,
/// reporting a failed address derivation as `None` instead of demanding it
/// cannot happen.
pub fn try_update_blog_entry(
    store: &mut RecordStore,
    ns: &Vec<u8>,
    module_id: &Vec<u8>,
    entry: UpdateBlog,
) -> (r: Option<Result<(), BlogError>>)
    requires
        old(store).wf(),
        1 <= ns@.len() <= MAX_SEED_BYTES,
        entry.caller@.len() == IDENTITY_BYTES,
        module_id@.len() == ADDRESS_BYTES,
        entry.title@.len() <= 50,
    ensures
        final(store).wf(),
        r is None ==> valid_content(entry.content@) && derive_spec(
            ns@,
            entry.title@,
            entry.caller@,
            module_id@,
        ) is None && final(store)@ == old(store)@,
        r is Some ==> ({
            let res = r->Some_0;
            &&& !valid_content(entry.content@) ==> res == Err::<(), BlogError>(
                BlogError::InvalidContent,
            ) && final(store)@ == old(store)@
            &&& valid_content(entry.content@) ==> ({
                let a = derived_addr(ns@, entry.title@, entry.caller@, module_id@);
                &&& final(store)@ == update_transition(
                    old(store)@,
                    a,
                    entry.caller@,
                    entry.content@,
                    entry.now as int,
                ).0
                &&& res == update_transition(
                    old(store)@,
                    a,
                    entry.caller@,
                    entry.content@,
                    entry.now as int,
                ).1
            })
        }),
{
    if validate_content(&entry.content).is_err() {
        return Some(update_blog_entry(store, ns, module_id, entry));
    }
    match crate::address::derive(ns, &entry.title, &entry.caller, module_id) {
        None => None,
        Some(_) => Some(update_blog_entry(store, ns, module_id, entry)),
    }
}

/// Deletes the blog entry filed under `entry.title` by `entry.caller`:
/// derives the address and reclaims the record's slot if it exists and the
/// caller owns it, refunding the caller. Callable only when the address
/// derivation succeeds; `try_delete_blog_entry` drops that condition.
pub fn delete_blog_entry(
    store: &mut RecordStore,
    ns: &Vec<u8>,
    module_id: &Vec<u8>,
    entry: DeleteBlog,
) -> (r: Result<(), BlogError>)
    requires
        old(store).wf(),
        1 <= ns@.len() <= MAX_SEED_BYTES,
        entry.caller@.len() == IDENTITY_BYTES,
        module_id@.len() == ADDRESS_BYTES,
        entry.title@.len() <= 50,
        derive_spec(ns@, entry.title@, entry.caller@, module_id@) is Some,
    ensures
        final(store).wf(),
        ({
            let a = derived_addr(ns@, entry.title@, entry.caller@, module_id@);
            &&& final(store)@ == delete_transition(old(store)@, a, entry.caller@).0
            &&& r == delete_transition(old(store)@, a, entry.caller@).1
        }),
{
    match crate::address::derive(ns, &entry.title, &entry.caller, module_id) {
        Some(d) => delete_at(store, &d.address, &entry.caller),
        None => {
            // Dead branch: the requires guarantees a derivable address.
            proof {
                assert(false);
            }
            Err(BlogError::NotFound)
        },
    }
}

/// Deletes the blog entry filed under `entry.title`, reporting a failed
/// address derivation as `None` instead of demanding it cannot happen.
pub fn try_delete_blog_entry(
    store: &mut RecordStore,
    ns: &Vec<u8>,
    module_id: &Vec<u8>,
    entry: DeleteBlog,
) -> (r: Option<Result<(), BlogError>>)
    requires
        old(store).wf(),
        1 <= ns@.len() <= MAX_SEED_BYTES,
        entry.caller@.len() == IDENTITY_BYTES,
        module_id@.len() == ADDRESS_BYTES,
        entry.title@.len() <= 50,
    ensures
        final(store).wf(),
        r is None ==> derive_spec(ns@, entry.title@, entry.caller@, module_id@) is None
            && final(store)@ == old(store)@,
        r is Some ==> ({
            let a = derived_addr(ns@, entry.title@, entry.caller@, module_id@);
            &&& final(store)@ == delete_transition(old(store)@, a, entry.caller@).0
            &&& r->Some_0 == delete_transition(old(store)@, a, entry.caller@).1
        }),
{
    match crate::address::derive(ns, &entry.title, &entry.caller, module_id) {
        None => None,
        Some(_) => Some(delete_blog_entry(store, ns, module_id, entry)),
    }
}

} // verus!
