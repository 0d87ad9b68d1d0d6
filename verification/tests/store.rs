use blog::{BlogEntryState, BlogError, RecordStore};

fn id(b: u8) -> Vec<u8> {
    vec![b; 32]
}

fn record(owner: u8, title: &[u8], content: &[u8], at: i64) -> BlogEntryState {
    BlogEntryState {
        owner: id(owner),
        title: title.to_vec(),
        content: content.to_vec(),
        created_at: at,
        updated_at: at,
    }
}

#[test]
fn allocate_then_load_then_reclaim() {
    let mut store = RecordStore::new();
    let addr = id(200);
    assert!(store.allocate(&addr, 64, &id(1), record(1, b"t", b"c", 5)).is_ok());
    let loaded = store.load(&addr).expect("present");
    assert_eq!(loaded.owner, id(1));
    assert_eq!(loaded.title, b"t".to_vec());
    assert_eq!(loaded.content, b"c".to_vec());
    assert_eq!(store.reclaim(&addr, &id(1)), Ok(64));
    assert!(store.load(&addr).is_none());
    assert_eq!(store.reclaim(&addr, &id(1)), Err(BlogError::NotFound));
}

#[test]
fn allocate_on_occupied_address_fails() {
    let mut store = RecordStore::new();
    let addr = id(200);
    assert!(store.allocate(&addr, 64, &id(1), record(1, b"t", b"c", 5)).is_ok());
    assert_eq!(
        store.allocate(&addr, 64, &id(2), record(2, b"u", b"d", 6)),
        Err(BlogError::AlreadyExists)
    );
    // The first record is untouched.
    let loaded = store.load(&addr).expect("present");
    assert_eq!(loaded.owner, id(1));
    assert_eq!(loaded.content, b"c".to_vec());
}

#[test]
fn slots_grow_but_never_shrink() {
    let mut store = RecordStore::new();
    let addr = id(200);
    assert!(store.allocate(&addr, 64, &id(1), record(1, b"t", b"cccc", 5)).is_ok());
    assert_eq!(store.slot_size(&addr), Some(64));
    // A smaller request leaves the slot at its size.
    assert!(store.resize_and_store(&addr, 16, record(1, b"t", b"c", 6)).is_ok());
    assert_eq!(store.slot_size(&addr), Some(64));
    // A larger request grows it.
    assert!(store.resize_and_store(&addr, 128, record(1, b"t", b"cc", 7)).is_ok());
    assert_eq!(store.slot_size(&addr), Some(128));
}

#[test]
fn resize_on_absent_address_fails() {
    let mut store = RecordStore::new();
    assert_eq!(
        store.resize_and_store(&id(200), 64, record(1, b"t", b"c", 5)),
        Err(BlogError::NotFound)
    );
}

#[test]
fn authorize_accepts_only_the_owner() {
    let rec = record(1, b"t", b"c", 5);
    assert_eq!(blog::auth::authorize(&rec, &id(1)), Ok(()));
    assert_eq!(blog::auth::authorize(&rec, &id(2)), Err(BlogError::Unauthorized));
}
