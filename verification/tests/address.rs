fn id(b: u8) -> Vec<u8> {
    vec![b; 32]
}

fn ns() -> Vec<u8> {
    b"blog".to_vec()
}

#[test]
fn derivation_is_deterministic() {
    let title = b"a title".to_vec();
    let d1 = blog::address::derive(&ns(), &title, &id(1), &id(9)).expect("derivation");
    let d2 = blog::address::derive(&ns(), &title, &id(1), &id(9)).expect("derivation");
    assert_eq!(d1.address, d2.address);
    assert_eq!(d1.bump, d2.bump);
    assert_eq!(d1.address.len(), blog::ADDRESS_BYTES);
}

#[test]
fn different_owners_get_different_addresses() {
    let title = b"a title".to_vec();
    let d1 = blog::address::derive(&ns(), &title, &id(1), &id(9)).expect("derivation");
    let d2 = blog::address::derive(&ns(), &title, &id(2), &id(9)).expect("derivation");
    assert_ne!(d1.address, d2.address);
}

#[test]
fn different_titles_get_different_addresses() {
    let d1 = blog::address::derive(&ns(), &b"one title".to_vec(), &id(1), &id(9))
        .expect("derivation");
    let d2 = blog::address::derive(&ns(), &b"another title".to_vec(), &id(1), &id(9))
        .expect("derivation");
    assert_ne!(d1.address, d2.address);
}

#[test]
fn derived_address_is_not_an_input() {
    let title = b"a title".to_vec();
    let owner = id(1);
    let module = id(9);
    let d = blog::address::derive(&ns(), &title, &owner, &module).expect("derivation");
    assert_ne!(d.address, owner);
    assert_ne!(d.address, module);
}

#[test]
fn long_titles_derive_like_short_ones() {
    // 50 bytes: longer than one 32-byte seed, so the title spans two seeds.
    let long: Vec<u8> = (0..50u8).map(|i| b'a' + (i % 26)).collect();
    let d1 = blog::address::derive(&ns(), &long, &id(1), &id(9)).expect("derivation");
    let d2 = blog::address::derive(&ns(), &long, &id(1), &id(9)).expect("derivation");
    assert_eq!(d1.address, d2.address);
    assert_eq!(d1.address.len(), blog::ADDRESS_BYTES);

    let mut other = long.clone();
    other[49] = b'#';
    let d3 = blog::address::derive(&ns(), &other, &id(1), &id(9)).expect("derivation");
    assert_ne!(d1.address, d3.address);
}

#[test]
fn namespace_separates_addresses() {
    let title = b"a title".to_vec();
    let d1 = blog::address::derive(&b"blog".to_vec(), &title, &id(1), &id(9))
        .expect("derivation");
    let d2 = blog::address::derive(&b"journal".to_vec(), &title, &id(1), &id(9))
        .expect("derivation");
    assert_ne!(d1.address, d2.address);
}
