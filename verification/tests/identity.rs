use std::collections::hash_map::DefaultHasher;
use std::hash::Hash;
use std::hash::Hasher;

use same_file::Error;
use same_file::Handle;
use same_file::HandleKind;
use same_file::Key;

fn hash_of<T: Hash>(value: &T) -> u64 {
    let mut hasher = DefaultHasher::new();
    value.hash(&mut hasher);
    hasher.finish()
}

#[test]
fn key_packing_combines_halves() {
    let k = Key::from_file_information(3, 0x1234_5678, 0x9abc_def0);
    assert_eq!(k.volume, 3);
    assert_eq!(k.index, 0x1234_5678_9abc_def0);
}

#[test]
fn key_packing_zero() {
    let k = Key::from_file_information(0, 0, 0);
    assert_eq!(k.volume, 0);
    assert_eq!(k.index, 0);
}

#[test]
fn key_packing_distinct_halves_give_distinct_keys() {
    let a = Key::from_file_information(1, 0, 1);
    let b = Key::from_file_information(1, 1, 0);
    assert_ne!(a, b);
    assert_eq!(a.index, 1);
    assert_eq!(b.index, 0x1_0000_0000);
}

#[test]
fn key_equality_is_field_equality() {
    assert_eq!(Key::new(1, 2), Key::new(1, 2));
    assert_ne!(Key::new(1, 2), Key::new(1, 3));
    assert_ne!(Key::new(1, 2), Key::new(2, 2));
}

#[test]
fn owned_construction_captures_key() {
    let k = Key::new(7, 40);
    let h = Handle::owned_from_query(Ok(k)).unwrap();
    assert_eq!(h.kind(), HandleKind::Owned);
    assert_eq!(h.key(), Some(k));
}

#[test]
fn owned_construction_fails_when_query_fails() {
    let r = Handle::owned_from_query(Err(5));
    match r {
        Ok(_) => panic!("construction must fail when the identity query fails"),
        Err(e) => {
            assert_eq!(e, Error::Query { code: 5 });
            assert_eq!(e.code(), 5);
            assert!(!e.is_open_failure());
        }
    }
}

#[test]
fn open_failure_error_reported() {
    let e = Error::Open { code: 2 };
    assert!(e.is_open_failure());
    assert_eq!(e.code(), 2);
    assert_ne!(e, Error::Query { code: 2 });
}

#[test]
fn borrowed_construction_never_fails() {
    let h = Handle::borrowed_from_query(Err(6));
    assert_eq!(h.kind(), HandleKind::Borrowed);
    assert_eq!(h.key(), None);
    let k = Key::new(1, 1);
    let h2 = Handle::borrowed_from_query(Ok(k));
    assert_eq!(h2.kind(), HandleKind::Borrowed);
    assert_eq!(h2.key(), Some(k));
}

#[test]
fn same_key_handles_equal_and_hash_alike() {
    let k = Key::new(11, 97);
    let h1 = Handle::owned_from_query(Ok(k)).unwrap();
    let h2 = Handle::owned_from_query(Ok(k)).unwrap();
    assert!(h1 == h2);
    assert!(h2 == h1);
    assert_eq!(hash_of(&h1), hash_of(&h2));
}

#[test]
fn distinct_key_handles_never_equal() {
    let h1 = Handle::owned_from_query(Ok(Key::new(11, 97))).unwrap();
    let h2 = Handle::owned_from_query(Ok(Key::new(11, 98))).unwrap();
    let h3 = Handle::owned_from_query(Ok(Key::new(12, 97))).unwrap();
    assert!(h1 != h2);
    assert!(h1 != h3);
    assert!(h2 != h3);
}

#[test]
fn equality_ignores_variant_tag() {
    let k = Key::new(4, 4);
    let owned = Handle::owned_from_query(Ok(k)).unwrap();
    let borrowed = Handle::borrowed_from_query(Ok(k));
    assert!(owned == borrowed);
    assert!(borrowed == owned);
    assert_eq!(hash_of(&owned), hash_of(&borrowed));
}

#[test]
fn handle_equal_to_itself_even_keyless() {
    let keyed = Handle::owned_from_query(Ok(Key::new(1, 2))).unwrap();
    assert!(keyed == keyed);
    let keyless = Handle::borrowed_from_query(Err(6));
    assert!(keyless == keyless);
    assert!(keyless.equals(&keyless));
}

#[test]
fn keyless_handles_never_equal_each_other() {
    let a = Handle::borrowed_from_query(Err(6));
    let b = Handle::borrowed_from_query(Err(6));
    assert!(a != b);
    assert!(b != a);
    let keyed = Handle::owned_from_query(Ok(Key::new(1, 2))).unwrap();
    assert!(a != keyed);
    assert!(keyed != a);
}

#[test]
fn absent_key_hashes_to_its_own_sentinel() {
    let keyless = Handle::borrowed_from_query(Err(6));
    let zero_key = Handle::owned_from_query(Ok(Key::new(0, 0))).unwrap();
    assert_ne!(hash_of(&keyless), hash_of(&zero_key));
}

#[test]
fn reopen_same_path_then_unrelated_file() {
    // The OS reports one identity for one path while both handles stay open.
    let path_identity = Key::new(21, 300);
    let h1 = Handle::owned_from_query(Ok(path_identity)).unwrap();
    let h2 = Handle::owned_from_query(Ok(path_identity)).unwrap();
    assert!(h1 == h2);
    drop(h1);
    // A file created at a different path afterwards gets its own identity.
    let other_identity = Key::new(21, 301);
    let h3 = Handle::owned_from_query(Ok(other_identity)).unwrap();
    assert!(h3 != h2);
}

#[test]
fn redirected_stdin_matches_its_file() {
    // With stdin redirected from a real file, the identity query on the
    // stream and on the file's path report one and the same key.
    let file_identity = Key::new(8, 1234);
    let s1 = Handle::borrowed_from_query(Ok(file_identity));
    let s2 = Handle::borrowed_from_query(Ok(file_identity));
    let by_path = Handle::owned_from_query(Ok(file_identity)).unwrap();
    assert!(s1 == s2);
    assert!(s1 == by_path);
    assert!(s2 == by_path);
    assert_eq!(hash_of(&s1), hash_of(&by_path));
}
