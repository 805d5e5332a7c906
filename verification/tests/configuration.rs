use indradb::config::{select_backend, worker_count_ok, Backend};
use indradb::errors::ValidationError;
use indradb::models::{next_id, Type};

#[test]
fn memory_uri_selects_the_memory_datastore() {
    assert!(matches!(select_backend("memory://"), Some(Backend::Memory)));
}

#[test]
fn persistent_uri_carries_its_path() {
    match select_backend("rocksdb:///var/lib/graph.rdb") {
        Some(Backend::Persistent { path }) => assert_eq!(path, "/var/lib/graph.rdb"),
        other => panic!("a persistent datastore was expected, not {:?}", other),
    }
    match select_backend("rocksdb://") {
        Some(Backend::Persistent { path }) => assert_eq!(path, ""),
        other => panic!("a persistent datastore was expected, not {:?}", other),
    }
    match select_backend("rocksdb://d\u{e9}p\u{f4}t") {
        Some(Backend::Persistent { path }) => assert_eq!(path, "d\u{e9}p\u{f4}t"),
        other => panic!("a persistent datastore was expected, not {:?}", other),
    }
}

#[test]
fn other_strings_select_nothing() {
    for uri in ["", "memory", "memory:/", "memory://x", "Memory://", " memory://", "rocksdb:/x", "postgres://localhost", "xrocksdb://a"] {
        assert!(select_backend(uri).is_none(), "{:?}", uri);
    }
}

#[test]
fn a_pool_needs_one_worker() {
    assert!(!worker_count_ok(0));
    assert!(worker_count_ok(1));
    assert!(worker_count_ok(8));
    assert!(worker_count_ok(usize::MAX));
}

#[test]
fn ids_run_out_at_the_greatest() {
    assert_eq!(next_id(0), Ok(1));
    assert_eq!(next_id(41), Ok(42));
    assert_eq!(next_id(u64::MAX - 1), Ok(u64::MAX));
    assert_eq!(next_id(u64::MAX), Err(ValidationError::CannotIncrementUuid));
}

#[test]
fn type_parses_from_a_string_slice() {
    assert_eq!("user".parse::<Type>().unwrap().0, "user");
    assert_eq!("".parse::<Type>(), Err(ValidationError::InvalidValue));
    assert_eq!("x".repeat(300).parse::<Type>(), Err(ValidationError::ValueTooLong));
}
