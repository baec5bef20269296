//! Point operations, lifecycle and registry behaviour of the store.

use triplekv::error::StoreError;
use triplekv::family::Family;
use triplekv::family::list_column_families;
use triplekv::store::Store;

#[test]
fn open_reports_path_and_open_state() {
    let s = Store::open("/tmp/s").unwrap();
    assert!(s.is_open());
    assert_eq!(s.get_path(), "/tmp/s".to_string());
}

#[test]
fn put_then_get_returns_value() {
    let mut s = Store::open("/tmp/s").unwrap();
    assert_eq!(s.put("spo", b"k", b"v"), Ok(()));
    assert_eq!(s.get("spo", b"k"), Ok(Some(b"v".to_vec())));
}

#[test]
fn put_overwrites_existing_value() {
    let mut s = Store::open("/tmp/s").unwrap();
    assert_eq!(s.put("derived", b"k", b"first"), Ok(()));
    assert_eq!(s.put("derived", b"k", b"second"), Ok(()));
    assert_eq!(s.get("derived", b"k"), Ok(Some(b"second".to_vec())));
}

#[test]
fn families_partition_the_key_space() {
    let mut s = Store::open("/tmp/s").unwrap();
    assert_eq!(s.put("spo", b"k", b"v1"), Ok(()));
    assert_eq!(s.get("pos", b"k"), Ok(None));
    assert_eq!(s.get("spo", b"k"), Ok(Some(b"v1".to_vec())));
}

#[test]
fn delete_then_get_not_found() {
    let mut s = Store::open("/tmp/s").unwrap();
    assert_eq!(s.put("pos", b"k", b"v"), Ok(()));
    assert_eq!(s.delete("pos", b"k"), Ok(()));
    assert_eq!(s.get("pos", b"k"), Ok(None));
}

#[test]
fn delete_of_absent_key_succeeds() {
    let mut s = Store::open("/tmp/s").unwrap();
    assert_eq!(s.delete("osp", b"never-written"), Ok(()));
    assert_eq!(s.get("osp", b"never-written"), Ok(None));
}

#[test]
fn exists_agrees_with_get_at_every_point() {
    let mut s = Store::open("/tmp/s").unwrap();
    assert_eq!(s.exists_key("spo", b"k"), Ok(false));
    assert_eq!(s.get("spo", b"k"), Ok(None));
    s.put("spo", b"k", b"v").unwrap();
    assert_eq!(s.exists_key("spo", b"k"), Ok(true));
    assert_eq!(s.get("spo", b"k"), Ok(Some(b"v".to_vec())));
    s.delete("spo", b"k").unwrap();
    assert_eq!(s.exists_key("spo", b"k"), Ok(false));
    assert_eq!(s.get("spo", b"k"), Ok(None));
}

#[test]
fn close_twice_reports_ok_then_already_closed() {
    let mut s = Store::open("/tmp/s").unwrap();
    assert_eq!(s.close(), Ok(()));
    assert_eq!(s.close(), Err(StoreError::AlreadyClosed));
}

#[test]
fn operations_after_close_report_store_closed() {
    let mut s = Store::open("/tmp/s").unwrap();
    s.put("spo", b"k", b"v").unwrap();
    assert_eq!(s.close(), Ok(()));
    assert!(!s.is_open());
    assert_eq!(s.get("spo", b"k"), Err(StoreError::StoreClosed));
    assert_eq!(s.put("spo", b"k", b"v"), Err(StoreError::StoreClosed));
    assert_eq!(s.delete("spo", b"k"), Err(StoreError::StoreClosed));
    assert_eq!(s.exists_key("spo", b"k"), Err(StoreError::StoreClosed));
    assert_eq!(s.get_path(), "/tmp/s".to_string());
}

#[test]
fn unknown_family_rejected_when_open() {
    let mut s = Store::open("/tmp/s").unwrap();
    let bad = StoreError::InvalidColumnFamily("nope".to_string());
    assert_eq!(s.get("nope", b"k"), Err(bad.clone()));
    assert_eq!(s.put("nope", b"k", b"v"), Err(bad.clone()));
    assert_eq!(s.delete("nope", b"k"), Err(bad.clone()));
    assert_eq!(s.exists_key("nope", b"k"), Err(bad));
}

#[test]
fn unknown_family_rejected_when_closed() {
    let mut s = Store::open("/tmp/s").unwrap();
    s.close().unwrap();
    let bad = StoreError::InvalidColumnFamily("nope".to_string());
    assert_eq!(s.get("nope", b"k"), Err(bad.clone()));
    assert_eq!(s.put("nope", b"k", b"v"), Err(bad.clone()));
    assert_eq!(s.delete("nope", b"k"), Err(bad.clone()));
    assert_eq!(s.exists_key("nope", b"k"), Err(bad));
}

#[test]
fn syntactically_plausible_but_unprovisioned_name_rejected() {
    let mut s = Store::open("/tmp/s").unwrap();
    assert_eq!(
        s.put("ops", b"k", b"v"),
        Err(StoreError::InvalidColumnFamily("ops".to_string()))
    );
    assert_eq!(
        s.put("spo2", b"k", b"v"),
        Err(StoreError::InvalidColumnFamily("spo2".to_string()))
    );
    assert_eq!(
        s.put("", b"k", b"v"),
        Err(StoreError::InvalidColumnFamily("".to_string()))
    );
}

#[test]
fn registry_lists_the_six_families() {
    let families = list_column_families();
    assert_eq!(
        families,
        vec![
            Family::Id2Str,
            Family::Str2Id,
            Family::Spo,
            Family::Pos,
            Family::Osp,
            Family::Derived,
        ]
    );
}

#[test]
fn registry_resolves_exactly_the_six_names() {
    assert_eq!(Family::resolve("id2str"), Some(Family::Id2Str));
    assert_eq!(Family::resolve("str2id"), Some(Family::Str2Id));
    assert_eq!(Family::resolve("spo"), Some(Family::Spo));
    assert_eq!(Family::resolve("pos"), Some(Family::Pos));
    assert_eq!(Family::resolve("osp"), Some(Family::Osp));
    assert_eq!(Family::resolve("derived"), Some(Family::Derived));
    assert_eq!(Family::resolve("sp"), None);
    assert_eq!(Family::resolve("spoo"), None);
    assert_eq!(Family::resolve("SPO"), None);
    assert_eq!(Family::resolve(""), None);
}

#[test]
fn family_names_round_trip_through_resolve() {
    for f in list_column_families() {
        assert_eq!(Family::resolve(f.name()), Some(f));
    }
}

#[test]
fn keys_and_values_may_be_arbitrary_bytes() {
    let mut s = Store::open("/tmp/s").unwrap();
    let key: Vec<u8> = vec![0u8, 255u8, 7u8];
    let value: Vec<u8> = vec![254u8, 0u8, 0u8, 1u8];
    assert_eq!(s.put("id2str", &key, &value), Ok(()));
    assert_eq!(s.get("id2str", &key), Ok(Some(value)));
    assert_eq!(s.put("str2id", b"", b""), Ok(()));
    assert_eq!(s.get("str2id", b""), Ok(Some(Vec::new())));
}
