//! Batch validation and atomic-commit behaviour, over the three surface
//! shapes a batch may be described in.

use triplekv::error::StoreError;
use triplekv::ops::DeleteEntry;
use triplekv::ops::MixedEntry;
use triplekv::ops::PutEntry;
use triplekv::store::Store;

fn put_plain(family: &str, key: &[u8], value: &[u8]) -> PutEntry {
    PutEntry::Plain {
        family: family.to_string(),
        key: key.to_vec(),
        value: value.to_vec(),
    }
}

fn put_tagged(tag: &str, family: &str, key: &[u8], value: &[u8]) -> PutEntry {
    PutEntry::Tagged {
        tag: tag.to_string(),
        family: family.to_string(),
        key: key.to_vec(),
        value: value.to_vec(),
    }
}

fn mixed(tag: &str, family: &str, key: &[u8], value: Option<&[u8]>) -> MixedEntry {
    MixedEntry {
        tag: tag.to_string(),
        family: family.to_string(),
        key: key.to_vec(),
        value: value.map(|v| v.to_vec()),
    }
}

#[test]
fn write_batch_commits_every_entry() {
    let mut s = Store::open("/tmp/s").unwrap();
    let batch = vec![
        put_plain("spo", b"a", b"1"),
        put_tagged("put", "pos", b"a", b"2"),
    ];
    assert_eq!(s.write_batch(&batch), Ok(()));
    assert_eq!(s.get("spo", b"a"), Ok(Some(b"1".to_vec())));
    assert_eq!(s.get("pos", b"a"), Ok(Some(b"2".to_vec())));
}

#[test]
fn empty_write_batch_commits_trivially() {
    let mut s = Store::open("/tmp/s").unwrap();
    s.put("spo", b"k", b"v").unwrap();
    assert_eq!(s.write_batch(&Vec::new()), Ok(()));
    assert_eq!(s.get("spo", b"k"), Ok(Some(b"v".to_vec())));
    assert_eq!(s.delete_batch(&Vec::new()), Ok(()));
    assert_eq!(s.mixed_batch(&Vec::new()), Ok(()));
    assert_eq!(s.get("spo", b"k"), Ok(Some(b"v".to_vec())));
}

#[test]
fn batch_with_invalid_family_commits_nothing() {
    let mut s = Store::open("/tmp/s").unwrap();
    let batch = vec![
        put_plain("spo", b"a", b"1"),
        put_plain("bogus", b"b", b"2"),
        put_plain("pos", b"c", b"3"),
    ];
    assert_eq!(
        s.write_batch(&batch),
        Err(StoreError::InvalidColumnFamily("bogus".to_string()))
    );
    assert_eq!(s.get("spo", b"a"), Ok(None));
    assert_eq!(s.get("pos", b"c"), Ok(None));
}

#[test]
fn mixed_batch_with_invalid_family_commits_nothing() {
    let mut s = Store::open("/tmp/s").unwrap();
    s.put("spo", b"a", b"old").unwrap();
    let batch = vec![
        mixed("delete", "spo", b"a", None),
        mixed("put", "unknown", b"b", Some(b"2")),
    ];
    assert_eq!(
        s.mixed_batch(&batch),
        Err(StoreError::InvalidColumnFamily("unknown".to_string()))
    );
    assert_eq!(s.get("spo", b"a"), Ok(Some(b"old".to_vec())));
}

#[test]
fn first_rejected_entry_decides_the_error() {
    let mut s = Store::open("/tmp/s").unwrap();
    let batch = vec![
        mixed("frobnicate", "spo", b"a", Some(b"1")),
        mixed("put", "unknown", b"b", Some(b"2")),
    ];
    assert_eq!(
        s.mixed_batch(&batch),
        Err(StoreError::InvalidOperation(Some("frobnicate".to_string())))
    );
}

#[test]
fn mixed_batch_applies_puts_and_deletes_in_order() {
    let mut s = Store::open("/tmp/s").unwrap();
    s.put("spo", b"a", b"1").unwrap();
    s.put("pos", b"a", b"2").unwrap();
    let batch = vec![
        mixed("delete", "spo", b"a", None),
        mixed("put", "osp", b"a", Some(b"3")),
    ];
    assert_eq!(s.mixed_batch(&batch), Ok(()));
    assert_eq!(s.get("spo", b"a"), Ok(None));
    assert_eq!(s.get("pos", b"a"), Ok(Some(b"2".to_vec())));
    assert_eq!(s.get("osp", b"a"), Ok(Some(b"3".to_vec())));
}

#[test]
fn last_writer_wins_within_one_batch() {
    let mut s = Store::open("/tmp/s").unwrap();
    let batch = vec![
        mixed("put", "derived", b"k", Some(b"1")),
        mixed("put", "derived", b"k", Some(b"2")),
        mixed("delete", "derived", b"k", None),
        mixed("put", "derived", b"k", Some(b"3")),
    ];
    assert_eq!(s.mixed_batch(&batch), Ok(()));
    assert_eq!(s.get("derived", b"k"), Ok(Some(b"3".to_vec())));
}

#[test]
fn delete_batch_removes_each_key() {
    let mut s = Store::open("/tmp/s").unwrap();
    s.put("spo", b"a", b"1").unwrap();
    s.put("pos", b"b", b"2").unwrap();
    let batch = vec![
        DeleteEntry { family: "spo".to_string(), key: b"a".to_vec() },
        DeleteEntry { family: "pos".to_string(), key: b"b".to_vec() },
        DeleteEntry { family: "osp".to_string(), key: b"absent".to_vec() },
    ];
    assert_eq!(s.delete_batch(&batch), Ok(()));
    assert_eq!(s.get("spo", b"a"), Ok(None));
    assert_eq!(s.get("pos", b"b"), Ok(None));
    assert_eq!(s.get("osp", b"absent"), Ok(None));
}

#[test]
fn delete_batch_with_invalid_family_commits_nothing() {
    let mut s = Store::open("/tmp/s").unwrap();
    s.put("spo", b"a", b"1").unwrap();
    let batch = vec![
        DeleteEntry { family: "spo".to_string(), key: b"a".to_vec() },
        DeleteEntry { family: "wrong".to_string(), key: b"b".to_vec() },
    ];
    assert_eq!(
        s.delete_batch(&batch),
        Err(StoreError::InvalidColumnFamily("wrong".to_string()))
    );
    assert_eq!(s.get("spo", b"a"), Ok(Some(b"1".to_vec())));
}

#[test]
fn write_batch_rejects_a_tag_other_than_put() {
    let mut s = Store::open("/tmp/s").unwrap();
    let batch = vec![put_tagged("delete", "spo", b"a", b"1")];
    assert_eq!(
        s.write_batch(&batch),
        Err(StoreError::InvalidOperation(Some("delete".to_string())))
    );
    assert_eq!(s.get("spo", b"a"), Ok(None));
}

#[test]
fn mixed_batch_rejects_a_put_without_a_value() {
    let mut s = Store::open("/tmp/s").unwrap();
    let batch = vec![mixed("put", "spo", b"a", None)];
    assert_eq!(s.mixed_batch(&batch), Err(StoreError::InvalidOperation(None)));
}

#[test]
fn mixed_batch_rejects_a_delete_with_a_value() {
    let mut s = Store::open("/tmp/s").unwrap();
    let batch = vec![mixed("delete", "spo", b"a", Some(b"1"))];
    assert_eq!(s.mixed_batch(&batch), Err(StoreError::InvalidOperation(None)));
}

#[test]
fn batches_on_a_closed_store_report_store_closed() {
    let mut s = Store::open("/tmp/s").unwrap();
    s.close().unwrap();
    assert_eq!(s.write_batch(&Vec::new()), Err(StoreError::StoreClosed));
    assert_eq!(s.delete_batch(&Vec::new()), Err(StoreError::StoreClosed));
    assert_eq!(
        s.mixed_batch(&vec![mixed("put", "spo", b"a", Some(b"1"))]),
        Err(StoreError::StoreClosed)
    );
}
