//! The store handle: lifecycle, point operations and atomic batches over
//! the six fixed column families.
//!
//! A `Store` owns the data of its six families and a path string, and is
//! either open or closed. `close` is the one transition, and it is
//! terminal: a closed store never reopens in place. Every operation
//! resolves its family name first, then checks the open state, so an
//! unknown family name is reported whatever the state of the store.

use vstd::prelude::*;
use vstd::slice::slice_to_vec;
use crate::error::StoreError;
use crate::family::Family;
use crate::family::spec_resolve;
use crate::kv::KvMap;
use crate::ops::DeleteEntry;
use crate::ops::MixedEntry;
use crate::ops::Op;
use crate::ops::OpView;
use crate::ops::PutEntry;
use crate::ops::StoreData;
use crate::ops::empty_store_data;
use crate::ops::ops_views;
use crate::ops::spec_apply_op;
use crate::ops::spec_apply_ops;
use crate::ops::spec_validate_delete;
use crate::ops::spec_validate_mixed;
use crate::ops::spec_validate_put;
use crate::ops::validate_delete;
use crate::ops::validate_mixed;
use crate::ops::validate_put;

verus! {

/// The six tables of one store, one per column family.
struct Tables {
    id2str: KvMap,
    str2id: KvMap,
    spo: KvMap,
    pos: KvMap,
    osp: KvMap,
    derived: KvMap,
}

impl Tables {
    /// The data of one family's table.
    spec fn table(&self, f: Family) -> Map<Seq<u8>, Seq<u8>> {
        match f {
            Family::Id2Str => self.id2str@,
            Family::Str2Id => self.str2id@,
            Family::Spo => self.spo@,
            Family::Pos => self.pos@,
            Family::Osp => self.osp@,
            Family::Derived => self.derived@,
        }
    }

    /// All the data, as a map total over the families.
    spec fn data(&self) -> StoreData {
        Map::new(|f: Family| true, |f: Family| self.table(f))
    }

    /// Six fresh, empty tables.
    fn new() -> (r: Tables)
        ensures
            r.data() == empty_store_data(),
    {
        let r = Tables {
            id2str: KvMap::new(),
            str2id: KvMap::new(),
            spo: KvMap::new(),
            pos: KvMap::new(),
            osp: KvMap::new(),
            derived: KvMap::new(),
        };
        proof {
            assert(r.data() =~= empty_store_data());
        }
        r
    }

    /// The value under `key` in family `f`, if one is there.
    fn get(&self, f: Family, key: &[u8]) -> (r: Option<&Vec<u8>>)
        ensures
            match r {
                Some(v) => self.data()[f].contains_key(key@) && v@ == self.data()[f][key@],
                None => !self.data()[f].contains_key(key@),
            },
    {
        match f {
            Family::Id2Str => self.id2str.get(key),
            Family::Str2Id => self.str2id.get(key),
            Family::Spo => self.spo.get(key),
            Family::Pos => self.pos.get(key),
            Family::Osp => self.osp.get(key),
            Family::Derived => self.derived.get(key),
        }
    }

    /// Stores `value` under `key` in family `f`, replacing any value there.
    fn put(&mut self, f: Family, key: &[u8], value: &[u8])
        ensures
            final(self).data() == spec_apply_op(
                old(self).data(),
                OpView { family: f, key: key@, value: Some(value@) },
            ),
    {
        let k = slice_to_vec(key);
        let v = slice_to_vec(value);
        match f {
            Family::Id2Str => self.id2str.insert(k, v),
            Family::Str2Id => self.str2id.insert(k, v),
            Family::Spo => self.spo.insert(k, v),
            Family::Pos => self.pos.insert(k, v),
            Family::Osp => self.osp.insert(k, v),
            Family::Derived => self.derived.insert(k, v),
        }
        proof {
            assert(self.data() =~= spec_apply_op(
                old(self).data(),
                OpView { family: f, key: key@, value: Some(value@) },
            ));
        }
    }

    /// Removes whatever is under `key` in family `f`; an absent key is left
    /// absent.
    fn delete(&mut self, f: Family, key: &[u8])
        ensures
            final(self).data() == spec_apply_op(
                old(self).data(),
                OpView { family: f, key: key@, value: None },
            ),
    {
        match f {
            Family::Id2Str => self.id2str.remove(key),
            Family::Str2Id => self.str2id.remove(key),
            Family::Spo => self.spo.remove(key),
            Family::Pos => self.pos.remove(key),
            Family::Osp => self.osp.remove(key),
            Family::Derived => self.derived.remove(key),
        }
        proof {
            assert(self.data() =~= spec_apply_op(
                old(self).data(),
                OpView { family: f, key: key@, value: None },
            ));
        }
    }

    /// Applies a validated operation sequence, first to last.
    fn apply(&mut self, ops: &Vec<Op>)
        ensures
            final(self).data() == spec_apply_ops(old(self).data(), ops_views(ops@)),
    {
        let ghost all = ops_views(ops@);
        let mut i: usize = 0;
        proof {
            assert(all.subrange(0, 0) =~= Seq::<OpView>::empty());
        }
        while i < ops.len()
            invariant
                i <= ops@.len(),
                all == ops_views(ops@),
                self.data() == spec_apply_ops(old(self).data(), all.subrange(0, i as int)),
            decreases ops@.len() - i,
        {
            match &ops[i] {
                Op::Put { family, key, value } => {
                    self.put(*family, key.as_slice(), value.as_slice());
                },
                Op::Delete { family, key } => {
                    self.delete(*family, key.as_slice());
                },
            }
            proof {
                assert(all.subrange(0, i as int + 1).drop_last() =~= all.subrange(0, i as int));
                assert(all.subrange(0, i as int + 1).last() == ops@[i as int]@);
            }
            i = i + 1;
        }
        proof {
            assert(all.subrange(0, ops@.len() as int) =~= all);
        }
    }
}

/// A handle on one store: its path, its open/closed state, and, while it is
/// open, the data of its six column families.
pub struct Store {
    open: bool,
    path: String,
    tables: Tables,
}

impl Store {
    /// Whether the store is open.
    pub closed spec fn spec_is_open(&self) -> bool {
        self.open
    }

    /// The path the store was opened with; retained after close.
    pub closed spec fn spec_path(&self) -> Seq<char> {
        self.path@
    }

    /// The store's data: for each family, the map from keys to values.
    pub closed spec fn spec_data(&self) -> StoreData {
        self.tables.data()
    }

    /// Opens a store addressed by `path`: the six families exist and are
    /// empty, and the store is open.
    pub fn open(path: &str) -> (r: Result<Store, StoreError>)
        ensures
            r matches Ok(s) && s.spec_is_open() && s.spec_path() == path@ && s.spec_data()
                == empty_store_data(),
    {
        Ok(Store { open: true, path: path.to_owned(), tables: Tables::new() })
    }

    /// Closes the store and releases its data. The transition is terminal:
    /// closing an already-closed store reports `AlreadyClosed` and changes
    /// nothing.
    pub fn close(&mut self) -> (r: Result<(), StoreError>)
        ensures
            old(self).spec_is_open() ==> r is Ok,
            !old(self).spec_is_open() ==> r == Err::<(), StoreError>(StoreError::AlreadyClosed)
                && *final(self) == *old(self),
            !final(self).spec_is_open(),
            final(self).spec_path() == old(self).spec_path(),
    {
        if self.open {
            self.open = false;
            self.tables = Tables::new();
            Ok(())
        } else {
            Err(StoreError::AlreadyClosed)
        }
    }

    /// Whether the store is open, as a plain read.
    pub fn is_open(&self) -> (r: bool)
        ensures
            r == self.spec_is_open(),
    {
        self.open
    }

    /// The path the store was opened with, valid in both states.
    pub fn get_path(&self) -> (r: String)
        ensures
            r@ == self.spec_path(),
    {
        self.path.clone()
    }

    /// Reads the value under `key` in the named family: the value if one is
    /// there, `None` if the key is absent.
    pub fn get(&self, family: &str, key: &[u8]) -> (r: Result<Option<Vec<u8>>, StoreError>)
        ensures
            spec_resolve(family@) is None ==> (r matches Err(e) && e matches
            StoreError::InvalidColumnFamily(n) && n@ == family@),
            (spec_resolve(family@) is Some && !self.spec_is_open()) ==> r == Err::<
                Option<Vec<u8>>,
                StoreError,
            >(StoreError::StoreClosed),
            spec_resolve(family@) matches Some(f) ==> (self.spec_is_open() ==> match r {
                Ok(v) => v.deep_view() == crate::ops::spec_lookup(self.spec_data(), f, key@),
                Err(_) => false,
            }),
    {
        let f = match Family::resolve(family) {
            Some(f) => f,
            None => {
                return Err(StoreError::InvalidColumnFamily(family.to_owned()));
            },
        };
        if !self.open {
            return Err(StoreError::StoreClosed);
        }
        match self.tables.get(f, key) {
            Some(v) => Ok(Some(slice_to_vec(v.as_slice()))),
            None => Ok(None),
        }
    }

    /// Whether `key` is present in the named family: `true` exactly when a
    /// `get` of the same key would return a value.
    pub fn exists_key(&self, family: &str, key: &[u8]) -> (r: Result<bool, StoreError>)
        ensures
            spec_resolve(family@) is None ==> (r matches Err(e) && e matches
            StoreError::InvalidColumnFamily(n) && n@ == family@),
            (spec_resolve(family@) is Some && !self.spec_is_open()) ==> r == Err::<
                bool,
                StoreError,
            >(StoreError::StoreClosed),
            spec_resolve(family@) matches Some(f) ==> (self.spec_is_open() ==> r == Ok::<
                bool,
                StoreError,
            >(self.spec_data()[f].contains_key(key@))),
    {
        let f = match Family::resolve(family) {
            Some(f) => f,
            None => {
                return Err(StoreError::InvalidColumnFamily(family.to_owned()));
            },
        };
        if !self.open {
            return Err(StoreError::StoreClosed);
        }
        match self.tables.get(f, key) {
            Some(_) => Ok(true),
            None => Ok(false),
        }
    }

    /// Stores `value` under `key` in the named family, replacing any value
    /// already there.
    pub fn put(&mut self, family: &str, key: &[u8], value: &[u8]) -> (r: Result<(), StoreError>)
        ensures
            spec_resolve(family@) is None ==> (r matches Err(e) && e matches
            StoreError::InvalidColumnFamily(n) && n@ == family@) && *final(self) == *old(self),
            (spec_resolve(family@) is Some && !old(self).spec_is_open()) ==> r == Err::<
                (),
                StoreError,
            >(StoreError::StoreClosed) && *final(self) == *old(self),
            spec_resolve(family@) matches Some(f) ==> (old(self).spec_is_open() ==> r is Ok
                && final(self).spec_is_open() && final(self).spec_path() == old(self).spec_path()
                && final(self).spec_data() == spec_apply_op(
                old(self).spec_data(),
                OpView { family: f, key: key@, value: Some(value@) },
            )),
    {
        let f = match Family::resolve(family) {
            Some(f) => f,
            None => {
                return Err(StoreError::InvalidColumnFamily(family.to_owned()));
            },
        };
        if !self.open {
            return Err(StoreError::StoreClosed);
        }
        self.tables.put(f, key, value);
        Ok(())
    }

    /// Removes `key` from the named family; removing an absent key succeeds
    /// and changes nothing in the family.
    pub fn delete(&mut self, family: &str, key: &[u8]) -> (r: Result<(), StoreError>)
        ensures
            spec_resolve(family@) is None ==> (r matches Err(e) && e matches
            StoreError::InvalidColumnFamily(n) && n@ == family@) && *final(self) == *old(self),
            (spec_resolve(family@) is Some && !old(self).spec_is_open()) ==> r == Err::<
                (),
                StoreError,
            >(StoreError::StoreClosed) && *final(self) == *old(self),
            spec_resolve(family@) matches Some(f) ==> (old(self).spec_is_open() ==> r is Ok
                && final(self).spec_is_open() && final(self).spec_path() == old(self).spec_path()
                && final(self).spec_data() == spec_apply_op(
                old(self).spec_data(),
                OpView { family: f, key: key@, value: None },
            )),
    {
        let f = match Family::resolve(family) {
            Some(f) => f,
            None => {
                return Err(StoreError::InvalidColumnFamily(family.to_owned()));
            },
        };
        if !self.open {
            return Err(StoreError::StoreClosed);
        }
        self.tables.delete(f, key);
        Ok(())
    }

    /// Commits a put-only batch as one atomic unit: every entry validates
    /// and every operation takes effect, or the first rejected entry's
    /// error is returned and nothing changes.
    pub fn write_batch(&mut self, entries: &Vec<PutEntry>) -> (r: Result<(), StoreError>)
        ensures
            !old(self).spec_is_open() ==> r == Err::<(), StoreError>(StoreError::StoreClosed)
                && *final(self) == *old(self),
            old(self).spec_is_open() ==> match spec_validate_put(entries@) {
                Ok(ops) => r is Ok && final(self).spec_is_open() && final(self).spec_path()
                    == old(self).spec_path() && final(self).spec_data() == spec_apply_ops(
                    old(self).spec_data(),
                    ops,
                ),
                Err(e) => r == Err::<(), StoreError>(e) && *final(self) == *old(self),
            },
    {
        if !self.open {
            return Err(StoreError::StoreClosed);
        }
        match validate_put(entries) {
            Ok(ops) => {
                self.tables.apply(&ops);
                Ok(())
            },
            Err(e) => Err(e),
        }
    }

    /// Commits a delete-only batch as one atomic unit.
    pub fn delete_batch(&mut self, entries: &Vec<DeleteEntry>) -> (r: Result<(), StoreError>)
        ensures
            !old(self).spec_is_open() ==> r == Err::<(), StoreError>(StoreError::StoreClosed)
                && *final(self) == *old(self),
            old(self).spec_is_open() ==> match spec_validate_delete(entries@) {
                Ok(ops) => r is Ok && final(self).spec_is_open() && final(self).spec_path()
                    == old(self).spec_path() && final(self).spec_data() == spec_apply_ops(
                    old(self).spec_data(),
                    ops,
                ),
                Err(e) => r == Err::<(), StoreError>(e) && *final(self) == *old(self),
            },
    {
        if !self.open {
            return Err(StoreError::StoreClosed);
        }
        match validate_delete(entries) {
            Ok(ops) => {
                self.tables.apply(&ops);
                Ok(())
            },
            Err(e) => Err(e),
        }
    }

    /// Commits a mixed batch of puts and deletes as one atomic unit.
    pub fn mixed_batch(&mut self, entries: &Vec<MixedEntry>) -> (r: Result<(), StoreError>)
        ensures
            !old(self).spec_is_open() ==> r == Err::<(), StoreError>(StoreError::StoreClosed)
                && *final(self) == *old(self),
            old(self).spec_is_open() ==> match spec_validate_mixed(entries@) {
                Ok(ops) => r is Ok && final(self).spec_is_open() && final(self).spec_path()
                    == old(self).spec_path() && final(self).spec_data() == spec_apply_ops(
                    old(self).spec_data(),
                    ops,
                ),
                Err(e) => r == Err::<(), StoreError>(e) && *final(self) == *old(self),
            },
    {
        if !self.open {
            return Err(StoreError::StoreClosed);
        }
        match validate_mixed(entries) {
            Ok(ops) => {
                self.tables.apply(&ops);
                Ok(())
            },
            Err(e) => Err(e),
        }
    }
}

} // verus!
