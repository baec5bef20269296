//! Batch operations: the three surface shapes a batch may be described in,
//! their validation against the family registry, and the effect of a
//! validated operation sequence on the store's data.
//!
//! Validation is a complete pre-pass: the first malformed entry or
//! unresolvable family name aborts the whole batch before any write is
//! staged, so either every operation of a batch takes effect or none does.

use vstd::prelude::*;
use vstd::slice::slice_to_vec;
use crate::error::StoreError;
use crate::family::Family;
use crate::family::spec_resolve;
use crate::family::str_eq;

verus! {

/// The data held by the whole store: for each family, the map from that
/// family's keys to their values.
pub type StoreData = Map<Family, Map<Seq<u8>, Seq<u8>>>;

/// The data of a store whose six families are all empty.
pub open spec fn empty_store_data() -> StoreData {
    Map::new(|f: Family| true, |f: Family| Map::<Seq<u8>, Seq<u8>>::empty())
}

/// What `get` observes in a store datum: the value under `k` in family `f`,
/// if one is there.
pub open spec fn spec_lookup(d: StoreData, f: Family, k: Seq<u8>) -> Option<Seq<u8>> {
    if d[f].contains_key(k) {
        Some(d[f][k])
    } else {
        None
    }
}

/// One validated operation of a batch, addressed to a resolved family.
pub enum Op {
    Put { family: Family, key: Vec<u8>, value: Vec<u8> },
    Delete { family: Family, key: Vec<u8> },
}

/// The mathematical content of an operation: `value` is `Some(v)` for
/// storing `v` under the key, `None` for removing the key.
pub struct OpView {
    pub family: Family,
    pub key: Seq<u8>,
    pub value: Option<Seq<u8>>,
}

impl View for Op {
    type V = OpView;

    open spec fn view(&self) -> OpView {
        match self {
            Op::Put { family, key, value } => OpView {
                family: *family,
                key: key@,
                value: Some(value@),
            },
            Op::Delete { family, key } => OpView { family: *family, key: key@, value: None },
        }
    }
}

/// The views of a sequence of operations.
pub open spec fn ops_views(ops: Seq<Op>) -> Seq<OpView> {
    ops.map_values(|op: Op| op@)
}

/// The effect of one operation on the store's data.
pub open spec fn spec_apply_op(d: StoreData, op: OpView) -> StoreData {
    match op.value {
        Some(v) => d.insert(op.family, d[op.family].insert(op.key, v)),
        None => d.insert(op.family, d[op.family].remove(op.key)),
    }
}

/// The effect of a sequence of operations, applied first to last; for one
/// key of one family, the last operation of the sequence wins.
pub open spec fn spec_apply_ops(d: StoreData, ops: Seq<OpView>) -> StoreData
    decreases ops.len(),
{
    if ops.len() == 0 {
        d
    } else {
        spec_apply_op(spec_apply_ops(d, ops.drop_last()), ops.last())
    }
}

/// One entry of a put-only batch: either the plain three-field shape, or
/// the tagged four-field shape whose tag must read `put`.
pub enum PutEntry {
    Plain { family: String, key: Vec<u8>, value: Vec<u8> },
    Tagged { tag: String, family: String, key: Vec<u8>, value: Vec<u8> },
}

/// One entry of a delete-only batch: a family name and the key to remove.
pub struct DeleteEntry {
    pub family: String,
    pub key: Vec<u8>,
}

/// One entry of a mixed batch: a tag that must read `put` or `delete`, a
/// family name, a key, and a value exactly when the shape is the
/// four-field put shape.
pub struct MixedEntry {
    pub tag: String,
    pub family: String,
    pub key: Vec<u8>,
    pub value: Option<Vec<u8>>,
}

/// How one put-only entry validates: the operation it stands for, or the
/// error it is rejected with.
pub open spec fn spec_check_put(e: PutEntry) -> Result<OpView, StoreError> {
    match e {
        PutEntry::Plain { family, key, value } => match spec_resolve(family@) {
            Some(f) => Ok(OpView { family: f, key: key@, value: Some(value@) }),
            None => Err(StoreError::InvalidColumnFamily(family)),
        },
        PutEntry::Tagged { tag, family, key, value } => {
            if tag@ != "put"@ {
                Err(StoreError::InvalidOperation(Some(tag)))
            } else {
                match spec_resolve(family@) {
                    Some(f) => Ok(OpView { family: f, key: key@, value: Some(value@) }),
                    None => Err(StoreError::InvalidColumnFamily(family)),
                }
            }
        },
    }
}

/// How one delete-only entry validates.
pub open spec fn spec_check_delete(e: DeleteEntry) -> Result<OpView, StoreError> {
    match spec_resolve(e.family@) {
        Some(f) => Ok(OpView { family: f, key: e.key@, value: None }),
        None => Err(StoreError::InvalidColumnFamily(e.family)),
    }
}

/// How one mixed entry validates: the tag picks the shape, the shape fixes
/// whether a value must be present, and the family name must resolve.
pub open spec fn spec_check_mixed(e: MixedEntry) -> Result<OpView, StoreError> {
    if e.tag@ == "put"@ {
        match e.value {
            Some(v) => match spec_resolve(e.family@) {
                Some(f) => Ok(OpView { family: f, key: e.key@, value: Some(v@) }),
                None => Err(StoreError::InvalidColumnFamily(e.family)),
            },
            None => Err(StoreError::InvalidOperation(None)),
        }
    } else if e.tag@ == "delete"@ {
        match e.value {
            None => match spec_resolve(e.family@) {
                Some(f) => Ok(OpView { family: f, key: e.key@, value: None }),
                None => Err(StoreError::InvalidColumnFamily(e.family)),
            },
            Some(_) => Err(StoreError::InvalidOperation(None)),
        }
    } else {
        Err(StoreError::InvalidOperation(Some(e.tag)))
    }
}

/// How a put-only batch validates: the operations of its entries in order,
/// or the error of its first rejected entry.
pub open spec fn spec_validate_put(es: Seq<PutEntry>) -> Result<Seq<OpView>, StoreError>
    decreases es.len(),
{
    if es.len() == 0 {
        Ok(Seq::empty())
    } else {
        match spec_validate_put(es.drop_last()) {
            Ok(ops) => match spec_check_put(es.last()) {
                Ok(op) => Ok(ops.push(op)),
                Err(err) => Err(err),
            },
            Err(err) => Err(err),
        }
    }
}

/// How a delete-only batch validates.
pub open spec fn spec_validate_delete(es: Seq<DeleteEntry>) -> Result<Seq<OpView>, StoreError>
    decreases es.len(),
{
    if es.len() == 0 {
        Ok(Seq::empty())
    } else {
        match spec_validate_delete(es.drop_last()) {
            Ok(ops) => match spec_check_delete(es.last()) {
                Ok(op) => Ok(ops.push(op)),
                Err(err) => Err(err),
            },
            Err(err) => Err(err),
        }
    }
}

/// How a mixed batch validates.
pub open spec fn spec_validate_mixed(es: Seq<MixedEntry>) -> Result<Seq<OpView>, StoreError>
    decreases es.len(),
{
    if es.len() == 0 {
        Ok(Seq::empty())
    } else {
        match spec_validate_mixed(es.drop_last()) {
            Ok(ops) => match spec_check_mixed(es.last()) {
                Ok(op) => Ok(ops.push(op)),
                Err(err) => Err(err),
            },
            Err(err) => Err(err),
        }
    }
}

proof fn lemma_validate_put_err_extends(es: Seq<PutEntry>, n: int)
    requires
        0 <= n <= es.len(),
        spec_validate_put(es.subrange(0, n)) is Err,
    ensures
        spec_validate_put(es) == spec_validate_put(es.subrange(0, n)),
    decreases es.len(),
{
    if n == es.len() {
        assert(es.subrange(0, n) =~= es);
    } else {
        assert(es.drop_last().subrange(0, n) =~= es.subrange(0, n));
        lemma_validate_put_err_extends(es.drop_last(), n);
    }
}

proof fn lemma_validate_delete_err_extends(es: Seq<DeleteEntry>, n: int)
    requires
        0 <= n <= es.len(),
        spec_validate_delete(es.subrange(0, n)) is Err,
    ensures
        spec_validate_delete(es) == spec_validate_delete(es.subrange(0, n)),
    decreases es.len(),
{
    if n == es.len() {
        assert(es.subrange(0, n) =~= es);
    } else {
        assert(es.drop_last().subrange(0, n) =~= es.subrange(0, n));
        lemma_validate_delete_err_extends(es.drop_last(), n);
    }
}

proof fn lemma_validate_mixed_err_extends(es: Seq<MixedEntry>, n: int)
    requires
        0 <= n <= es.len(),
        spec_validate_mixed(es.subrange(0, n)) is Err,
    ensures
        spec_validate_mixed(es) == spec_validate_mixed(es.subrange(0, n)),
    decreases es.len(),
{
    if n == es.len() {
        assert(es.subrange(0, n) =~= es);
    } else {
        assert(es.drop_last().subrange(0, n) =~= es.subrange(0, n));
        lemma_validate_mixed_err_extends(es.drop_last(), n);
    }
}

/// How one put-only entry is checked and turned into an operation.
fn check_put(e: &PutEntry) -> (r: Result<Op, StoreError>)
    ensures
        r matches Ok(op) ==> spec_check_put(*e) == Ok::<OpView, StoreError>(op@),
        r matches Err(err) ==> spec_check_put(*e) == Err::<OpView, StoreError>(err),
{
    match e {
        PutEntry::Plain { family, key, value } => match Family::resolve(family.as_str()) {
            Some(f) => Ok(
                Op::Put {
                    family: f,
                    key: slice_to_vec(key.as_slice()),
                    value: slice_to_vec(value.as_slice()),
                },
            ),
            None => Err(StoreError::InvalidColumnFamily(family.clone())),
        },
        PutEntry::Tagged { tag, family, key, value } => {
            if !str_eq(tag.as_str(), "put") {
                Err(StoreError::InvalidOperation(Some(tag.clone())))
            } else {
                match Family::resolve(family.as_str()) {
                    Some(f) => Ok(
                        Op::Put {
                            family: f,
                            key: slice_to_vec(key.as_slice()),
                            value: slice_to_vec(value.as_slice()),
                        },
                    ),
                    None => Err(StoreError::InvalidColumnFamily(family.clone())),
                }
            }
        },
    }
}

/// How one delete-only entry is checked and turned into an operation.
fn check_delete(e: &DeleteEntry) -> (r: Result<Op, StoreError>)
    ensures
        r matches Ok(op) ==> spec_check_delete(*e) == Ok::<OpView, StoreError>(op@),
        r matches Err(err) ==> spec_check_delete(*e) == Err::<OpView, StoreError>(err),
{
    match Family::resolve(e.family.as_str()) {
        Some(f) => Ok(Op::Delete { family: f, key: slice_to_vec(e.key.as_slice()) }),
        None => Err(StoreError::InvalidColumnFamily(e.family.clone())),
    }
}

/// How one mixed entry is checked and turned into an operation.
fn check_mixed(e: &MixedEntry) -> (r: Result<Op, StoreError>)
    ensures
        r matches Ok(op) ==> spec_check_mixed(*e) == Ok::<OpView, StoreError>(op@),
        r matches Err(err) ==> spec_check_mixed(*e) == Err::<OpView, StoreError>(err),
{
    if str_eq(e.tag.as_str(), "put") {
        match &e.value {
            Some(v) => match Family::resolve(e.family.as_str()) {
                Some(f) => Ok(
                    Op::Put {
                        family: f,
                        key: slice_to_vec(e.key.as_slice()),
                        value: slice_to_vec(v.as_slice()),
                    },
                ),
                None => Err(StoreError::InvalidColumnFamily(e.family.clone())),
            },
            None => Err(StoreError::InvalidOperation(None)),
        }
    } else if str_eq(e.tag.as_str(), "delete") {
        match &e.value {
            None => match Family::resolve(e.family.as_str()) {
                Some(f) => Ok(Op::Delete { family: f, key: slice_to_vec(e.key.as_slice()) }),
                None => Err(StoreError::InvalidColumnFamily(e.family.clone())),
            },
            Some(_) => Err(StoreError::InvalidOperation(None)),
        }
    } else {
        Err(StoreError::InvalidOperation(Some(e.tag.clone())))
    }
}

/// Validates a put-only batch entry by entry, first to last, stopping at
/// the first rejected entry.
pub fn validate_put(entries: &Vec<PutEntry>) -> (r: Result<Vec<Op>, StoreError>)
    ensures
        r matches Ok(ops) ==> spec_validate_put(entries@) == Ok::<Seq<OpView>, StoreError>(
            ops_views(ops@),
        ),
        r matches Err(err) ==> spec_validate_put(entries@) == Err::<Seq<OpView>, StoreError>(err),
{
    let mut ops: Vec<Op> = Vec::new();
    let mut i: usize = 0;
    proof {
        assert(entries@.subrange(0, 0) =~= Seq::<PutEntry>::empty());
        assert(ops_views(ops@) =~= Seq::<OpView>::empty());
    }
    while i < entries.len()
        invariant
            i <= entries@.len(),
            spec_validate_put(entries@.subrange(0, i as int)) == Ok::<Seq<OpView>, StoreError>(
                ops_views(ops@),
            ),
        decreases entries@.len() - i,
    {
        proof {
            assert(entries@.subrange(0, i as int + 1).drop_last() =~= entries@.subrange(
                0,
                i as int,
            ));
            assert(entries@.subrange(0, i as int + 1).last() == entries@[i as int]);
        }
        match check_put(&entries[i]) {
            Ok(op) => {
                let ghost pre = ops@;
                ops.push(op);
                proof {
                    assert(ops@.drop_last() =~= pre);
                    assert(ops_views(ops@) =~= ops_views(pre).push(op@));
                }
            },
            Err(err) => {
                proof {
                    lemma_validate_put_err_extends(entries@, i as int + 1);
                }
                return Err(err);
            },
        }
        i = i + 1;
    }
    proof {
        assert(entries@.subrange(0, entries@.len() as int) =~= entries@);
    }
    Ok(ops)
}

/// Validates a delete-only batch entry by entry, first to last.
pub fn validate_delete(entries: &Vec<DeleteEntry>) -> (r: Result<Vec<Op>, StoreError>)
    ensures
        r matches Ok(ops) ==> spec_validate_delete(entries@) == Ok::<Seq<OpView>, StoreError>(
            ops_views(ops@),
        ),
        r matches Err(err) ==> spec_validate_delete(entries@) == Err::<Seq<OpView>, StoreError>(
            err,
        ),
{
    let mut ops: Vec<Op> = Vec::new();
    let mut i: usize = 0;
    proof {
        assert(entries@.subrange(0, 0) =~= Seq::<DeleteEntry>::empty());
        assert(ops_views(ops@) =~= Seq::<OpView>::empty());
    }
    while i < entries.len()
        invariant
            i <= entries@.len(),
            spec_validate_delete(entries@.subrange(0, i as int)) == Ok::<Seq<OpView>, StoreError>(
                ops_views(ops@),
            ),
        decreases entries@.len() - i,
    {
        proof {
            assert(entries@.subrange(0, i as int + 1).drop_last() =~= entries@.subrange(
                0,
                i as int,
            ));
            assert(entries@.subrange(0, i as int + 1).last() == entries@[i as int]);
        }
        match check_delete(&entries[i]) {
            Ok(op) => {
                let ghost pre = ops@;
                ops.push(op);
                proof {
                    assert(ops@.drop_last() =~= pre);
                    assert(ops_views(ops@) =~= ops_views(pre).push(op@));
                }
            },
            Err(err) => {
                proof {
                    lemma_validate_delete_err_extends(entries@, i as int + 1);
                }
                return Err(err);
            },
        }
        i = i + 1;
    }
    proof {
        assert(entries@.subrange(0, entries@.len() as int) =~= entries@);
    }
    Ok(ops)
}

/// Validates a mixed batch entry by entry, first to last.
pub fn validate_mixed(entries: &Vec<MixedEntry>) -> (r: Result<Vec<Op>, StoreError>)
    ensures
        r matches Ok(ops) ==> spec_validate_mixed(entries@) == Ok::<Seq<OpView>, StoreError>(
            ops_views(ops@),
        ),
        r matches Err(err) ==> spec_validate_mixed(entries@) == Err::<Seq<OpView>, StoreError>(
            err,
        ),
{
    let mut ops: Vec<Op> = Vec::new();
    let mut i: usize = 0;
    proof {
        assert(entries@.subrange(0, 0) =~= Seq::<MixedEntry>::empty());
        assert(ops_views(ops@) =~= Seq::<OpView>::empty());
    }
    while i < entries.len()
        invariant
            i <= entries@.len(),
            spec_validate_mixed(entries@.subrange(0, i as int)) == Ok::<Seq<OpView>, StoreError>(
                ops_views(ops@),
            ),
        decreases entries@.len() - i,
    {
        proof {
            assert(entries@.subrange(0, i as int + 1).drop_last() =~= entries@.subrange(
                0,
                i as int,
            ));
            assert(entries@.subrange(0, i as int + 1).last() == entries@[i as int]);
        }
        match check_mixed(&entries[i]) {
            Ok(op) => {
                let ghost pre = ops@;
                ops.push(op);
                proof {
                    assert(ops@.drop_last() =~= pre);
                    assert(ops_views(ops@) =~= ops_views(pre).push(op@));
                }
            },
            Err(err) => {
                proof {
                    lemma_validate_mixed_err_extends(entries@, i as int + 1);
                }
                return Err(err);
            },
        }
        i = i + 1;
    }
    proof {
        assert(entries@.subrange(0, entries@.len() as int) =~= entries@);
    }
    Ok(ops)
}

} // verus!
