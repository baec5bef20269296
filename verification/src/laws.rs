//! The library's laws: relations among the operations' contracts, stated
//! over the store-data model and proved once for every store, family, key
//! and value.

use vstd::prelude::*;
use crate::family::Family;
use crate::ops::DeleteEntry;
use crate::ops::MixedEntry;
use crate::ops::OpView;
use crate::ops::PutEntry;
use crate::ops::StoreData;
use crate::ops::spec_apply_op;
use crate::ops::spec_check_delete;
use crate::ops::spec_check_mixed;
use crate::ops::spec_check_put;
use crate::ops::spec_lookup;
use crate::ops::spec_validate_delete;
use crate::ops::spec_validate_mixed;
use crate::ops::spec_validate_put;

verus! {

/// Law: a put followed by a get of the same key in the same family returns
/// exactly the value just written.
pub proof fn lemma_put_then_get(d: StoreData, f: Family, k: Seq<u8>, v: Seq<u8>)
    ensures
        spec_lookup(spec_apply_op(d, OpView { family: f, key: k, value: Some(v) }), f, k) == Some(
            v,
        ),
{
}

/// Law: a delete followed by a get of the same key returns nothing,
/// whatever was stored under the key before.
pub proof fn lemma_delete_then_get(d: StoreData, f: Family, k: Seq<u8>)
    ensures
        spec_lookup(spec_apply_op(d, OpView { family: f, key: k, value: None }), f, k) is None,
{
}

/// Law: `exists_key` agrees with `get` on presence: a key is reported
/// present exactly when a get of it would return a value.
pub proof fn lemma_exists_agrees_with_get(d: StoreData, f: Family, k: Seq<u8>)
    ensures
        d[f].contains_key(k) == (spec_lookup(d, f, k) is Some),
{
}

/// Law: a put-only batch with any rejected entry is rejected whole, so
/// none of its operations takes effect.
pub proof fn lemma_put_batch_all_or_nothing(es: Seq<PutEntry>, i: int)
    requires
        0 <= i < es.len(),
        spec_check_put(es[i]) is Err,
    ensures
        spec_validate_put(es) is Err,
    decreases es.len(),
{
    if i < es.len() - 1 {
        lemma_put_batch_all_or_nothing(es.drop_last(), i);
    }
}

/// Law: a delete-only batch with any rejected entry is rejected whole.
pub proof fn lemma_delete_batch_all_or_nothing(es: Seq<DeleteEntry>, i: int)
    requires
        0 <= i < es.len(),
        spec_check_delete(es[i]) is Err,
    ensures
        spec_validate_delete(es) is Err,
    decreases es.len(),
{
    if i < es.len() - 1 {
        lemma_delete_batch_all_or_nothing(es.drop_last(), i);
    }
}

/// Law: a mixed batch with any rejected entry is rejected whole.
pub proof fn lemma_mixed_batch_all_or_nothing(es: Seq<MixedEntry>, i: int)
    requires
        0 <= i < es.len(),
        spec_check_mixed(es[i]) is Err,
    ensures
        spec_validate_mixed(es) is Err,
    decreases es.len(),
{
    if i < es.len() - 1 {
        lemma_mixed_batch_all_or_nothing(es.drop_last(), i);
    }
}

} // verus!
