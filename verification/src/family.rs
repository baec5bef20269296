//! The column-family registry: a fixed, closed set of six named partitions
//! of the key space. Resolution of a name is a total function with one
//! failure case for names outside the set.

use vstd::prelude::*;

verus! {

/// One of the six fixed column families of the store. The set is closed:
/// no family is ever created or removed at run time.
#[derive(Clone, Copy, PartialEq, Eq, Structural, Debug)]
pub enum Family {
    Id2Str,
    Str2Id,
    Spo,
    Pos,
    Osp,
    Derived,
}

/// The name under which a family is addressed.
pub open spec fn spec_family_name(f: Family) -> Seq<char> {
    match f {
        Family::Id2Str => "id2str"@,
        Family::Str2Id => "str2id"@,
        Family::Spo => "spo"@,
        Family::Pos => "pos"@,
        Family::Osp => "osp"@,
        Family::Derived => "derived"@,
    }
}

/// Resolution of a name against the fixed table, as a total function:
/// every name outside the set resolves to `None`.
pub open spec fn spec_resolve(name: Seq<char>) -> Option<Family> {
    if name == "id2str"@ {
        Some(Family::Id2Str)
    } else if name == "str2id"@ {
        Some(Family::Str2Id)
    } else if name == "spo"@ {
        Some(Family::Spo)
    } else if name == "pos"@ {
        Some(Family::Pos)
    } else if name == "osp"@ {
        Some(Family::Osp)
    } else if name == "derived"@ {
        Some(Family::Derived)
    } else {
        None
    }
}

/// Relies on `str`'s `PartialEq`: two string slices compare equal exactly
/// when they hold the same characters.
#[verifier::external_body]
pub(crate) fn str_eq(a: &str, b: &str) -> (r: bool)
    ensures
        r == (a@ == b@),
{
    a == b
}

impl Family {
    /// Resolves a family name; names outside the fixed six-name set are
    /// rejected with `None`.
    pub fn resolve(name: &str) -> (r: Option<Family>)
        ensures
            r == spec_resolve(name@),
    {
        if str_eq(name, "id2str") {
            Some(Family::Id2Str)
        } else if str_eq(name, "str2id") {
            Some(Family::Str2Id)
        } else if str_eq(name, "spo") {
            Some(Family::Spo)
        } else if str_eq(name, "pos") {
            Some(Family::Pos)
        } else if str_eq(name, "osp") {
            Some(Family::Osp)
        } else if str_eq(name, "derived") {
            Some(Family::Derived)
        } else {
            None
        }
    }

    /// The family's name in the fixed table.
    pub fn name(self) -> (r: &'static str)
        ensures
            r@ == spec_family_name(self),
    {
        match self {
            Family::Id2Str => "id2str",
            Family::Str2Id => "str2id",
            Family::Spo => "spo",
            Family::Pos => "pos",
            Family::Osp => "osp",
            Family::Derived => "derived",
        }
    }
}

/// The fixed list of families, in registry order.
pub fn list_column_families() -> (r: Vec<Family>)
    ensures
        r@ == seq![
            Family::Id2Str,
            Family::Str2Id,
            Family::Spo,
            Family::Pos,
            Family::Osp,
            Family::Derived,
        ],
{
    let mut v: Vec<Family> = Vec::new();
    v.push(Family::Id2Str);
    v.push(Family::Str2Id);
    v.push(Family::Spo);
    v.push(Family::Pos);
    v.push(Family::Osp);
    v.push(Family::Derived);
    proof {
        assert(v@ =~= seq![
            Family::Id2Str,
            Family::Str2Id,
            Family::Spo,
            Family::Pos,
            Family::Osp,
            Family::Derived,
        ]);
    }
    v
}

/// Law: the name of each family resolves back to that family, so the six
/// names of the fixed set are exactly the names that resolve.
pub proof fn lemma_resolve_family_name(f: Family)
    ensures
        spec_resolve(spec_family_name(f)) == Some(f),
{
    reveal_strlit("id2str");
    reveal_strlit("str2id");
    reveal_strlit("spo");
    reveal_strlit("pos");
    reveal_strlit("osp");
    reveal_strlit("derived");
    assert("id2str"@.len() == 6 && "str2id"@.len() == 6 && "spo"@.len() == 3 && "pos"@.len() == 3
        && "osp"@.len() == 3 && "derived"@.len() == 7);
    assert("id2str"@[0] == 'i' && "str2id"@[0] == 's' && "spo"@[0] == 's' && "pos"@[0] == 'p'
        && "osp"@[0] == 'o');
    match f {
        Family::Id2Str => {
        },
        Family::Str2Id => {
            assert("str2id"@ != "id2str"@);
        },
        Family::Spo => {
            assert("spo"@ != "id2str"@ && "spo"@ != "str2id"@);
        },
        Family::Pos => {
            assert("pos"@ != "id2str"@ && "pos"@ != "str2id"@ && "pos"@ != "spo"@);
        },
        Family::Osp => {
            assert("osp"@ != "id2str"@ && "osp"@ != "str2id"@ && "osp"@ != "spo"@ && "osp"@
                != "pos"@);
        },
        Family::Derived => {
            assert("derived"@ != "id2str"@ && "derived"@ != "str2id"@ && "derived"@ != "spo"@
                && "derived"@ != "pos"@ && "derived"@ != "osp"@);
        },
    }
}

} // verus!
