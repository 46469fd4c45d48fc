//! The branch entity: a leaf record with no relations of its own.

use vstd::prelude::*;
use crate::model::BranchV;
use crate::model::branch_table;
use crate::model::lookup_branch;
use crate::model::lookup_branch_in;

verus! {

/// A branch record; immutable, with no relations.
#[derive(Debug)]
pub struct Branch {
    pub id: i32,
    pub name: String,
}

impl View for Branch {
    type V = BranchV;

    open spec fn view(&self) -> BranchV {
        BranchV { id: self.id as int, name: self.name@ }
    }
}

impl Clone for Branch {
    fn clone(&self) -> (r: Self)
        ensures
            r == *self,
    {
        Branch { id: self.id, name: self.name.clone() }
    }
}

/// The branch source table, in its fixed order.
pub(crate) fn branch_list() -> (r: Vec<Branch>)
    ensures
        r@.map_values(|b: Branch| b@) == branch_table(),
{
    let mut r: Vec<Branch> = Vec::new();
    r.push(Branch { id: 1, name: String::from_str("HQ") });
    r.push(Branch { id: 2, name: String::from_str("Branch 2") });
    proof {
        assert(r@.map_values(|b: Branch| b@) =~= branch_table());
    }
    r
}

/// Keyed lookup of a branch by id, first match in table order; `None`
/// when no branch has the id.
pub(crate) fn find_branch(id: i32) -> (r: Option<Branch>)
    ensures
        (match r {
            Some(b) => lookup_branch(id as int) == Some(b@),
            None => lookup_branch(id as int) is None,
        }),
{
    let list = branch_list();
    let mut i: usize = 0;
    proof {
        assert(branch_table().skip(0) =~= branch_table());
    }
    while i < list.len()
        invariant
            i <= list.len(),
            list@.map_values(|b: Branch| b@) == branch_table(),
            lookup_branch_in(branch_table().skip(i as int), id as int) == lookup_branch(id as int),
        decreases list.len() - i,
    {
        proof {
            assert(branch_table().skip(i as int).first() == branch_table()[i as int]);
            assert(branch_table().skip(i as int).drop_first() =~= branch_table().skip(i as int + 1));
        }
        if list[i].id == id {
            return Some(list[i].clone());
        }
        i += 1;
    }
    proof {
        assert(branch_table().skip(i as int) =~= Seq::<BranchV>::empty());
    }
    None
}

} // verus!
