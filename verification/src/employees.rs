//! The employee entity and its query builder.
//!
//! An employee has two relations: `branch` (a direct foreign key into the
//! branch table) and `user` (a reverse lookup of the user whose
//! `employee_id` equals this employee's id).  The builder's two marker
//! parameters record which relations were requested; a result row offers
//! an accessor only for a requested relation.

use vstd::prelude::*;
use core::marker::PhantomData;
use crate::branches::Branch;
use crate::branches::find_branch;
use crate::model::EmployeeRV;
use crate::model::EmployeeRowV;
use crate::model::EmployeeSlotsV;
use crate::model::branch_slot;
use crate::model::employee_table;
use crate::model::first_employee_result;
use crate::model::lemma_matching_employees_step;
use crate::model::matching_employees;
use crate::model::resolve_employee;
use crate::model::run_employee_query;
use crate::model::user_slot;
use crate::users::User;
use crate::users::fetch_user_by_employee_id;
use crate::users::user_row_of;

verus! {

/// An employee row as returned from a query.  The markers `B` and `U`
/// record whether the branch and user relations were requested; the
/// corresponding accessors exist only on instantiations that carry the
/// matching marker.
pub struct Employee<B, U> {
    pub id: i32,
    pub title: String,
    pub branch_id: i32,
    query_results: Option<EmployeeQueryResults>,
    _relations: PhantomData<(B, U)>,
}

/// The resolved relation slots attached to one employee result row.
pub struct EmployeeQueryResults {
    branch: Option<Branch>,
    user: Option<Box<User<(), ()>>>,
}

/// The closed set of relation names an employee query can request, as a
/// type-level record: each implementor fixes the branch and user markers.
pub trait EmployeeRelations {
    type Branch;

    type User;
}

impl EmployeeRelations for () {
    type Branch = ();

    type User = ();
}

impl EmployeeRelations for WithBranch {
    type Branch = WithBranch;

    type User = ();
}

impl EmployeeRelations for WithUser {
    type Branch = ();

    type User = WithUser;
}

impl<B, U> EmployeeRelations for (B, U) {
    type Branch = B;

    type User = U;
}

/// Marker: the branch relation was requested.
pub struct WithBranch;

/// Marker: the user relation was requested.
pub struct WithUser;

impl<B, U> View for Employee<B, U> {
    type V = EmployeeRV;

    closed spec fn view(&self) -> EmployeeRV {
        EmployeeRV {
            id: self.id as int,
            title: self.title@,
            branch_id: self.branch_id as int,
            loaded: match self.query_results {
                Some(qr) => Some(
                    EmployeeSlotsV {
                        branch: match qr.branch {
                            Some(b) => Some(b@),
                            None => None,
                        },
                        user: match qr.user {
                            Some(u) => Some(user_row_of(*u)),
                            None => None,
                        },
                    },
                ),
                None => None,
            },
        }
    }
}

impl Employee<(), ()> {
    /// Open a new employee query.
    pub fn query() -> (r: EmployeeQueryBuilderInitial) {
        EmployeeQueryBuilderInitial
    }
}

impl<U> Employee<WithBranch, U> {
    /// The resolved branch relation; available only when it was requested.
    pub fn branch(&self) -> (r: Option<&Branch>)
        ensures
            (match r {
                Some(b) => branch_slot(self@) == Some(b@),
                None => branch_slot(self@) is None,
            }),
    {
        match &self.query_results {
            Some(qr) => match &qr.branch {
                Some(b) => Some(b),
                None => None,
            },
            None => None,
        }
    }
}

impl<B> Employee<B, WithUser> {
    /// The resolved user relation; available only when it was requested.
    pub fn user(&self) -> (r: Option<&Box<User<(), ()>>>)
        ensures
            (match r {
                Some(u) => user_slot(self@) == Some(user_row_of(**u)),
                None => user_slot(self@) is None,
            }),
    {
        match &self.query_results {
            Some(qr) => match &qr.user {
                Some(u) => Some(u),
                None => None,
            },
            None => None,
        }
    }
}

/// The entry point of an employee query, before a primary condition is
/// chosen.
pub struct EmployeeQueryBuilderInitial;

/// The primary lookup predicate of an employee query.
pub enum EmployeeQueryBuilderCondition {
    ById(i32),
}

/// The relations an employee query was asked to resolve.
#[derive(Clone, Copy)]
pub struct EmployeeCaps {
    pub branch: bool,
    pub user: bool,
}

/// View of an employee query builder: its condition and capability set.
pub struct EmployeeQueryV {
    pub condition: EmployeeQueryBuilderCondition,
    pub caps: EmployeeCaps,
}

impl EmployeeQueryBuilderInitial {
    /// Select employees whose id equals `id`; no relations requested yet.
    pub fn by_id(&self, id: i32) -> (r: EmployeeQueryBuilder<(), ()>)
        ensures
            r@.condition == EmployeeQueryBuilderCondition::ById(id),
            r@.caps == (EmployeeCaps { branch: false, user: false }),
    {
        EmployeeQueryBuilder::new(EmployeeQueryBuilderCondition::ById(id))
    }
}

/// An employee query: a primary condition plus the requested relation
/// set, recorded both in the markers `B`, `U` and as a runtime
/// capability value that drives resolution.
pub struct EmployeeQueryBuilder<B, U> {
    pub(crate) condition: EmployeeQueryBuilderCondition,
    pub(crate) caps: EmployeeCaps,
    _relations: PhantomData<(B, U)>,
}

impl<B, U> View for EmployeeQueryBuilder<B, U> {
    type V = EmployeeQueryV;

    closed spec fn view(&self) -> EmployeeQueryV {
        EmployeeQueryV { condition: self.condition, caps: self.caps }
    }
}

impl EmployeeQueryBuilder<(), ()> {
    /// A builder with the given condition and no relations requested.
    pub fn new(condition: EmployeeQueryBuilderCondition) -> (r: Self)
        ensures
            r@.condition == condition,
            r@.caps == (EmployeeCaps { branch: false, user: false }),
    {
        EmployeeQueryBuilder {
            condition: condition,
            caps: EmployeeCaps { branch: false, user: false },
            _relations: PhantomData,
        }
    }
}

impl<B, U> EmployeeQueryBuilder<B, U> {
    /// Request the branch relation; the rest of the builder is unchanged.
    pub fn with_branch(self) -> (r: EmployeeQueryBuilder<WithBranch, U>)
        ensures
            r@.condition == self@.condition,
            r@.caps == (EmployeeCaps { branch: true, user: self@.caps.user }),
    {
        EmployeeQueryBuilder {
            condition: self.condition,
            caps: EmployeeCaps { branch: true, user: self.caps.user },
            _relations: PhantomData,
        }
    }

    /// Request the user relation; the rest of the builder is unchanged.
    pub fn with_user(self) -> (r: EmployeeQueryBuilder<B, WithUser>)
        ensures
            r@.condition == self@.condition,
            r@.caps == (EmployeeCaps { branch: self@.caps.branch, user: true }),
    {
        EmployeeQueryBuilder {
            condition: self.condition,
            caps: EmployeeCaps { branch: self.caps.branch, user: true },
            _relations: PhantomData,
        }
    }

    /// The same capability set re-keyed to one row's id, used when this
    /// builder configures a nested per-row sub-query.
    pub(crate) fn for_row(&self, id: i32) -> (r: EmployeeQueryBuilder<B, U>)
        ensures
            r@.condition == EmployeeQueryBuilderCondition::ById(id),
            r@.caps == self@.caps,
    {
        EmployeeQueryBuilder {
            condition: EmployeeQueryBuilderCondition::ById(id),
            caps: self.caps,
            _relations: PhantomData,
        }
    }
}

/// One employee source row.
struct EmployeeRow {
    id: i32,
    title: String,
    branch_id: i32,
}

impl View for EmployeeRow {
    type V = EmployeeRowV;

    closed spec fn view(&self) -> EmployeeRowV {
        EmployeeRowV { id: self.id as int, title: self.title@, branch_id: self.branch_id as int }
    }
}

/// The employee source table, in its fixed order.
fn employee_rows() -> (r: Vec<EmployeeRow>)
    ensures
        r@.map_values(|x: EmployeeRow| x@) == employee_table(),
{
    let mut r: Vec<EmployeeRow> = Vec::new();
    r.push(EmployeeRow { id: 1, title: String::from_str("CEO"), branch_id: 1 });
    r.push(EmployeeRow { id: 2, title: String::from_str("CTO"), branch_id: 1 });
    r.push(EmployeeRow { id: 3, title: String::from_str("CFO"), branch_id: 2 });
    proof {
        assert(r@.map_values(|x: EmployeeRow| x@) =~= employee_table());
    }
    r
}

impl<B, U> EmployeeQueryBuilder<B, U> {
    /// Run the query: the employees matching the condition, in source
    /// order, each with exactly the requested relations resolved.
    pub fn execute(&self) -> (r: Vec<Employee<B, U>>)
        ensures
            r@.len() == run_employee_query(self@.condition, self@.caps).len(),
            forall|k: int|
                0 <= k < r@.len() ==> #[trigger] r@[k]@ == run_employee_query(
                    self@.condition,
                    self@.caps,
                )[k],
    {
        let rows = employee_rows();
        let mut out: Vec<Employee<B, U>> = Vec::new();
        let mut i: usize = 0;
        while i < rows.len()
            invariant
                i <= rows.len(),
                rows@.map_values(|x: EmployeeRow| x@) == employee_table(),
                out@.len() == matching_employees(
                    employee_table().take(i as int),
                    self@.condition,
                ).len(),
                forall|k: int|
                    0 <= k < out@.len() ==> #[trigger] out@[k]@ == resolve_employee(
                        matching_employees(employee_table().take(i as int), self@.condition)[k],
                        self@.caps,
                    ),
            decreases rows.len() - i,
        {
            let row = &rows[i];
            proof {
                lemma_matching_employees_step(employee_table(), self@.condition, i as int);
                assert(row@ == employee_table()[i as int]);
            }
            let row_matches: bool = match &self.condition {
                EmployeeQueryBuilderCondition::ById(id) => row.id == *id,
            };
            if row_matches {
                let branch: Option<Branch> = if self.caps.branch {
                    find_branch(row.branch_id)
                } else {
                    None
                };
                let user: Option<Box<User<(), ()>>> = if self.caps.user {
                    match fetch_user_by_employee_id(row.id) {
                        Some(u) => Some(Box::new(u)),
                        None => None,
                    }
                } else {
                    None
                };
                proof {
                    assert((row.id as int) as i32 == row.id);
                }
                let e = Employee {
                    id: row.id,
                    title: row.title.clone(),
                    branch_id: row.branch_id,
                    query_results: Some(EmployeeQueryResults { branch: branch, user: user }),
                    _relations: PhantomData,
                };
                proof {
                    assert(e@ == resolve_employee(row@, self@.caps));
                }
                out.push(e);
            }
            i += 1;
        }
        proof {
            assert(employee_table().take(rows@.len() as int) =~= employee_table());
        }
        out
    }

    /// Run the query and keep only the first result, if any.
    pub fn execute_one(&self) -> (r: Option<Employee<B, U>>)
        ensures
            (match r {
                Some(e) => first_employee_result(self@.condition, self@.caps) == Some(e@),
                None => first_employee_result(self@.condition, self@.caps) is None,
            }),
    {
        let mut results = self.execute();
        if results.len() > 0 {
            let e = results.remove(0);
            Some(e)
        } else {
            None
        }
    }
}

} // verus!
