//! The laws of query execution, proved over the model: empty results for
//! unmatched conditions, slots following the capability set, absent
//! foreign keys resolving to empty, order stability, and last-wins
//! reconfiguration.

use vstd::prelude::*;
use crate::employees::EmployeeCaps;
use crate::employees::EmployeeQueryBuilderCondition;
use crate::model::EmployeeRowV;
use crate::model::UserRowV;
use crate::model::branch_slot;
use crate::model::employee_base;
use crate::model::employee_row_matches;
use crate::model::employee_table;
use crate::model::employee_slot;
use crate::model::first_employee_result;
use crate::model::first_user_result;
use crate::model::matching_employees;
use crate::model::matching_users;
use crate::model::preference_slot;
use crate::model::resolve_employee;
use crate::model::resolve_user;
use crate::model::run_employee_query;
use crate::model::run_user_query;
use crate::model::user_base;
use crate::model::user_row_matches;
use crate::model::user_slot;
use crate::model::user_table;
use crate::users::UserCaps;
use crate::users::UserQueryBuilderCondition;

verus! {

proof fn lemma_matching_employees_none(t: Seq<EmployeeRowV>, c: EmployeeQueryBuilderCondition)
    requires
        forall|i: int| 0 <= i < t.len() ==> !employee_row_matches(c, #[trigger] t[i]),
    ensures
        matching_employees(t, c).len() == 0,
    decreases t.len(),
{
    if t.len() > 0 {
        assert(forall|i: int|
            0 <= i < t.drop_last().len() ==> !employee_row_matches(
                c,
                #[trigger] t.drop_last()[i],
            ));
        lemma_matching_employees_none(t.drop_last(), c);
        assert(!employee_row_matches(c, t[t.len() - 1]));
    }
}

proof fn lemma_matching_users_none(t: Seq<UserRowV>, c: UserQueryBuilderCondition)
    requires
        forall|i: int| 0 <= i < t.len() ==> !user_row_matches(c, #[trigger] t[i]),
    ensures
        matching_users(t, c).len() == 0,
    decreases t.len(),
{
    if t.len() > 0 {
        assert(forall|i: int|
            0 <= i < t.drop_last().len() ==> !user_row_matches(c, #[trigger] t.drop_last()[i]));
        lemma_matching_users_none(t.drop_last(), c);
        assert(!user_row_matches(c, t[t.len() - 1]));
    }
}

/// An employee query whose condition matches no source row returns the
/// empty sequence, and its first result is empty; no relation is
/// resolved for any row.
pub proof fn lemma_employee_query_empty(c: EmployeeQueryBuilderCondition, caps: EmployeeCaps)
    requires
        forall|i: int|
            0 <= i < employee_table().len() ==> !employee_row_matches(
                c,
                #[trigger] employee_table()[i],
            ),
    ensures
        run_employee_query(c, caps).len() == 0,
        first_employee_result(c, caps) is None,
{
    lemma_matching_employees_none(employee_table(), c);
}

/// A user query whose condition matches no source row returns the empty
/// sequence, and its first result is empty; no relation is resolved for
/// any row.
pub proof fn lemma_user_query_empty(c: UserQueryBuilderCondition, caps: UserCaps)
    requires
        forall|i: int|
            0 <= i < user_table().len() ==> !user_row_matches(c, #[trigger] user_table()[i]),
    ensures
        run_user_query(c, caps).len() == 0,
        first_user_result(c, caps) is None,
{
    lemma_matching_users_none(user_table(), c);
}

/// Every executed employee row has its slots resolved, a slot is
/// populated only if its relation was requested, and a relation that was
/// not requested always yields an empty slot.
pub proof fn lemma_employee_slots_follow_caps(
    c: EmployeeQueryBuilderCondition,
    caps: EmployeeCaps,
    i: int,
)
    requires
        0 <= i < run_employee_query(c, caps).len(),
    ensures
        run_employee_query(c, caps)[i].loaded is Some,
        !caps.branch ==> branch_slot(run_employee_query(c, caps)[i]) is None,
        !caps.user ==> user_slot(run_employee_query(c, caps)[i]) is None,
        branch_slot(run_employee_query(c, caps)[i]) is Some ==> caps.branch,
        user_slot(run_employee_query(c, caps)[i]) is Some ==> caps.user,
{
    assert(run_employee_query(c, caps)[i] == resolve_employee(
        matching_employees(employee_table(), c)[i],
        caps,
    ));
}

/// Every executed user row has its slots resolved, a slot is populated
/// only if its relation was requested, and a relation that was not
/// requested always yields an empty slot.
pub proof fn lemma_user_slots_follow_caps(c: UserQueryBuilderCondition, caps: UserCaps, i: int)
    requires
        0 <= i < run_user_query(c, caps).len(),
    ensures
        run_user_query(c, caps)[i].loaded is Some,
        caps.employee is None ==> employee_slot(run_user_query(c, caps)[i]) is None,
        !caps.preferences ==> preference_slot(run_user_query(c, caps)[i]) is None,
        employee_slot(run_user_query(c, caps)[i]) is Some ==> caps.employee is Some,
        preference_slot(run_user_query(c, caps)[i]) is Some ==> caps.preferences,
{
    assert(run_user_query(c, caps)[i] == resolve_user(matching_users(user_table(), c)[i], caps));
}

/// A requested employee relation on a user row without the foreign key
/// resolves to empty; and resolution is row-local: every result row is a
/// function of its own source row and the capability set alone, so one
/// row's missing key affects neither its sibling rows nor its other
/// slots.
pub proof fn lemma_user_absent_key(c: UserQueryBuilderCondition, caps: UserCaps, i: int)
    requires
        0 <= i < run_user_query(c, caps).len(),
        run_user_query(c, caps)[i].employee_id is None,
    ensures
        employee_slot(run_user_query(c, caps)[i]) is None,
        forall|j: int|
            0 <= j < run_user_query(c, caps).len() ==> #[trigger] run_user_query(c, caps)[j]
                == resolve_user(matching_users(user_table(), c)[j], caps),
{
    assert(run_user_query(c, caps)[i] == resolve_user(matching_users(user_table(), c)[i], caps));
}

proof fn lemma_matching_employees_is_filter(t: Seq<EmployeeRowV>, c: EmployeeQueryBuilderCondition)
    ensures
        matching_employees(t, c) == t.filter(|r: EmployeeRowV| employee_row_matches(c, r)),
    decreases t.len(),
{
    reveal(Seq::filter);
    if t.len() > 0 {
        lemma_matching_employees_is_filter(t.drop_last(), c);
    }
    assert(matching_employees(t, c) =~= t.filter(|r: EmployeeRowV| employee_row_matches(c, r)));
}

proof fn lemma_matching_users_is_filter(t: Seq<UserRowV>, c: UserQueryBuilderCondition)
    ensures
        matching_users(t, c) == t.filter(|r: UserRowV| user_row_matches(c, r)),
    decreases t.len(),
{
    reveal(Seq::filter);
    if t.len() > 0 {
        lemma_matching_users_is_filter(t.drop_last(), c);
    }
    assert(matching_users(t, c) =~= t.filter(|r: UserRowV| user_row_matches(c, r)));
}

/// Stability: an employee query's results carry, row for row and in
/// order, the base fields of the source table filtered by the primary
/// condition.
pub proof fn lemma_employee_query_order(c: EmployeeQueryBuilderCondition, caps: EmployeeCaps)
    ensures
        run_employee_query(c, caps).len() == matching_employees(employee_table(), c).len(),
        forall|i: int|
            0 <= i < run_employee_query(c, caps).len() ==> employee_base(
                #[trigger] run_employee_query(c, caps)[i],
            ) == matching_employees(employee_table(), c)[i],
        matching_employees(employee_table(), c) == employee_table().filter(
            |r: EmployeeRowV| employee_row_matches(c, r),
        ),
{
    lemma_matching_employees_is_filter(employee_table(), c);
    assert forall|i: int| 0 <= i < run_employee_query(c, caps).len() implies employee_base(
        #[trigger] run_employee_query(c, caps)[i],
    ) == matching_employees(employee_table(), c)[i] by {
        assert(run_employee_query(c, caps)[i] == resolve_employee(
            matching_employees(employee_table(), c)[i],
            caps,
        ));
    }
}

/// Stability: a user query's results carry, row for row and in order,
/// the base fields of the source table filtered by the primary
/// condition.
pub proof fn lemma_user_query_order(c: UserQueryBuilderCondition, caps: UserCaps)
    ensures
        run_user_query(c, caps).len() == matching_users(user_table(), c).len(),
        forall|i: int|
            0 <= i < run_user_query(c, caps).len() ==> user_base(
                #[trigger] run_user_query(c, caps)[i],
            ) == matching_users(user_table(), c)[i],
        matching_users(user_table(), c) == user_table().filter(
            |r: UserRowV| user_row_matches(c, r),
        ),
{
    lemma_matching_users_is_filter(user_table(), c);
    assert forall|i: int| 0 <= i < run_user_query(c, caps).len() implies user_base(
        #[trigger] run_user_query(c, caps)[i],
    ) == matching_users(user_table(), c)[i] by {
        assert(run_user_query(c, caps)[i] == resolve_user(
            matching_users(user_table(), c)[i],
            caps,
        ));
    }
}

/// A user capability set with its employee relation (re)configured to
/// `ec`.
pub open spec fn with_employee_cap(caps: UserCaps, ec: EmployeeCaps) -> UserCaps {
    UserCaps { employee: Some(ec), preferences: caps.preferences }
}

/// Requesting the employee relation twice keeps only the last nested
/// configuration: the earlier one has no effect on the results.
pub proof fn lemma_reconfigure_employee_last_wins(
    c: UserQueryBuilderCondition,
    caps: UserCaps,
    ec1: EmployeeCaps,
    ec2: EmployeeCaps,
)
    ensures
        run_user_query(c, with_employee_cap(with_employee_cap(caps, ec1), ec2)) == run_user_query(
            c,
            with_employee_cap(caps, ec2),
        ),
{
}

} // verus!
