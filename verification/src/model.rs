//! The mathematical model of the data-access layer: views of the entity
//! records, the fixed source tables as sequences, and the specification of
//! query execution that the executable builders are proved against.

use vstd::prelude::*;
use crate::employees::EmployeeCaps;
use crate::employees::EmployeeQueryBuilderCondition;
use crate::users::UserCaps;
use crate::users::UserQueryBuilderCondition;

verus! {

/// View of a branch record.
pub struct BranchV {
    pub id: int,
    pub name: Seq<char>,
}

/// View of a preference record.
pub struct PreferenceV {
    pub user_id: int,
    pub dark_mode: bool,
    pub notifications: bool,
}

/// View of an employee source row: the base fields, without relation slots.
pub struct EmployeeRowV {
    pub id: int,
    pub title: Seq<char>,
    pub branch_id: int,
}

/// View of a user source row: the base fields, without relation slots.
pub struct UserRowV {
    pub id: int,
    pub name: Seq<char>,
    pub email: Seq<char>,
    pub employee_id: Option<int>,
}

/// The relation slots of an executed employee row.  The user slot is a
/// reverse lookup that is itself executed with no nested relations, so it
/// is reported by its base row alone.
pub struct EmployeeSlotsV {
    pub branch: Option<BranchV>,
    pub user: Option<UserRowV>,
}

/// View of an employee result row: base fields plus relation slots.
/// `loaded` is `None` only for a row that never went through execution.
pub struct EmployeeRV {
    pub id: int,
    pub title: Seq<char>,
    pub branch_id: int,
    pub loaded: Option<EmployeeSlotsV>,
}

/// The relation slots of an executed user row.
pub struct UserSlotsV {
    pub employee: Option<EmployeeRV>,
    pub preferences: Option<PreferenceV>,
}

/// View of a user result row: base fields plus relation slots.
pub struct UserRV {
    pub id: int,
    pub name: Seq<char>,
    pub email: Seq<char>,
    pub employee_id: Option<int>,
    pub loaded: Option<UserSlotsV>,
}

/// The base fields of an employee result row.
pub open spec fn employee_base(e: EmployeeRV) -> EmployeeRowV {
    EmployeeRowV { id: e.id, title: e.title, branch_id: e.branch_id }
}

/// The base fields of a user result row.
pub open spec fn user_base(u: UserRV) -> UserRowV {
    UserRowV { id: u.id, name: u.name, email: u.email, employee_id: u.employee_id }
}

/// The branch slot of an employee result row, empty when never loaded.
pub open spec fn branch_slot(e: EmployeeRV) -> Option<BranchV> {
    match e.loaded {
        Some(s) => s.branch,
        None => None,
    }
}

/// The user slot of an employee result row, empty when never loaded.
pub open spec fn user_slot(e: EmployeeRV) -> Option<UserRowV> {
    match e.loaded {
        Some(s) => s.user,
        None => None,
    }
}

/// The employee slot of a user result row, empty when never loaded.
pub open spec fn employee_slot(u: UserRV) -> Option<EmployeeRV> {
    match u.loaded {
        Some(s) => s.employee,
        None => None,
    }
}

/// The preference slot of a user result row, empty when never loaded.
pub open spec fn preference_slot(u: UserRV) -> Option<PreferenceV> {
    match u.loaded {
        Some(s) => s.preferences,
        None => None,
    }
}

/// The fixed, ordered branch source table.
pub open spec fn branch_table() -> Seq<BranchV> {
    seq![
        BranchV { id: 1, name: "HQ"@ },
        BranchV { id: 2, name: "Branch 2"@ },
    ]
}

/// The fixed, ordered preference source table.
pub open spec fn preference_table() -> Seq<PreferenceV> {
    seq![
        PreferenceV { user_id: 1, dark_mode: true, notifications: true },
        PreferenceV { user_id: 2, dark_mode: false, notifications: true },
        PreferenceV { user_id: 3, dark_mode: true, notifications: false },
    ]
}

/// The fixed, ordered employee source table.
pub open spec fn employee_table() -> Seq<EmployeeRowV> {
    seq![
        EmployeeRowV { id: 1, title: "CEO"@, branch_id: 1 },
        EmployeeRowV { id: 2, title: "CTO"@, branch_id: 1 },
        EmployeeRowV { id: 3, title: "CFO"@, branch_id: 2 },
    ]
}

/// The fixed, ordered user source table.
pub open spec fn user_table() -> Seq<UserRowV> {
    seq![
        UserRowV { id: 1, name: "Alice"@, email: "alice@email.com"@, employee_id: Some(1) },
        UserRowV { id: 2, name: "Bob"@, email: "bob@email.com"@, employee_id: Some(2) },
        UserRowV { id: 3, name: "Charlie"@, email: "charlie@email.com"@, employee_id: None },
    ]
}

/// Whether an employee row satisfies a primary condition.
pub open spec fn employee_row_matches(c: EmployeeQueryBuilderCondition, r: EmployeeRowV) -> bool {
    match c {
        EmployeeQueryBuilderCondition::ById(id) => r.id == id as int,
    }
}

/// Whether a user row satisfies a primary condition.
pub open spec fn user_row_matches(c: UserQueryBuilderCondition, r: UserRowV) -> bool {
    match c {
        UserQueryBuilderCondition::ById(id) => r.id == id as int,
        UserQueryBuilderCondition::ByEmployeeId(eid) => r.employee_id == Some(eid as int),
    }
}

/// The employee rows satisfying a condition, in source-table order.
pub open spec fn matching_employees(
    t: Seq<EmployeeRowV>,
    c: EmployeeQueryBuilderCondition,
) -> Seq<EmployeeRowV>
    decreases t.len(),
{
    if t.len() == 0 {
        Seq::empty()
    } else {
        let rest = matching_employees(t.drop_last(), c);
        if employee_row_matches(c, t.last()) {
            rest.push(t.last())
        } else {
            rest
        }
    }
}

/// The user rows satisfying a condition, in source-table order.
pub open spec fn matching_users(t: Seq<UserRowV>, c: UserQueryBuilderCondition) -> Seq<UserRowV>
    decreases t.len(),
{
    if t.len() == 0 {
        Seq::empty()
    } else {
        let rest = matching_users(t.drop_last(), c);
        if user_row_matches(c, t.last()) {
            rest.push(t.last())
        } else {
            rest
        }
    }
}

/// First branch with the given id, by keyed lookup in table order.
pub open spec fn lookup_branch_in(t: Seq<BranchV>, id: int) -> Option<BranchV>
    decreases t.len(),
{
    if t.len() == 0 {
        None
    } else if t.first().id == id {
        Some(t.first())
    } else {
        lookup_branch_in(t.drop_first(), id)
    }
}

/// Keyed lookup of a branch in the source table.
pub open spec fn lookup_branch(id: int) -> Option<BranchV> {
    lookup_branch_in(branch_table(), id)
}

/// First preference with the given user id, by keyed lookup in table order.
pub open spec fn lookup_preference_in(t: Seq<PreferenceV>, user_id: int) -> Option<PreferenceV>
    decreases t.len(),
{
    if t.len() == 0 {
        None
    } else if t.first().user_id == user_id {
        Some(t.first())
    } else {
        lookup_preference_in(t.drop_first(), user_id)
    }
}

/// Keyed lookup of a preference in the source table.
pub open spec fn lookup_preference(user_id: int) -> Option<PreferenceV> {
    lookup_preference_in(preference_table(), user_id)
}

/// First user row matching a condition: the result of a nested user query
/// that requests no relations of its own.
pub open spec fn first_user_row(c: UserQueryBuilderCondition) -> Option<UserRowV> {
    let m = matching_users(user_table(), c);
    if m.len() == 0 {
        None
    } else {
        Some(m.first())
    }
}

/// Resolution of one employee row: each slot is filled exactly when its
/// capability was requested; the user slot is a reverse lookup by
/// `employee_id` and resolves with no further relations.
pub open spec fn resolve_employee(r: EmployeeRowV, caps: EmployeeCaps) -> EmployeeRV {
    EmployeeRV {
        id: r.id,
        title: r.title,
        branch_id: r.branch_id,
        loaded: Some(
            EmployeeSlotsV {
                branch: if caps.branch {
                    lookup_branch(r.branch_id)
                } else {
                    None
                },
                user: if caps.user {
                    first_user_row(UserQueryBuilderCondition::ByEmployeeId(r.id as i32))
                } else {
                    None
                },
            },
        ),
    }
}

/// An employee query: the matching rows in source order, each resolved
/// against the requested capability set.
pub open spec fn run_employee_query(
    c: EmployeeQueryBuilderCondition,
    caps: EmployeeCaps,
) -> Seq<EmployeeRV> {
    matching_employees(employee_table(), c).map_values(|r: EmployeeRowV| resolve_employee(r, caps))
}

/// The first result of an employee query, if any.
pub open spec fn first_employee_result(
    c: EmployeeQueryBuilderCondition,
    caps: EmployeeCaps,
) -> Option<EmployeeRV> {
    let m = run_employee_query(c, caps);
    if m.len() == 0 {
        None
    } else {
        Some(m.first())
    }
}

/// Resolution of one user row.  The employee slot is filled only when the
/// employee relation was requested and the row's foreign key is present; a
/// missing key resolves to an empty slot, which is not an error.
pub open spec fn resolve_user(r: UserRowV, caps: UserCaps) -> UserRV {
    UserRV {
        id: r.id,
        name: r.name,
        email: r.email,
        employee_id: r.employee_id,
        loaded: Some(
            UserSlotsV {
                employee: match (r.employee_id, caps.employee) {
                    (Some(eid), Some(ec)) => first_employee_result(
                        EmployeeQueryBuilderCondition::ById(eid as i32),
                        ec,
                    ),
                    _ => None,
                },
                preferences: if caps.preferences {
                    lookup_preference(r.id)
                } else {
                    None
                },
            },
        ),
    }
}

/// A user query: the matching rows in source order, each resolved against
/// the requested capability set.
pub open spec fn run_user_query(c: UserQueryBuilderCondition, caps: UserCaps) -> Seq<UserRV> {
    matching_users(user_table(), c).map_values(|r: UserRowV| resolve_user(r, caps))
}

/// The first result of a user query, if any.
pub open spec fn first_user_result(c: UserQueryBuilderCondition, caps: UserCaps) -> Option<UserRV> {
    let m = run_user_query(c, caps);
    if m.len() == 0 {
        None
    } else {
        Some(m.first())
    }
}

/// The rows matching within a prefix of the table are a prefix of the
/// rows matching within the whole table.
pub proof fn lemma_matching_users_prefix(t: Seq<UserRowV>, c: UserQueryBuilderCondition, j: int)
    requires
        0 <= j <= t.len(),
    ensures
        matching_users(t.take(j), c).len() <= matching_users(t, c).len(),
        forall|k: int|
            0 <= k < matching_users(t.take(j), c).len() ==> #[trigger] matching_users(t, c)[k]
                == matching_users(t.take(j), c)[k],
    decreases t.len() - j,
{
    if j == t.len() {
        assert(t.take(j) =~= t);
    } else {
        lemma_matching_users_step(t, c, j);
        lemma_matching_users_prefix(t, c, j + 1);
    }
}

/// Extending matched rows by one source row keeps source order.
pub proof fn lemma_matching_employees_step(
    t: Seq<EmployeeRowV>,
    c: EmployeeQueryBuilderCondition,
    i: int,
)
    requires
        0 <= i < t.len(),
    ensures
        matching_employees(t.take(i + 1), c) == if employee_row_matches(c, t[i]) {
            matching_employees(t.take(i), c).push(t[i])
        } else {
            matching_employees(t.take(i), c)
        },
{
    assert(t.take(i + 1).drop_last() =~= t.take(i));
    assert(t.take(i + 1).last() == t[i]);
}

/// Extending matched rows by one source row keeps source order.
pub proof fn lemma_matching_users_step(t: Seq<UserRowV>, c: UserQueryBuilderCondition, i: int)
    requires
        0 <= i < t.len(),
    ensures
        matching_users(t.take(i + 1), c) == if user_row_matches(c, t[i]) {
            matching_users(t.take(i), c).push(t[i])
        } else {
            matching_users(t.take(i), c)
        },
{
    assert(t.take(i + 1).drop_last() =~= t.take(i));
    assert(t.take(i + 1).last() == t[i]);
}

} // verus!
