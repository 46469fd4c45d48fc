use relquery::branches::Branch;
use relquery::employees::Employee;
use relquery::employees::EmployeeQueryBuilder;
use relquery::employees::EmployeeQueryBuilderCondition;
use relquery::employees::WithBranch;
use relquery::employees::WithUser;
use relquery::users::User;
use relquery::users::UserQueryBuilder;
use relquery::users::UserQueryBuilderCondition;

#[test]
fn user_by_id_no_relations() {
    let results = User::query().by_id(1).execute();
    assert_eq!(results.len(), 1);
    let u = &results[0];
    assert_eq!(u.id, 1);
    assert_eq!(u.name.as_str(), "Alice");
    assert_eq!(u.email.as_str(), "alice@email.com");
    assert_eq!(u.employee_id, Some(1));
}

#[test]
fn user_by_id_unmatched_is_empty() {
    let results = User::query().by_id(99).execute();
    assert!(results.is_empty());
    assert!(User::query().by_id(99).execute_one().is_none());
}

#[test]
fn employee_by_id_unmatched_is_empty() {
    let results = Employee::query().by_id(42).execute();
    assert!(results.is_empty());
    assert!(Employee::query().by_id(42).with_branch().execute_one().is_none());
}

#[test]
fn employee_by_id_with_branch() {
    let results = Employee::query().by_id(1).with_branch().execute();
    assert_eq!(results.len(), 1);
    let e = &results[0];
    assert_eq!(e.id, 1);
    assert_eq!(e.title.as_str(), "CEO");
    assert_eq!(e.branch_id, 1);
    let b: &Branch = e.branch().expect("branch was requested and exists");
    assert_eq!(b.id, 1);
    assert_eq!(b.name.as_str(), "HQ");
}

#[test]
fn employee_branch_lookup_by_foreign_key() {
    let results = Employee::query().by_id(3).with_branch().execute();
    assert_eq!(results.len(), 1);
    let b = results[0].branch().expect("branch was requested and exists");
    assert_eq!(b.id, 2);
    assert_eq!(b.name.as_str(), "Branch 2");
}

#[test]
fn employee_with_user_reverse_lookup() {
    let results = Employee::query().by_id(2).with_user().execute();
    assert_eq!(results.len(), 1);
    let u = results[0].user().expect("a user points at this employee");
    assert_eq!(u.id, 2);
    assert_eq!(u.name.as_str(), "Bob");
}

#[test]
fn employee_with_user_no_reverse_match() {
    let results = Employee::query().by_id(3).with_user().execute();
    assert_eq!(results.len(), 1);
    assert!(results[0].user().is_none());
}

#[test]
fn user_preferences_scenario() {
    let results = User::query().by_id(3).with_preferences().execute();
    assert_eq!(results.len(), 1);
    let u = &results[0];
    assert_eq!(u.id, 3);
    assert_eq!(u.name.as_str(), "Charlie");
    assert_eq!(u.employee_id, None);
    let p = u.preferences().expect("preferences were requested and exist");
    assert!(p.dark_mode);
    assert!(!p.notifications);
}

#[test]
fn user_preferences_exact_values() {
    let results = User::query().by_id(2).with_preferences().execute();
    let p = results[0].preferences().expect("preferences exist for this user");
    assert_eq!(p.user_id, 2);
    assert!(!p.dark_mode);
    assert!(p.notifications);
}

#[test]
fn user_absent_foreign_key_leaves_siblings_untouched() {
    let results = User::query()
        .by_id(3)
        .with_preferences()
        .with_employee::<_, ()>(|q| q)
        .execute();
    assert_eq!(results.len(), 1);
    let u = &results[0];
    assert!(u.employee().is_none());
    let p = u.preferences().expect("the missing employee key must not affect this slot");
    assert!(p.dark_mode);
    assert!(!p.notifications);
}

#[test]
fn user_with_employee_default_nested() {
    let results = User::query().by_id(1).with_employee::<_, ()>(|q| q).execute();
    assert_eq!(results.len(), 1);
    let e = results[0].employee().expect("employee was requested and the key is present");
    assert_eq!(e.id, 1);
    assert_eq!(e.title.as_str(), "CEO");
}

#[test]
fn user_with_employee_nested_round_trip() {
    let results = User::query()
        .by_id(2)
        .with_employee::<_, (WithBranch, WithUser)>(|q| q.with_branch().with_user())
        .execute();
    assert_eq!(results.len(), 1);
    let u = &results[0];
    assert_eq!(u.id, 2);
    let e = u.employee().expect("employee was requested and the key is present");
    assert_eq!(e.id, 2);
    assert_eq!(e.title.as_str(), "CTO");
    let b = e.branch().expect("nested branch was requested");
    assert_eq!(b.id, 1);
    assert_eq!(b.name.as_str(), "HQ");
    let back = e.user().expect("nested user was requested");
    assert_eq!(back.id, 2);
    assert_eq!(back.name.as_str(), "Bob");
}

#[test]
fn user_reconfigured_employee_keeps_last() {
    let results = User::query()
        .by_id(1)
        .with_employee::<_, (WithBranch, WithUser)>(|q| q.with_branch().with_user())
        .with_employee::<_, ()>(|q| q)
        .execute();
    assert_eq!(results.len(), 1);
    let e = results[0].employee().expect("employee still requested after reconfiguration");
    assert_eq!(e.id, 1);
}

#[test]
fn user_reconfigured_employee_applies_last() {
    let results = User::query()
        .by_id(1)
        .with_employee::<_, ()>(|q| q)
        .with_employee::<_, (WithBranch, ())>(|q| q.with_branch())
        .execute();
    assert_eq!(results.len(), 1);
    let e = results[0].employee().expect("employee requested");
    let b = e.branch().expect("the last configuration requests the branch");
    assert_eq!(b.id, 1);
}

#[test]
fn user_by_employee_id() {
    let results = User::query().by_employee_id(1).execute();
    assert_eq!(results.len(), 1);
    assert_eq!(results[0].id, 1);
    assert_eq!(results[0].name.as_str(), "Alice");
    assert!(User::query().by_employee_id(3).execute().is_empty());
}

#[test]
fn builders_constructed_directly() {
    let results = EmployeeQueryBuilder::new(EmployeeQueryBuilderCondition::ById(2)).execute();
    assert_eq!(results.len(), 1);
    assert_eq!(results[0].title.as_str(), "CTO");
    let user_results =
        UserQueryBuilder::<(), ()>::new(UserQueryBuilderCondition::ByEmployeeId(2)).execute();
    assert_eq!(user_results.len(), 1);
    assert_eq!(user_results[0].name.as_str(), "Bob");
}

#[test]
fn execute_one_returns_first_match() {
    let one = Employee::query().by_id(2).execute_one().expect("one employee matches");
    assert_eq!(one.id, 2);
    assert_eq!(one.title.as_str(), "CTO");
    let first_user = User::query().by_id(2).execute_one().expect("one user matches");
    assert_eq!(first_user.name.as_str(), "Bob");
}
