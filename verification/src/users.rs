//! The user entity and its query builder.
//!
//! A user has two relations: `employee` (an optional direct foreign key
//! into the employee table, resolved through a nested employee query
//! configured at build time) and `preferences` (a one-to-one lookup by
//! `user_id`).  The builder's marker parameters record which relations
//! were requested; a result row offers an accessor only for a requested
//! relation.

use vstd::prelude::*;
use core::marker::PhantomData;
use crate::employees::Employee;
use crate::employees::EmployeeCaps;
use crate::employees::EmployeeQueryBuilder;
use crate::employees::EmployeeQueryBuilderCondition;
use crate::employees::EmployeeRelations;
use crate::model::UserRV;
use crate::model::UserRowV;
use crate::model::UserSlotsV;
use crate::model::employee_slot;
use crate::model::first_user_result;
use crate::model::first_user_row;
use crate::model::lemma_matching_users_prefix;
use crate::model::lemma_matching_users_step;
use crate::model::matching_users;
use crate::model::preference_slot;
use crate::model::resolve_user;
use crate::model::run_user_query;
use crate::model::user_table;
use crate::user_preferences::UserPreference;
use crate::user_preferences::find_preference;

verus! {

/// The closed set of relation names a user query can request, as a
/// type-level record: each implementor fixes the employee relation's own
/// nested capability set and the preferences marker.
pub trait UserRelations {
    type Employee: EmployeeRelations;

    type Preferences;
}

impl UserRelations for () {
    type Employee = ();

    type Preferences = ();
}

impl<ER: EmployeeRelations> UserRelations for WithEmployee<ER> {
    type Employee = ER;

    type Preferences = ();
}

impl UserRelations for WithPreferences {
    type Employee = ();

    type Preferences = WithPreferences;
}

/// Marker: the employee relation was requested, with its own nested
/// capability set `ER`.
pub struct WithEmployee<ER>(PhantomData<ER>);

/// Marker: the preferences relation was requested.
pub struct WithPreferences;

/// A user row as returned from a query.  The marker `E` records whether
/// (and how deeply) the employee relation was requested, `P` whether the
/// preferences relation was; the accessors exist only on instantiations
/// carrying the matching marker.
pub struct User<E: UserRelations, P> {
    pub id: i32,
    pub name: String,
    pub email: String,
    pub employee_id: Option<i32>,
    query_results: Option<UserQueryResults<E::Employee>>,
    _relations: PhantomData<(E, P)>,
}

/// The resolved relation slots attached to one user result row.
struct UserQueryResults<ER: EmployeeRelations> {
    employee: Option<Employee<ER::Branch, ER::User>>,
    user_preferences: Option<UserPreference>,
}

/// The base fields of a user value, as a source-row view.
pub closed spec fn user_row_of<E: UserRelations, P>(u: User<E, P>) -> UserRowV {
    UserRowV {
        id: u.id as int,
        name: u.name@,
        email: u.email@,
        employee_id: match u.employee_id {
            Some(i) => Some(i as int),
            None => None,
        },
    }
}

impl<E: UserRelations, P> View for User<E, P> {
    type V = UserRV;

    closed spec fn view(&self) -> UserRV {
        UserRV {
            id: self.id as int,
            name: self.name@,
            email: self.email@,
            employee_id: match self.employee_id {
                Some(i) => Some(i as int),
                None => None,
            },
            loaded: match self.query_results {
                Some(qr) => Some(
                    UserSlotsV {
                        employee: match qr.employee {
                            Some(e) => Some(e@),
                            None => None,
                        },
                        preferences: match qr.user_preferences {
                            Some(p) => Some(p@),
                            None => None,
                        },
                    },
                ),
                None => None,
            },
        }
    }
}

impl User<(), ()> {
    /// Open a new user query.
    pub fn query() -> (r: UserQueryBuilderInitial) {
        UserQueryBuilderInitial
    }
}

impl<P, ER> User<WithEmployee<ER>, P> where ER: EmployeeRelations {
    /// The resolved employee relation; available only when it was
    /// requested.  Empty when the user has no `employee_id`.
    pub fn employee(&self) -> (r: Option<&Employee<ER::Branch, ER::User>>)
        ensures
            (match r {
                Some(e) => employee_slot(self@) == Some(e@),
                None => employee_slot(self@) is None,
            }),
    {
        match &self.query_results {
            Some(qr) => match &qr.employee {
                Some(e) => Some(e),
                None => None,
            },
            None => None,
        }
    }
}

impl<E: UserRelations> User<E, WithPreferences> {
    /// The resolved preferences relation; available only when it was
    /// requested.
    pub fn preferences(&self) -> (r: Option<&UserPreference>)
        ensures
            (match r {
                Some(p) => preference_slot(self@) == Some(p@),
                None => preference_slot(self@) is None,
            }),
    {
        match &self.query_results {
            Some(qr) => match &qr.user_preferences {
                Some(p) => Some(p),
                None => None,
            },
            None => None,
        }
    }
}

/// The entry point of a user query, before a primary condition is chosen.
pub struct UserQueryBuilderInitial;

/// The primary lookup predicate of a user query.
pub enum UserQueryBuilderCondition {
    ById(i32),
    ByEmployeeId(i32),
}

/// The relations a user query was asked to resolve; the employee
/// relation carries its own nested capability set.
#[derive(Clone, Copy)]
pub struct UserCaps {
    pub employee: Option<EmployeeCaps>,
    pub preferences: bool,
}

/// View of a user query builder: its condition and capability set.
pub struct UserQueryV {
    pub condition: UserQueryBuilderCondition,
    pub caps: UserCaps,
}

impl UserQueryBuilderInitial {
    /// Select users whose id equals `id`; no relations requested yet.
    pub fn by_id(&self, id: i32) -> (r: UserQueryBuilder<(), ()>)
        ensures
            r@.condition == UserQueryBuilderCondition::ById(id),
            r@.caps == (UserCaps { employee: None, preferences: false }),
    {
        UserQueryBuilder::new(UserQueryBuilderCondition::ById(id))
    }

    /// Select users whose `employee_id` equals `employee_id`; no
    /// relations requested yet.
    pub fn by_employee_id(&self, employee_id: i32) -> (r: UserQueryBuilder<(), ()>)
        ensures
            r@.condition == UserQueryBuilderCondition::ByEmployeeId(employee_id),
            r@.caps == (UserCaps { employee: None, preferences: false }),
    {
        UserQueryBuilder::new(UserQueryBuilderCondition::ByEmployeeId(employee_id))
    }
}

/// A user query: a primary condition plus the requested relation set.
/// The employee relation's nested configuration is kept as a configured
/// employee builder whose condition is re-keyed per result row.
pub struct UserQueryBuilder<E: UserRelations, P> {
    pub(crate) condition: UserQueryBuilderCondition,
    pub(crate) employee_configuration: Option<
        EmployeeQueryBuilder<
            <E::Employee as EmployeeRelations>::Branch,
            <E::Employee as EmployeeRelations>::User,
        >,
    >,
    pub(crate) want_preferences: bool,
    _relations: PhantomData<(E, P)>,
}

impl<E: UserRelations, P> View for UserQueryBuilder<E, P> {
    type V = UserQueryV;

    closed spec fn view(&self) -> UserQueryV {
        UserQueryV {
            condition: self.condition,
            caps: UserCaps {
                employee: match self.employee_configuration {
                    Some(b) => Some(b@.caps),
                    None => None,
                },
                preferences: self.want_preferences,
            },
        }
    }
}

impl<E: UserRelations, P> UserQueryBuilder<E, P> {
    /// A builder with the given condition and no relations requested.
    pub fn new(condition: UserQueryBuilderCondition) -> (r: Self)
        ensures
            r@.condition == condition,
            r@.caps == (UserCaps { employee: None, preferences: false }),
    {
        UserQueryBuilder {
            condition: condition,
            employee_configuration: None,
            want_preferences: false,
            _relations: PhantomData,
        }
    }

    /// Request the employee relation.  The configurator receives a fresh
    /// employee builder and chooses the nested relations to resolve for
    /// it; a repeated request replaces any earlier configuration.
    pub fn with_employee<F, ER>(self, configurator: F) -> (r: UserQueryBuilder<WithEmployee<ER>, P>)
        where
            ER: EmployeeRelations,
            F: Fn(EmployeeQueryBuilder<(), ()>) -> EmployeeQueryBuilder<ER::Branch, ER::User>,
        requires
            forall|q: EmployeeQueryBuilder<(), ()>| #[trigger] configurator.requires((q,)),
        ensures
            r@.condition == self@.condition,
            r@.caps.preferences == self@.caps.preferences,
            exists|q: EmployeeQueryBuilder<(), ()>, nb: EmployeeQueryBuilder<
                ER::Branch,
                ER::User,
            >|
                {
                    &&& q@.caps == (EmployeeCaps { branch: false, user: false })
                    &&& #[trigger] configurator.ensures((q,), nb)
                    &&& r@.caps.employee == Some(nb@.caps)
                },
    {
        let fresh = EmployeeQueryBuilder::new(EmployeeQueryBuilderCondition::ById(0));
        let ghost gq = fresh;
        let nested = configurator(fresh);
        let ghost gnb = nested;
        let r = UserQueryBuilder {
            condition: self.condition,
            employee_configuration: Some(nested),
            want_preferences: self.want_preferences,
            _relations: PhantomData,
        };
        proof {
            assert(configurator.ensures((gq,), gnb));
            assert(r@.caps.employee == Some(gnb@.caps));
        }
        r
    }

    /// Request the preferences relation; the rest of the builder,
    /// including any employee configuration, is unchanged.
    pub fn with_preferences(self) -> (r: UserQueryBuilder<E, WithPreferences>)
        ensures
            r@.condition == self@.condition,
            r@.caps == (UserCaps { employee: self@.caps.employee, preferences: true }),
    {
        UserQueryBuilder {
            condition: self.condition,
            employee_configuration: self.employee_configuration,
            want_preferences: true,
            _relations: PhantomData,
        }
    }
}

/// One user source row.
struct UserRow {
    id: i32,
    name: String,
    email: String,
    employee_id: Option<i32>,
}

impl View for UserRow {
    type V = UserRowV;

    closed spec fn view(&self) -> UserRowV {
        UserRowV {
            id: self.id as int,
            name: self.name@,
            email: self.email@,
            employee_id: match self.employee_id {
                Some(i) => Some(i as int),
                None => None,
            },
        }
    }
}

/// The user source table, in its fixed order.
fn user_rows() -> (r: Vec<UserRow>)
    ensures
        r@.map_values(|x: UserRow| x@) == user_table(),
{
    let mut r: Vec<UserRow> = Vec::new();
    r.push(
        UserRow {
            id: 1,
            name: String::from_str("Alice"),
            email: String::from_str("alice@email.com"),
            employee_id: Some(1),
        },
    );
    r.push(
        UserRow {
            id: 2,
            name: String::from_str("Bob"),
            email: String::from_str("bob@email.com"),
            employee_id: Some(2),
        },
    );
    r.push(
        UserRow {
            id: 3,
            name: String::from_str("Charlie"),
            email: String::from_str("charlie@email.com"),
            employee_id: None,
        },
    );
    proof {
        assert(r@.map_values(|x: UserRow| x@) =~= user_table());
    }
    r
}

/// The reverse foreign-key lookup behind an employee's user relation:
/// the first user whose `employee_id` matches, resolved with no further
/// relations of its own.
pub(crate) fn fetch_user_by_employee_id(employee_id: i32) -> (r: Option<User<(), ()>>)
    ensures
        (match r {
            Some(u) => first_user_row(UserQueryBuilderCondition::ByEmployeeId(employee_id))
                == Some(user_row_of(u)),
            None => first_user_row(UserQueryBuilderCondition::ByEmployeeId(employee_id)) is None,
        }),
{
    let rows = user_rows();
    let ghost c = UserQueryBuilderCondition::ByEmployeeId(employee_id);
    let mut i: usize = 0;
    while i < rows.len()
        invariant
            i <= rows.len(),
            rows@.map_values(|x: UserRow| x@) == user_table(),
            matching_users(user_table().take(i as int), c) == Seq::<UserRowV>::empty(),
            c == UserQueryBuilderCondition::ByEmployeeId(employee_id),
        decreases rows.len() - i,
    {
        let row = &rows[i];
        proof {
            lemma_matching_users_step(user_table(), c, i as int);
            assert(row@ == user_table()[i as int]);
        }
        let row_matches: bool = match row.employee_id {
            Some(x) => x == employee_id,
            None => false,
        };
        if row_matches {
            let u = User {
                id: row.id,
                name: row.name.clone(),
                email: row.email.clone(),
                employee_id: row.employee_id,
                query_results: Some(
                    UserQueryResults { employee: None, user_preferences: None },
                ),
                _relations: PhantomData,
            };
            proof {
                lemma_matching_users_prefix(user_table(), c, i as int + 1);
                assert(matching_users(user_table(), c)[0] == user_table()[i as int]);
                assert(user_row_of(u) == user_table()[i as int]);
            }
            return Some(u);
        }
        i += 1;
    }
    proof {
        assert(user_table().take(rows@.len() as int) =~= user_table());
    }
    None
}

impl<E: UserRelations, P> UserQueryBuilder<E, P> {
    /// Run the query: the users matching the condition, in source order,
    /// each with exactly the requested relations resolved.  A user whose
    /// `employee_id` is absent gets an empty employee slot.
    pub fn execute(&self) -> (r: Vec<User<E, P>>)
        ensures
            r@.len() == run_user_query(self@.condition, self@.caps).len(),
            forall|k: int|
                0 <= k < r@.len() ==> #[trigger] r@[k]@ == run_user_query(
                    self@.condition,
                    self@.caps,
                )[k],
    {
        let rows = user_rows();
        let mut out: Vec<User<E, P>> = Vec::new();
        let mut i: usize = 0;
        while i < rows.len()
            invariant
                i <= rows.len(),
                rows@.map_values(|x: UserRow| x@) == user_table(),
                out@.len() == matching_users(user_table().take(i as int), self@.condition).len(),
                forall|k: int|
                    0 <= k < out@.len() ==> #[trigger] out@[k]@ == resolve_user(
                        matching_users(user_table().take(i as int), self@.condition)[k],
                        self@.caps,
                    ),
            decreases rows.len() - i,
        {
            let row = &rows[i];
            proof {
                lemma_matching_users_step(user_table(), self@.condition, i as int);
                assert(row@ == user_table()[i as int]);
            }
            let row_matches: bool = match &self.condition {
                UserQueryBuilderCondition::ById(id) => row.id == *id,
                UserQueryBuilderCondition::ByEmployeeId(eid) => match row.employee_id {
                    Some(x) => x == *eid,
                    None => false,
                },
            };
            if row_matches {
                let employee = match row.employee_id {
                    Some(eid) => match &self.employee_configuration {
                        Some(cfg) => {
                            let sub = cfg.for_row(eid);
                            sub.execute_one()
                        },
                        None => None,
                    },
                    None => None,
                };
                let user_preferences: Option<UserPreference> = if self.want_preferences {
                    find_preference(row.id)
                } else {
                    None
                };
                let u = User {
                    id: row.id,
                    name: row.name.clone(),
                    email: row.email.clone(),
                    employee_id: row.employee_id,
                    query_results: Some(
                        UserQueryResults { employee: employee, user_preferences: user_preferences },
                    ),
                    _relations: PhantomData,
                };
                proof {
                    assert(u@ == resolve_user(row@, self@.caps));
                }
                out.push(u);
            }
            i += 1;
        }
        proof {
            assert(user_table().take(rows@.len() as int) =~= user_table());
        }
        out
    }

    /// Run the query and keep only the first result, if any.
    pub fn execute_one(&self) -> (r: Option<User<E, P>>)
        ensures
            (match r {
                Some(u) => first_user_result(self@.condition, self@.caps) == Some(u@),
                None => first_user_result(self@.condition, self@.caps) is None,
            }),
    {
        let mut results = self.execute();
        if results.len() > 0 {
            let u = results.remove(0);
            Some(u)
        } else {
            None
        }
    }
}

} // verus!
