//! The preference entity: a leaf record, one-to-one with a user.

use vstd::prelude::*;
use crate::model::PreferenceV;
use crate::model::lookup_preference;
use crate::model::lookup_preference_in;
use crate::model::preference_table;

verus! {

/// A preference record; immutable, with no relations.
#[derive(Debug, Clone, Copy)]
pub struct UserPreference {
    pub user_id: i32,
    pub dark_mode: bool,
    pub notifications: bool,
}

impl View for UserPreference {
    type V = PreferenceV;

    open spec fn view(&self) -> PreferenceV {
        PreferenceV {
            user_id: self.user_id as int,
            dark_mode: self.dark_mode,
            notifications: self.notifications,
        }
    }
}

/// The preference source table, in its fixed order.
pub(crate) fn preference_list() -> (r: Vec<UserPreference>)
    ensures
        r@.map_values(|p: UserPreference| p@) == preference_table(),
{
    let mut r: Vec<UserPreference> = Vec::new();
    r.push(UserPreference { user_id: 1, dark_mode: true, notifications: true });
    r.push(UserPreference { user_id: 2, dark_mode: false, notifications: true });
    r.push(UserPreference { user_id: 3, dark_mode: true, notifications: false });
    proof {
        assert(r@.map_values(|p: UserPreference| p@) =~= preference_table());
    }
    r
}

/// Keyed lookup of the preference record of one user, first match in
/// table order; `None` when the user has none.
pub(crate) fn find_preference(user_id: i32) -> (r: Option<UserPreference>)
    ensures
        (match r {
            Some(p) => lookup_preference(user_id as int) == Some(p@),
            None => lookup_preference(user_id as int) is None,
        }),
{
    let list = preference_list();
    let mut i: usize = 0;
    proof {
        assert(preference_table().skip(0) =~= preference_table());
    }
    while i < list.len()
        invariant
            i <= list.len(),
            list@.map_values(|p: UserPreference| p@) == preference_table(),
            lookup_preference_in(preference_table().skip(i as int), user_id as int)
                == lookup_preference(user_id as int),
        decreases list.len() - i,
    {
        proof {
            assert(preference_table().skip(i as int).first() == preference_table()[i as int]);
            assert(preference_table().skip(i as int).drop_first() =~= preference_table().skip(
                i as int + 1,
            ));
        }
        if list[i].user_id == user_id {
            return Some(list[i]);
        }
        i += 1;
    }
    proof {
        assert(preference_table().skip(i as int) =~= Seq::<PreferenceV>::empty());
    }
    None
}

} // verus!
