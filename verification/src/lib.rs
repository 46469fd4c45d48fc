//! An in-memory data-access layer with a relation-capability query builder.
//!
//! Each entity type (users, employees, branches, preferences) is queried
//! through a fluent builder that records, before execution, exactly which
//! related entities should be attached to each result row.  The executor
//! resolves precisely the requested relations, and a result row only offers
//! an accessor for a relation when the builder's type says it was requested.

pub mod branches;
pub mod employees;
pub mod laws;
pub mod model;
pub mod user_preferences;
pub mod users;
