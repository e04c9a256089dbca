//! Bringing the database up, as far as there is anything to decide.

use vstd::prelude::*;

verus! {

/// Whether the database is to be created before it is opened, given what the
/// probe for it said. A probe that failed counts as a database that is absent.
pub open spec fn spec_must_create(exists: Option<bool>) -> bool {
    exists != Some(true)
}

/// Whether the database is to be created before it is opened.
pub fn must_create(exists: Option<bool>) -> (create: bool)
    ensures
        create == spec_must_create(exists),
{
    match exists {
        Some(exists) => !exists,
        None => true,
    }
}

} // verus!
