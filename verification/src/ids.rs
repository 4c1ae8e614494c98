//! Generation of fresh task ids.

use vstd::prelude::*;

verus! {

/// Relies on uuid::Uuid::new_v4 and its Display impl: a random
/// version-4 UUID rendered in the hyphenated lower-case form, which is
/// always 36 characters long. The value is random, so nothing more can
/// be said of it; in particular two calls may in principle collide, and
/// the store checks freshness itself before accepting an id. Note that
/// new_v4 panics if the operating system's entropy source fails — an
/// environmental failure, like allocation failure, that no caller can
/// rule out by its arguments.
#[verifier::external_body]
pub(crate) fn fresh_id() -> (r: String)
    ensures
        r@.len() == 36,
{
    uuid::Uuid::new_v4().to_string()
}

} // verus!
