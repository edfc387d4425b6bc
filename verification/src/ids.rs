//! Identifiers for tasks and events.

use vstd::prelude::*;

verus! {

/// A fresh identifier from `uuid::Uuid::now_v7`, written out with the
/// `Uuid`'s `to_string`. Nothing is claimed of the text: it depends on the
/// clock and on random bits. The call does not return where the system clock
/// stands before 1970; a caller that has to go on there hands in an id of
/// its own, as `TaskRepository::insert` and `LifeEvent::with_id` allow.
#[verifier::external_body]
pub(crate) fn fresh_id() -> String {
    uuid::Uuid::now_v7().to_string()
}

} // verus!
