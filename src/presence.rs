//! The presence rotation: which entry to show next and how long to keep it.

use rand::seq::SliceRandom;
use rand::Rng;
use vstd::prelude::*;

use crate::models::{Status, StatusType};

verus! {

/// The shortest time an entry stays up, in seconds.
pub const MIN_STATUS_SECS: u64 = 300;

/// The longest time an entry stays up, in seconds.
pub const MAX_STATUS_SECS: u64 = 900;

/// A random number between `min` and `max`, both included.
///
/// Relies on rand's `thread_rng().gen_range(min..=max)`: a value of the
/// inclusive range, which must not be empty.
#[verifier::external_body]
pub fn random_int_from_range(min: u64, max: u64) -> (r: u64)
    requires
        min <= max,
    ensures
        min <= r <= max,
{
    rand::thread_rng().gen_range(min..=max)
}

/// Relies on rand's `SliceRandom::choose` with `thread_rng`: `None` on an empty
/// slice, else a reference to one of its items.
#[verifier::external_body]
fn pick_one<T>(items: &[T]) -> (r: Option<&T>)
    ensures
        r is Some == (items@.len() > 0),
        r is Some ==> exists|i: int| 0 <= i < items@.len() && items@[i] == *r->0,
{
    items.choose(&mut rand::thread_rng())
}

/// A copy of a random item, or `None` where there is none.
pub fn random_element_vec<T: Clone>(vec: &[T]) -> (r: Option<T>)
    ensures
        r is Some == (vec@.len() > 0),
        r is Some ==> exists|i: int| 0 <= i < vec@.len() && cloned::<T>(vec@[i], r->0),
{
    pick_one(vec).cloned()
}

/// What the rotation does next.
#[derive(Debug)]
pub enum StatusAction {
    /// Show `text` as an activity of `kind`, then wait `sleep_secs` seconds.
    Apply { kind: StatusType, text: String, sleep_secs: u64 },
    /// Stop for good: there is nothing to show.
    Stop,
}

/// The action for the entry drawn (none where the list is empty) and the
/// time drawn.
pub fn status_step(picked: Option<&Status>, sleep_secs: u64) -> (r: StatusAction)
    ensures
        picked is None ==> r is Stop,
        picked is Some ==> (r matches StatusAction::Apply { kind, text, sleep_secs: s } && kind
            == picked->0.kind && text@ == picked->0.status@ && s == sleep_secs),
{
    match picked {
        Some(status) => StatusAction::Apply {
            kind: status.kind,
            text: status.status.clone(),
            sleep_secs,
        },
        None => StatusAction::Stop,
    }
}

/// Draws the next action of the rotation: one of the entries at random, kept
/// up for a random time between the two bounds; or stop, where the list is
/// empty.
pub fn next_status_action(statuses: &[Status]) -> (r: StatusAction)
    ensures
        r is Stop == (statuses@.len() == 0),
        r matches StatusAction::Apply { kind, text, sleep_secs } ==> {
            &&& MIN_STATUS_SECS <= sleep_secs <= MAX_STATUS_SECS
            &&& exists|i: int|
                0 <= i < statuses@.len() && statuses@[i].kind == kind && statuses@[i].status@
                    == text@
        },
{
    let picked = pick_one(statuses);
    let sleep_secs = random_int_from_range(MIN_STATUS_SECS, MAX_STATUS_SECS);
    status_step(picked, sleep_secs)
}

} // verus!
