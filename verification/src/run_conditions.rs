use vstd::prelude::*;

use crate::app::WorldSwapStatus;

verus! {

/// Returns `true` if `status` equals [`WorldSwapStatus::Suspended`].
pub fn suspended(status: WorldSwapStatus) -> (r: bool)
    ensures
        r == (status is Suspended),
{
    status == WorldSwapStatus::Suspended
}

/// Returns `true` if `status` equals [`WorldSwapStatus::Background`].
pub fn in_background(status: WorldSwapStatus) -> (r: bool)
    ensures
        r == (status is Background),
{
    status == WorldSwapStatus::Background
}

/// Returns `true` if `status` equals [`WorldSwapStatus::Foreground`].
pub fn in_foreground(status: WorldSwapStatus) -> (r: bool)
    ensures
        r == (status is Foreground),
{
    status == WorldSwapStatus::Foreground
}

/// Returns `true` exactly when the status just became
/// [`WorldSwapStatus::Background`] relative to the previously observed
/// status `prev`, and records the current status in `prev`.
pub fn entered_background(prev: &mut Option<WorldSwapStatus>, status: WorldSwapStatus) -> (r: bool)
    ensures
        *final(prev) == Some(status),
        r == (status is Background && *old(prev) != Some(status)),
{
    let last = *prev;
    *prev = Some(status);

    if status != WorldSwapStatus::Background {
        return false;
    }
    if last == Some(status) {
        return false;
    }
    true
}

/// Returns `true` exactly when the status just became
/// [`WorldSwapStatus::Foreground`] relative to the previously observed
/// status `prev`, and records the current status in `prev`.
pub fn entered_foreground(prev: &mut Option<WorldSwapStatus>, status: WorldSwapStatus) -> (r: bool)
    ensures
        *final(prev) == Some(status),
        r == (status is Foreground && *old(prev) != Some(status)),
{
    let last = *prev;
    *prev = Some(status);

    if status != WorldSwapStatus::Foreground {
        return false;
    }
    if last == Some(status) {
        return false;
    }
    true
}

} // verus!
