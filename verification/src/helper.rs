//! Window discovery and small helpers.
//!
//! Discovery is a single point-in-time query: the host's live window list is
//! probed for two known (class name, window title) pairs belonging to known
//! GPU-vendor overlay hosts. The caller performs the two queries and hands
//! the outcomes in as a [`WindowProbe`]; the selection decision is verified
//! here.

use vstd::prelude::*;
use crate::errors::OverlayError;
use rand::Rng;

verus! {

/// Outcome of the two point-in-time window queries, in preference order:
/// first the NVIDIA pair, then the AMD pair. `Some(h)` holds the system
/// handle of a matching live window; `None` means no match existed.
pub struct WindowProbe {
    pub first: Option<u64>,
    pub second: Option<u64>,
}

/// Class name of the first known host overlay window.
pub fn nvidia_class_name() -> (s: &'static str)
    ensures
        s@ == "CEF-OSC-WIDGET"@,
{
    "CEF-OSC-WIDGET"
}

/// Title of the first known host overlay window.
pub fn nvidia_window_name() -> (s: &'static str)
    ensures
        s@ == "NVIDIA GeForce Overlay"@,
{
    "NVIDIA GeForce Overlay"
}

/// Class name of the second known host overlay window.
pub fn amd_class_name() -> (s: &'static str)
    ensures
        s@ == "AMDDVROVERLAYWINDOWCLASS"@,
{
    "AMDDVROVERLAYWINDOWCLASS"
}

/// Title of the second known host overlay window.
pub fn amd_window_name() -> (s: &'static str)
    ensures
        s@ == "amd dvr overlay"@,
{
    "amd dvr overlay"
}

/// The window the overlay attaches to, given the probe: the first pair is
/// preferred if both matched, and discovery fails only when neither did.
pub open spec fn located_window(probe: WindowProbe) -> Result<u64, OverlayError> {
    match probe.first {
        Some(h) => Ok(h),
        None => match probe.second {
            Some(h) => Ok(h),
            None => Err(OverlayError::WindowNotFound),
        },
    }
}

/// Picks the target window from the two query outcomes: the first available
/// handle wins, preferring the first pair; with no match the discovery fails
/// with `WindowNotFound`.
pub fn find_target_window(probe: &WindowProbe) -> (r: Result<u64, OverlayError>)
    ensures
        r == located_window(*probe),
{
    match probe.first {
        Some(h) => Ok(h),
        None => match probe.second {
            Some(h) => Ok(h),
            None => Err(OverlayError::WindowNotFound),
        },
    }
}

/// Relies on rand::Rng::random_range over `min..max`: the sample lies in
/// the half-open range. The half-open range must be non-empty, else the
/// call panics.
#[verifier::external_body]
pub fn generate_random_number(min: i64, max: i64) -> (r: i64)
    requires
        min < max,
    ensures
        min <= r < max,
{
    let mut rng = rand::rng();
    rng.random_range(min..max)
}

} // verus!
