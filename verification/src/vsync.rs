//! Swap-interval (vsync) capability of a rendering context.
//!
//! The capability is optional: it exists only if the context's extension
//! string advertises the adjustable-swap-control marker and both driver
//! entry points (set interval, read interval) resolve. The invariant of
//! [`VsyncState`] is that either both entry points are populated or
//! neither is, so "supported" is equivalent to "both present".
//!
//! The caller resolves the entry points and calls the driver; it hands the
//! outcomes in as [`VsyncProbe`] and [`SwapIntervalIo`] values. Everything
//! decided on those outcomes — the marker search, the probe decision, the
//! set-then-verify protocol — is verified here.

use vstd::prelude::*;
use crate::errors::OverlayError;

verus! {

/// `pat` occurs in `text` starting at position `i`.
pub open spec fn matches_at(text: Seq<char>, pat: Seq<char>, i: int) -> bool {
    &&& 0 <= i
    &&& i + pat.len() <= text.len()
    &&& text.subrange(i, i + pat.len() as int) == pat
}

/// `pat` occurs somewhere in `text`.
pub open spec fn contains_pattern(text: Seq<char>, pat: Seq<char>) -> bool {
    exists|i: int| matches_at(text, pat, i)
}

/// Whether `pat` occurs in `text` starting exactly at position `i`.
fn matches_prefix_at(text: &str, pat: &str, i: usize, n: usize, m: usize) -> (r: bool)
    requires
        n == text@.len(),
        m == pat@.len(),
        i + m <= n,
    ensures
        r == matches_at(text@, pat@, i as int),
{
    let mut j: usize = 0;
    while j < m
        invariant
            n == text@.len(),
            m == pat@.len(),
            i + m <= n,
            j <= m,
            forall|k: int| 0 <= k < j ==> text@[i + k] == pat@[k],
        decreases m - j,
    {
        if text.get_char(i + j) != pat.get_char(j) {
            assert(!matches_at(text@, pat@, i as int)) by {
                if text@.subrange(i as int, i + pat@.len() as int) == pat@ {
                    assert(text@.subrange(i as int, i + pat@.len() as int)[j as int] == text@[i + j]);
                }
            }
            return false;
        }
        j += 1;
    }
    assert(text@.subrange(i as int, i + pat@.len() as int) =~= pat@);
    true
}

/// Substring search: whether `pat` occurs anywhere in `text`.
pub fn str_contains(text: &str, pat: &str) -> (r: bool)
    ensures
        r == contains_pattern(text@, pat@),
{
    let n = text.unicode_len();
    let m = pat.unicode_len();
    if m == 0 {
        assert(text@.subrange(0, 0) =~= pat@);
        assert(matches_at(text@, pat@, 0));
        return true;
    }
    if m > n {
        assert forall|k: int| !matches_at(text@, pat@, k) by {
            if matches_at(text@, pat@, k) {
                assert(k + pat@.len() <= text@.len());
            }
        }
        return false;
    }
    let limit = n - m;
    let mut i: usize = 0;
    while i <= limit
        invariant
            n == text@.len(),
            m == pat@.len(),
            0 < m <= n,
            limit == n - m,
            i <= limit + 1,
            forall|k: int| 0 <= k < i ==> !matches_at(text@, pat@, k),
        decreases limit + 1 - i,
    {
        if matches_prefix_at(text, pat, i, n, m) {
            assert(matches_at(text@, pat@, i as int));
            return true;
        }
        i += 1;
    }
    assert forall|k: int| !matches_at(text@, pat@, k) by {
        if matches_at(text@, pat@, k) {
            assert(0 <= k && k + pat@.len() <= text@.len());
        }
    }
    false
}

/// The extension-string marker that advertises adjustable swap control.
pub fn swap_control_marker() -> (s: &'static str)
    ensures
        s@ == "WGL_EXT_swap_control"@,
{
    "WGL_EXT_swap_control"
}

/// What the capability probe reported: the context's extension string (absent
/// if the extension-string entry point was unavailable or its answer
/// unreadable) and the two resolved driver entry points, each an opaque
/// nonzero address when resolution succeeded.
pub struct VsyncProbe {
    pub extensions: Option<String>,
    pub set_entry: Option<u64>,
    pub get_entry: Option<u64>,
}

/// The probed extension string advertises adjustable swap control.
pub open spec fn extension_advertises_vsync(extensions: Option<String>) -> bool {
    match extensions {
        Some(e) => contains_pattern(e@, "WGL_EXT_swap_control"@),
        None => false,
    }
}

/// Decides from the probed extension string whether the adjustable-vsync
/// extension is present.
pub fn wgl_extension_supported(extensions: &Option<String>) -> (r: bool)
    ensures
        r == extension_advertises_vsync(*extensions),
{
    match extensions {
        Some(e) => str_contains(e.as_str(), swap_control_marker()),
        None => false,
    }
}

/// What the driver answered during one set-then-verify exchange: whether the
/// set call was accepted, and the interval a read-back reported afterwards.
pub struct SwapIntervalIo {
    pub set_accepted: bool,
    pub readback_interval: i32,
}

/// Optional adjustable-vsync capability: the two driver entry points, both
/// present (supported) or both absent.
#[derive(Clone, Copy)]
pub struct VsyncState {
    pub swap_interval: Option<u64>,
    pub get_swap_interval: Option<u64>,
}

impl VsyncState {
    /// Invariant: both entry points are populated or neither is.
    pub open spec fn wf(self) -> bool {
        self.swap_interval is Some <==> self.get_swap_interval is Some
    }

    /// The capability is available: both entry points are populated.
    pub open spec fn supported_spec(self) -> bool {
        self.swap_interval is Some && self.get_swap_interval is Some
    }

    /// A fresh capability object, with no entry point resolved yet.
    pub fn new() -> (s: Self)
        ensures
            !s.supported_spec(),
            s.wf(),
            s == (VsyncState { swap_interval: None, get_swap_interval: None }),
    {
        VsyncState { swap_interval: None, get_swap_interval: None }
    }

    /// The state after a probe: populated from the probe exactly when the
    /// marker was advertised and both entry points resolved, else unchanged.
    pub open spec fn state_after_init(self, probe: VsyncProbe) -> VsyncState {
        if extension_advertises_vsync(probe.extensions) && probe.set_entry is Some
            && probe.get_entry is Some {
            VsyncState { swap_interval: probe.set_entry, get_swap_interval: probe.get_entry }
        } else {
            self
        }
    }

    /// What a probe reports: absence of the marker, failed entry-point
    /// resolution despite the marker, or success.
    pub open spec fn init_outcome(self, probe: VsyncProbe) -> Result<(), OverlayError> {
        if !extension_advertises_vsync(probe.extensions) {
            Err(OverlayError::VsyncControlNotSupported)
        } else if !(probe.set_entry is Some) || !(probe.get_entry is Some) {
            Err(OverlayError::FailedToGetVsyncFunctionPointers)
        } else {
            Ok(())
        }
    }

    /// Adopts the probe's findings. Fails with `VsyncControlNotSupported`
    /// when the extension string lacks the marker, and with
    /// `FailedToGetVsyncFunctionPointers` when the marker was present but an
    /// entry point did not resolve; on any failure the capability is left
    /// unchanged, and on success both entry points are populated.
    pub fn init(&mut self, probe: &VsyncProbe) -> (r: Result<(), OverlayError>)
        requires
            old(self).wf(),
        ensures
            r == old(self).init_outcome(*probe),
            *final(self) == old(self).state_after_init(*probe),
            final(self).wf(),
            r is Ok ==> final(self).supported_spec(),
    {
        if !wgl_extension_supported(&probe.extensions) {
            return Err(OverlayError::VsyncControlNotSupported);
        }
        match (probe.set_entry, probe.get_entry) {
            (Some(set_entry), Some(get_entry)) => {
                self.swap_interval = Some(set_entry);
                self.get_swap_interval = Some(get_entry);
                Ok(())
            },
            _ => Err(OverlayError::FailedToGetVsyncFunctionPointers),
        }
    }

    /// What one set-then-verify exchange decides: unsupported capability is
    /// refused before the driver is consulted; a rejected set call fails; a
    /// read-back that disagrees with the requested state fails verification.
    pub open spec fn set_outcome(self, is_enabled: bool, io: SwapIntervalIo) -> Result<
        (),
        OverlayError,
    > {
        if !self.supported_spec() {
            Err(OverlayError::VsyncControlNotSupported)
        } else if !io.set_accepted {
            Err(OverlayError::FailedToSetVsyncState)
        } else if (io.readback_interval == 1) != is_enabled {
            Err(OverlayError::FailedToVerifyVsyncState)
        } else {
            Ok(())
        }
    }

    /// Requests the given vsync state and verifies it against the read-back
    /// interval, per [`Self::set_outcome`].
    pub fn set_enabled(&self, is_enabled: bool, io: &SwapIntervalIo) -> (r: Result<
        (),
        OverlayError,
    >)
        requires
            self.wf(),
        ensures
            r == self.set_outcome(is_enabled, *io),
    {
        match self.swap_interval {
            None => Err(OverlayError::VsyncControlNotSupported),
            Some(_) => {
                if !io.set_accepted {
                    Err(OverlayError::FailedToSetVsyncState)
                } else if (io.readback_interval == 1) != is_enabled {
                    Err(OverlayError::FailedToVerifyVsyncState)
                } else {
                    Ok(())
                }
            },
        }
    }

    /// How a read-back interval is interpreted: enabled exactly when the
    /// interval is 1; absent when the capability is unsupported.
    pub open spec fn current_state(self, readback: i32) -> Option<bool> {
        if self.get_swap_interval is Some {
            Some(readback == 1)
        } else {
            None
        }
    }

    /// Interprets the driver's read-back interval, per
    /// [`Self::current_state`].
    pub fn get_current_state(&self, readback: i32) -> (r: Option<bool>)
        ensures
            r == self.current_state(readback),
    {
        match self.get_swap_interval {
            Some(_) => Some(readback == 1),
            None => None,
        }
    }

    /// Whether both entry points are populated.
    pub fn is_supported(&self) -> (r: bool)
        ensures
            r == self.supported_spec(),
    {
        self.swap_interval.is_some() && self.get_swap_interval.is_some()
    }
}

/// Law: when a set-then-verify exchange succeeds, interpreting the same
/// driver interval that the exchange read back reports exactly the requested
/// state.
pub proof fn lemma_set_then_get_agrees(v: VsyncState, is_enabled: bool, io: SwapIntervalIo)
    requires
        v.wf(),
        v.set_outcome(is_enabled, io) is Ok,
    ensures
        v.current_state(io.readback_interval) == Some(is_enabled),
{
}

/// Law: with the capability unsupported, a set request fails with
/// `VsyncControlNotSupported` whatever the driver would have answered — the
/// decision does not depend on the driver exchange at all.
pub proof fn lemma_set_unsupported_never_consults_driver(v: VsyncState, is_enabled: bool)
    requires
        v.wf(),
        !v.supported_spec(),
    ensures
        forall|io: SwapIntervalIo|
            v.set_outcome(is_enabled, io) == Err::<(), OverlayError>(
                OverlayError::VsyncControlNotSupported,
            ),
{
}

/// Law: two successful set-then-verify exchanges, enabling then disabling,
/// transition the interpreted state from enabled to disabled.
pub proof fn lemma_vsync_toggle(v: VsyncState, io_on: SwapIntervalIo, io_off: SwapIntervalIo)
    requires
        v.wf(),
        v.set_outcome(true, io_on) is Ok,
        v.set_outcome(false, io_off) is Ok,
    ensures
        v.current_state(io_on.readback_interval) == Some(true),
        v.current_state(io_off.readback_interval) == Some(false),
{
}

} // verus!
