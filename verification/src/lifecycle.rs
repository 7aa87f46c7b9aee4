//! Reusable timing primitive for timeline-driven effects.
//!
//! A `LifeCycle` holds a start offset, the end of the active window, and a
//! total duration, all in integer milliseconds. From an elapsed reading it
//! derives the position inside the (possibly looping) timeline, an
//! active/inactive flag, and — only while active — a progress fraction in
//! parts per million. Every animation gates on the flag first and evaluates
//! the fraction only while active, so a degenerate window (empty or
//! inverted) is uniformly normalized to "never active" and can never cause
//! an arithmetic fault.

use vstd::arithmetic::div_mod::lemma_div_is_ordered;
use vstd::prelude::*;

verus! {

/// One part-per-million: the denominator of every progress fraction.
pub const PPM: u64 = 1_000_000;

/// Start offset, active-window end, and total (looping) duration of a
/// timeline, in milliseconds.
#[derive(Clone, Copy, Debug, PartialEq, Eq, Structural)]
pub struct LifeCycle {
    /// Timeline position at which the effect becomes active.
    pub from_ms: u64,
    /// Timeline position at which the effect stops being active.
    pub until_ms: u64,
    /// Total timeline length; the timeline loops every `lifetime_ms`,
    /// and `0` means it never loops.
    pub lifetime_ms: u64,
}

impl LifeCycle {
    /// Intended shape of a timeline. Not enforced by construction: a
    /// degenerate value still evaluates safely, it is just never active.
    pub open spec fn wf(&self) -> bool {
        self.from_ms <= self.until_ms <= self.lifetime_ms
    }

    /// Timeline position for an elapsed reading: wraps every `lifetime_ms`,
    /// or never wraps when the lifetime is zero.
    pub open spec fn spec_current(&self, elapsed_ms: u64) -> u64 {
        if self.lifetime_ms == 0 {
            elapsed_ms
        } else {
            (elapsed_ms % self.lifetime_ms) as u64
        }
    }

    /// Whether the timeline position lies in the half-open active window.
    /// An empty (`until == from`) or inverted window admits no position.
    pub open spec fn spec_active(&self, current_ms: u64) -> bool {
        self.from_ms <= current_ms < self.until_ms
    }

    /// Progress through the active window in parts per million, meaningful
    /// only for positions inside the window.
    pub open spec fn spec_progress_ppm(&self, current_ms: u64) -> int {
        (current_ms - self.from_ms) * (PPM as int) / (self.until_ms - self.from_ms)
    }

    /// Timeline position for an elapsed reading. A zero lifetime never
    /// wraps and performs no division at all, so the position is the raw
    /// elapsed value; integers throughout rule out any non-finite result.
    pub fn current_ms(&self, elapsed_ms: u64) -> (r: u64)
        ensures
            r == self.spec_current(elapsed_ms),
            self.lifetime_ms == 0 ==> r == elapsed_ms,
            self.lifetime_ms > 0 ==> r < self.lifetime_ms,
    {
        if self.lifetime_ms == 0 {
            elapsed_ms
        } else {
            elapsed_ms % self.lifetime_ms
        }
    }

    /// Whether the effect is active at a timeline position.
    pub fn is_active(&self, current_ms: u64) -> (r: bool)
        ensures
            r == self.spec_active(current_ms),
    {
        self.from_ms <= current_ms && current_ms < self.until_ms
    }

    /// Progress through the active window, in parts per million. Callers
    /// gate on `is_active` first, so the window is non-empty here and the
    /// fraction needs no clamping: it is always below one.
    pub fn progress_ppm(&self, current_ms: u64) -> (r: u64)
        requires
            self.spec_active(current_ms),
        ensures
            r == self.spec_progress_ppm(current_ms),
            r < PPM,
    {
        let a: u128 = (current_ms - self.from_ms) as u128;
        proof {
            assert(a * (PPM as u128) <= 0xffff_ffff_ffff_ffffu128 * 1_000_000) by (nonlinear_arith)
                requires
                    0 <= a <= 0xffff_ffff_ffff_ffffu128,
            ;
        }
        let num: u128 = a * PPM as u128;
        let den: u128 = (self.until_ms - self.from_ms) as u128;
        let q: u128 = num / den;
        proof {
            let ci = current_ms - self.from_ms;
            let numi = ci * (PPM as int);
            let deni = self.until_ms - self.from_ms;
            assert(ci * (PPM as int) <= (deni - 1) * (PPM as int)) by (nonlinear_arith)
                requires
                    0 <= ci <= deni - 1,
            ;
            lemma_div_is_ordered(numi, (deni - 1) * (PPM as int), deni);
            assert((deni - 1) * (PPM as int) / deni < PPM as int) by (nonlinear_arith)
                requires
                    deni >= 1,
            ;
        }
        q as u64
    }
}

/// Progress is monotonically non-decreasing across the active window: for
/// two positions inside the window, the earlier one never reports the
/// larger fraction. Outside the window the effect is inactive, so no
/// fraction is ever evaluated there.
pub proof fn lemma_progress_monotonic(lc: LifeCycle, c1: u64, c2: u64)
    requires
        lc.wf(),
        lc.lifetime_ms > 0,
        lc.spec_active(c1),
        lc.spec_active(c2),
        c1 <= c2,
    ensures
        lc.spec_progress_ppm(c1) <= lc.spec_progress_ppm(c2),
{
    lemma_div_is_ordered(
        (c1 - lc.from_ms) * (PPM as int),
        (c2 - lc.from_ms) * (PPM as int),
        lc.until_ms - lc.from_ms,
    );
}

/// A position outside the half-open window is never active, whatever the
/// timeline's other values: in particular an empty window (`until == from`)
/// and an inverted one admit no active position at all.
pub proof fn lemma_inactive_outside_window(lc: LifeCycle, c: u64)
    requires
        c < lc.from_ms || c >= lc.until_ms,
    ensures
        !lc.spec_active(c),
{
}

/// With a zero lifetime the timeline never wraps: evaluation returns the
/// raw elapsed reading and performs no division, for every possible input.
pub proof fn lemma_zero_lifetime_never_wraps(lc: LifeCycle, elapsed_ms: u64)
    requires
        lc.lifetime_ms == 0,
    ensures
        lc.spec_current(elapsed_ms) == elapsed_ms,
{
}

} // verus!
