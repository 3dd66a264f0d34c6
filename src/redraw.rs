use vstd::prelude::*;

use std::sync::atomic::{AtomicBool, Ordering};
use std::sync::Arc;

verus! {

/// What a redraw request does to the dirty flag: the flag is set, and a host repaint
/// is asked for only when the flag was clear before.
pub open spec fn request_effect(dirty: bool) -> (bool, bool) {
    (true, !dirty)
}

/// What the frame thread's read-and-clear does: the flag is cleared, and a draw happens
/// exactly when it was set.
pub open spec fn take_effect(dirty: bool) -> (bool, bool) {
    (false, dirty)
}

/// The flag after `n` redraw requests in a row, starting from `dirty`.
pub open spec fn dirty_after_requests(dirty: bool, n: nat) -> bool
    decreases n,
{
    if n == 0 {
        dirty
    } else {
        dirty_after_requests(request_effect(dirty).0, (n - 1) as nat)
    }
}

/// How many host repaints `n` redraw requests in a row ask for, starting from `dirty`.
pub open spec fn repaints_for_requests(dirty: bool, n: nat) -> nat
    decreases n,
{
    if n == 0 {
        0
    } else {
        (if request_effect(dirty).1 {
            1nat
        } else {
            0nat
        }) + repaints_for_requests(request_effect(dirty).0, (n - 1) as nat)
    }
}

/// The flag and the repaint decision after one redraw request, given the flag before it.
pub fn on_request(dirty: bool) -> (r: (bool, bool))
    ensures
        r == request_effect(dirty),
{
    (true, !dirty)
}

/// The flag and the draw decision after one read-and-clear, given the flag before it.
pub fn on_take(dirty: bool) -> (r: (bool, bool))
    ensures
        r == take_effect(dirty),
{
    (false, dirty)
}

/// A burst of one or more redraw requests with no read-and-clear between them asks the
/// host for a repaint once if the flag was clear at the start, and not at all if it was
/// already set; the flag is then set, the next read-and-clear reports a draw, and the
/// one after it reports none.
pub proof fn lemma_redraw_coalescing(dirty: bool, n: nat)
    requires
        n >= 1,
    ensures
        repaints_for_requests(dirty, n) == (if dirty {
            0nat
        } else {
            1nat
        }),
        dirty_after_requests(dirty, n),
        take_effect(dirty_after_requests(dirty, n)).1,
        !take_effect(take_effect(dirty_after_requests(dirty, n)).0).1,
    decreases n,
{
    if n > 1 {
        lemma_redraw_coalescing(true, (n - 1) as nat);
    } else {
        assert(repaints_for_requests(true, 0) == 0);
        assert(dirty_after_requests(true, 0));
    }
    assert(dirty_after_requests(dirty, n) == dirty_after_requests(true, (n - 1) as nat));
}

/// The dirty flag shared between the frame thread and any thread that observes a change
/// of the map. Clones share one flag.
#[derive(Clone, Debug)]
pub struct RedrawFlag {
    dirty: Arc<AtomicBool>,
}

impl RedrawFlag {
    /// A new flag, set, so that the first frame that may draw does.
    pub fn new() -> (r: RedrawFlag) {
        RedrawFlag { dirty: Arc::new(AtomicBool::new(true)) }
    }

    /// Sets the flag. Returns whether the host must be asked for a repaint: only when
    /// this call found the flag clear. What another thread did meanwhile is unknown
    /// here, so the flag's earlier value is not stated; `on_request` gives the decision
    /// for each value of it.
    pub fn request_redraw(&self) -> (repaint: bool) {
        let previous = self.dirty.swap(true, Ordering::AcqRel);
        let (_, repaint) = on_request(previous);
        repaint
    }

    /// Reads and clears the flag in one step. Returns whether a draw is owed; `on_take`
    /// gives the decision for each value that the flag held.
    pub fn take_and_clear(&self) -> (draw: bool) {
        let previous = self.dirty.swap(false, Ordering::AcqRel);
        let (_, draw) = on_take(previous);
        draw
    }
}

} // verus!
