//! The bridge between a map that renders on demand into a GPU texture and the frame
//! loop of an immediate-mode UI: a dirty flag that coalesces redraw requests, the
//! policy that sizes the render target and picks its filter, the per-frame decisions,
//! the translation of pointer buttons, the two-way binding of view values, and the
//! layout of the attribution overlay.

use vstd::prelude::*;

pub mod binding;
pub mod input;
pub mod messenger;
pub mod overlay;
pub mod redraw;
pub mod surface;

verus! {

} // verus!
