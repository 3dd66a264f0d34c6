use vstd::prelude::*;

use crate::redraw::RedrawFlag;

verus! {

#[verifier::external_type_specification]
#[verifier::external_body]
pub struct ExContext(egui::Context);

/// Relies on egui::Context::request_repaint: it asks the host for another frame and may
/// be called from any thread.
pub assume_specification[ egui::Context::request_repaint ](ctx: &egui::Context);

/// Relies on the `Clone` that egui derives for `Context`: a second handle to the same
/// shared context.
pub assume_specification[ <egui::Context as Clone>::clone ](ctx: &egui::Context) -> egui::Context;

/// The capability the map and its layers use to say that something changed and the map
/// should be drawn again. Clones share one dirty flag and one host context.
#[derive(Clone)]
pub struct MapStateMessenger {
    pub requires_redraw: RedrawFlag,
    pub context: egui::Context,
}

impl MapStateMessenger {
    /// Marks the map dirty, and asks the host for a repaint only when this call found
    /// the flag clear, so that a burst of notifications costs one repaint.
    pub fn request_redraw(&self) {
        if self.requires_redraw.request_redraw() {
            self.context.request_repaint();
        }
    }
}

} // verus!
