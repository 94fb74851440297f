//! Drawing widgets on a display.
//!
//! A drawing backend provides the canvas and draws the leaf widgets; the containers and
//! decorators of this crate draw their content in order.

use vstd::prelude::*;

verus! {

/// Something widgets are drawn on: implemented by the drawing backends.
pub trait Canvas {
    /// What goes wrong when drawing fails.
    type Error;
}

/// A widget that can draw itself on a canvas of type `C`.
pub trait WidgetRenderer<C: Canvas>: Sized {
    /// Whether drawing may turn the widget into `after` and the canvas `canvas` into
    /// `canvas_after`, with the result `r`.
    spec fn spec_draws(&self, canvas: C, after: Self, canvas_after: C, r: Result<(), C::Error>) -> bool;

    /// Draws the widget. The first failure stops the drawing and is returned.
    fn draw(&mut self, canvas: &mut C) -> (r: Result<(), C::Error>)
        ensures
            old(self).spec_draws(*old(canvas), *final(self), *final(canvas), r),
    ;
}

} // verus!
