//! Frame layout.
//!
//! The Frame layout places widgets on top of each other.

use vstd::prelude::*;

use crate::chain::Chain;
use crate::geometry::BoundingBox;
use crate::widgets::layouts::frame::layout::FrameLayout;

pub mod layout;

verus! {

/// Frame layout.
///
/// This layout contains multiple widgets that are placed at the same area of the display.
/// The layout will take up as much space as the largest widget inside it. Widgets are placed
/// at the top left corner of the layout.
pub struct Frame;

impl Frame {
    /// Creates a new, empty frame layout.
    pub fn new() -> (r: Frame)
        ensures
            r == Frame,
    {
        Frame
    }

    /// Adds a new widget on top of the previous layers.
    pub fn add_layer<W>(self, inner: W) -> (r: FrameLayout<Chain<W>>)
        ensures
            r.widgets.object == inner,
            r.bounds == BoundingBox::spec_empty(),
    {
        FrameLayout { widgets: Chain::new(inner), bounds: BoundingBox::empty() }
    }
}

} // verus!
