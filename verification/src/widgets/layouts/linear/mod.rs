//! Linear layouts: arrange widgets in a Row or a Column.

use vstd::prelude::*;

use crate::widgets::Widget;
use crate::rendering::{Canvas, WidgetRenderer};

pub mod column;
pub mod layout;
pub mod private;
pub mod row;


verus! {

/// No space between the cells.
#[derive(Copy, Clone)]
pub struct NoSpacing;

/// A fixed space between neighbouring cells.
#[derive(Copy, Clone)]
pub struct WithSpacing(pub u32);

/// The space between neighbouring cells.
pub trait ElementSpacing: Copy {
    spec fn spec_spacing(&self) -> u32;

    fn spacing(&self) -> (r: u32)
        ensures
            r == self.spec_spacing(),
    ;
}

impl ElementSpacing for NoSpacing {
    open spec fn spec_spacing(&self) -> u32 {
        0
    }

    fn spacing(&self) -> (r: u32) {
        0
    }
}

impl ElementSpacing for WithSpacing {
    open spec fn spec_spacing(&self) -> u32 {
        self.0
    }

    fn spacing(&self) -> (r: u32) {
        self.0
    }
}

/// The weight of a cell.
pub trait CellWeight {
    spec fn spec_weight(&self) -> u32;

    fn weight(&self) -> (r: u32)
        ensures
            r == self.spec_weight(),
    ;
}

/// A cell without weight: it takes the space its widget asks for.
#[derive(Copy, Clone)]
pub struct NoWeight;

impl CellWeight for NoWeight {
    open spec fn spec_weight(&self) -> u32 {
        0
    }

    fn weight(&self) -> (r: u32) {
        0
    }
}

/// A cell with weight: it gets a share of the space left over by the cells without.
#[derive(Copy, Clone)]
pub struct Weight(pub u32);

impl Weight {
    pub fn new(w: u32) -> (r: Weight)
        ensures
            r.0 == w,
    {
        Weight(w)
    }
}

impl CellWeight for Weight {
    open spec fn spec_weight(&self) -> u32 {
        self.0
    }

    fn weight(&self) -> (r: u32) {
        self.0
    }
}

/// A single cell in a linear layout.
///
/// Cells wrap widgets and provide a method to specify cell weight.
pub struct Cell<W, CW = NoWeight> {
    pub weight: CW,
    pub inner: W,
}

impl<W: Widget> Cell<W, NoWeight> {
    /// A cell without weight around `inner`.
    pub fn new(inner: W) -> (r: Cell<W, NoWeight>)
        ensures
            r.inner == inner,
    {
        Cell { inner, weight: NoWeight }
    }

    /// Sets the weight of the cell.
    ///
    /// Weight specifies the relative size of the cell in the second phase of the layout
    /// process. See [`LinearLayout`] for more information.
    pub fn weight(self, weight: u32) -> (r: Cell<W, Weight>)
        ensures
            r.inner == self.inner,
            r.weight.0 == weight,
    {
        Cell { inner: self.inner, weight: Weight::new(weight) }
    }
}

impl<C, W, CW> WidgetRenderer<C> for Cell<W, CW> where W: Widget + WidgetRenderer<C>, C: Canvas, CW: CellWeight {
    open spec fn spec_draws(&self, canvas: C, after: Self, canvas_after: C, r: Result<(), C::Error>) -> bool {
        self.inner.spec_draws(canvas, after.inner, canvas_after, r) && after == (Cell { inner: after.inner, ..*self })
    }

    /// Draws the cell's widget.
    fn draw(&mut self, canvas: &mut C) -> (r: Result<(), C::Error>)
        ensures
            final(self).weight == old(self).weight,
    {
        self.inner.draw(canvas)
    }
}

} // verus!

pub use column::Column;
pub use layout::LinearLayout;
pub use row::Row;
