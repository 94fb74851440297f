//! A linear layout that places its cells along the horizontal axis.

use vstd::prelude::*;

use crate::chain::Chain;
use crate::geometry::axis_order::Horizontal;
use crate::geometry::BoundingBox;
use crate::widgets::layouts::linear::layout::LinearLayout;
use crate::widgets::layouts::linear::private::LayoutDirection;
use crate::widgets::layouts::linear::{
    Cell, CellWeight, ElementSpacing, NoSpacing, NoWeight, WithSpacing,
};
use crate::widgets::Widget;

verus! {

/// Places cells from left to right.
#[derive(Copy, Clone)]
pub struct Row<ES = NoSpacing>(pub ES);

impl<ES: ElementSpacing> LayoutDirection for Row<ES> {
    type AxisOrder = Horizontal;

    open spec fn spec_element_spacing(&self) -> u32 {
        self.0.spec_spacing()
    }

    fn element_spacing(&self) -> (r: u32) {
        self.0.spacing()
    }
}

impl Row<NoSpacing> {
    /// A row without space between its cells.
    pub fn new() -> (r: Row<NoSpacing>)
        ensures
            r == Row(NoSpacing),
    {
        Row(NoSpacing)
    }

    /// A row with `spacing` pixels between neighbouring cells.
    pub fn spacing(self, spacing: u32) -> (r: Row<WithSpacing>)
        ensures
            r.0.0 == spacing,
    {
        Row(WithSpacing(spacing))
    }
}

impl<ES: ElementSpacing> Row<ES> {
    /// Starts the layout with a cell without weight around `widget`.
    pub fn add<W: Widget>(self, widget: W) -> (r: LinearLayout<Chain<Cell<W, NoWeight>>, Row<ES>>)
        ensures
            r.bounds == BoundingBox::spec_empty(),
            r.widgets.object.inner == widget,
            r.direction == self,
    {
        self.add_cell(Cell::new(widget))
    }

    /// Starts the layout with `widget`.
    pub fn add_cell<W: Widget, CW: CellWeight>(self, widget: Cell<W, CW>) -> (r: LinearLayout<Chain<Cell<W, CW>>, Row<ES>>)
        ensures
            r.bounds == BoundingBox::spec_empty(),
            r.widgets.object == widget,
            r.direction == self,
    {
        LinearLayout { bounds: BoundingBox::empty(), widgets: Chain::new(widget), direction: self }
    }
}

} // verus!
