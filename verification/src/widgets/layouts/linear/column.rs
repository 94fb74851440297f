//! A linear layout that places its cells along the vertical axis.

use vstd::prelude::*;

use crate::chain::Chain;
use crate::geometry::axis_order::Vertical;
use crate::geometry::BoundingBox;
use crate::widgets::layouts::linear::layout::LinearLayout;
use crate::widgets::layouts::linear::private::LayoutDirection;
use crate::widgets::layouts::linear::{
    Cell, CellWeight, ElementSpacing, NoSpacing, NoWeight, WithSpacing,
};
use crate::widgets::Widget;

verus! {

/// Places cells from top to bottom.
#[derive(Copy, Clone)]
pub struct Column<ES = NoSpacing>(pub ES);

impl<ES: ElementSpacing> LayoutDirection for Column<ES> {
    type AxisOrder = Vertical;

    open spec fn spec_element_spacing(&self) -> u32 {
        self.0.spec_spacing()
    }

    fn element_spacing(&self) -> (r: u32) {
        self.0.spacing()
    }
}

impl Column<NoSpacing> {
    /// A column without space between its cells.
    pub fn new() -> (r: Column<NoSpacing>)
        ensures
            r == Column(NoSpacing),
    {
        Column(NoSpacing)
    }

    /// A column with `spacing` pixels between neighbouring cells.
    pub fn spacing(self, spacing: u32) -> (r: Column<WithSpacing>)
        ensures
            r.0.0 == spacing,
    {
        Column(WithSpacing(spacing))
    }
}

impl<ES: ElementSpacing> Column<ES> {
    /// Starts the layout with a cell without weight around `widget`.
    pub fn add<W: Widget>(self, widget: W) -> (r: LinearLayout<Chain<Cell<W, NoWeight>>, Column<ES>>)
        ensures
            r.bounds == BoundingBox::spec_empty(),
            r.widgets.object.inner == widget,
            r.direction == self,
    {
        self.add_cell(Cell::new(widget))
    }

    /// Starts the layout with `widget`.
    pub fn add_cell<W: Widget, CW: CellWeight>(self, widget: Cell<W, CW>) -> (r: LinearLayout<Chain<Cell<W, CW>>, Column<ES>>)
        ensures
            r.bounds == BoundingBox::spec_empty(),
            r.widgets.object == widget,
            r.direction == self,
    {
        LinearLayout { bounds: BoundingBox::empty(), widgets: Chain::new(widget), direction: self }
    }
}

} // verus!
