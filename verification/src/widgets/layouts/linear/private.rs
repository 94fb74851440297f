//! The machinery behind linear layouts: axis helpers and the chain of cells.

use vstd::prelude::*;

use crate::chain::{Chain, ChainElement, Link};
use crate::geometry::axis_order::AxisOrder;
use crate::geometry::{
    BoundingBox, MeasureConstraint, MeasureSpec, MeasuredSize, Position, u32_to_i32,
    wrap_i32, wrap_u32, cast_u32_i32, wrapping_add_i32, wrapping_add_u32,
};
use crate::input::InputEvent;
use crate::state::WidgetState;
use crate::widgets::layouts::linear::{Cell, CellWeight};
use crate::widgets::Widget;
use crate::rendering::{Canvas, WidgetRenderer};

verus! {

/// The main-axis component of a size.
pub open spec fn main_size(horizontal: bool, s: MeasuredSize) -> u32 {
    if horizontal {
        s.width
    } else {
        s.height
    }
}

/// The cross-axis component of a size.
pub open spec fn cross_size(horizontal: bool, s: MeasuredSize) -> u32 {
    if horizontal {
        s.height
    } else {
        s.width
    }
}

/// The size with the given main-axis and cross-axis components.
pub open spec fn merged_size(horizontal: bool, main: u32, cross: u32) -> MeasuredSize {
    if horizontal {
        MeasuredSize { width: main, height: cross }
    } else {
        MeasuredSize { width: cross, height: main }
    }
}

/// The main-axis constraint of a measure spec.
pub open spec fn main_constraint(horizontal: bool, s: MeasureSpec) -> MeasureConstraint {
    if horizontal {
        s.width
    } else {
        s.height
    }
}

/// The cross-axis constraint of a measure spec.
pub open spec fn cross_constraint(horizontal: bool, s: MeasureSpec) -> MeasureConstraint {
    if horizontal {
        s.height
    } else {
        s.width
    }
}

/// The measure spec with the given main-axis and cross-axis constraints.
pub open spec fn merged_spec(
    horizontal: bool,
    main: MeasureConstraint,
    cross: MeasureConstraint,
) -> MeasureSpec {
    if horizontal {
        MeasureSpec { width: main, height: cross }
    } else {
        MeasureSpec { width: cross, height: main }
    }
}

/// Where the cell after a cell of size `size` at `pos` starts, `spacing` further along the
/// main axis.
pub open spec fn next_position(horizontal: bool, pos: Position, size: MeasuredSize, spacing: u32) -> Position {
    let increment = u32_to_i32(wrap_u32(main_size(horizontal, size) + spacing));
    if horizontal {
        Position { x: wrap_i32(pos.x + increment), y: wrap_i32(pos.y + 0) }
    } else {
        Position { x: wrap_i32(pos.x + 0), y: wrap_i32(pos.y + increment) }
    }
}

/// Where the `k`-th of the cells with the boxes `bs` starts when the first starts at `start`.
pub open spec fn arranged_position(
    horizontal: bool,
    bs: Seq<BoundingBox>,
    start: Position,
    spacing: u32,
    k: nat,
) -> Position
    decreases k,
{
    if k == 0 {
        start
    } else {
        next_position(
            horizontal,
            arranged_position(horizontal, bs, start, spacing, (k - 1) as nat),
            bs[k - 1].size,
            spacing,
        )
    }
}

/// The index of the first widget of cell `k` within a chain whose cells have `counts`
/// descendants each: every cell takes its widget and the widget's descendants.
pub open spec fn cell_offset(counts: Seq<nat>, k: nat) -> nat
    decreases k,
{
    if k == 0 {
        0
    } else {
        cell_offset(counts, (k - 1) as nat) + counts[k - 1] + 1
    }
}

/// Arranging only looks at the cells before the `k`-th one.
pub proof fn lemma_arranged_position_prefix(
    horizontal: bool,
    bs: Seq<BoundingBox>,
    x: BoundingBox,
    start: Position,
    spacing: u32,
    k: nat,
)
    requires
        k <= bs.len(),
    ensures
        arranged_position(horizontal, bs.push(x), start, spacing, k) == arranged_position(
            horizontal,
            bs,
            start,
            spacing,
            k,
        ),
    decreases k,
{
    if k > 0 {
        lemma_arranged_position_prefix(horizontal, bs, x, start, spacing, (k - 1) as nat);
    }
}

/// Cell offsets only look at the cells before the `k`-th one.
pub proof fn lemma_cell_offset_prefix(counts: Seq<nat>, x: nat, k: nat)
    requires
        k <= counts.len(),
    ensures
        cell_offset(counts.push(x), k) == cell_offset(counts, k),
    decreases k,
{
    if k > 0 {
        lemma_cell_offset_prefix(counts, x, (k - 1) as nat);
    }
}

/// Every cell counts at least its own widget.
pub proof fn lemma_cell_offset_at_least(counts: Seq<nat>, k: nat)
    ensures
        cell_offset(counts, k) >= k,
    decreases k,
{
    if k > 0 {
        lemma_cell_offset_at_least(counts, (k - 1) as nat);
    }
}

/// Cell offsets grow with the index.
pub proof fn lemma_cell_offset_monotonic(counts: Seq<nat>, j: nat, k: nat)
    requires
        j <= k,
    ensures
        cell_offset(counts, j) <= cell_offset(counts, k),
    decreases k,
{
    if j < k {
        lemma_cell_offset_monotonic(counts, j, (k - 1) as nat);
    }
}

/// The direction in which a linear layout places its cells.
pub trait LayoutDirection: Copy {
    type AxisOrder: AxisOrder;

    spec fn spec_element_spacing(&self) -> u32;

    fn main_axis_size(bounds: BoundingBox) -> (r: u32)
        ensures
            r == main_size(<Self::AxisOrder as AxisOrder>::spec_is_horizontal(), bounds.size),
    {
        <Self::AxisOrder as AxisOrder>::main_axis(bounds.size.width, bounds.size.height)
    }

    fn cross_axis_size(bounds: BoundingBox) -> (r: u32)
        ensures
            r == cross_size(<Self::AxisOrder as AxisOrder>::spec_is_horizontal(), bounds.size),
    {
        <Self::AxisOrder as AxisOrder>::cross_axis(bounds.size.width, bounds.size.height)
    }

    fn create_measured_size(main: u32, cross: u32) -> (r: MeasuredSize)
        ensures
            r == merged_size(<Self::AxisOrder as AxisOrder>::spec_is_horizontal(), main, cross),
    {
        let (x, y) = <Self::AxisOrder as AxisOrder>::merge(main, cross);
        MeasuredSize { width: x, height: y }
    }

    fn main_axis_measure_spec(spec: MeasureSpec) -> (r: MeasureConstraint)
        ensures
            r == main_constraint(<Self::AxisOrder as AxisOrder>::spec_is_horizontal(), spec),
    {
        <Self::AxisOrder as AxisOrder>::main_axis(spec.width, spec.height)
    }

    fn cross_axis_measure_spec(spec: MeasureSpec) -> (r: MeasureConstraint)
        ensures
            r == cross_constraint(<Self::AxisOrder as AxisOrder>::spec_is_horizontal(), spec),
    {
        <Self::AxisOrder as AxisOrder>::cross_axis(spec.width, spec.height)
    }

    fn create_measure_spec(main: MeasureConstraint, cross: MeasureConstraint) -> (r: MeasureSpec)
        ensures
            r == merged_spec(<Self::AxisOrder as AxisOrder>::spec_is_horizontal(), main, cross),
    {
        let (x, y) = <Self::AxisOrder as AxisOrder>::merge(main, cross);
        MeasureSpec { width: x, height: y }
    }

    /// Where the cell after `bb` starts.
    fn arrange(pos: Position, bb: BoundingBox, spacing: u32) -> (r: Position)
        ensures
            r == next_position(
                <Self::AxisOrder as AxisOrder>::spec_is_horizontal(),
                pos,
                bb.size,
                spacing,
            ),
    {
        let increment = wrapping_add_u32(Self::main_axis_size(bb), spacing);
        let (x, y) = <Self::AxisOrder as AxisOrder>::merge(cast_u32_i32(increment), 0i32);
        Position { x: wrapping_add_i32(pos.x, x), y: wrapping_add_i32(pos.y, y) }
    }

    fn element_spacing(&self) -> (r: u32)
        ensures
            r == self.spec_element_spacing(),
    ;
}

/// A cell of a linear layout: a widget and its weight.
pub trait LinearLayoutCell {
    type Inner: Widget;

    spec fn spec_weight(&self) -> u32;

    spec fn spec_widget(&self) -> Self::Inner;

    fn weight(&self) -> (r: u32)
        ensures
            r == self.spec_weight(),
    ;

    fn widget(&self) -> (r: &Self::Inner)
        ensures
            *r == self.spec_widget(),
    ;
}

impl<W: Widget, CW: CellWeight> LinearLayoutCell for Cell<W, CW> {
    type Inner = W;

    open spec fn spec_weight(&self) -> u32 {
        self.weight.spec_weight()
    }

    open spec fn spec_widget(&self) -> W {
        self.inner
    }

    fn weight(&self) -> (r: u32) {
        self.weight.weight()
    }

    fn widget(&self) -> (r: &W) {
        &self.inner
    }
}

/// The chain of cells of a linear layout; cell 0 is the first one added.
pub trait LinearLayoutChainElement: ChainElement {
    /// The weights of the cells.
    spec fn spec_weights(&self) -> Seq<u32>;

    /// The bounding boxes of the cells' widgets.
    spec fn spec_bounds(&self) -> Seq<BoundingBox>;

    /// The number of descendants of each cell's widget.
    spec fn spec_child_counts() -> Seq<nat>;

    /// The number of widgets in the chain, descendants included.
    spec fn spec_count_widgets() -> nat;

    /// The parent index of the first cell's widget.
    spec fn spec_first_parent_index(&self) -> usize;

    /// Whether measuring the widget of cell `index` under `spec` may turn the chain into
    /// `after`.
    spec fn spec_measures_at(&self, index: int, spec: MeasureSpec, after: Self) -> bool;

    /// Whether cell `index` of `after` is cell `index` of `self` with its widget measured
    /// under `spec` and its weight kept.
    spec fn spec_cell_measured(&self, index: int, spec: MeasureSpec, after: Self) -> bool;

    /// Whether cell `index` is the same in `self` and in `after`.
    spec fn spec_cell_same(&self, index: int, after: Self) -> bool;

    proof fn lemma_cell_same_refl(&self, index: int)
        requires
            0 <= index < Self::spec_len(),
        ensures
            self.spec_cell_same(index, *self),
    ;

    /// A cell measured and then left alone is measured.
    proof fn lemma_cell_measured_then_same(&self, index: int, spec: MeasureSpec, mid: Self, after: Self)
        requires
            0 <= index < Self::spec_len(),
            self.spec_cell_measured(index, spec, mid),
            mid.spec_cell_same(index, after),
        ensures
            self.spec_cell_measured(index, spec, after),
    ;

    /// A cell left alone and then measured is measured.
    proof fn lemma_cell_same_then_measured(&self, index: int, mid: Self, spec: MeasureSpec, after: Self)
        requires
            0 <= index < Self::spec_len(),
            self.spec_cell_same(index, mid),
            mid.spec_cell_measured(index, spec, after),
        ensures
            self.spec_cell_measured(index, spec, after),
    ;

    /// A cell left alone twice is left alone.
    proof fn lemma_cell_same_trans(&self, index: int, mid: Self, after: Self)
        requires
            0 <= index < Self::spec_len(),
            self.spec_cell_same(index, mid),
            mid.spec_cell_same(index, after),
        ensures
            self.spec_cell_same(index, after),
    ;

    /// Whether asking the cells for `event`, first to last, may turn the chain into
    /// `after` with the answer `r`, counted over the widgets of the chain.
    spec fn spec_chain_tests_input(&self, event: InputEvent, after: Self, r: Option<usize>) -> bool;

    /// Whether telling every cell's widget of the state `state` may turn the chain into
    /// `after`.
    spec fn spec_chain_state_changes_to(&self, state: WidgetState, after: Self) -> bool;

    /// Whether updating every cell's widget may turn the chain into `after`.
    spec fn spec_chain_updates_to(&self, after: Self) -> bool;

    /// Whether `reset_changed` on every cell's widget may turn the chain into `after`.
    spec fn spec_chain_resets_to(&self, after: Self) -> bool;

    proof fn lemma_shape(&self)
        ensures
            self.spec_weights().len() == Self::spec_len(),
            self.spec_bounds().len() == Self::spec_len(),
            Self::spec_child_counts().len() == Self::spec_len(),
            Self::spec_count_widgets() == cell_offset(Self::spec_child_counts(), Self::spec_len()),
            Self::spec_len() >= 1,
    ;

    fn weight_at(&self, index: usize) -> (r: u32)
        requires
            Self::spec_count_widgets() < usize::MAX,
            index < Self::spec_len(),
        ensures
            r == self.spec_weights()[index as int],
    ;

    fn bounding_box_at(&self, index: usize) -> (r: BoundingBox)
        requires
            Self::spec_count_widgets() < usize::MAX,
            index < Self::spec_len(),
        ensures
            r == self.spec_bounds()[index as int],
    ;

    fn children_at(&self, index: usize) -> (r: usize)
        requires
            Self::spec_count_widgets() < usize::MAX,
            index < Self::spec_len(),
            Self::spec_count_widgets() <= usize::MAX,
        ensures
            r == Self::spec_child_counts()[index as int],
    ;

    /// Measures the widget of cell `index`, which keeps its position; the other cells are
    /// left alone.
    fn measure_at(&mut self, index: usize, spec: MeasureSpec)
        requires
            Self::spec_count_widgets() < usize::MAX,
            index < Self::spec_len(),
        ensures
            final(self).spec_weights() == old(self).spec_weights(),
            final(self).spec_bounds().len() == old(self).spec_bounds().len(),
            forall|j: int|
                0 <= j < old(self).spec_bounds().len() && j != index
                    ==> #[trigger] final(self).spec_bounds()[j] == old(self).spec_bounds()[j],
            final(self).spec_bounds()[index as int].position
                == old(self).spec_bounds()[index as int].position,
            old(self).spec_measures_at(index as int, spec, *final(self)),
            old(self).spec_cell_measured(index as int, spec, *final(self)),
            forall|j: int|
                0 <= j < Self::spec_len() && j != index ==> #[trigger] old(self).spec_cell_same(j, *final(self)),
    ;

    /// Attaches the widget of cell `index`.
    fn attach_at(&mut self, index: usize, parent: usize, child_index: usize)
        requires
            Self::spec_count_widgets() < usize::MAX,
            index < Self::spec_len(),
        ensures
            final(self).spec_weights() == old(self).spec_weights(),
            final(self).spec_bounds() == old(self).spec_bounds(),
            index == 0 ==> final(self).spec_first_parent_index() == parent,
            index != 0 ==> final(self).spec_first_parent_index() == old(self).spec_first_parent_index(),
    ;

    fn test_input(&mut self, event: InputEvent) -> (r: Option<usize>)
        requires
            Self::spec_count_widgets() < usize::MAX,
        ensures
            r matches Some(i) ==> i < Self::spec_count_widgets(),
            old(self).spec_chain_tests_input(event, *final(self), r),
    ;

    fn count_widgets(&self) -> (r: usize)
        requires
            Self::spec_count_widgets() <= usize::MAX,
        ensures
            r == Self::spec_count_widgets(),
    ;

    /// Places the cells one after another from `position` on, `spacing` apart, and returns
    /// where a following cell would start.
    fn arrange<L: LayoutDirection>(&mut self, position: Position, direction: L, spacing: u32) -> (r: Position)
        requires
            Self::spec_count_widgets() < usize::MAX,
        ensures
            final(self).spec_weights() == old(self).spec_weights(),
            final(self).spec_bounds().len() == old(self).spec_bounds().len(),
            forall|k: int|
                0 <= k < old(self).spec_bounds().len() ==> #[trigger] final(self).spec_bounds()[k]
                    == (BoundingBox {
                    position: arranged_position(
                        <L::AxisOrder as AxisOrder>::spec_is_horizontal(),
                        old(self).spec_bounds(),
                        position,
                        spacing,
                        k as nat,
                    ),
                    size: old(self).spec_bounds()[k].size,
                }),
            r == arranged_position(
                <L::AxisOrder as AxisOrder>::spec_is_horizontal(),
                old(self).spec_bounds(),
                position,
                spacing,
                Self::spec_len(),
            ),
    ;

    fn on_state_changed(&mut self, state: WidgetState)
        ensures
            old(self).spec_chain_state_changes_to(state, *final(self)),
    ;

    fn update(&mut self)
        ensures
            old(self).spec_chain_updates_to(*final(self)),
    ;

    fn reset_changed(&mut self)
        ensures
            old(self).spec_chain_resets_to(*final(self)),
    ;

    fn first_parent_index(&self) -> (r: usize)
        ensures
            r == self.spec_first_parent_index(),
    ;
}

impl<W: Widget, CW: CellWeight> LinearLayoutChainElement for Chain<Cell<W, CW>> {
    open spec fn spec_weights(&self) -> Seq<u32> {
        seq![self.object.weight.spec_weight()]
    }

    open spec fn spec_bounds(&self) -> Seq<BoundingBox> {
        seq![self.object.inner.spec_bounding_box()]
    }

    open spec fn spec_child_counts() -> Seq<nat> {
        seq![W::spec_children()]
    }

    open spec fn spec_count_widgets() -> nat {
        W::spec_children() + 1
    }

    open spec fn spec_first_parent_index(&self) -> usize {
        self.object.inner.spec_parent_index()
    }

    open spec fn spec_measures_at(&self, index: int, spec: MeasureSpec, after: Self) -> bool {
        self.object.inner.spec_measures_to(spec, after.object.inner)
            && after == (Chain { object: Cell { inner: after.object.inner, ..self.object } })
    }

    open spec fn spec_cell_measured(&self, index: int, spec: MeasureSpec, after: Self) -> bool {
        self.object.inner.spec_measures_to(spec, after.object.inner) && after.object.weight == self.object.weight
    }

    open spec fn spec_cell_same(&self, index: int, after: Self) -> bool {
        after.object == self.object
    }

    proof fn lemma_cell_same_refl(&self, index: int) {
    }

    proof fn lemma_cell_measured_then_same(&self, index: int, spec: MeasureSpec, mid: Self, after: Self) {
    }

    proof fn lemma_cell_same_then_measured(&self, index: int, mid: Self, spec: MeasureSpec, after: Self) {
    }

    proof fn lemma_cell_same_trans(&self, index: int, mid: Self, after: Self) {
    }

    open spec fn spec_chain_tests_input(&self, event: InputEvent, after: Self, r: Option<usize>) -> bool {
        self.object.inner.spec_tests_input(event, after.object.inner, r)
            && after == (Chain { object: Cell { inner: after.object.inner, ..self.object } })
    }

    open spec fn spec_chain_state_changes_to(&self, state: WidgetState, after: Self) -> bool {
        self.object.inner.spec_state_changes_to(state, after.object.inner)
            && after == (Chain { object: Cell { inner: after.object.inner, ..self.object } })
    }

    open spec fn spec_chain_updates_to(&self, after: Self) -> bool {
        self.object.inner.spec_updates_to(after.object.inner)
            && after == (Chain { object: Cell { inner: after.object.inner, ..self.object } })
    }

    open spec fn spec_chain_resets_to(&self, after: Self) -> bool {
        self.object.inner.spec_resets_to(after.object.inner)
            && after == (Chain { object: Cell { inner: after.object.inner, ..self.object } })
    }

    proof fn lemma_shape(&self) {
        assert(cell_offset(Self::spec_child_counts(), 1) == W::spec_children() + 1) by {
            reveal_with_fuel(cell_offset, 2);
        }
    }

    fn weight_at(&self, index: usize) -> (r: u32) {
        self.object.weight.weight()
    }

    fn bounding_box_at(&self, index: usize) -> (r: BoundingBox) {
        self.object.inner.bounding_box()
    }

    fn children_at(&self, index: usize) -> (r: usize) {
        self.object.inner.children()
    }

    fn measure_at(&mut self, index: usize, spec: MeasureSpec) {
        self.object.inner.measure(spec);
    }

    fn attach_at(&mut self, index: usize, parent: usize, child_index: usize) {
        self.object.inner.attach(parent, child_index);
    }

    fn test_input(&mut self, event: InputEvent) -> (r: Option<usize>) {
        self.object.inner.test_input(event)
    }

    fn count_widgets(&self) -> (r: usize) {
        self.object.inner.children() + 1
    }

    fn arrange<L: LayoutDirection>(&mut self, position: Position, direction: L, spacing: u32) -> (r: Position) {
        self.object.inner.arrange(position);
        let r = L::arrange(position, self.object.inner.bounding_box(), spacing);
        proof {
            reveal_with_fuel(arranged_position, 2);
        }
        r
    }

    fn on_state_changed(&mut self, state: WidgetState) {
        self.object.inner.on_state_changed(state);
    }

    fn update(&mut self) {
        self.object.inner.update();
    }

    fn reset_changed(&mut self) {
        self.object.inner.reset_changed();
    }

    fn first_parent_index(&self) -> (r: usize) {
        self.object.inner.parent_index()
    }
}

impl<W: Widget, CW: CellWeight, CE: LinearLayoutChainElement> LinearLayoutChainElement for Link<
    Cell<W, CW>,
    CE,
> {
    open spec fn spec_weights(&self) -> Seq<u32> {
        self.parent.spec_weights().push(self.object.weight.spec_weight())
    }

    open spec fn spec_bounds(&self) -> Seq<BoundingBox> {
        self.parent.spec_bounds().push(self.object.inner.spec_bounding_box())
    }

    open spec fn spec_child_counts() -> Seq<nat> {
        CE::spec_child_counts().push(W::spec_children())
    }

    open spec fn spec_count_widgets() -> nat {
        W::spec_children() + 1 + CE::spec_count_widgets()
    }

    open spec fn spec_first_parent_index(&self) -> usize {
        self.parent.spec_first_parent_index()
    }

    open spec fn spec_cell_measured(&self, index: int, spec: MeasureSpec, after: Self) -> bool {
        if index == CE::spec_len() {
            self.object.inner.spec_measures_to(spec, after.object.inner) && after.object.weight == self.object.weight
        } else {
            self.parent.spec_cell_measured(index, spec, after.parent)
        }
    }

    open spec fn spec_cell_same(&self, index: int, after: Self) -> bool {
        if index == CE::spec_len() {
            after.object == self.object
        } else {
            self.parent.spec_cell_same(index, after.parent)
        }
    }

    proof fn lemma_cell_same_refl(&self, index: int) {
        if index != CE::spec_len() {
            self.parent.lemma_cell_same_refl(index);
        }
    }

    proof fn lemma_cell_measured_then_same(&self, index: int, spec: MeasureSpec, mid: Self, after: Self) {
        if index != CE::spec_len() {
            self.parent.lemma_cell_measured_then_same(index, spec, mid.parent, after.parent);
        }
    }

    proof fn lemma_cell_same_then_measured(&self, index: int, mid: Self, spec: MeasureSpec, after: Self) {
        if index != CE::spec_len() {
            self.parent.lemma_cell_same_then_measured(index, mid.parent, spec, after.parent);
        }
    }

    proof fn lemma_cell_same_trans(&self, index: int, mid: Self, after: Self) {
        if index != CE::spec_len() {
            self.parent.lemma_cell_same_trans(index, mid.parent, after.parent);
        }
    }

    open spec fn spec_measures_at(&self, index: int, spec: MeasureSpec, after: Self) -> bool {
        if index == CE::spec_len() {
            self.object.inner.spec_measures_to(spec, after.object.inner)
                && after == (Link { object: Cell { inner: after.object.inner, ..self.object }, parent: self.parent })
        } else {
            self.parent.spec_measures_at(index, spec, after.parent) && after.object == self.object
        }
    }

    open spec fn spec_chain_tests_input(&self, event: InputEvent, after: Self, r: Option<usize>) -> bool {
        exists|pr: Option<usize>|
            #![trigger self.parent.spec_chain_tests_input(event, after.parent, pr)]
            self.parent.spec_chain_tests_input(event, after.parent, pr) && match pr {
                Some(_) => r == pr && after.object == self.object,
                None => after.object == (Cell { inner: after.object.inner, ..self.object }) && match r {
                    Some(i) => i >= CE::spec_count_widgets() && self.object.inner.spec_tests_input(
                        event,
                        after.object.inner,
                        Some((i - CE::spec_count_widgets()) as usize),
                    ),
                    None => self.object.inner.spec_tests_input(event, after.object.inner, None),
                },
            }
    }

    open spec fn spec_chain_state_changes_to(&self, state: WidgetState, after: Self) -> bool {
        &&& self.object.inner.spec_state_changes_to(state, after.object.inner)
        &&& after.object == (Cell { inner: after.object.inner, ..self.object })
        &&& self.parent.spec_chain_state_changes_to(state, after.parent)
    }

    open spec fn spec_chain_updates_to(&self, after: Self) -> bool {
        &&& self.object.inner.spec_updates_to(after.object.inner)
        &&& after.object == (Cell { inner: after.object.inner, ..self.object })
        &&& self.parent.spec_chain_updates_to(after.parent)
    }

    open spec fn spec_chain_resets_to(&self, after: Self) -> bool {
        &&& self.object.inner.spec_resets_to(after.object.inner)
        &&& after.object == (Cell { inner: after.object.inner, ..self.object })
        &&& self.parent.spec_chain_resets_to(after.parent)
    }

    proof fn lemma_shape(&self) {
        self.parent.lemma_shape();
        CE::lemma_len_positive();
        lemma_cell_offset_prefix(CE::spec_child_counts(), W::spec_children(), CE::spec_len());
    }

    fn weight_at(&self, index: usize) -> (r: u32) {
        proof {
            self.lemma_shape();
            self.parent.lemma_shape();
            lemma_cell_offset_at_least(Self::spec_child_counts(), Self::spec_len());
        }
        if index == self.len() - 1 {
            return self.object.weight.weight();
        }
        self.parent.weight_at(index)
    }

    fn bounding_box_at(&self, index: usize) -> (r: BoundingBox) {
        proof {
            self.lemma_shape();
            self.parent.lemma_shape();
            lemma_cell_offset_at_least(Self::spec_child_counts(), Self::spec_len());
        }
        if index == self.len() - 1 {
            return self.object.inner.bounding_box();
        }
        self.parent.bounding_box_at(index)
    }

    fn children_at(&self, index: usize) -> (r: usize) {
        proof {
            self.lemma_shape();
            self.parent.lemma_shape();
            lemma_cell_offset_at_least(Self::spec_child_counts(), Self::spec_len());
        }
        if index == self.len() - 1 {
            return self.object.inner.children();
        }
        self.parent.children_at(index)
    }

    fn measure_at(&mut self, index: usize, spec: MeasureSpec) {
        proof {
            self.lemma_shape();
            self.parent.lemma_shape();
            lemma_cell_offset_at_least(Self::spec_child_counts(), Self::spec_len());
        }
        if index == self.len() - 1 {
            self.object.inner.measure(spec);
            proof {
                assert forall|j: int| 0 <= j < Self::spec_len() && j != index implies #[trigger] old(self).spec_cell_same(j, *self) by {
                    old(self).parent.lemma_cell_same_refl(j);
                }
            }
        } else {
            self.parent.measure_at(index, spec);
            proof {
                assert forall|j: int| 0 <= j < Self::spec_len() && j != index implies #[trigger] old(self).spec_cell_same(j, *self) by {
                    if j != CE::spec_len() {
                        assert(old(self).parent.spec_cell_same(j, self.parent));
                    }
                }
            }
        }
        proof {
            self.parent.lemma_shape();
        }
    }

    fn attach_at(&mut self, index: usize, parent: usize, child_index: usize) {
        proof {
            self.lemma_shape();
            self.parent.lemma_shape();
            lemma_cell_offset_at_least(Self::spec_child_counts(), Self::spec_len());
        }
        if index == self.len() - 1 {
            self.object.inner.attach(parent, child_index);
        } else {
            self.parent.attach_at(index, parent, child_index);
        }
    }

    fn test_input(&mut self, event: InputEvent) -> (r: Option<usize>) {
        let pr = self.parent.test_input(event);
        let ghost after_parent = self.parent;
        let r = match pr {
            Some(idx) => Some(idx),
            None => match self.object.inner.test_input(event) {
                Some(idx) => Some(idx + self.parent.count_widgets()),
                None => None,
            },
        };
        assert(old(self).parent.spec_chain_tests_input(event, after_parent, pr));
        assert(self.parent == after_parent);
        match pr {
            Some(_) => {
                assert(self.object == old(self).object);
            },
            None => {
                assert(self.object == (Cell { inner: self.object.inner, ..old(self).object }));
                match r {
                    Some(i) => {
                        assert(old(self).object.inner.spec_tests_input(event, self.object.inner, Some((i - CE::spec_count_widgets()) as usize)));
                    },
                    None => {
                        assert(old(self).object.inner.spec_tests_input(event, self.object.inner, None));
                    },
                }
            },
        }
        r
    }

    fn count_widgets(&self) -> (r: usize) {
        self.object.inner.children() + 1 + self.parent.count_widgets()
    }

    fn arrange<L: LayoutDirection>(&mut self, position: Position, direction: L, spacing: u32) -> (r: Position) {
        let ghost old_bounds = self.spec_bounds();
        let ghost h = <L::AxisOrder as AxisOrder>::spec_is_horizontal();
        proof {
            self.parent.lemma_shape();
        }
        let next_pos = self.parent.arrange(position, direction, spacing);
        self.object.inner.arrange(next_pos);
        let r = L::arrange(next_pos, self.object.inner.bounding_box(), spacing);
        proof {
            let pb = old(self).parent.spec_bounds();
            let n = pb.len();
            self.parent.lemma_shape();
            assert forall|k: int| 0 <= k <= n implies #[trigger] arranged_position(h, old_bounds, position, spacing, k as nat)
                == arranged_position(h, pb, position, spacing, k as nat) by {
                lemma_arranged_position_prefix(h, pb, old(self).object.inner.spec_bounding_box(), position, spacing, k as nat);
            }
            assert(old_bounds.len() == n + 1);
            assert(arranged_position(h, old_bounds, position, spacing, (n + 1) as nat)
                == next_position(h, arranged_position(h, old_bounds, position, spacing, n as nat),
                    old_bounds[n as int].size, spacing));
            assert forall|k: int| 0 <= k < old_bounds.len() implies #[trigger] self.spec_bounds()[k]
                == (BoundingBox {
                    position: arranged_position(h, old_bounds, position, spacing, k as nat),
                    size: old_bounds[k].size,
                }) by {
                if k < n {
                    assert(self.spec_bounds()[k] == self.parent.spec_bounds()[k]);
                }
            }
        }
        r
    }

    fn on_state_changed(&mut self, state: WidgetState) {
        self.object.inner.on_state_changed(state);
        self.parent.on_state_changed(state);
    }

    fn update(&mut self) {
        self.object.inner.update();
        self.parent.update();
    }

    fn reset_changed(&mut self) {
        self.object.inner.reset_changed();
        self.parent.reset_changed();
    }

    fn first_parent_index(&self) -> (r: usize) {
        self.parent.first_parent_index()
    }
}

impl<C, W, CW> WidgetRenderer<C> for Chain<Cell<W, CW>> where
    W: Widget,
    Cell<W, CW>: WidgetRenderer<C>,
    C: Canvas,
 {
    open spec fn spec_draws(&self, canvas: C, after: Self, canvas_after: C, r: Result<(), C::Error>) -> bool {
        self.object.spec_draws(canvas, after.object, canvas_after, r) && after == (Chain { object: after.object })
    }

    fn draw(&mut self, canvas: &mut C) -> (r: Result<(), C::Error>) {
        self.object.draw(canvas)
    }
}

impl<C, W, CE, CW> WidgetRenderer<C> for Link<Cell<W, CW>, CE> where
    W: Widget,
    CE: LinearLayoutChainElement + WidgetRenderer<C>,
    Cell<W, CW>: WidgetRenderer<C>,
    C: Canvas,
 {
    open spec fn spec_draws(&self, canvas: C, after: Self, canvas_after: C, r: Result<(), C::Error>) -> bool {
        exists|mid_canvas: C, pr: Result<(), C::Error>|
            #![trigger self.parent.spec_draws(canvas, after.parent, mid_canvas, pr)]
            self.parent.spec_draws(canvas, after.parent, mid_canvas, pr) && match pr {
                Ok(_) => self.object.spec_draws(mid_canvas, after.object, canvas_after, r),
                Err(e) => r == pr && after.object == self.object && canvas_after == mid_canvas,
            }
    }

    /// Draws the earlier cells, then this one; a failure stops the drawing.
    fn draw(&mut self, canvas: &mut C) -> (r: Result<(), C::Error>) {
        let pr = self.parent.draw(canvas);
        let ghost gpr = pr;
        let ghost mid_canvas = *canvas;
        let ghost after_parent = self.parent;
        let r = match pr {
            Ok(_) => self.object.draw(canvas),
            Err(e) => Err(e),
        };
        proof {
            assert(old(self).parent.spec_draws(*old(canvas), after_parent, mid_canvas, gpr));
            assert(self.parent == after_parent);
            match gpr {
                Ok(_) => {
                    assert(old(self).object.spec_draws(mid_canvas, self.object, *canvas, r));
                },
                Err(_) => {
                    assert(self.object == old(self).object && *canvas == mid_canvas && r == gpr);
                },
            }
        }
        r
    }
}

} // verus!
