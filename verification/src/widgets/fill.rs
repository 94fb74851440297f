//! A widget that stretches to fill the space its parent offers, and aligns its content
//! inside that space.

use vstd::prelude::*;

use crate::geometry::{
    cast_u32_i32, trunc_div, trunc_div_i32, u32_to_i32, wrap_i32, wrapping_add_i32,
    wrapping_sub_i32, BoundingBox, MeasureConstraint, MeasureSpec, MeasuredSize, Position,
};
use crate::input::{InputContext, InputEvent};
use crate::state::WidgetState;
use crate::widgets::Widget;

verus! {

/// `width - space`, computed on the sizes read as `i32`, wrapping around on overflow.
pub open spec fn size_difference(width: u32, space: u32) -> i32 {
    wrap_i32(u32_to_i32(width) - u32_to_i32(space))
}

/// `width - space` as an offset.
fn size_difference_exec(width: u32, space: u32) -> (r: i32)
    ensures
        r == size_difference(width, space),
{
    wrapping_sub_i32(cast_u32_i32(width), cast_u32_i32(space))
}

/// Half of `d`, rounded towards zero.
pub open spec fn half(d: i32) -> i32 {
    trunc_div(d as int, 2) as i32
}

fn half_exec(d: i32) -> (r: i32)
    ensures
        r == half(d),
{
    trunc_div_i32(d, 2)
}

/// Where content of width `space` starts inside an area of width `width`.
pub trait HorizontalAlignment {
    spec fn spec_horizontal_offset(width: u32, space: u32) -> i32;

    fn horizontal_offset(width: u32, space: u32) -> (r: i32)
        ensures
            r == Self::spec_horizontal_offset(width, space),
    ;
}

/// Where content of height `space` starts inside an area of height `height`.
pub trait VerticalAlignment {
    spec fn spec_vertical_offset(height: u32, space: u32) -> i32;

    fn vertical_offset(height: u32, space: u32) -> (r: i32)
        ensures
            r == Self::spec_vertical_offset(height, space),
    ;
}

/// Aligns the content to the top edge.
#[derive(Clone, Copy, Debug, PartialEq, Eq, Structural)]
pub struct Top;

/// Aligns the content to the left edge.
#[derive(Clone, Copy, Debug, PartialEq, Eq, Structural)]
pub struct Left;

/// Aligns the content to the bottom edge.
#[derive(Clone, Copy, Debug, PartialEq, Eq, Structural)]
pub struct Bottom;

/// Aligns the content to the right edge.
#[derive(Clone, Copy, Debug, PartialEq, Eq, Structural)]
pub struct Right;

/// Centers the content.
#[derive(Clone, Copy, Debug, PartialEq, Eq, Structural)]
pub struct Center;

impl HorizontalAlignment for Left {
    open spec fn spec_horizontal_offset(width: u32, space: u32) -> i32 {
        0
    }

    fn horizontal_offset(width: u32, space: u32) -> (r: i32) {
        0
    }
}

impl HorizontalAlignment for Right {
    open spec fn spec_horizontal_offset(width: u32, space: u32) -> i32 {
        size_difference(width, space)
    }

    fn horizontal_offset(width: u32, space: u32) -> (r: i32) {
        size_difference_exec(width, space)
    }
}

impl HorizontalAlignment for Center {
    open spec fn spec_horizontal_offset(width: u32, space: u32) -> i32 {
        half(size_difference(width, space))
    }

    fn horizontal_offset(width: u32, space: u32) -> (r: i32) {
        half_exec(size_difference_exec(width, space))
    }
}

impl VerticalAlignment for Top {
    open spec fn spec_vertical_offset(height: u32, space: u32) -> i32 {
        0
    }

    fn vertical_offset(height: u32, space: u32) -> (r: i32) {
        0
    }
}

impl VerticalAlignment for Bottom {
    open spec fn spec_vertical_offset(height: u32, space: u32) -> i32 {
        size_difference(height, space)
    }

    fn vertical_offset(height: u32, space: u32) -> (r: i32) {
        size_difference_exec(height, space)
    }
}

impl VerticalAlignment for Center {
    open spec fn spec_vertical_offset(height: u32, space: u32) -> i32 {
        half(size_difference(height, space))
    }

    fn vertical_offset(height: u32, space: u32) -> (r: i32) {
        half_exec(size_difference_exec(height, space))
    }
}

/// Law: content that fits is placed inside the area. Aligned to the start it starts at the
/// start, aligned to the end it ends at the end, and centered the space before it equals
/// the space after it, or is one less.
pub proof fn law_alignment_keeps_content_inside(width: u32, space: u32)
    requires
        space <= width <= i32::MAX,
    ensures
        <Left as HorizontalAlignment>::spec_horizontal_offset(width, space) == 0,
        <Right as HorizontalAlignment>::spec_horizontal_offset(width, space) + space == width,
        0 <= <Center as HorizontalAlignment>::spec_horizontal_offset(width, space),
        <Center as HorizontalAlignment>::spec_horizontal_offset(width, space) + space <= width,
        ({
            let before = <Center as HorizontalAlignment>::spec_horizontal_offset(width, space);
            let after = width - space - before;
            after == before || after == before + 1
        }),
        <Top as VerticalAlignment>::spec_vertical_offset(width, space) == 0,
        <Bottom as VerticalAlignment>::spec_vertical_offset(width, space) + space == width,
        <Center as VerticalAlignment>::spec_vertical_offset(width, space)
            == <Center as HorizontalAlignment>::spec_horizontal_offset(width, space),
{
}

/// The size a dimension takes when it stretches: all the constraint offers, or the
/// content's size if the constraint sets no limit.
pub open spec fn stretch(size: u32, constraint: MeasureConstraint) -> u32 {
    match constraint {
        MeasureConstraint::AtMost(limit) => limit,
        MeasureConstraint::Exactly(limit) => limit,
        MeasureConstraint::Unspecified => size,
    }
}

fn stretch_with_constraint(size: u32, constraint: MeasureConstraint) -> (r: u32)
    ensures
        r == stretch(size, constraint),
{
    match constraint {
        MeasureConstraint::AtMost(constraint) => constraint,
        MeasureConstraint::Exactly(constraint) => constraint,
        MeasureConstraint::Unspecified => size,
    }
}

/// The dimensions in which a widget stretches.
pub trait FillDirection {
    /// The size of a widget whose content measured `child_size` under `measure_spec`.
    spec fn spec_fill_size(child_size: MeasuredSize, measure_spec: MeasureSpec) -> MeasuredSize;

    /// The size of a widget whose content measured `child_size` under `measure_spec`.
    fn fill_size(child_size: MeasuredSize, measure_spec: MeasureSpec) -> (r: MeasuredSize)
        ensures
            r == Self::spec_fill_size(child_size, measure_spec),
    ;

    /// Hands `widget` the size it fills (see `Widget::set_measured_size`).
    fn measure<W: Widget>(widget: &mut W, child_size: MeasuredSize, measure_spec: MeasureSpec)
        ensures
            final(widget).spec_bounding_box().position == old(widget).spec_bounding_box().position,
            old(widget).spec_resizes_to(Self::spec_fill_size(child_size, measure_spec), *final(widget)),
    ;
}

/// Stretches horizontally.
#[derive(Clone, Copy, Debug, PartialEq, Eq, Structural)]
pub struct Horizontal;

/// Stretches vertically.
#[derive(Clone, Copy, Debug, PartialEq, Eq, Structural)]
pub struct Vertical;

/// Stretches in both dimensions.
#[derive(Clone, Copy, Debug, PartialEq, Eq, Structural)]
pub struct HorizontalAndVertical;

impl FillDirection for Horizontal {
    open spec fn spec_fill_size(child_size: MeasuredSize, measure_spec: MeasureSpec) -> MeasuredSize {
        MeasuredSize { width: stretch(child_size.width, measure_spec.width), height: child_size.height }
    }

    fn fill_size(child_size: MeasuredSize, measure_spec: MeasureSpec) -> (r: MeasuredSize) {
        let height = child_size.height;
        let width = stretch_with_constraint(child_size.width, measure_spec.width);
        MeasuredSize { width, height }
    }

    fn measure<W: Widget>(widget: &mut W, child_size: MeasuredSize, measure_spec: MeasureSpec) {
        widget.set_measured_size(Self::fill_size(child_size, measure_spec))
    }
}

impl FillDirection for Vertical {
    open spec fn spec_fill_size(child_size: MeasuredSize, measure_spec: MeasureSpec) -> MeasuredSize {
        MeasuredSize { width: child_size.width, height: stretch(child_size.height, measure_spec.height) }
    }

    fn fill_size(child_size: MeasuredSize, measure_spec: MeasureSpec) -> (r: MeasuredSize) {
        let height = stretch_with_constraint(child_size.height, measure_spec.height);
        let width = child_size.width;
        MeasuredSize { width, height }
    }

    fn measure<W: Widget>(widget: &mut W, child_size: MeasuredSize, measure_spec: MeasureSpec) {
        widget.set_measured_size(Self::fill_size(child_size, measure_spec))
    }
}

impl FillDirection for HorizontalAndVertical {
    open spec fn spec_fill_size(child_size: MeasuredSize, measure_spec: MeasureSpec) -> MeasuredSize {
        MeasuredSize {
            width: stretch(child_size.width, measure_spec.width),
            height: stretch(child_size.height, measure_spec.height),
        }
    }

    fn fill_size(child_size: MeasuredSize, measure_spec: MeasureSpec) -> (r: MeasuredSize) {
        let width = stretch_with_constraint(child_size.width, measure_spec.width);
        let height = stretch_with_constraint(child_size.height, measure_spec.height);
        MeasuredSize { width, height }
    }

    fn measure<W: Widget>(widget: &mut W, child_size: MeasuredSize, measure_spec: MeasureSpec) {
        widget.set_measured_size(Self::fill_size(child_size, measure_spec))
    }
}

/// A widget that takes all the space its parent offers in the dimensions of `FD`, and
/// places its content in that space as `H` and `V` say.
pub struct FillParent<W, FD, H, V> where FD: FillDirection, H: HorizontalAlignment, V: VerticalAlignment {
    /// The parent's index, once the widget was attached.
    pub parent_index: Option<usize>,
    pub inner: W,
    pub direction: FD,
    pub bounds: BoundingBox,
    pub horizontal_alignment: H,
    pub vertical_alignment: V,
}

impl<W> FillParent<W, Horizontal, Center, Center> where W: Widget {
    /// Fills horizontally; the content is centered horizontally and aligned to the top.
    pub fn horizontal(inner: W) -> (r: FillParent<W, Horizontal, Center, Top>)
        ensures
            r.inner == inner,
            r.parent_index is None,
            r.bounds == BoundingBox::spec_empty(),
    {
        FillParent {
            parent_index: None,
            inner,
            direction: Horizontal,
            bounds: BoundingBox::empty(),
            horizontal_alignment: Center,
            vertical_alignment: Top,
        }
    }

    /// Fills vertically; the content is aligned to the left and centered vertically.
    pub fn vertical(inner: W) -> (r: FillParent<W, Vertical, Left, Center>)
        ensures
            r.inner == inner,
            r.parent_index is None,
            r.bounds == BoundingBox::spec_empty(),
    {
        FillParent {
            parent_index: None,
            inner,
            direction: Vertical,
            bounds: BoundingBox::empty(),
            horizontal_alignment: Left,
            vertical_alignment: Center,
        }
    }

    /// Fills both dimensions; the content is centered.
    pub fn both(inner: W) -> (r: FillParent<W, HorizontalAndVertical, Center, Center>)
        ensures
            r.inner == inner,
            r.parent_index is None,
            r.bounds == BoundingBox::spec_empty(),
    {
        FillParent {
            parent_index: None,
            inner,
            direction: HorizontalAndVertical,
            bounds: BoundingBox::empty(),
            horizontal_alignment: Center,
            vertical_alignment: Center,
        }
    }
}

impl<W, D, H, V> FillParent<W, D, H, V> where
    W: Widget,
    D: FillDirection,
    H: HorizontalAlignment,
    V: VerticalAlignment,
 {
    /// The same widget with another horizontal alignment.
    pub fn align_horizontal<H2>(self, align: H2) -> (r: FillParent<W, D, H2, V>) where
        H2: HorizontalAlignment,

        ensures
            r.parent_index == self.parent_index,
            r.inner == self.inner,
            r.bounds == self.bounds,
            r.horizontal_alignment == align,
    {
        FillParent {
            parent_index: self.parent_index,
            inner: self.inner,
            direction: self.direction,
            bounds: self.bounds,
            horizontal_alignment: align,
            vertical_alignment: self.vertical_alignment,
        }
    }

    /// The same widget with another vertical alignment.
    pub fn align_vertical<V2>(self, align: V2) -> (r: FillParent<W, D, H, V2>) where
        V2: VerticalAlignment,

        ensures
            r.parent_index == self.parent_index,
            r.inner == self.inner,
            r.bounds == self.bounds,
            r.vertical_alignment == align,
    {
        FillParent {
            parent_index: self.parent_index,
            inner: self.inner,
            direction: self.direction,
            bounds: self.bounds,
            horizontal_alignment: self.horizontal_alignment,
            vertical_alignment: align,
        }
    }

    /// Where the content goes when the widget is placed at `position`.
    pub open spec fn spec_content_position(self, position: Position) -> Position {
        Position {
            x: wrap_i32(
                position.x + H::spec_horizontal_offset(
                    self.bounds.size.width,
                    self.inner.spec_bounding_box().size.width,
                ),
            ),
            y: wrap_i32(
                position.y + V::spec_vertical_offset(
                    self.bounds.size.height,
                    self.inner.spec_bounding_box().size.height,
                ),
            ),
        }
    }
}

impl<W, D, H, V> Widget for FillParent<W, D, H, V> where
    W: Widget,
    D: FillDirection,
    H: HorizontalAlignment,
    V: VerticalAlignment,
 {
    open spec fn spec_bounding_box(&self) -> BoundingBox {
        self.bounds
    }

    open spec fn spec_children() -> nat {
        W::spec_children() + 1
    }

    /// An unattached widget reports the root, 0, as its parent.
    open spec fn spec_parent_index(&self) -> usize {
        match self.parent_index {
            Some(i) => i,
            None => 0,
        }
    }

    open spec fn spec_is_selectable(&self) -> bool {
        false
    }

    open spec fn spec_measures_to(&self, measure_spec: MeasureSpec, after: Self) -> bool {
        self.inner.spec_measures_to(measure_spec, after.inner) && after == (FillParent {
            inner: after.inner,
            bounds: BoundingBox { size: D::spec_fill_size(after.inner.spec_bounding_box().size, measure_spec), ..self.bounds },
            ..*self
        })
    }

    open spec fn spec_resizes_to(&self, size: MeasuredSize, after: Self) -> bool {
        after == (FillParent { bounds: BoundingBox { size, ..self.bounds }, ..*self })
    }

    open spec fn spec_updates_to(&self, after: Self) -> bool {
        after == *self
    }

    open spec fn spec_resets_to(&self, after: Self) -> bool {
        self.inner.spec_resets_to(after.inner) && after == (FillParent { inner: after.inner, ..*self })
    }

    open spec fn spec_tests_input(&self, event: InputEvent, after: Self, r: Option<usize>) -> bool {
        after == (FillParent { inner: after.inner, ..*self }) && match r {
            Some(i) => i >= 1 && self.inner.spec_tests_input(event, after.inner, Some((i - 1) as usize)),
            None => self.inner.spec_tests_input(event, after.inner, None),
        }
    }

    open spec fn spec_handles_input(&self, ctxt: InputContext, event: InputEvent, after: Self, r: bool) -> bool {
        self.inner.spec_handles_input(ctxt, event, after.inner, r) && after == (FillParent { inner: after.inner, ..*self })
    }

    open spec fn spec_state_changes_to(&self, state: WidgetState, after: Self) -> bool {
        self.inner.spec_state_changes_to(state, after.inner) && after == (FillParent { inner: after.inner, ..*self })
    }

    fn attach(&mut self, parent: usize, self_index: usize)
        ensures
            final(self).parent_index == Some(parent),
    {
        self.set_parent(parent);
        self.inner.attach(self_index, self_index.wrapping_add(1));
    }

    /// Places the widget at `position` and its content at the offsets the alignments give.
    fn arrange(&mut self, position: Position)
        ensures
            final(self).inner.spec_bounding_box() == (BoundingBox {
                position: old(self).spec_content_position(position),
                size: old(self).inner.spec_bounding_box().size,
            }),
    {
        self.bounds.position = position;

        let inner_size = self.inner.bounding_box().size;

        let x = wrapping_add_i32(
            position.x,
            H::horizontal_offset(self.bounds.size.width, inner_size.width),
        );
        let y = wrapping_add_i32(
            position.y,
            V::vertical_offset(self.bounds.size.height, inner_size.height),
        );
        self.inner.arrange(Position { x, y });
    }

    fn bounding_box(&self) -> (r: BoundingBox) {
        self.bounds
    }

    fn set_measured_size(&mut self, size: MeasuredSize)
        ensures
            final(self).bounds == (BoundingBox { size, ..old(self).bounds }),
            final(self).inner == old(self).inner,
            final(self).parent_index == old(self).parent_index,
    {
        self.bounds.size = size;
    }

    /// Measures the content, then takes the size the fill direction gives.
    fn measure(&mut self, measure_spec: MeasureSpec)
        ensures
            final(self).bounds.size == D::spec_fill_size(
                final(self).inner.spec_bounding_box().size,
                measure_spec,
            ),
            final(self).inner.spec_bounding_box().position == old(self).inner.spec_bounding_box().position,
    {
        self.inner.measure(measure_spec);
        let size = D::fill_size(self.inner.bounding_box().size, measure_spec);
        self.set_measured_size(size);
    }

    fn children(&self) -> (r: usize) {
        1 + self.inner.children()
    }

    /// Passes the content's wish on, counting the content as the first descendant.
    fn test_input(&mut self, event: InputEvent) -> (r: Option<usize>) {
        match self.inner.test_input(event) {
            Some(idx) => Some(idx + 1),
            None => None,
        }
    }

    fn handle_input(&mut self, ctxt: InputContext, event: InputEvent) -> (r: bool) {
        self.inner.handle_input(ctxt, event)
    }

    fn update(&mut self)
        ensures
            *final(self) == *old(self),
    {
    }

    fn reset_changed(&mut self) {
        self.inner.reset_changed();
    }

    fn parent_index(&self) -> (r: usize) {
        match self.parent_index {
            Some(i) => i,
            None => 0,
        }
    }

    fn set_parent(&mut self, index: usize)
        ensures
            final(self).parent_index == Some(index),
    {
        self.parent_index = Some(index);
    }

    /// The content takes over the state.
    fn on_state_changed(&mut self, state: WidgetState) {
        self.inner.on_state_changed(state);
    }

    fn is_selectable(&self) -> (r: bool) {
        false
    }
}

} // verus!
