//! Empty space around a widget.

use vstd::prelude::*;

use crate::data::WidgetData;
use crate::geometry::{
    cast_u32_i32, lemma_wrap_add_sub, u32_to_i32, wrap_i32, wrap_u32, wrapping_add_i32,
    wrapping_add_u32, wrapping_sub_i32, BoundingBox, MeasureSpec, MeasuredSize, Position,
};
use crate::input::{InputContext, InputEvent};
use crate::rendering::{Canvas, WidgetRenderer};
use crate::state::WidgetState;
use crate::widgets::utils::callback::{NoCallback, StateCallback};
use crate::widgets::wrapper::Wrapper;
use crate::widgets::Widget;

verus! {

/// The space on each side of a widget.
#[derive(Clone, Copy, Debug)]
pub struct SpacingSpec {
    pub top: u32,
    pub right: u32,
    pub bottom: u32,
    pub left: u32,
}

impl Default for SpacingSpec {
    fn default() -> (r: SpacingSpec)
        ensures
            r == (SpacingSpec { top: 0, right: 0, bottom: 0, left: 0 }),
    {
        SpacingSpec { top: 0, right: 0, bottom: 0, left: 0 }
    }
}

/// The area of a widget with `top`, `right`, `bottom` and `left` space around content that
/// covers `inner`. Sums wrap around on overflow.
pub open spec fn padded_box(inner: BoundingBox, top: u32, right: u32, bottom: u32, left: u32) -> BoundingBox {
    BoundingBox {
        position: Position {
            x: wrap_i32(inner.position.x - u32_to_i32(left)),
            y: wrap_i32(inner.position.y - u32_to_i32(top)),
        },
        size: MeasuredSize {
            width: wrap_u32(wrap_u32(inner.size.width + left) + right),
            height: wrap_u32(wrap_u32(inner.size.height + top) + bottom),
        },
    }
}

/// Where the content of a widget with `top` and `left` space placed at `position` goes.
pub open spec fn padded_inset(position: Position, top: u32, left: u32) -> Position {
    Position { x: wrap_i32(position.x + u32_to_i32(left)), y: wrap_i32(position.y + u32_to_i32(top)) }
}

/// The area of a widget with space around content that covers `inner`.
pub fn padded_outer_box(inner: BoundingBox, top: u32, right: u32, bottom: u32, left: u32) -> (r: BoundingBox)
    ensures
        r == padded_box(inner, top, right, bottom, left),
{
    BoundingBox {
        position: Position {
            x: wrapping_sub_i32(inner.position.x, cast_u32_i32(left)),
            y: wrapping_sub_i32(inner.position.y, cast_u32_i32(top)),
        },
        size: MeasuredSize {
            width: wrapping_add_u32(wrapping_add_u32(inner.size.width, left), right),
            height: wrapping_add_u32(wrapping_add_u32(inner.size.height, top), bottom),
        },
    }
}

/// Where the content of a widget with `top` and `left` space placed at `position` goes.
pub fn padded_content_position(position: Position, top: u32, left: u32) -> (r: Position)
    ensures
        r == padded_inset(position, top, left),
{
    Position {
        x: wrapping_add_i32(position.x, cast_u32_i32(left)),
        y: wrapping_add_i32(position.y, cast_u32_i32(top)),
    }
}

/// Law: a widget with space around its content, placed at `position`, covers an area that
/// starts at `position`.
pub proof fn law_padding_arranged_at_position(
    position: Position,
    top: u32,
    right: u32,
    bottom: u32,
    left: u32,
    inner_size: MeasuredSize,
)
    ensures
        padded_box(
            BoundingBox { position: padded_inset(position, top, left), size: inner_size },
            top,
            right,
            bottom,
            left,
        ).position == position,
{
    lemma_wrap_add_sub(position.x, u32_to_i32(left));
    lemma_wrap_add_sub(position.y, u32_to_i32(top));
}

/// Adds empty space around its content.
pub struct Spacing<W, F = NoCallback> {
    pub inner: W,
    pub spacing: SpacingSpec,
    pub on_state_changed: F,
}

impl<W> Spacing<W, NoCallback> where W: Widget {
    /// `inner` with no space around it.
    pub fn new(inner: W) -> (r: Spacing<W>)
        ensures
            r.inner == inner,
            r.spacing == (SpacingSpec { top: 0, right: 0, bottom: 0, left: 0 }),
            r.on_state_changed == NoCallback,
    {
        Spacing { spacing: SpacingSpec::default(), inner, on_state_changed: NoCallback }
    }

    /// Binds `data` to the widget.
    pub fn bind<D>(self, data: D) -> (r: Wrapper<Spacing<W>, D>) where D: WidgetData
        ensures
            r.widget == self,
            r.data_holder.data == data,
            r.data_holder.on_data_changed == NoCallback,
    {
        Wrapper::wrap(self, data)
    }
}

impl<W, F> Spacing<W, F> where W: Widget {
    /// The same widget with `space` on the left.
    pub fn left(self, space: u32) -> (r: Self)
        ensures
            r == (Spacing { spacing: SpacingSpec { left: space, ..self.spacing }, ..self }),
    {
        let mut s = self;
        s.spacing.left = space;
        s
    }

    /// The same widget with `space` on the right.
    pub fn right(self, space: u32) -> (r: Self)
        ensures
            r == (Spacing { spacing: SpacingSpec { right: space, ..self.spacing }, ..self }),
    {
        let mut s = self;
        s.spacing.right = space;
        s
    }

    /// The same widget with `space` on the top.
    pub fn top(self, space: u32) -> (r: Self)
        ensures
            r == (Spacing { spacing: SpacingSpec { top: space, ..self.spacing }, ..self }),
    {
        let mut s = self;
        s.spacing.top = space;
        s
    }

    /// The same widget with `space` on the bottom.
    pub fn bottom(self, space: u32) -> (r: Self)
        ensures
            r == (Spacing { spacing: SpacingSpec { bottom: space, ..self.spacing }, ..self }),
    {
        let mut s = self;
        s.spacing.bottom = space;
        s
    }

    /// The same widget with `space` on every side.
    pub fn all(self, space: u32) -> (r: Self)
        ensures
            r == (Spacing {
                spacing: SpacingSpec { top: space, right: space, bottom: space, left: space },
                ..self
            }),
    {
        let mut s = self;
        s = s.top(space);
        s = s.right(space);
        s = s.bottom(space);
        s = s.left(space);
        s
    }

    /// Sets the callback that runs on the widget when its state changed.
    pub fn on_state_changed<G>(self, callback: G) -> (r: Spacing<W, G>)
        ensures
            r.inner == self.inner,
            r.spacing == self.spacing,
            r.on_state_changed == callback,
    {
        Spacing { inner: self.inner, spacing: self.spacing, on_state_changed: callback }
    }
}

impl<W, F, D, FD> Wrapper<Spacing<W, F>, D, FD> where W: Widget, D: WidgetData {
    /// The same widget with `space` on the left.
    pub fn left(self, space: u32) -> (r: Self)
        ensures
            r.widget == (Spacing { spacing: SpacingSpec { left: space, ..self.widget.spacing }, ..self.widget }),
            r.data_holder == self.data_holder,
    {
        let mut s = self;
        s.widget = s.widget.left(space);
        s
    }

    /// The same widget with `space` on the right.
    pub fn right(self, space: u32) -> (r: Self)
        ensures
            r.widget == (Spacing { spacing: SpacingSpec { right: space, ..self.widget.spacing }, ..self.widget }),
            r.data_holder == self.data_holder,
    {
        let mut s = self;
        s.widget = s.widget.right(space);
        s
    }

    /// The same widget with `space` on the top.
    pub fn top(self, space: u32) -> (r: Self)
        ensures
            r.widget == (Spacing { spacing: SpacingSpec { top: space, ..self.widget.spacing }, ..self.widget }),
            r.data_holder == self.data_holder,
    {
        let mut s = self;
        s.widget = s.widget.top(space);
        s
    }

    /// The same widget with `space` on the bottom.
    pub fn bottom(self, space: u32) -> (r: Self)
        ensures
            r.widget == (Spacing { spacing: SpacingSpec { bottom: space, ..self.widget.spacing }, ..self.widget }),
            r.data_holder == self.data_holder,
    {
        let mut s = self;
        s.widget = s.widget.bottom(space);
        s
    }

    /// The same widget with `space` on every side.
    pub fn all(self, space: u32) -> (r: Self)
        ensures
            r.widget == (Spacing {
                spacing: SpacingSpec { top: space, right: space, bottom: space, left: space },
                ..self.widget
            }),
            r.data_holder == self.data_holder,
    {
        let mut s = self;
        s.widget = s.widget.all(space);
        s
    }
}

impl<W, F> Widget for Spacing<W, F> where W: Widget, F: StateCallback<Spacing<W, F>> + Copy {
    /// The content's area with the space around it.
    open spec fn spec_bounding_box(&self) -> BoundingBox {
        padded_box(
            self.inner.spec_bounding_box(),
            self.spacing.top,
            self.spacing.right,
            self.spacing.bottom,
            self.spacing.left,
        )
    }

    open spec fn spec_children() -> nat {
        W::spec_children() + 1
    }

    open spec fn spec_parent_index(&self) -> usize {
        self.inner.spec_parent_index()
    }

    open spec fn spec_is_selectable(&self) -> bool {
        false
    }

    open spec fn spec_measures_to(&self, measure_spec: MeasureSpec, after: Self) -> bool {
        self.inner.spec_measures_to(
            MeasureSpec {
                width: measure_spec.width.spec_shrink(wrap_u32(self.spacing.left + self.spacing.right)),
                height: measure_spec.height.spec_shrink(wrap_u32(self.spacing.top + self.spacing.bottom)),
            },
            after.inner,
        ) && after == (Spacing { inner: after.inner, ..*self })
    }

    open spec fn spec_resizes_to(&self, size: MeasuredSize, after: Self) -> bool {
        self.inner.spec_resizes_to(size, after.inner) && after == (Spacing { inner: after.inner, ..*self })
    }

    open spec fn spec_updates_to(&self, after: Self) -> bool {
        self.inner.spec_updates_to(after.inner) && after == (Spacing { inner: after.inner, ..*self })
    }

    open spec fn spec_resets_to(&self, after: Self) -> bool {
        self.inner.spec_resets_to(after.inner) && after == (Spacing { inner: after.inner, ..*self })
    }

    open spec fn spec_tests_input(&self, event: InputEvent, after: Self, r: Option<usize>) -> bool {
        after == (Spacing { inner: after.inner, ..*self }) && match r {
            Some(i) => i >= 1 && self.inner.spec_tests_input(event, after.inner, Some((i - 1) as usize)),
            None => self.inner.spec_tests_input(event, after.inner, None),
        }
    }

    open spec fn spec_handles_input(&self, ctxt: InputContext, event: InputEvent, after: Self, r: bool) -> bool {
        !r && after == *self
    }

    open spec fn spec_state_changes_to(&self, state: WidgetState, after: Self) -> bool {
        exists|mid: Self|
            #![trigger self.on_state_changed.spec_state_call(*self, state, mid)]
            self.on_state_changed.spec_state_call(*self, state, mid)
                && mid.inner.spec_state_changes_to(state, after.inner)
                && after == (Spacing { inner: after.inner, ..mid })
    }

    fn attach(&mut self, parent: usize, self_index: usize) {
        self.inner.attach(parent, self_index);
    }

    /// Places the content after the space on the top and on the left.
    fn arrange(&mut self, position: Position)
        ensures
            final(self).inner.spec_bounding_box().position == padded_inset(
                position,
                old(self).spacing.top,
                old(self).spacing.left,
            ),
    {
        let spacing = self.spacing;
        self.inner.arrange(padded_content_position(position, spacing.top, spacing.left));
        proof {
            law_padding_arranged_at_position(
                position,
                spacing.top,
                spacing.right,
                spacing.bottom,
                spacing.left,
                self.inner.spec_bounding_box().size,
            );
        }
    }

    fn bounding_box(&self) -> (r: BoundingBox) {
        let spacing = self.spacing;
        padded_outer_box(
            self.inner.bounding_box(),
            spacing.top,
            spacing.right,
            spacing.bottom,
            spacing.left,
        )
    }

    /// Measures the content with the space taken off.
    fn measure(&mut self, measure_spec: MeasureSpec) {
        let spacing = self.spacing;
        self.inner.measure(
            MeasureSpec {
                width: measure_spec.width.shrink(wrapping_add_u32(spacing.left, spacing.right)),
                height: measure_spec.height.shrink(wrapping_add_u32(spacing.top, spacing.bottom)),
            },
        );
    }

    fn set_measured_size(&mut self, size: MeasuredSize) {
        self.inner.set_measured_size(size);
    }

    fn children(&self) -> (r: usize) {
        1 + self.inner.children()
    }

    /// Passes the content's wish on, counting the content as the first descendant.
    fn test_input(&mut self, event: InputEvent) -> (r: Option<usize>) {
        // We just relay whatever the child desires
        match self.inner.test_input(event) {
            Some(i) => Some(i + 1),
            None => None,
        }
    }

    /// The spacing itself handles no input.
    fn handle_input(&mut self, ctxt: InputContext, event: InputEvent) -> (r: bool)
        ensures
            !r,
            *final(self) == *old(self),
    {
        false
    }

    fn update(&mut self) {
        self.inner.update();
    }

    fn reset_changed(&mut self) {
        self.inner.reset_changed();
    }

    fn parent_index(&self) -> (r: usize) {
        self.inner.parent_index()
    }

    /// The spacing does not record its parent; the content does.
    fn set_parent(&mut self, index: usize)
        ensures
            *final(self) == *old(self),
    {
    }

    /// Runs the state callback, then tells the content.
    fn on_state_changed(&mut self, state: WidgetState) {
        let callback = self.on_state_changed;
        callback.call(self, state);
        let ghost mid = *self;
        self.inner.on_state_changed(state);
        assert(old(self).on_state_changed.spec_state_call(*old(self), state, mid));
    }

    fn is_selectable(&self) -> (r: bool) {
        false
    }
}

impl<C, W, F> WidgetRenderer<C> for Spacing<W, F> where W: Widget + WidgetRenderer<C>, C: Canvas {
    open spec fn spec_draws(&self, canvas: C, after: Self, canvas_after: C, r: Result<(), C::Error>) -> bool {
        self.inner.spec_draws(canvas, after.inner, canvas_after, r) && after == (Spacing { inner: after.inner, ..*self })
    }

    /// Draws the content; the space around it stays empty.
    fn draw(&mut self, canvas: &mut C) -> (r: Result<(), C::Error>)
        ensures
            final(self).spacing == old(self).spacing,
            final(self).on_state_changed == old(self).on_state_changed,
    {
        self.inner.draw(canvas)
    }
}

} // verus!
