//! Border thickness and color

use vstd::prelude::*;

use crate::data::WidgetData;
use crate::geometry::{
    cast_u32_i32, lemma_wrap_add_sub, u32_to_i32, wrap_i32, wrap_u32, wrapping_add_i32,
    wrapping_add_u32, wrapping_double_u32, wrapping_sub_i32, BoundingBox, MeasureSpec,
    MeasuredSize, Position,
};
use crate::input::InputEvent;
use crate::state::WidgetState;
use crate::widgets::utils::callback::{NoCallback, StateCallback};
use crate::widgets::utils::decorator::WidgetDecorator;
use crate::widgets::utils::wrapper::{Wrapper, WrapperBindable};
use crate::widgets::Widget;

verus! {

/// How a backend stores a border: implemented by the drawing backends.
pub trait BorderProperties {
    type Color;

    /// The color the border is drawn in.
    spec fn spec_border_color(&self) -> Self::Color;

    /// The thickness of the border.
    spec fn spec_border_width(&self) -> u32;

    /// Sets the color the border is drawn in; the thickness stays.
    fn set_border_color(&mut self, color: Self::Color)
        ensures
            final(self).spec_border_color() == color,
            final(self).spec_border_width() == old(self).spec_border_width(),
    ;

    /// The thickness of the border.
    fn get_border_width(&self) -> (r: u32)
        ensures
            r == self.spec_border_width(),
    ;
}

/// The area a border of thickness `bw` around `inner` covers: `bw` more on every side.
pub open spec fn border_box(inner: BoundingBox, bw: u32) -> BoundingBox {
    BoundingBox {
        position: Position {
            x: wrap_i32(inner.position.x - u32_to_i32(bw)),
            y: wrap_i32(inner.position.y - u32_to_i32(bw)),
        },
        size: MeasuredSize {
            width: wrap_u32(inner.size.width + wrap_u32(2 * bw)),
            height: wrap_u32(inner.size.height + wrap_u32(2 * bw)),
        },
    }
}

/// Where the content of a border of thickness `bw` placed at `position` goes.
pub open spec fn border_inset(position: Position, bw: u32) -> Position {
    Position { x: wrap_i32(position.x + u32_to_i32(bw)), y: wrap_i32(position.y + u32_to_i32(bw)) }
}

/// The area a border of thickness `bw` around `inner` covers.
pub fn outer_box(inner: BoundingBox, bw: u32) -> (r: BoundingBox)
    ensures
        r == border_box(inner, bw),
{
    let b = cast_u32_i32(bw);
    let twice = wrapping_double_u32(bw);
    BoundingBox {
        position: Position {
            x: wrapping_sub_i32(inner.position.x, b),
            y: wrapping_sub_i32(inner.position.y, b),
        },
        size: MeasuredSize {
            width: wrapping_add_u32(inner.size.width, twice),
            height: wrapping_add_u32(inner.size.height, twice),
        },
    }
}

/// Where the content of a border of thickness `bw` placed at `position` goes.
pub fn inset(position: Position, bw: u32) -> (r: Position)
    ensures
        r == border_inset(position, bw),
{
    let b = cast_u32_i32(bw);
    Position { x: wrapping_add_i32(position.x, b), y: wrapping_add_i32(position.y, b) }
}

/// The constraints left for the content of a border of thickness `bw`.
/// The constraints for the content of a border of thickness `bw`: `2 * bw` less in each
/// dimension.
pub open spec fn shrink_spec_of(measure_spec: MeasureSpec, bw: u32) -> MeasureSpec {
    MeasureSpec {
        width: measure_spec.width.spec_shrink(wrap_u32(2 * bw)),
        height: measure_spec.height.spec_shrink(wrap_u32(2 * bw)),
    }
}

pub fn shrink_spec(measure_spec: MeasureSpec, bw: u32) -> (r: MeasureSpec)
    ensures
        r == shrink_spec_of(measure_spec, bw),
{
    let twice = wrapping_double_u32(bw);
    MeasureSpec { width: measure_spec.width.shrink(twice), height: measure_spec.height.shrink(twice) }
}

/// Law: a border placed at `position` covers an area that starts at `position`, whatever
/// its thickness.
pub proof fn law_border_arranged_at_position(position: Position, bw: u32, inner_size: MeasuredSize)
    ensures
        border_box(BoundingBox { position: border_inset(position, bw), size: inner_size }, bw).position
            == position,
{
    lemma_wrap_add_sub(position.x, u32_to_i32(bw));
    lemma_wrap_add_sub(position.y, u32_to_i32(bw));
}

/// Draws a border around its content.
pub struct Border<W, P, F = NoCallback> where P: BorderProperties {
    pub inner: W,
    pub border_properties: P,
    pub on_state_changed: F,
}

impl<W, P> Border<W, P, NoCallback> where W: Widget, P: BorderProperties {
    /// A border around `inner`, with the backend's default properties.
    pub fn new(inner: W) -> (r: Border<W, P>) where P: Default
        ensures
            r.inner == inner,
            call_ensures(P::default, (), r.border_properties),
            r.on_state_changed == NoCallback,
    {
        Border { border_properties: P::default(), inner, on_state_changed: NoCallback }
    }
}

impl<W, P, F> WrapperBindable for Border<W, P, F> where
    W: Widget,
    P: BorderProperties,
    F: StateCallback<Border<W, P, F>> + Copy,
 {
}

impl<W, P, F> Border<W, P, F> where P: BorderProperties {
    /// The same widget with the border drawn in `color`.
    pub fn border_color(self, color: P::Color) -> (r: Self)
        ensures
            r.border_properties.spec_border_color() == color,
            r.border_properties.spec_border_width() == self.border_properties.spec_border_width(),
            r.inner == self.inner,
            r.on_state_changed == self.on_state_changed,
    {
        let mut s = self;
        s.set_border_color(color);
        s
    }

    /// Draws the border in `color`.
    pub fn set_border_color(&mut self, color: P::Color)
        ensures
            final(self).border_properties.spec_border_color() == color,
            final(self).border_properties.spec_border_width() == old(self).border_properties.spec_border_width(),
            final(self).inner == old(self).inner,
            final(self).on_state_changed == old(self).on_state_changed,
    {
        self.border_properties.set_border_color(color);
    }

    /// Sets the callback that runs on the widget when its state changed.
    pub fn on_state_changed<G>(self, callback: G) -> (r: Border<W, P, G>)
        ensures
            r.inner == self.inner,
            r.border_properties == self.border_properties,
            r.on_state_changed == callback,
    {
        Border {
            inner: self.inner,
            border_properties: self.border_properties,
            on_state_changed: callback,
        }
    }
}

impl<W, P, F, D, FD> Wrapper<Border<W, P, F>, D, FD> where
    W: Widget,
    P: BorderProperties,
    D: WidgetData,
 {
    /// The same widget with the border drawn in `color`.
    pub fn border_color(self, color: P::Color) -> (r: Self)
        ensures
            r.widget.border_properties.spec_border_color() == color,
            r.widget.border_properties.spec_border_width() == self.widget.border_properties.spec_border_width(),
            r.widget.inner == self.widget.inner,
            r.widget.on_state_changed == self.widget.on_state_changed,
            r.data_holder == self.data_holder,
    {
        let mut s = self;
        s.widget.set_border_color(color);
        s
    }

    /// Sets the callback that runs on the border when its state changed.
    pub fn on_state_changed<G>(self, callback: G) -> (r: Wrapper<Border<W, P, G>, D, FD>)
        ensures
            r.widget.inner == self.widget.inner,
            r.widget.border_properties == self.widget.border_properties,
            r.widget.on_state_changed == callback,
            r.data_holder.data == self.data_holder.data,
            r.data_holder.on_data_changed == self.data_holder.on_data_changed,
    {
        Wrapper {
            widget: self.widget.on_state_changed(callback),
            data_holder: self.data_holder.retarget(),
        }
    }
}

impl<W, P, F> WidgetDecorator for Border<W, P, F> where
    W: Widget,
    P: BorderProperties,
    F: StateCallback<Border<W, P, F>> + Copy,
 {
    type Widget = W;

    open spec fn spec_widget(&self) -> W {
        self.inner
    }

    /// The content's area with the border around it.
    open spec fn spec_bounds(&self) -> BoundingBox {
        border_box(self.inner.spec_bounding_box(), self.border_properties.spec_border_width())
    }

    open spec fn spec_with_widget(&self, widget: W) -> Self {
        Border { inner: widget, ..*self }
    }

    open spec fn spec_decorator_measures_to(&self, measure_spec: MeasureSpec, after: Self) -> bool {
        self.inner.spec_measures_to(shrink_spec_of(measure_spec, self.border_properties.spec_border_width()), after.inner) && after == self.spec_with_widget(after.inner)
    }

    open spec fn spec_decorator_resizes_to(&self, size: MeasuredSize, after: Self) -> bool {
        self.inner.spec_resizes_to(size, after.inner) && after == self.spec_with_widget(after.inner)
    }

    open spec fn spec_decorator_own_update(&self, after: Self) -> bool {
        false
    }

    open spec fn spec_decorator_own_reset(&self, after: Self) -> bool {
        false
    }

    open spec fn spec_decorator_blocks_input(&self) -> bool {
        false
    }

    open spec fn spec_decorator_fires(&self, state: WidgetState, after: Self) -> bool {
        self.on_state_changed.spec_state_call(*self, state, after)
    }

    fn blocks_input(&self) -> (r: bool) {
        false
    }

    fn widget(&self) -> (r: &W) {
        assert(self.spec_widget() == self.inner);
        &self.inner
    }

    fn widget_mut(&mut self) -> (r: &mut W) {
        &mut self.inner
    }

    fn attach(&mut self, parent: usize, self_index: usize) {
        self.inner.attach(parent, self_index);
    }

    /// Places the content inside the border.
    fn arrange(&mut self, position: Position)
        ensures
            final(self).inner.spec_bounding_box().position == border_inset(
                position,
                old(self).border_properties.spec_border_width(),
            ),
    {
        let bw = self.border_properties.get_border_width();
        self.inner.arrange(inset(position, bw));
        proof {
            law_border_arranged_at_position(position, bw, self.inner.spec_bounding_box().size);
        }
    }

    fn bounding_box(&self) -> (r: BoundingBox) {
        let bw = self.border_properties.get_border_width();
        outer_box(self.inner.bounding_box(), bw)
    }

    /// Measures the content with the border's thickness taken off both sides.
    fn measure(&mut self, measure_spec: MeasureSpec) {
        let bw = self.border_properties.get_border_width();
        self.inner.measure(shrink_spec(measure_spec, bw));
    }

    fn set_measured_size(&mut self, size: MeasuredSize) {
        self.inner.set_measured_size(size);
    }

    /// Runs the widget's state callback.
    fn fire_on_state_changed(&mut self, state: WidgetState)
        ensures
            old(self).on_state_changed.spec_state_call(*old(self), state, *final(self)),
    {
        let callback = self.on_state_changed;
        callback.call(self, state);
    }
}

} // verus!
