//! Background color

use vstd::prelude::*;

use crate::data::WidgetData;
use crate::geometry::{BoundingBox, MeasureSpec, MeasuredSize, Position};
use crate::input::InputEvent;
use crate::state::WidgetState;
use crate::widgets::utils::callback::{NoCallback, StateCallback};
use crate::widgets::utils::decorator::WidgetDecorator;
use crate::widgets::utils::wrapper::{Wrapper, WrapperBindable};
use crate::widgets::Widget;

verus! {

/// How a backend stores a background: implemented by the drawing backends.
pub trait BackgroundProperties {
    type Color;

    /// The color the background is drawn in.
    spec fn spec_background_color(&self) -> Self::Color;

    /// Sets the color the background is drawn in.
    fn set_background_color(&mut self, color: Self::Color)
        ensures
            final(self).spec_background_color() == color,
    ;
}

/// Draws a background behind its content.
pub struct Background<W, P, F = NoCallback> where P: BackgroundProperties {
    pub inner: W,
    pub background_properties: P,
    pub on_state_changed: F,
}

impl<W, P> Background<W, P, NoCallback> where W: Widget, P: BackgroundProperties {
    /// A background behind `inner`, with the backend's default properties.
    pub fn new(inner: W) -> (r: Self) where P: Default
        ensures
            r.inner == inner,
            call_ensures(P::default, (), r.background_properties),
            r.on_state_changed == NoCallback,
    {
        Background { background_properties: P::default(), inner, on_state_changed: NoCallback }
    }
}

impl<W, P, F> WrapperBindable for Background<W, P, F> where
    W: Widget,
    P: BackgroundProperties,
    F: StateCallback<Background<W, P, F>> + Copy,
 {
}

impl<W, P, F> Background<W, P, F> where P: BackgroundProperties {
    /// The same widget with the background drawn in `color`.
    pub fn background_color(self, color: P::Color) -> (r: Self)
        ensures
            r.background_properties.spec_background_color() == color,
            r.inner == self.inner,
            r.on_state_changed == self.on_state_changed,
    {
        let mut s = self;
        s.set_background_color(color);
        s
    }

    /// Draws the background in `color`.
    pub fn set_background_color(&mut self, color: P::Color)
        ensures
            final(self).background_properties.spec_background_color() == color,
            final(self).inner == old(self).inner,
            final(self).on_state_changed == old(self).on_state_changed,
    {
        self.background_properties.set_background_color(color);
    }

    /// Sets the callback that runs on the widget when its state changed.
    pub fn on_state_changed<G>(self, callback: G) -> (r: Background<W, P, G>)
        ensures
            r.inner == self.inner,
            r.background_properties == self.background_properties,
            r.on_state_changed == callback,
    {
        Background {
            inner: self.inner,
            background_properties: self.background_properties,
            on_state_changed: callback,
        }
    }
}

impl<W, P, F, D, FD> Wrapper<Background<W, P, F>, D, FD> where
    W: Widget,
    P: BackgroundProperties,
    D: WidgetData,
 {
    /// The same widget with the background drawn in `color`.
    pub fn background_color(self, color: P::Color) -> (r: Self)
        ensures
            r.widget.background_properties.spec_background_color() == color,
            r.widget.inner == self.widget.inner,
            r.widget.on_state_changed == self.widget.on_state_changed,
            r.data_holder == self.data_holder,
    {
        let mut s = self;
        s.widget.set_background_color(color);
        s
    }

    /// Sets the callback that runs on the background when its state changed.
    pub fn on_state_changed<G>(self, callback: G) -> (r: Wrapper<Background<W, P, G>, D, FD>)
        ensures
            r.widget.inner == self.widget.inner,
            r.widget.background_properties == self.widget.background_properties,
            r.widget.on_state_changed == callback,
            r.data_holder.data == self.data_holder.data,
            r.data_holder.on_data_changed == self.data_holder.on_data_changed,
    {
        Wrapper {
            widget: self.widget.on_state_changed(callback),
            data_holder: self.data_holder.retarget(),
        }
    }
}

impl<W, P, F> WidgetDecorator for Background<W, P, F> where
    W: Widget,
    P: BackgroundProperties,
    F: StateCallback<Background<W, P, F>> + Copy,
 {
    type Widget = W;

    open spec fn spec_widget(&self) -> W {
        self.inner
    }

    open spec fn spec_bounds(&self) -> BoundingBox {
        self.inner.spec_bounding_box()
    }

    open spec fn spec_with_widget(&self, widget: W) -> Self {
        Background { inner: widget, ..*self }
    }

    open spec fn spec_decorator_measures_to(&self, measure_spec: MeasureSpec, after: Self) -> bool {
        self.inner.spec_measures_to(measure_spec, after.inner) && after == self.spec_with_widget(after.inner)
    }

    open spec fn spec_decorator_resizes_to(&self, size: MeasuredSize, after: Self) -> bool {
        self.inner.spec_resizes_to(size, after.inner) && after == self.spec_with_widget(after.inner)
    }

    open spec fn spec_decorator_own_update(&self, after: Self) -> bool {
        false
    }

    open spec fn spec_decorator_own_reset(&self, after: Self) -> bool {
        false
    }

    open spec fn spec_decorator_blocks_input(&self) -> bool {
        false
    }

    open spec fn spec_decorator_fires(&self, state: WidgetState, after: Self) -> bool {
        self.on_state_changed.spec_state_call(*self, state, after)
    }

    fn blocks_input(&self) -> (r: bool) {
        false
    }

    fn widget(&self) -> (r: &W) {
        assert(self.spec_widget() == self.inner);
        &self.inner
    }

    fn widget_mut(&mut self) -> (r: &mut W) {
        &mut self.inner
    }

    fn attach(&mut self, parent: usize, self_index: usize) {
        self.inner.attach(parent, self_index);
    }

    fn bounding_box(&self) -> (r: BoundingBox) {
        self.inner.bounding_box()
    }

    fn measure(&mut self, measure_spec: MeasureSpec) {
        self.inner.measure(measure_spec);
    }

    fn arrange(&mut self, position: Position) {
        self.inner.arrange(position);
    }

    fn set_measured_size(&mut self, size: MeasuredSize) {
        self.inner.set_measured_size(size);
    }

    /// Runs the widget's state callback.
    fn fire_on_state_changed(&mut self, state: WidgetState)
        ensures
            old(self).on_state_changed.spec_state_call(*old(self), state, *final(self)),
    {
        let callback = self.on_state_changed;
        callback.call(self, state);
    }
}

} // verus!
