//! Background color, as a widget of its own.

use vstd::prelude::*;

use crate::data::WidgetData;
use crate::geometry::{BoundingBox, MeasureSpec, MeasuredSize, Position};
use crate::input::{InputContext, InputEvent};
use crate::state::WidgetState;
use crate::widgets::utils::callback::{NoCallback, StateCallback};
use crate::widgets::utils::wrapper::WrapperBindable;
use crate::widgets::wrapper::Wrapper;
use crate::widgets::Widget;

verus! {

/// How a backend stores a background: implemented by the drawing backends.
pub trait BackgroundProperties {
    type Color;

    /// The color the background is drawn in.
    spec fn spec_background_color(&self) -> Self::Color;

    /// Sets the color the background is drawn in.
    fn set_background_color(&mut self, color: Self::Color)
        ensures
            final(self).spec_background_color() == color,
    ;
}

/// Draws a background behind its content.
pub struct Background<W, P, F = NoCallback> where P: BackgroundProperties {
    pub inner: W,
    pub background_properties: P,
    pub on_state_changed: F,
}

impl<W, P> Background<W, P, NoCallback> where W: Widget, P: BackgroundProperties {
    /// A background behind `inner`, with the backend's default properties.
    pub fn new(inner: W) -> (r: Self) where P: Default
        ensures
            r.inner == inner,
            r.on_state_changed == NoCallback,
    {
        Background { background_properties: P::default(), inner, on_state_changed: NoCallback }
    }
}

impl<W, P, F> WrapperBindable for Background<W, P, F> where
    W: Widget,
    P: BackgroundProperties,
    F: StateCallback<Background<W, P, F>> + Copy,
 {
}

impl<W, P, F> Background<W, P, F> where P: BackgroundProperties {
    /// The same widget with the background drawn in `color`.
    pub fn background_color(self, color: P::Color) -> (r: Self)
        ensures
            r.background_properties.spec_background_color() == color,
            r.inner == self.inner,
            r.on_state_changed == self.on_state_changed,
    {
        let mut s = self;
        s.set_background_color(color);
        s
    }

    /// Draws the background in `color`.
    pub fn set_background_color(&mut self, color: P::Color)
        ensures
            final(self).background_properties.spec_background_color() == color,
            final(self).inner == old(self).inner,
            final(self).on_state_changed == old(self).on_state_changed,
    {
        self.background_properties.set_background_color(color);
    }

    /// Sets the callback that runs on the widget when its state changed.
    pub fn on_state_changed<G>(self, callback: G) -> (r: Background<W, P, G>)
        ensures
            r.inner == self.inner,
            r.background_properties == self.background_properties,
            r.on_state_changed == callback,
    {
        Background {
            inner: self.inner,
            background_properties: self.background_properties,
            on_state_changed: callback,
        }
    }
}

impl<W, P, F, D, FD> Wrapper<Background<W, P, F>, D, FD> where
    W: Widget,
    P: BackgroundProperties,
    D: WidgetData,
 {
    /// The same widget with the background drawn in `color`.
    pub fn background_color(self, color: P::Color) -> (r: Self)
        ensures
            r.widget.background_properties.spec_background_color() == color,
            r.widget.inner == self.widget.inner,
            r.widget.on_state_changed == self.widget.on_state_changed,
            r.data_holder == self.data_holder,
    {
        let mut s = self;
        s.widget.set_background_color(color);
        s
    }

    /// Sets the callback that runs on the background when its state changed.
    pub fn on_state_changed<G>(self, callback: G) -> (r: Wrapper<Background<W, P, G>, D, FD>)
        ensures
            r.widget.inner == self.widget.inner,
            r.widget.background_properties == self.widget.background_properties,
            r.widget.on_state_changed == callback,
            r.data_holder.data == self.data_holder.data,
            r.data_holder.on_data_changed == self.data_holder.on_data_changed,
    {
        Wrapper {
            widget: self.widget.on_state_changed(callback),
            data_holder: self.data_holder.retarget(),
        }
    }
}

impl<W, P, F> Widget for Background<W, P, F> where
    W: Widget,
    P: BackgroundProperties,
    F: StateCallback<Background<W, P, F>> + Copy,
 {
    open spec fn spec_bounding_box(&self) -> BoundingBox {
        self.inner.spec_bounding_box()
    }

    open spec fn spec_children() -> nat {
        W::spec_children() + 1
    }

    open spec fn spec_parent_index(&self) -> usize {
        self.inner.spec_parent_index()
    }

    open spec fn spec_is_selectable(&self) -> bool {
        false
    }

    open spec fn spec_measures_to(&self, measure_spec: MeasureSpec, after: Self) -> bool {
        self.inner.spec_measures_to(measure_spec, after.inner) && after == (Background { inner: after.inner, ..*self })
    }

    open spec fn spec_resizes_to(&self, size: MeasuredSize, after: Self) -> bool {
        self.inner.spec_resizes_to(size, after.inner) && after == (Background { inner: after.inner, ..*self })
    }

    open spec fn spec_updates_to(&self, after: Self) -> bool {
        self.inner.spec_updates_to(after.inner) && after == (Background { inner: after.inner, ..*self })
    }

    open spec fn spec_resets_to(&self, after: Self) -> bool {
        self.inner.spec_resets_to(after.inner) && after == (Background { inner: after.inner, ..*self })
    }

    open spec fn spec_tests_input(&self, event: InputEvent, after: Self, r: Option<usize>) -> bool {
        after == (Background { inner: after.inner, ..*self }) && match r {
            Some(i) => i >= 1 && self.inner.spec_tests_input(event, after.inner, Some((i - 1) as usize)),
            None => self.inner.spec_tests_input(event, after.inner, None),
        }
    }

    open spec fn spec_handles_input(&self, ctxt: InputContext, event: InputEvent, after: Self, r: bool) -> bool {
        !r && after == *self
    }

    open spec fn spec_state_changes_to(&self, state: WidgetState, after: Self) -> bool {
        exists|mid: Self|
            #![trigger self.on_state_changed.spec_state_call(*self, state, mid)]
            self.on_state_changed.spec_state_call(*self, state, mid)
                && mid.inner.spec_state_changes_to(state, after.inner)
                && after == (Background { inner: after.inner, ..mid })
    }

    fn attach(&mut self, parent: usize, self_index: usize) {
        self.inner.attach(parent, self_index);
    }

    fn arrange(&mut self, position: Position) {
        self.inner.arrange(position);
    }

    fn bounding_box(&self) -> (r: BoundingBox) {
        self.inner.bounding_box()
    }

    fn measure(&mut self, measure_spec: MeasureSpec) {
        self.inner.measure(measure_spec);
    }

    fn set_measured_size(&mut self, size: MeasuredSize) {
        self.inner.set_measured_size(size);
    }

    fn children(&self) -> (r: usize) {
        1 + self.inner.children()
    }

    fn parent_index(&self) -> (r: usize) {
        self.inner.parent_index()
    }

    /// The background does not record its parent; the content does.
    fn set_parent(&mut self, index: usize)
        ensures
            *final(self) == *old(self),
    {
    }

    fn update(&mut self) {
        self.inner.update();
    }

    fn reset_changed(&mut self) {
        self.inner.reset_changed();
    }

    /// Passes the content's wish on, counting the content as the first descendant.
    fn test_input(&mut self, event: InputEvent) -> (r: Option<usize>) {
        // We just relay whatever the child desires
        match self.inner.test_input(event) {
            Some(i) => Some(i + 1),
            None => None,
        }
    }

    /// The background itself handles no input.
    fn handle_input(&mut self, ctxt: InputContext, event: InputEvent) -> (r: bool)
        ensures
            !r,
            *final(self) == *old(self),
    {
        false
    }

    /// Runs the state callback, then tells the content.
    fn on_state_changed(&mut self, state: WidgetState) {
        let callback = self.on_state_changed;
        callback.call(self, state);
        let ghost mid = *self;
        self.inner.on_state_changed(state);
        assert(old(self).on_state_changed.spec_state_call(*old(self), state, mid));
    }

    fn is_selectable(&self) -> (r: bool) {
        false
    }
}

} // verus!
