//! Hiding a widget.

use vstd::prelude::*;

use crate::data::WidgetData;
use crate::geometry::{BoundingBox, MeasureSpec, MeasuredSize, Position};
use crate::input::InputEvent;
use crate::rendering::{Canvas, WidgetRenderer};
use crate::state::WidgetState;
use crate::widgets::utils::callback::{NoCallback, StateCallback};
use crate::widgets::utils::decorator::WidgetDecorator;
use crate::widgets::utils::wrapper::{Wrapper, WrapperBindable};
use crate::widgets::Widget;

verus! {

/// Shows or hides its content. A hidden widget takes no space and takes no input.
pub struct Visibility<W, F = NoCallback> {
    pub inner: W,
    pub visibility: bool,
    pub on_state_changed: F,
}

/// The area of a widget whose content covers `inner`: the content's area when visible,
/// none (at the content's position) when hidden.
pub open spec fn visible_box(inner: BoundingBox, visible: bool) -> BoundingBox {
    if visible {
        inner
    } else {
        BoundingBox { position: inner.position, size: MeasuredSize { width: 0, height: 0 } }
    }
}

impl<W> Visibility<W, NoCallback> where W: Widget {
    /// `inner`, visible.
    pub fn new(inner: W) -> (r: Visibility<W>)
        ensures
            r.inner == inner,
            r.visibility,
            r.on_state_changed == NoCallback,
    {
        Visibility { inner, visibility: true, on_state_changed: NoCallback }
    }
}

impl<W, F> WrapperBindable for Visibility<W, F> where
    W: Widget,
    F: StateCallback<Visibility<W, F>> + Copy,
 {
}

impl<W, F> Visibility<W, F> {
    /// The same widget, shown or hidden.
    pub fn visible(self, visibility: bool) -> (r: Self)
        ensures
            r == (Visibility { visibility, ..self }),
    {
        let mut s = self;
        s.set_visible(visibility);
        s
    }

    /// Shows or hides the content.
    pub fn set_visible(&mut self, visibility: bool)
        ensures
            *final(self) == (Visibility { visibility, ..*old(self) }),
    {
        self.visibility = visibility;
    }

    /// Sets the callback that runs on the widget when its state changed.
    pub fn on_state_changed<G>(self, callback: G) -> (r: Visibility<W, G>)
        ensures
            r.inner == self.inner,
            r.visibility == self.visibility,
            r.on_state_changed == callback,
    {
        Visibility { inner: self.inner, visibility: self.visibility, on_state_changed: callback }
    }
}

impl<W, F, D, FD> Wrapper<Visibility<W, F>, D, FD> where W: Widget, D: WidgetData {
    /// The same widget, shown or hidden.
    pub fn visible(self, visibility: bool) -> (r: Self)
        ensures
            r.widget == (Visibility { visibility, ..self.widget }),
            r.data_holder == self.data_holder,
    {
        let mut s = self;
        s.widget.set_visible(visibility);
        s
    }

    /// Sets the callback that runs on the visibility widget when its state changed.
    pub fn on_state_changed<G>(self, callback: G) -> (r: Wrapper<Visibility<W, G>, D, FD>)
        ensures
            r.widget.inner == self.widget.inner,
            r.widget.visibility == self.widget.visibility,
            r.widget.on_state_changed == callback,
            r.data_holder.data == self.data_holder.data,
            r.data_holder.on_data_changed == self.data_holder.on_data_changed,
    {
        Wrapper {
            widget: self.widget.on_state_changed(callback),
            data_holder: self.data_holder.retarget(),
        }
    }
}

impl<W, F> WidgetDecorator for Visibility<W, F> where
    W: Widget,
    F: StateCallback<Visibility<W, F>> + Copy,
 {
    type Widget = W;

    open spec fn spec_widget(&self) -> W {
        self.inner
    }

    open spec fn spec_bounds(&self) -> BoundingBox {
        visible_box(self.inner.spec_bounding_box(), self.visibility)
    }

    open spec fn spec_with_widget(&self, widget: W) -> Self {
        Visibility { inner: widget, ..*self }
    }

    open spec fn spec_decorator_measures_to(&self, measure_spec: MeasureSpec, after: Self) -> bool {
        self.inner.spec_measures_to(measure_spec, after.inner) && after == self.spec_with_widget(after.inner)
    }

    open spec fn spec_decorator_resizes_to(&self, size: MeasuredSize, after: Self) -> bool {
        self.inner.spec_resizes_to(size, after.inner) && after == self.spec_with_widget(after.inner)
    }

    open spec fn spec_decorator_own_update(&self, after: Self) -> bool {
        false
    }

    open spec fn spec_decorator_own_reset(&self, after: Self) -> bool {
        false
    }

    open spec fn spec_decorator_blocks_input(&self) -> bool {
        !self.visibility
    }

    open spec fn spec_decorator_fires(&self, state: WidgetState, after: Self) -> bool {
        self.on_state_changed.spec_state_call(*self, state, after)
    }

    fn blocks_input(&self) -> (r: bool) {
        !self.visibility
    }

    fn widget(&self) -> (r: &W) {
        assert(self.spec_widget() == self.inner);
        &self.inner
    }

    fn widget_mut(&mut self) -> (r: &mut W) {
        &mut self.inner
    }

    fn attach(&mut self, parent: usize, self_index: usize) {
        self.inner.attach(parent, self_index);
    }

    fn bounding_box(&self) -> (r: BoundingBox) {
        if self.visibility {
            self.inner.bounding_box()
        } else {
            BoundingBox {
                position: self.inner.bounding_box().position,
                size: MeasuredSize { width: 0, height: 0 },
            }
        }
    }

    fn measure(&mut self, measure_spec: MeasureSpec) {
        self.inner.measure(measure_spec);
    }

    fn arrange(&mut self, position: Position) {
        self.inner.arrange(position);
    }

    fn set_measured_size(&mut self, size: MeasuredSize) {
        self.inner.set_measured_size(size);
    }

    /// A hidden widget wants no input; a visible one passes its content's wish on.
    fn test_input(&mut self, event: InputEvent) -> (r: Option<usize>) {
        if self.visibility {
            // We just relay whatever the child desires
            match self.inner.test_input(event) {
                Some(i) => Some(i + 1),
                None => None,
            }
        } else {
            None
        }
    }

    /// Runs the widget's state callback.
    fn fire_on_state_changed(&mut self, state: WidgetState)
        ensures
            old(self).on_state_changed.spec_state_call(*old(self), state, *final(self)),
    {
        let callback = self.on_state_changed;
        callback.call(self, state);
    }
}

impl<C, W, F> WidgetRenderer<C> for Visibility<W, F> where W: Widget + WidgetRenderer<C>, C: Canvas {
    open spec fn spec_draws(&self, canvas: C, after: Self, canvas_after: C, r: Result<(), C::Error>) -> bool {
        if self.visibility {
            self.inner.spec_draws(canvas, after.inner, canvas_after, r) && after == (Visibility { inner: after.inner, ..*self })
        } else {
            r is Ok && canvas_after == canvas && after == *self
        }
    }

    /// A visible widget draws its content; a hidden one draws nothing.
    fn draw(&mut self, canvas: &mut C) -> (r: Result<(), C::Error>)
        ensures
            !old(self).visibility ==> r is Ok && *final(canvas) == *old(canvas) && *final(self) == *old(self),
    {
        if self.visibility {
            self.inner.draw(canvas)
        } else {
            Ok(())
        }
    }
}

} // verus!
