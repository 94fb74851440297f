//! Binding data to a widget that has no data of its own.

use vstd::prelude::*;

use crate::data::WidgetData;
use crate::geometry::{BoundingBox, MeasureSpec, MeasuredSize, Position};
use crate::input::InputEvent;
use crate::rendering::{Canvas, WidgetRenderer};
use crate::state::WidgetState;
use crate::widgets::utils::callback::{DataChangedCallback, NoCallback};
use crate::widgets::utils::decorator::WidgetDecorator;
use crate::widgets::utils::WidgetDataHolder;
use crate::widgets::Widget;

verus! {

/// A widget bound to data: when the data changed, the callback runs on the widget.
pub struct Wrapper<W, D, F = NoCallback> where D: WidgetData {
    pub widget: W,
    pub data_holder: WidgetDataHolder<W, D, F>,
}

/// Lets you bind data to a widget.
///
/// Bound data allows manipulating the widget when the data changes.
pub trait WrapperBindable: Widget + Sized {
    /// Binds `data` to the widget; nothing runs when it changes until a callback is set.
    fn bind<D>(self, data: D) -> (r: Wrapper<Self, D>) where D: WidgetData
        ensures
            r.widget == self,
            r.data_holder.data == data,
            r.data_holder.on_data_changed == NoCallback,
    {
        Wrapper { widget: self, data_holder: WidgetDataHolder::new(data) }
    }
}

impl<W, D, F> Wrapper<W, D, F> where W: Widget, D: WidgetData {
    /// Sets the callback that runs on the widget when the data changed.
    pub fn on_data_changed<G>(self, callback: G) -> (r: Wrapper<W, D, G>) where
        G: DataChangedCallback<W, D::Data>,

        ensures
            r.widget == self.widget,
            r.data_holder.data == self.data_holder.data,
            r.data_holder.on_data_changed == callback,
    {
        Wrapper { widget: self.widget, data_holder: self.data_holder.with_callback(callback) }
    }
}

impl<W, D, F> WidgetDecorator for Wrapper<W, D, F> where
    W: Widget,
    D: WidgetData,
    F: DataChangedCallback<W, D::Data>,
 {
    type Widget = W;

    open spec fn spec_widget(&self) -> W {
        self.widget
    }

    open spec fn spec_bounds(&self) -> BoundingBox {
        self.widget.spec_bounding_box()
    }

    open spec fn spec_with_widget(&self, widget: W) -> Self {
        Wrapper { widget: widget, ..*self }
    }

    open spec fn spec_decorator_measures_to(&self, measure_spec: MeasureSpec, after: Self) -> bool {
        self.widget.spec_measures_to(measure_spec, after.widget) && after == self.spec_with_widget(after.widget)
    }

    open spec fn spec_decorator_resizes_to(&self, size: MeasuredSize, after: Self) -> bool {
        self.widget.spec_resizes_to(size, after.widget) && after == self.spec_with_widget(after.widget)
    }

    open spec fn spec_decorator_own_update(&self, after: Self) -> bool {
        exists|mid: W|
            #![trigger mid.spec_updates_to(after.widget)]
            (if self.data_holder.data.spec_changed() {
                self.data_holder.on_data_changed.spec_data_changed_call(self.widget, self.data_holder.data.spec_data(), mid)
            } else {
                mid == self.widget
            }) && mid.spec_updates_to(after.widget) && after.data_holder == self.data_holder
    }

    open spec fn spec_decorator_own_reset(&self, after: Self) -> bool {
        &&& after.widget == self.widget
        &&& !after.data_holder.data.spec_changed()
        &&& after.data_holder.data.spec_data() == self.data_holder.data.spec_data()
        &&& after.data_holder.on_data_changed == self.data_holder.on_data_changed
    }

    open spec fn spec_decorator_blocks_input(&self) -> bool {
        false
    }

    open spec fn spec_decorator_fires(&self, state: WidgetState, after: Self) -> bool {
        false
    }

    fn blocks_input(&self) -> (r: bool) {
        false
    }

    fn widget(&self) -> (r: &W) {
        assert(self.spec_widget() == self.widget);
        &self.widget
    }

    fn widget_mut(&mut self) -> (r: &mut W) {
        &mut self.widget
    }

    fn attach(&mut self, parent: usize, self_index: usize) {
        self.widget.attach(parent, self_index);
    }

    fn bounding_box(&self) -> (r: BoundingBox) {
        self.widget.bounding_box()
    }

    fn measure(&mut self, measure_spec: MeasureSpec) {
        self.widget.measure(measure_spec);
    }

    fn arrange(&mut self, position: Position) {
        self.widget.arrange(position);
    }

    fn set_measured_size(&mut self, size: MeasuredSize) {
        self.widget.set_measured_size(size);
    }

    /// Runs the callback if the data changed, then updates the widget.
    fn update(&mut self) {
        self.data_holder.update(&mut self.widget);
        let ghost mid = self.widget;
        self.widget.update();
        assert(mid.spec_updates_to(self.widget));
    }

    /// Forgets that the data changed.
    fn reset_changed(&mut self) {
        self.data_holder.reset_changed();
    }
}

impl<W, D, F, C> WidgetRenderer<C> for Wrapper<W, D, F> where
    W: Widget + WidgetRenderer<C>,
    D: WidgetData,
    C: Canvas,
 {
    open spec fn spec_draws(&self, canvas: C, after: Self, canvas_after: C, r: Result<(), C::Error>) -> bool {
        self.widget.spec_draws(canvas, after.widget, canvas_after, r) && after == (Wrapper { widget: after.widget, ..*self })
    }

    /// Draws the widget.
    fn draw(&mut self, canvas: &mut C) -> (r: Result<(), C::Error>)
        ensures
            final(self).data_holder == old(self).data_holder,
    {
        self.widget.draw(canvas)
    }
}

} // verus!
