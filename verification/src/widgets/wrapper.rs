//! A transparent widget that binds data to the widget it wraps.
//!
//! Unlike the decorator in `utils::wrapper`, this wrapper takes no index of its own in the
//! widget tree: its index is the wrapped widget's.

use vstd::prelude::*;

use crate::data::{NoData, WidgetData};
use crate::geometry::{BoundingBox, MeasureSpec, MeasuredSize, Position};
use crate::rendering::{Canvas, WidgetRenderer};
use crate::input::{InputContext, InputEvent};
use crate::state::WidgetState;
use crate::widgets::utils::callback::{DataChangedCallback, NoCallback};
use crate::widgets::utils::WidgetDataHolder;
use crate::widgets::Widget;

verus! {

/// A widget bound to data: when the data changed, the callback runs on the widget.
pub struct Wrapper<W, D, F = NoCallback> where D: WidgetData {
    pub widget: W,
    pub data_holder: WidgetDataHolder<W, D, F>,
}

impl Wrapper<(), NoData> {
    /// Binds `data` to `widget`; nothing runs when it changes until a callback is set.
    pub fn wrap<W: Widget, D: WidgetData>(widget: W, data: D) -> (r: Wrapper<W, D>)
        ensures
            r.widget == widget,
            r.data_holder.data == data,
            r.data_holder.on_data_changed == NoCallback,
    {
        Wrapper { widget, data_holder: WidgetDataHolder::new(data) }
    }
}

impl<W, D, F> Wrapper<W, D, F> where W: Widget, D: WidgetData {
    /// Sets the callback that runs on the widget when the data changed.
    pub fn on_data_changed<G>(self, callback: G) -> (r: Wrapper<W, D, G>) where
        G: DataChangedCallback<W, D::Data>,

        ensures
            r.widget == self.widget,
            r.data_holder.data == self.data_holder.data,
            r.data_holder.on_data_changed == callback,
    {
        Wrapper { widget: self.widget, data_holder: self.data_holder.with_callback(callback) }
    }
}

impl<W, D, F> Widget for Wrapper<W, D, F> where
    W: Widget,
    D: WidgetData,
    F: DataChangedCallback<W, D::Data>,
 {
    open spec fn spec_bounding_box(&self) -> BoundingBox {
        self.widget.spec_bounding_box()
    }

    open spec fn spec_children() -> nat {
        W::spec_children()
    }

    open spec fn spec_parent_index(&self) -> usize {
        self.widget.spec_parent_index()
    }

    open spec fn spec_is_selectable(&self) -> bool {
        self.widget.spec_is_selectable()
    }

    open spec fn spec_measures_to(&self, measure_spec: MeasureSpec, after: Self) -> bool {
        self.widget.spec_measures_to(measure_spec, after.widget) && after == (Wrapper { widget: after.widget, ..*self })
    }

    open spec fn spec_resizes_to(&self, size: MeasuredSize, after: Self) -> bool {
        self.widget.spec_resizes_to(size, after.widget) && after == (Wrapper { widget: after.widget, ..*self })
    }

    open spec fn spec_updates_to(&self, after: Self) -> bool {
        exists|mid: W|
            #![trigger mid.spec_updates_to(after.widget)]
            (if self.data_holder.data.spec_changed() {
                self.data_holder.on_data_changed.spec_data_changed_call(self.widget, self.data_holder.data.spec_data(), mid)
            } else {
                mid == self.widget
            }) && mid.spec_updates_to(after.widget) && after.data_holder == self.data_holder
    }

    open spec fn spec_resets_to(&self, after: Self) -> bool {
        &&& after.widget == self.widget
        &&& !after.data_holder.data.spec_changed()
        &&& after.data_holder.data.spec_data() == self.data_holder.data.spec_data()
        &&& after.data_holder.on_data_changed == self.data_holder.on_data_changed
    }

    open spec fn spec_tests_input(&self, event: InputEvent, after: Self, r: Option<usize>) -> bool {
        self.widget.spec_tests_input(event, after.widget, r) && after == (Wrapper { widget: after.widget, ..*self })
    }

    open spec fn spec_handles_input(&self, ctxt: InputContext, event: InputEvent, after: Self, r: bool) -> bool {
        self.widget.spec_handles_input(ctxt, event, after.widget, r) && after == (Wrapper { widget: after.widget, ..*self })
    }

    open spec fn spec_state_changes_to(&self, state: WidgetState, after: Self) -> bool {
        self.widget.spec_state_changes_to(state, after.widget) && after == (Wrapper { widget: after.widget, ..*self })
    }

    fn attach(&mut self, parent: usize, index: usize) {
        self.widget.attach(parent, index);
    }

    fn arrange(&mut self, position: Position) {
        self.widget.arrange(position);
    }

    fn bounding_box(&self) -> (r: BoundingBox) {
        self.widget.bounding_box()
    }

    fn measure(&mut self, measure_spec: MeasureSpec) {
        self.widget.measure(measure_spec);
    }

    fn set_measured_size(&mut self, size: MeasuredSize) {
        self.widget.set_measured_size(size);
    }

    fn children(&self) -> (r: usize) {
        self.widget.children()
    }

    /// The wrapped widget's wish, under the same index.
    fn test_input(&mut self, event: InputEvent) -> (r: Option<usize>) {
        self.widget.test_input(event)
    }

    fn handle_input(&mut self, ctxt: InputContext, event: InputEvent) -> (r: bool) {
        self.widget.handle_input(ctxt, event)
    }

    /// Runs the callback if the data changed, then updates the widget.
    fn update(&mut self) {
        self.data_holder.update(&mut self.widget);
        let ghost mid = self.widget;
        self.widget.update();
        assert(mid.spec_updates_to(self.widget));
    }

    /// Forgets that the data changed.
    fn reset_changed(&mut self) {
        self.data_holder.reset_changed();
    }

    fn parent_index(&self) -> (r: usize) {
        self.widget.parent_index()
    }

    /// The wrapper does not record its parent; the wrapped widget does.
    fn set_parent(&mut self, index: usize)
        ensures
            *final(self) == *old(self),
    {
    }

    fn on_state_changed(&mut self, state: WidgetState) {
        self.widget.on_state_changed(state);
    }

    fn is_selectable(&self) -> (r: bool) {
        self.widget.is_selectable()
    }
}

impl<W, D, F, C> WidgetRenderer<C> for Wrapper<W, D, F> where
    W: Widget + WidgetRenderer<C>,
    D: WidgetData,
    C: Canvas,
 {
    open spec fn spec_draws(&self, canvas: C, after: Self, canvas_after: C, r: Result<(), C::Error>) -> bool {
        self.widget.spec_draws(canvas, after.widget, canvas_after, r) && after == (Wrapper { widget: after.widget, ..*self })
    }

    /// Draws the widget.
    fn draw(&mut self, canvas: &mut C) -> (r: Result<(), C::Error>)
        ensures
            final(self).data_holder == old(self).data_holder,
    {
        self.widget.draw(canvas)
    }
}

} // verus!
