//! Border thickness and color, as a widget held in a `Container`.

use vstd::prelude::*;

use crate::data::{NoData, WidgetData};
use crate::geometry::{BoundingBox, MeasureSpec, MeasuredSize, Position};
use crate::input::{InputContext, InputEvent};
use crate::state::WidgetState;
use crate::widgets::border::{
    shrink_spec_of,
    border_box, border_inset, inset, law_border_arranged_at_position, outer_box, shrink_spec,
};
use crate::widgets::container::Container;
use crate::widgets::utils::callback::{DataChangedCallback, NoCallback, StateCallback};
use crate::widgets::utils::WidgetDataHolder;
use crate::widgets::Widget;

verus! {

/// How a backend stores a border: implemented by the drawing backends.
pub trait BorderProperties {
    type Color;

    /// The color the border is drawn in.
    spec fn spec_border_color(&self) -> Self::Color;

    /// The thickness of the border.
    spec fn spec_border_width(&self) -> u32;

    /// Sets the color the border is drawn in; the thickness stays.
    fn border_color(&mut self, color: Self::Color)
        ensures
            final(self).spec_border_color() == color,
            final(self).spec_border_width() == old(self).spec_border_width(),
    ;

    /// The thickness of the border.
    fn get_border_width(&self) -> (r: u32)
        ensures
            r == self.spec_border_width(),
    ;
}

/// A border around `inner`.
pub struct Border<I, P> where P: BorderProperties {
    pub inner: I,
    pub border_properties: P,
}

impl<I, P> Border<I, P> where I: Widget, P: BorderProperties + Default {
    /// A border around `inner` with the backend's default properties, in a container.
    pub fn new(inner: I) -> (r: Container<Border<I, P>, NoData>)
        ensures
            r.widget.inner == inner,
            call_ensures(P::default, (), r.widget.border_properties),
            r.parent_index == 0,
            r.state == WidgetState(0),
            r.data_holder.data == NoData,
            r.on_state_changed == NoCallback,
    {
        Container::new(Border { border_properties: P::default(), inner })
    }
}

impl<W, P> Border<W, P> where W: Widget, P: BorderProperties {
    /// Draws the border in `color`.
    pub fn border_color(&mut self, color: P::Color)
        ensures
            final(self).border_properties.spec_border_color() == color,
            final(self).border_properties.spec_border_width() == old(self).border_properties.spec_border_width(),
            final(self).inner == old(self).inner,
    {
        self.border_properties.border_color(color);
    }
}

impl<W, P, FS, FD> Container<Border<W, P>, NoData, FS, FD> where W: Widget, P: BorderProperties {
    /// Binds the border to `data`; the callbacks start out doing nothing and the state
    /// starts out as the default.
    pub fn bind<D>(self, data: D) -> (r: Container<Border<W, P>, D>) where D: WidgetData
        ensures
            r.parent_index == self.parent_index,
            r.widget == self.widget,
            r.data_holder.data == data,
            r.data_holder.on_data_changed == NoCallback,
            r.on_state_changed == NoCallback,
            r.state == WidgetState(0),
    {
        Container {
            parent_index: self.parent_index,
            widget: self.widget,
            data_holder: WidgetDataHolder::new(data),
            on_state_changed: NoCallback,
            state: WidgetState::default(),
        }
    }
}

impl<W, P, D, FS, FD> Container<Border<W, P>, D, FS, FD> where
    W: Widget,
    P: BorderProperties,
    D: WidgetData,
 {
    /// The same widget with the border drawn in `color`.
    pub fn border_color(self, color: P::Color) -> (r: Self)
        ensures
            r.widget.border_properties.spec_border_color() == color,
            r.widget.border_properties.spec_border_width() == self.widget.border_properties.spec_border_width(),
            r.widget.inner == self.widget.inner,
            r.parent_index == self.parent_index,
            r.data_holder == self.data_holder,
            r.state == self.state,
            r.on_state_changed == self.on_state_changed,
    {
        let mut s = self;
        s.widget.border_color(color);
        s
    }
}

impl<W, P, D, FS, FD> Widget for Container<Border<W, P>, D, FS, FD> where
    W: Widget,
    P: BorderProperties,
    D: WidgetData,
    FS: StateCallback<Border<W, P>> + Copy,
    FD: DataChangedCallback<Border<W, P>, D::Data>,
 {
    /// The content's area with the border around it.
    open spec fn spec_bounding_box(&self) -> BoundingBox {
        border_box(
            self.widget.inner.spec_bounding_box(),
            self.widget.border_properties.spec_border_width(),
        )
    }

    open spec fn spec_children() -> nat {
        W::spec_children() + 1
    }

    open spec fn spec_parent_index(&self) -> usize {
        self.parent_index
    }

    open spec fn spec_is_selectable(&self) -> bool {
        false
    }

    open spec fn spec_measures_to(&self, measure_spec: MeasureSpec, after: Self) -> bool {
        self.widget.inner.spec_measures_to(
            shrink_spec_of(measure_spec, self.widget.border_properties.spec_border_width()),
            after.widget.inner,
        ) && after == (Container { widget: Border { inner: after.widget.inner, ..self.widget }, ..*self })
    }

    open spec fn spec_resizes_to(&self, size: MeasuredSize, after: Self) -> bool {
        self.widget.inner.spec_resizes_to(size, after.widget.inner) && after == (Container { widget: Border { inner: after.widget.inner, ..self.widget }, ..*self })
    }

    open spec fn spec_updates_to(&self, after: Self) -> bool {
        if self.data_holder.data.spec_changed() {
            self.data_holder.on_data_changed.spec_data_changed_call(
                self.widget,
                self.data_holder.data.spec_data(),
                after.widget,
            ) && after == (Container { widget: after.widget, ..*self })
        } else {
            after == *self
        }
    }

    open spec fn spec_resets_to(&self, after: Self) -> bool {
        &&& after == (Container { data_holder: after.data_holder, ..*self })
        &&& !after.data_holder.data.spec_changed()
        &&& after.data_holder.data.spec_data() == self.data_holder.data.spec_data()
        &&& after.data_holder.on_data_changed == self.data_holder.on_data_changed
    }

    open spec fn spec_tests_input(&self, event: InputEvent, after: Self, r: Option<usize>) -> bool {
        after == (Container { widget: Border { inner: after.widget.inner, ..self.widget }, ..*self }) && match r {
            Some(i) => i >= 1 && self.widget.inner.spec_tests_input(event, after.widget.inner, Some((i - 1) as usize)),
            None => self.widget.inner.spec_tests_input(event, after.widget.inner, None),
        }
    }

    open spec fn spec_handles_input(&self, ctxt: InputContext, event: InputEvent, after: Self, r: bool) -> bool {
        !r && after == *self
    }

    open spec fn spec_state_changes_to(&self, state: WidgetState, after: Self) -> bool {
        exists|inner: W|
            #![trigger self.widget.inner.spec_state_changes_to(state, inner)]
            self.widget.inner.spec_state_changes_to(state, inner) && ({
                let bits = (self.state.0 & 0x8000_0000) | (state.0 & !0x8000_0000u32);
                let border = Border { inner, ..self.widget };
                if bits == self.state.0 {
                    after == (Container { widget: border, ..*self })
                } else {
                    self.on_state_changed.spec_state_call(border, WidgetState(bits), after.widget)
                        && after == (Container { widget: after.widget, state: WidgetState(bits), ..*self })
                }
            })
    }

    fn attach(&mut self, parent: usize, self_index: usize)
        ensures
            final(self).parent_index == parent,
    {
        self.parent_index = parent;
        self.widget.inner.attach(self_index, self_index.wrapping_add(1));
    }

    /// Places the content inside the border.
    fn arrange(&mut self, position: Position)
        ensures
            final(self).widget.inner.spec_bounding_box().position == border_inset(
                position,
                old(self).widget.border_properties.spec_border_width(),
            ),
    {
        let bw = self.widget.border_properties.get_border_width();
        self.widget.inner.arrange(inset(position, bw));
        proof {
            law_border_arranged_at_position(position, bw, self.widget.inner.spec_bounding_box().size);
        }
    }

    fn bounding_box(&self) -> (r: BoundingBox) {
        let bw = self.widget.border_properties.get_border_width();
        outer_box(self.widget.inner.bounding_box(), bw)
    }

    /// Measures the content with the border's thickness taken off both sides.
    fn measure(&mut self, measure_spec: MeasureSpec) {
        let bw = self.widget.border_properties.get_border_width();
        self.widget.inner.measure(shrink_spec(measure_spec, bw));
    }

    fn set_measured_size(&mut self, size: MeasuredSize) {
        self.widget.inner.set_measured_size(size);
    }

    fn children(&self) -> (r: usize) {
        1 + self.widget.inner.children()
    }

    /// Passes the content's wish on, counting the content as the first descendant.
    fn test_input(&mut self, event: InputEvent) -> (r: Option<usize>) {
        // We just relay whatever the child desires
        match self.widget.inner.test_input(event) {
            Some(i) => Some(i + 1),
            None => None,
        }
    }

    /// The border itself handles no input.
    fn handle_input(&mut self, ctxt: InputContext, event: InputEvent) -> (r: bool)
        ensures
            !r,
            *final(self) == *old(self),
    {
        false
    }

    /// Runs the data callback on the border if the bound data changed.
    fn update(&mut self) {
        self.data_holder.update(&mut self.widget);
    }

    fn reset_changed(&mut self) {
        self.data_holder.reset_changed();
    }

    fn parent_index(&self) -> (r: usize) {
        self.parent_index
    }

    fn set_parent(&mut self, index: usize)
        ensures
            final(self).parent_index == index,
    {
        self.parent_index = index;
    }

    /// The content hears of the new state first; then, if the container's own state bits
    /// changed, the state callback runs on the border.
    fn on_state_changed(&mut self, state: WidgetState)
        ensures
            final(self).state.0 == (old(self).state.0 & 0x8000_0000) | (state.0 & !0x8000_0000u32),
    {
        // propagate state to child widget
        self.widget.inner.on_state_changed(state);
        let ghost inner = self.widget.inner;
        assert(old(self).widget.inner.spec_state_changes_to(state, inner));
        if self.state.change_state(state.0) {
            let callback = self.on_state_changed;
            callback.call(&mut self.widget, self.state);
        }
    }

    fn is_selectable(&self) -> (r: bool) {
        false
    }
}

} // verus!
