//! Empty space around a widget, held together with bound data.

use vstd::prelude::*;

use core::marker::PhantomData;

use crate::data::{NoData, WidgetData};
use crate::geometry::{BoundingBox, MeasureSpec, MeasuredSize, Position};
use crate::input::{InputContext, InputEvent};
use crate::state::WidgetState;
use crate::widgets::primitives::spacing::{
    law_padding_arranged_at_position, padded_box, padded_content_position, padded_inset,
    padded_outer_box,
};
use crate::widgets::utils::callback::{DataChangedCallback, NoCallback};
use crate::widgets::utils::WidgetDataHolder;
use crate::widgets::Widget;

verus! {

/// The space on each side of a widget.
#[derive(Clone, Copy, Debug)]
pub struct SpacingSpec {
    pub top: u32,
    pub right: u32,
    pub bottom: u32,
    pub left: u32,
}

impl Default for SpacingSpec {
    fn default() -> (r: SpacingSpec)
        ensures
            r == (SpacingSpec { top: 0, right: 0, bottom: 0, left: 0 }),
    {
        SpacingSpec { top: 0, right: 0, bottom: 0, left: 0 }
    }
}

/// A widget held together with the data it is bound to.
pub struct WidgetWrapper<W, D, F = NoCallback> where D: WidgetData {
    pub widget: W,
    pub data_holder: WidgetDataHolder<W, D, F>,
}

/// Adds empty space around its content. `D` is the type of the data it is bound to.
pub struct Spacing<W, D> where D: WidgetData {
    pub inner: W,
    pub spacing: SpacingSpec,
    pub _marker: PhantomData<D>,
}

impl<W> Spacing<W, NoData> where W: Widget {
    /// `inner` with no space around it, bound to no data.
    pub fn new(inner: W) -> (r: WidgetWrapper<Spacing<W, NoData>, NoData>)
        ensures
            r.widget.inner == inner,
            r.widget.spacing == (SpacingSpec { top: 0, right: 0, bottom: 0, left: 0 }),
            r.data_holder.data == NoData,
            r.data_holder.on_data_changed == NoCallback,
    {
        WidgetWrapper {
            widget: Spacing { spacing: SpacingSpec::default(), inner, _marker: PhantomData },
            data_holder: WidgetDataHolder::default(),
        }
    }

    /// The same widget, for data of type `D`.
    pub fn bind<D>(self) -> (r: Spacing<W, D>) where D: WidgetData
        ensures
            r.inner == self.inner,
            r.spacing == self.spacing,
    {
        Spacing { inner: self.inner, spacing: self.spacing, _marker: PhantomData }
    }
}

impl<W, D> Spacing<W, D> where W: Widget, D: WidgetData {
    /// Puts `space` on the left.
    pub fn set_left(&mut self, space: u32)
        ensures
            *final(self) == (Spacing { spacing: SpacingSpec { left: space, ..old(self).spacing }, ..*old(self) }),
    {
        self.spacing.left = space;
    }

    /// Puts `space` on the right.
    pub fn set_right(&mut self, space: u32)
        ensures
            *final(self) == (Spacing { spacing: SpacingSpec { right: space, ..old(self).spacing }, ..*old(self) }),
    {
        self.spacing.right = space;
    }

    /// Puts `space` on the top.
    pub fn set_top(&mut self, space: u32)
        ensures
            *final(self) == (Spacing { spacing: SpacingSpec { top: space, ..old(self).spacing }, ..*old(self) }),
    {
        self.spacing.top = space;
    }

    /// Puts `space` on the bottom.
    pub fn set_bottom(&mut self, space: u32)
        ensures
            *final(self) == (Spacing { spacing: SpacingSpec { bottom: space, ..old(self).spacing }, ..*old(self) }),
    {
        self.spacing.bottom = space;
    }
}

impl<W> WidgetWrapper<Spacing<W, NoData>, NoData, NoCallback> where W: Widget {
    /// Binds the widget to `data`; nothing runs when it changes until a callback is set.
    pub fn bind<D>(self, data: D) -> (r: WidgetWrapper<Spacing<W, D>, D>) where D: WidgetData
        ensures
            r.widget.inner == self.widget.inner,
            r.widget.spacing == self.widget.spacing,
            r.data_holder.data == data,
            r.data_holder.on_data_changed == NoCallback,
    {
        WidgetWrapper {
            widget: self.widget.bind::<D>(),
            data_holder: self.data_holder.bind(data).retarget(),
        }
    }
}

impl<W, D, F> WidgetWrapper<Spacing<W, D>, D, F> where W: Widget, D: WidgetData {
    /// The same widget with `space` on the left.
    pub fn left(self, space: u32) -> (r: Self)
        ensures
            r.widget == (Spacing { spacing: SpacingSpec { left: space, ..self.widget.spacing }, ..self.widget }),
            r.data_holder == self.data_holder,
    {
        let mut s = self;
        s.widget.set_left(space);
        s
    }

    /// The same widget with `space` on the right.
    pub fn right(self, space: u32) -> (r: Self)
        ensures
            r.widget == (Spacing { spacing: SpacingSpec { right: space, ..self.widget.spacing }, ..self.widget }),
            r.data_holder == self.data_holder,
    {
        let mut s = self;
        s.widget.set_right(space);
        s
    }

    /// The same widget with `space` on the top.
    pub fn top(self, space: u32) -> (r: Self)
        ensures
            r.widget == (Spacing { spacing: SpacingSpec { top: space, ..self.widget.spacing }, ..self.widget }),
            r.data_holder == self.data_holder,
    {
        let mut s = self;
        s.widget.set_top(space);
        s
    }

    /// The same widget with `space` on the bottom.
    pub fn bottom(self, space: u32) -> (r: Self)
        ensures
            r.widget == (Spacing { spacing: SpacingSpec { bottom: space, ..self.widget.spacing }, ..self.widget }),
            r.data_holder == self.data_holder,
    {
        let mut s = self;
        s.widget.set_bottom(space);
        s
    }
}

impl<W, D, F> Widget for WidgetWrapper<Spacing<W, D>, D, F> where
    W: Widget,
    D: WidgetData,
    F: DataChangedCallback<Spacing<W, D>, D::Data>,
 {
    /// The content's area with the space around it.
    open spec fn spec_bounding_box(&self) -> BoundingBox {
        padded_box(
            self.widget.inner.spec_bounding_box(),
            self.widget.spacing.top,
            self.widget.spacing.right,
            self.widget.spacing.bottom,
            self.widget.spacing.left,
        )
    }

    open spec fn spec_children() -> nat {
        W::spec_children() + 1
    }

    open spec fn spec_parent_index(&self) -> usize {
        self.widget.inner.spec_parent_index()
    }

    open spec fn spec_is_selectable(&self) -> bool {
        false
    }

    open spec fn spec_measures_to(&self, measure_spec: MeasureSpec, after: Self) -> bool {
        self.widget.inner.spec_measures_to(measure_spec, after.widget.inner) && after == (WidgetWrapper { widget: Spacing { inner: after.widget.inner, ..self.widget }, ..*self })
    }

    open spec fn spec_resizes_to(&self, size: MeasuredSize, after: Self) -> bool {
        self.widget.inner.spec_resizes_to(size, after.widget.inner) && after == (WidgetWrapper { widget: Spacing { inner: after.widget.inner, ..self.widget }, ..*self })
    }

    open spec fn spec_updates_to(&self, after: Self) -> bool {
        if self.data_holder.data.spec_changed() {
            self.data_holder.on_data_changed.spec_data_changed_call(
                self.widget,
                self.data_holder.data.spec_data(),
                after.widget,
            ) && after == (WidgetWrapper { widget: after.widget, ..*self })
        } else {
            after == *self
        }
    }

    open spec fn spec_resets_to(&self, after: Self) -> bool {
        &&& after == (WidgetWrapper { data_holder: after.data_holder, ..*self })
        &&& !after.data_holder.data.spec_changed()
        &&& after.data_holder.data.spec_data() == self.data_holder.data.spec_data()
        &&& after.data_holder.on_data_changed == self.data_holder.on_data_changed
    }

    open spec fn spec_tests_input(&self, event: InputEvent, after: Self, r: Option<usize>) -> bool {
        after == (WidgetWrapper { widget: Spacing { inner: after.widget.inner, ..self.widget }, ..*self }) && match r {
            Some(i) => i >= 1 && self.widget.inner.spec_tests_input(event, after.widget.inner, Some((i - 1) as usize)),
            None => self.widget.inner.spec_tests_input(event, after.widget.inner, None),
        }
    }

    open spec fn spec_handles_input(&self, ctxt: InputContext, event: InputEvent, after: Self, r: bool) -> bool {
        self.widget.inner.spec_handles_input(ctxt, event, after.widget.inner, r) && after == (WidgetWrapper { widget: Spacing { inner: after.widget.inner, ..self.widget }, ..*self })
    }

    open spec fn spec_state_changes_to(&self, state: WidgetState, after: Self) -> bool {
        self.widget.inner.spec_state_changes_to(state, after.widget.inner) && after == (WidgetWrapper { widget: Spacing { inner: after.widget.inner, ..self.widget }, ..*self })
    }

    fn attach(&mut self, parent: usize, self_index: usize) {
        self.widget.inner.attach(parent, self_index);
    }

    /// Places the content after the space on the top and on the left.
    fn arrange(&mut self, position: Position)
        ensures
            final(self).widget.inner.spec_bounding_box().position == padded_inset(
                position,
                old(self).widget.spacing.top,
                old(self).widget.spacing.left,
            ),
    {
        let spacing = self.widget.spacing;
        self.widget.inner.arrange(padded_content_position(position, spacing.top, spacing.left));
        proof {
            law_padding_arranged_at_position(
                position,
                spacing.top,
                spacing.right,
                spacing.bottom,
                spacing.left,
                self.widget.inner.spec_bounding_box().size,
            );
        }
    }

    fn bounding_box(&self) -> (r: BoundingBox) {
        let spacing = self.widget.spacing;
        padded_outer_box(
            self.widget.inner.bounding_box(),
            spacing.top,
            spacing.right,
            spacing.bottom,
            spacing.left,
        )
    }

    /// Measures the content under the same constraints; the space is not taken off them.
    fn measure(&mut self, measure_spec: MeasureSpec) {
        self.widget.inner.measure(measure_spec);
    }

    fn set_measured_size(&mut self, size: MeasuredSize) {
        self.widget.inner.set_measured_size(size);
    }

    fn children(&self) -> (r: usize) {
        1 + self.widget.inner.children()
    }

    /// Passes the content's wish on, counting the content as the first descendant.
    fn test_input(&mut self, event: InputEvent) -> (r: Option<usize>) {
        match self.widget.inner.test_input(event) {
            Some(i) => Some(i + 1),
            None => None,
        }
    }

    fn handle_input(&mut self, ctxt: InputContext, event: InputEvent) -> (r: bool) {
        self.widget.inner.handle_input(ctxt, event)
    }

    /// Runs the data callback on the widget if the bound data changed.
    fn update(&mut self) {
        self.data_holder.update(&mut self.widget);
    }

    fn reset_changed(&mut self) {
        self.data_holder.reset_changed();
    }

    fn parent_index(&self) -> (r: usize) {
        self.widget.inner.parent_index()
    }

    /// The spacing does not record its parent; the content does.
    fn set_parent(&mut self, index: usize)
        ensures
            *final(self) == *old(self),
    {
    }

    fn on_state_changed(&mut self, state: WidgetState) {
        self.widget.inner.on_state_changed(state);
    }

    fn is_selectable(&self) -> (r: bool) {
        false
    }
}

} // verus!
