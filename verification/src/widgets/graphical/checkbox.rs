//! A box with a tick mark.

use vstd::prelude::*;

use crate::data::WidgetData;
use crate::geometry::{BoundingBox, MeasureSpec, MeasuredSize, Position};
use crate::input::{InputContext, InputEvent};
use crate::state::WidgetState;
use crate::widgets::utils::callback::{NoCallback, StateCallback};
use crate::widgets::utils::wrapper::WrapperBindable;
use crate::widgets::wrapper::Wrapper;
use crate::widgets::Widget;

verus! {

/// How a backend draws check boxes: implemented by the drawing backends. Each setter
/// changes its own property and leaves the others as they are.
pub trait CheckBoxProperties {
    type Color;

    spec fn spec_background_color(&self) -> Self::Color;

    spec fn spec_border_color(&self) -> Self::Color;

    spec fn spec_check_mark_color(&self) -> Self::Color;

    spec fn spec_checked(&self) -> bool;

    /// The size the check box takes under `spec`.
    spec fn spec_measure(&self, spec: MeasureSpec) -> MeasuredSize;

    fn set_background_color(&mut self, color: Self::Color)
        ensures
            final(self).spec_background_color() == color,
            final(self).spec_border_color() == old(self).spec_border_color(),
            final(self).spec_check_mark_color() == old(self).spec_check_mark_color(),
            final(self).spec_checked() == old(self).spec_checked(),
    ;

    fn set_border_color(&mut self, color: Self::Color)
        ensures
            final(self).spec_background_color() == old(self).spec_background_color(),
            final(self).spec_border_color() == color,
            final(self).spec_check_mark_color() == old(self).spec_check_mark_color(),
            final(self).spec_checked() == old(self).spec_checked(),
    ;

    fn set_check_mark_color(&mut self, color: Self::Color)
        ensures
            final(self).spec_background_color() == old(self).spec_background_color(),
            final(self).spec_border_color() == old(self).spec_border_color(),
            final(self).spec_check_mark_color() == color,
            final(self).spec_checked() == old(self).spec_checked(),
    ;

    fn set_checked(&mut self, checked: bool)
        ensures
            final(self).spec_background_color() == old(self).spec_background_color(),
            final(self).spec_border_color() == old(self).spec_border_color(),
            final(self).spec_check_mark_color() == old(self).spec_check_mark_color(),
            final(self).spec_checked() == checked,
    ;

    /// The size the check box takes under `spec`.
    fn measure(&self, spec: MeasureSpec) -> (r: MeasuredSize)
        ensures
            r == self.spec_measure(spec),
    ;
}

/// A box that shows whether it is checked.
pub struct CheckBox<P, F = NoCallback> where P: CheckBoxProperties {
    pub checkbox_properties: P,
    pub parent_index: usize,
    pub on_state_changed: F,
    pub bounds: BoundingBox,
}

impl<P> CheckBox<P, NoCallback> where P: CheckBoxProperties {
    /// A check box with the backend's default properties.
    pub fn new() -> (r: CheckBox<P>) where P: Default
        ensures
            r.parent_index == 0,
            r.bounds == BoundingBox::spec_empty(),
            r.on_state_changed == NoCallback,
    {
        CheckBox {
            parent_index: 0,
            checkbox_properties: P::default(),
            bounds: BoundingBox::empty(),
            on_state_changed: NoCallback,
        }
    }
}

impl<P, F> CheckBox<P, F> where P: CheckBoxProperties {
    /// The same check box with the background drawn in `color`.
    pub fn background_color(self, color: P::Color) -> (r: Self)
        ensures
            r.checkbox_properties.spec_background_color() == color,
            r.checkbox_properties.spec_border_color() == self.checkbox_properties.spec_border_color(),
            r.checkbox_properties.spec_check_mark_color() == self.checkbox_properties.spec_check_mark_color(),
            r.checkbox_properties.spec_checked() == self.checkbox_properties.spec_checked(),
            r.parent_index == self.parent_index,
            r.on_state_changed == self.on_state_changed,
            r.bounds == self.bounds,
    {
        let mut s = self;
        s.set_background_color(color);
        s
    }

    /// Draws the background in `color`.
    pub fn set_background_color(&mut self, color: P::Color)
        ensures
            final(self).checkbox_properties.spec_background_color() == color,
            final(self).checkbox_properties.spec_border_color() == old(self).checkbox_properties.spec_border_color(),
            final(self).checkbox_properties.spec_check_mark_color() == old(self).checkbox_properties.spec_check_mark_color(),
            final(self).checkbox_properties.spec_checked() == old(self).checkbox_properties.spec_checked(),
            final(self).parent_index == old(self).parent_index,
            final(self).on_state_changed == old(self).on_state_changed,
            final(self).bounds == old(self).bounds,
    {
        self.checkbox_properties.set_background_color(color);
    }

    /// The same check box with the border drawn in `color`.
    pub fn border_color(self, color: P::Color) -> (r: Self)
        ensures
            r.checkbox_properties.spec_background_color() == self.checkbox_properties.spec_background_color(),
            r.checkbox_properties.spec_border_color() == color,
            r.checkbox_properties.spec_check_mark_color() == self.checkbox_properties.spec_check_mark_color(),
            r.checkbox_properties.spec_checked() == self.checkbox_properties.spec_checked(),
            r.parent_index == self.parent_index,
            r.on_state_changed == self.on_state_changed,
            r.bounds == self.bounds,
    {
        let mut s = self;
        s.set_border_color(color);
        s
    }

    /// Draws the border in `color`.
    pub fn set_border_color(&mut self, color: P::Color)
        ensures
            final(self).checkbox_properties.spec_background_color() == old(self).checkbox_properties.spec_background_color(),
            final(self).checkbox_properties.spec_border_color() == color,
            final(self).checkbox_properties.spec_check_mark_color() == old(self).checkbox_properties.spec_check_mark_color(),
            final(self).checkbox_properties.spec_checked() == old(self).checkbox_properties.spec_checked(),
            final(self).parent_index == old(self).parent_index,
            final(self).on_state_changed == old(self).on_state_changed,
            final(self).bounds == old(self).bounds,
    {
        self.checkbox_properties.set_border_color(color);
    }

    /// The same check box with the check mark drawn in `color`.
    pub fn check_mark_color(self, color: P::Color) -> (r: Self)
        ensures
            r.checkbox_properties.spec_background_color() == self.checkbox_properties.spec_background_color(),
            r.checkbox_properties.spec_border_color() == self.checkbox_properties.spec_border_color(),
            r.checkbox_properties.spec_check_mark_color() == color,
            r.checkbox_properties.spec_checked() == self.checkbox_properties.spec_checked(),
            r.parent_index == self.parent_index,
            r.on_state_changed == self.on_state_changed,
            r.bounds == self.bounds,
    {
        let mut s = self;
        s.set_check_mark_color(color);
        s
    }

    /// Draws the check mark in `color`.
    pub fn set_check_mark_color(&mut self, color: P::Color)
        ensures
            final(self).checkbox_properties.spec_background_color() == old(self).checkbox_properties.spec_background_color(),
            final(self).checkbox_properties.spec_border_color() == old(self).checkbox_properties.spec_border_color(),
            final(self).checkbox_properties.spec_check_mark_color() == color,
            final(self).checkbox_properties.spec_checked() == old(self).checkbox_properties.spec_checked(),
            final(self).parent_index == old(self).parent_index,
            final(self).on_state_changed == old(self).on_state_changed,
            final(self).bounds == old(self).bounds,
    {
        self.checkbox_properties.set_check_mark_color(color);
    }

    /// The same check box, checked or not.
    pub fn checked(self, checked: bool) -> (r: Self)
        ensures
            r.checkbox_properties.spec_background_color() == self.checkbox_properties.spec_background_color(),
            r.checkbox_properties.spec_border_color() == self.checkbox_properties.spec_border_color(),
            r.checkbox_properties.spec_check_mark_color() == self.checkbox_properties.spec_check_mark_color(),
            r.checkbox_properties.spec_checked() == checked,
            r.parent_index == self.parent_index,
            r.on_state_changed == self.on_state_changed,
            r.bounds == self.bounds,
    {
        let mut s = self;
        s.set_checked(checked);
        s
    }

    /// Checks or unchecks the box.
    pub fn set_checked(&mut self, checked: bool)
        ensures
            final(self).checkbox_properties.spec_background_color() == old(self).checkbox_properties.spec_background_color(),
            final(self).checkbox_properties.spec_border_color() == old(self).checkbox_properties.spec_border_color(),
            final(self).checkbox_properties.spec_check_mark_color() == old(self).checkbox_properties.spec_check_mark_color(),
            final(self).checkbox_properties.spec_checked() == checked,
            final(self).parent_index == old(self).parent_index,
            final(self).on_state_changed == old(self).on_state_changed,
            final(self).bounds == old(self).bounds,
    {
        self.checkbox_properties.set_checked(checked);
    }

    /// Sets the callback that runs on the check box when its state changed.
    pub fn on_state_changed<G>(self, callback: G) -> (r: CheckBox<P, G>)
        ensures
            r.checkbox_properties == self.checkbox_properties,
            r.parent_index == self.parent_index,
            r.on_state_changed == callback,
            r.bounds == self.bounds,
    {
        CheckBox {
            checkbox_properties: self.checkbox_properties,
            parent_index: self.parent_index,
            on_state_changed: callback,
            bounds: self.bounds,
        }
    }
}

impl<P, F> WrapperBindable for CheckBox<P, F> where
    P: CheckBoxProperties,
    F: StateCallback<CheckBox<P, F>> + Copy,
 {
}

impl<P, F, D, FD> Wrapper<CheckBox<P, F>, D, FD> where P: CheckBoxProperties, D: WidgetData {
    /// Sets the callback that runs on the check box when its state changed.
    pub fn on_state_changed<G>(self, callback: G) -> (r: Wrapper<CheckBox<P, G>, D, FD>)
        ensures
            r.widget.checkbox_properties == self.widget.checkbox_properties,
            r.widget.parent_index == self.widget.parent_index,
            r.widget.on_state_changed == callback,
            r.widget.bounds == self.widget.bounds,
            r.data_holder.data == self.data_holder.data,
            r.data_holder.on_data_changed == self.data_holder.on_data_changed,
    {
        Wrapper {
            widget: self.widget.on_state_changed(callback),
            data_holder: self.data_holder.retarget(),
        }
    }
}

impl<P, F> Widget for CheckBox<P, F> where
    P: CheckBoxProperties,
    F: StateCallback<CheckBox<P, F>> + Copy,
 {
    open spec fn spec_bounding_box(&self) -> BoundingBox {
        self.bounds
    }

    open spec fn spec_children() -> nat {
        0
    }

    open spec fn spec_parent_index(&self) -> usize {
        self.parent_index
    }

    open spec fn spec_is_selectable(&self) -> bool {
        true
    }

    open spec fn spec_measures_to(&self, measure_spec: MeasureSpec, after: Self) -> bool {
        after == (CheckBox { bounds: BoundingBox { size: self.checkbox_properties.spec_measure(measure_spec), ..self.bounds }, ..*self })
    }

    open spec fn spec_resizes_to(&self, size: MeasuredSize, after: Self) -> bool {
        after == (CheckBox { bounds: BoundingBox { size, ..self.bounds }, ..*self })
    }

    open spec fn spec_updates_to(&self, after: Self) -> bool {
        after == *self
    }

    open spec fn spec_resets_to(&self, after: Self) -> bool {
        after == *self
    }

    open spec fn spec_tests_input(&self, event: InputEvent, after: Self, r: Option<usize>) -> bool {
        r is None && after == *self
    }

    open spec fn spec_handles_input(&self, ctxt: InputContext, event: InputEvent, after: Self, r: bool) -> bool {
        !r && after == *self
    }

    open spec fn spec_state_changes_to(&self, state: WidgetState, after: Self) -> bool {
        self.on_state_changed.spec_state_call(*self, state, after)
    }

    fn attach(&mut self, parent: usize, index: usize)
        ensures
            *final(self) == (CheckBox { parent_index: parent, ..*old(self) }),
    {
        self.set_parent(parent);
    }

    fn bounding_box(&self) -> (r: BoundingBox) {
        self.bounds
    }

    fn children(&self) -> (r: usize) {
        0
    }

    /// The check box takes the size the backend gives it.
    fn measure(&mut self, measure_spec: MeasureSpec)
        ensures
            final(self).bounds.size == old(self).checkbox_properties.spec_measure(measure_spec),
            final(self).checkbox_properties == old(self).checkbox_properties,
            final(self).parent_index == old(self).parent_index,
    {
        self.bounds.size = self.checkbox_properties.measure(measure_spec);
    }

    fn arrange(&mut self, position: Position)
        ensures
            *final(self) == (CheckBox { bounds: BoundingBox { position, ..old(self).bounds }, ..*old(self) }),
    {
        self.bounds.position = position;
    }

    fn set_measured_size(&mut self, size: MeasuredSize)
        ensures
            final(self).bounds == (BoundingBox { size, ..old(self).bounds }),
    {
        self.bounds.size = size;
    }

    fn update(&mut self)
        ensures
            *final(self) == *old(self),
    {
    }

    fn reset_changed(&mut self)
        ensures
            *final(self) == *old(self),
    {
    }

    fn parent_index(&self) -> (r: usize) {
        self.parent_index
    }

    fn set_parent(&mut self, index: usize)
        ensures
            *final(self) == (CheckBox { parent_index: index, ..*old(self) }),
    {
        self.parent_index = index;
    }

    /// A check box wants no input of its own; the widget around it (a toggle) does.
    fn test_input(&mut self, event: InputEvent) -> (r: Option<usize>)
        ensures
            r is None,
            *final(self) == *old(self),
    {
        None
    }

    fn handle_input(&mut self, ctxt: InputContext, event: InputEvent) -> (r: bool)
        ensures
            !r,
            *final(self) == *old(self),
    {
        false
    }

    /// Runs the state callback.
    fn on_state_changed(&mut self, state: WidgetState) {
        let callback = self.on_state_changed;
        callback.call(self, state);
    }

    fn is_selectable(&self) -> (r: bool) {
        true
    }
}

} // verus!
