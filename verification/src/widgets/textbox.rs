//! A block of text that wraps within the space it is given.

use vstd::prelude::*;

use crate::data::WidgetData;
use crate::geometry::{BoundingBox, MeasureSpec, MeasuredSize, Position};
use crate::input::{InputContext, InputEvent};
use crate::state::WidgetState;
use crate::widgets::label::{CharSeq, LabelText};
use crate::widgets::utils::callback::{NoCallback, StateCallback};
use crate::widgets::utils::wrapper::WrapperBindable;
use crate::widgets::wrapper::Wrapper;
use crate::widgets::Widget;

verus! {

/// How a backend draws text boxes: implemented by the drawing backends.
pub trait TextBoxProperties {
    /// The size `text` takes when drawn under `spec`.
    spec fn spec_measure_text(&self, text: CharSeq, spec: MeasureSpec) -> MeasuredSize;

    /// The size `text` takes when drawn under `spec`.
    fn measure_text(&self, text: &str, spec: MeasureSpec) -> (r: MeasuredSize)
        ensures
            r == self.spec_measure_text(text@, spec),
    ;
}

/// A block of text.
pub struct TextBox<S, P, F = NoCallback> {
    pub text: S,
    pub label_properties: P,
    pub bounds: BoundingBox,
    pub parent_index: usize,
    pub on_state_changed: F,
}

impl<S, P, F> TextBox<S, P, F> where S: LabelText, P: TextBoxProperties {
    /// Sets the callback that runs on the text box when its state changed.
    pub fn on_state_changed<G>(self, callback: G) -> (r: TextBox<S, P, G>)
        ensures
            r.text == self.text,
            r.label_properties == self.label_properties,
            r.bounds == self.bounds,
            r.parent_index == self.parent_index,
            r.on_state_changed == callback,
    {
        TextBox {
            text: self.text,
            label_properties: self.label_properties,
            bounds: self.bounds,
            parent_index: self.parent_index,
            on_state_changed: callback,
        }
    }
}

impl<S, P> TextBox<S, P, NoCallback> where S: LabelText, P: TextBoxProperties {
    /// Binds `data` to the text box.
    pub fn bind<D>(self, data: D) -> (r: Wrapper<Self, D>) where D: WidgetData
        ensures
            r.widget == self,
            r.data_holder.data == data,
            r.data_holder.on_data_changed == NoCallback,
    {
        Wrapper::wrap(self, data)
    }
}

impl<S, P, F> Widget for TextBox<S, P, F> where
    S: LabelText,
    P: TextBoxProperties,
    F: StateCallback<TextBox<S, P, F>> + Copy,
 {
    open spec fn spec_bounding_box(&self) -> BoundingBox {
        self.bounds
    }

    open spec fn spec_children() -> nat {
        0
    }

    open spec fn spec_parent_index(&self) -> usize {
        self.parent_index
    }

    open spec fn spec_is_selectable(&self) -> bool {
        true
    }

    open spec fn spec_measures_to(&self, measure_spec: MeasureSpec, after: Self) -> bool {
        after == (TextBox { bounds: BoundingBox { size: MeasuredSize {
                width: measure_spec.width.spec_apply_to_measured(
                    self.label_properties.spec_measure_text(self.text.spec_text(), measure_spec).width,
                ),
                height: measure_spec.height.spec_apply_to_measured(
                    self.label_properties.spec_measure_text(self.text.spec_text(), measure_spec).height,
                ),
            }, ..self.bounds }, ..*self })
    }

    open spec fn spec_resizes_to(&self, size: MeasuredSize, after: Self) -> bool {
        after == (TextBox { bounds: BoundingBox { size, ..self.bounds }, ..*self })
    }

    open spec fn spec_updates_to(&self, after: Self) -> bool {
        after == *self
    }

    open spec fn spec_resets_to(&self, after: Self) -> bool {
        after == *self
    }

    open spec fn spec_tests_input(&self, event: InputEvent, after: Self, r: Option<usize>) -> bool {
        r is None && after == *self
    }

    open spec fn spec_handles_input(&self, ctxt: InputContext, event: InputEvent, after: Self, r: bool) -> bool {
        !r && after == *self
    }

    open spec fn spec_state_changes_to(&self, state: WidgetState, after: Self) -> bool {
        self.on_state_changed.spec_state_call(*self, state, after)
    }

    fn attach(&mut self, parent: usize, index: usize)
        ensures
            *final(self) == (TextBox { parent_index: parent, ..*old(self) }),
    {
        self.set_parent(parent);
    }

    fn bounding_box(&self) -> (r: BoundingBox) {
        self.bounds
    }

    fn children(&self) -> (r: usize) {
        0
    }

    /// The text box takes the size of its text drawn under the constraints, within them.
    fn measure(&mut self, measure_spec: MeasureSpec)
        ensures
            final(self).bounds == (BoundingBox {
                position: old(self).bounds.position,
                size: MeasuredSize {
                    width: measure_spec.width.spec_apply_to_measured(
                        old(self).label_properties.spec_measure_text(
                            old(self).text.spec_text(),
                            measure_spec,
                        ).width,
                    ),
                    height: measure_spec.height.spec_apply_to_measured(
                        old(self).label_properties.spec_measure_text(
                            old(self).text.spec_text(),
                            measure_spec,
                        ).height,
                    ),
                },
            }),
            final(self).text == old(self).text,
            final(self).label_properties == old(self).label_properties,
            final(self).parent_index == old(self).parent_index,
    {
        let size = self.label_properties.measure_text(self.text.text(), measure_spec);

        let width = measure_spec.width.apply_to_measured(size.width);
        let height = measure_spec.height.apply_to_measured(size.height);

        self.set_measured_size(MeasuredSize { width, height })
    }

    fn arrange(&mut self, position: Position)
        ensures
            *final(self) == (TextBox { bounds: BoundingBox { position, ..old(self).bounds }, ..*old(self) }),
    {
        self.bounds.position = position;
    }

    fn set_measured_size(&mut self, size: MeasuredSize)
        ensures
            *final(self) == (TextBox { bounds: BoundingBox { size, ..old(self).bounds }, ..*old(self) }),
    {
        self.bounds.size = size;
    }

    fn update(&mut self)
        ensures
            *final(self) == *old(self),
    {
    }

    fn reset_changed(&mut self)
        ensures
            *final(self) == *old(self),
    {
    }

    fn parent_index(&self) -> (r: usize) {
        self.parent_index
    }

    fn set_parent(&mut self, index: usize)
        ensures
            *final(self) == (TextBox { parent_index: index, ..*old(self) }),
    {
        self.parent_index = index;
    }

    fn test_input(&mut self, event: InputEvent) -> (r: Option<usize>)
        ensures
            r is None,
            *final(self) == *old(self),
    {
        None
    }

    fn handle_input(&mut self, ctxt: InputContext, event: InputEvent) -> (r: bool)
        ensures
            !r,
            *final(self) == *old(self),
    {
        false
    }

    /// Runs the state callback.
    fn on_state_changed(&mut self, state: WidgetState) {
        let callback = self.on_state_changed;
        callback.call(self, state);
    }

    fn is_selectable(&self) -> (r: bool) {
        true
    }
}

impl<S, P, F> WrapperBindable for TextBox<S, P, F> where
    S: LabelText,
    P: TextBoxProperties,
    F: StateCallback<TextBox<S, P, F>> + Copy,
 {
}

} // verus!
