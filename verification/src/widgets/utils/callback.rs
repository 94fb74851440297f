//! Callbacks that users attach to widgets.
//!
//! A callback is a value of a type that implements one of these traits. `NoCallback` does
//! nothing and is what every widget starts with.

use vstd::prelude::*;

use crate::state::WidgetState;

verus! {

/// Called with a widget (or its fields) when its state changed.
pub trait StateCallback<T> {
    /// Whether calling the callback with `state` may turn `before` into `after`.
    spec fn spec_state_call(&self, before: T, state: WidgetState, after: T) -> bool;

    fn call(&self, target: &mut T, state: WidgetState)
        ensures
            self.spec_state_call(*old(target), state, *final(target)),
    ;
}

/// Called with a widget (or its fields) when the data it is bound to changed.
pub trait DataChangedCallback<T, D> {
    /// Whether calling the callback with `data` may turn `before` into `after`.
    spec fn spec_data_changed_call(&self, before: T, data: D, after: T) -> bool;

    fn call(&self, target: &mut T, data: &D)
        ensures
            self.spec_data_changed_call(*old(target), *data, *final(target)),
    ;
}

/// Called with the bound data when the widget was activated (a button was clicked).
pub trait DataCallback<D> {
    /// Whether calling the callback may turn the data `before` into `after`.
    spec fn spec_data_call(&self, before: D, after: D) -> bool;

    fn call(&self, data: &mut D)
        ensures
            self.spec_data_call(*old(data), *final(data)),
    ;
}

/// Called with the bound data and a new value the widget produced.
pub trait ValueCallback<D, V> {
    /// Whether calling the callback with `value` may turn the data `before` into `after`.
    spec fn spec_value_call(&self, before: D, value: V, after: D) -> bool;

    fn call(&self, data: &mut D, value: V)
        ensures
            self.spec_value_call(*old(data), value, *final(data)),
    ;
}

/// Called with a toggle's new checked state and the bound data.
pub trait SelectedCallback<D> {
    /// Whether calling the callback with `selected` may turn the data `before` into `after`.
    spec fn spec_selected_call(&self, selected: bool, before: D, after: D) -> bool;

    fn call(&self, selected: bool, data: &mut D)
        ensures
            self.spec_selected_call(selected, *old(data), *final(data)),
    ;
}

/// Called with the bound data and the new text of a text box.
pub trait TextCallback<D> {
    /// Whether calling the callback with `text` may turn the data `before` into `after`.
    spec fn spec_text_call(&self, before: D, text: Seq<char>, after: D) -> bool;

    fn call(&self, data: &mut D, text: &str)
        ensures
            self.spec_text_call(*old(data), text@, *final(data)),
    ;
}

/// A change to bound data: what a widget hands to `WidgetData::update`.
pub trait DataUpdate<D>: Sized {
    /// Whether applying the change may turn the data `before` into `after`.
    spec fn spec_update(&self, before: D, after: D) -> bool;

    fn apply(self, data: &mut D)
        ensures
            self.spec_update(*old(data), *final(data)),
    ;
}

/// Runs a `DataCallback` on the data.
pub struct ClickUpdate<'a, C> {
    pub callback: &'a C,
}

/// Runs a `ValueCallback` with `value` on the data.
pub struct ValueUpdate<'a, C, V> {
    pub callback: &'a C,
    pub value: V,
}

/// Runs a `SelectedCallback` with `selected` on the data.
pub struct SelectedUpdate<'a, C> {
    pub callback: &'a C,
    pub selected: bool,
}

/// Runs a `TextCallback` with `text` on the data.
pub struct TextUpdate<'a, C> {
    pub callback: &'a C,
    pub text: &'a str,
}

impl<'a, D, C: TextCallback<D>> DataUpdate<D> for TextUpdate<'a, C> {
    open spec fn spec_update(&self, before: D, after: D) -> bool {
        self.callback.spec_text_call(before, self.text@, after)
    }

    fn apply(self, data: &mut D) {
        self.callback.call(data, self.text);
    }
}

impl<'a, D, C: DataCallback<D>> DataUpdate<D> for ClickUpdate<'a, C> {
    open spec fn spec_update(&self, before: D, after: D) -> bool {
        self.callback.spec_data_call(before, after)
    }

    fn apply(self, data: &mut D) {
        self.callback.call(data);
    }
}

impl<'a, D, V, C: ValueCallback<D, V>> DataUpdate<D> for ValueUpdate<'a, C, V> {
    open spec fn spec_update(&self, before: D, after: D) -> bool {
        self.callback.spec_value_call(before, self.value, after)
    }

    fn apply(self, data: &mut D) {
        self.callback.call(data, self.value);
    }
}

impl<'a, D, C: SelectedCallback<D>> DataUpdate<D> for SelectedUpdate<'a, C> {
    open spec fn spec_update(&self, before: D, after: D) -> bool {
        self.callback.spec_selected_call(self.selected, before, after)
    }

    fn apply(self, data: &mut D) {
        self.callback.call(self.selected, data);
    }
}

/// The callback that does nothing.
#[derive(Clone, Copy, Debug, PartialEq, Eq, Structural)]
pub struct NoCallback;

impl<T> StateCallback<T> for NoCallback {
    open spec fn spec_state_call(&self, before: T, state: WidgetState, after: T) -> bool {
        after == before
    }

    fn call(&self, target: &mut T, state: WidgetState) {
    }
}

impl<T, D> DataChangedCallback<T, D> for NoCallback {
    open spec fn spec_data_changed_call(&self, before: T, data: D, after: T) -> bool {
        after == before
    }

    fn call(&self, target: &mut T, data: &D) {
    }
}

impl<D> DataCallback<D> for NoCallback {
    open spec fn spec_data_call(&self, before: D, after: D) -> bool {
        after == before
    }

    fn call(&self, data: &mut D) {
    }
}

impl<D, V> ValueCallback<D, V> for NoCallback {
    open spec fn spec_value_call(&self, before: D, value: V, after: D) -> bool {
        after == before
    }

    fn call(&self, data: &mut D, value: V) {
    }
}

impl<D> TextCallback<D> for NoCallback {
    open spec fn spec_text_call(&self, before: D, text: Seq<char>, after: D) -> bool {
        after == before
    }

    fn call(&self, data: &mut D, text: &str) {
    }
}

impl<D> SelectedCallback<D> for NoCallback {
    open spec fn spec_selected_call(&self, selected: bool, before: D, after: D) -> bool {
        after == before
    }

    fn call(&self, selected: bool, data: &mut D) {
    }
}

} // verus!
