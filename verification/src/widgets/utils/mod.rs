//! Widget and data binding utilities.

use vstd::prelude::*;

use core::marker::PhantomData;

use crate::data::{NoData, WidgetData};
use crate::widgets::utils::callback::{DataChangedCallback, NoCallback};

pub mod callback;
pub mod decorator;
pub mod wrapper;

verus! {

/// Holds the data a widget is bound to and the callback that runs when it changed.
pub struct WidgetDataHolder<W, D, F = NoCallback> {
    pub data: D,
    pub on_data_changed: F,
    pub widget: PhantomData<W>,
}

impl<W> Default for WidgetDataHolder<W, NoData, NoCallback> {
    fn default() -> (r: WidgetDataHolder<W, NoData, NoCallback>)
        ensures
            r.data == NoData,
            r.on_data_changed == NoCallback,
    {
        WidgetDataHolder { data: NoData, on_data_changed: NoCallback, widget: PhantomData }
    }
}

impl<W> WidgetDataHolder<W, NoData, NoCallback> {
    /// A holder of `data` whose callback does nothing.
    pub fn new<D>(data: D) -> (r: WidgetDataHolder<W, D, NoCallback>)
        ensures
            r.data == data,
            r.on_data_changed == NoCallback,
    {
        WidgetDataHolder { data, on_data_changed: NoCallback, widget: PhantomData }
    }

    /// Binds `data` in place of no data.
    pub fn bind<D>(self, data: D) -> (r: WidgetDataHolder<W, D, NoCallback>)
        ensures
            r.data == data,
            r.on_data_changed == NoCallback,
    {
        WidgetDataHolder { data, on_data_changed: NoCallback, widget: PhantomData }
    }
}

impl<W, D, F> WidgetDataHolder<W, D, F> {
    /// The same data and callback, held for another type of widget.
    pub fn retarget<V>(self) -> (r: WidgetDataHolder<V, D, F>)
        ensures
            r.data == self.data,
            r.on_data_changed == self.on_data_changed,
    {
        WidgetDataHolder { data: self.data, on_data_changed: self.on_data_changed, widget: PhantomData }
    }

    /// The same data with another callback.
    pub fn with_callback<G>(self, callback: G) -> (r: WidgetDataHolder<W, D, G>)
        ensures
            r.data == self.data,
            r.on_data_changed == callback,
    {
        WidgetDataHolder { data: self.data, on_data_changed: callback, widget: PhantomData }
    }
}

impl<W, D, F> WidgetDataHolder<W, D, F> where D: WidgetData, F: DataChangedCallback<W, D::Data> {
    /// Runs the callback on `widget` if the data changed.
    pub fn update(&mut self, widget: &mut W)
        ensures
            *final(self) == *old(self),
            !old(self).data.spec_changed() ==> *final(widget) == *old(widget),
            old(self).data.spec_changed() ==> old(self).on_data_changed.spec_data_changed_call(
                *old(widget),
                old(self).data.spec_data(),
                *final(widget),
            ),
    {
        if self.data.is_changed() {
            self.on_data_changed.call(widget, self.data.data());
        }
    }
}

impl<W, D, F> WidgetDataHolder<W, D, F> where D: WidgetData {
    /// Forgets that the data changed.
    pub fn reset_changed(&mut self)
        ensures
            !final(self).data.spec_changed(),
            final(self).data.spec_data() == old(self).data.spec_data(),
            final(self).on_data_changed == old(self).on_data_changed,
    {
        self.data.reset_changed();
    }
}

} // verus!
