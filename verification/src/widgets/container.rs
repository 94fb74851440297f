//! A holder of a widget's parent index, state, bound data and callbacks.

use vstd::prelude::*;

use crate::data::{NoData, WidgetData};
use crate::state::WidgetState;
use crate::widgets::utils::callback::{DataChangedCallback, NoCallback};
use crate::widgets::utils::WidgetDataHolder;

verus! {

/// Holds a widget together with the things every widget needs: its parent's index, its
/// state, the data it is bound to and the callbacks that run when those change.
pub struct Container<W, D = NoData, FS = NoCallback, FD = NoCallback> where D: WidgetData {
    pub parent_index: usize,
    pub widget: W,
    pub data_holder: WidgetDataHolder<W, D, FD>,
    pub state: WidgetState,
    pub on_state_changed: FS,
}

impl<W> Container<W, NoData, NoCallback, NoCallback> {
    /// Holds `widget`, bound to no data, in the default state.
    pub fn new(widget: W) -> (r: Self)
        ensures
            r.parent_index == 0,
            r.widget == widget,
            r.data_holder.data == NoData,
            r.data_holder.on_data_changed == NoCallback,
            r.state == WidgetState(0),
            r.on_state_changed == NoCallback,
    {
        Container {
            parent_index: 0,
            widget,
            data_holder: WidgetDataHolder::default(),
            on_state_changed: NoCallback,
            state: WidgetState::default(),
        }
    }
}

impl<W, D, FS, FD> Container<W, D, FS, FD> where D: WidgetData {
    /// Sets the callback that runs on the widget when the state changed.
    pub fn on_state_changed<G>(self, callback: G) -> (r: Container<W, D, G, FD>)
        ensures
            r.parent_index == self.parent_index,
            r.widget == self.widget,
            r.data_holder == self.data_holder,
            r.state == self.state,
            r.on_state_changed == callback,
    {
        Container {
            parent_index: self.parent_index,
            widget: self.widget,
            data_holder: self.data_holder,
            state: self.state,
            on_state_changed: callback,
        }
    }

    /// Sets the callback that runs on the widget when the bound data changed.
    pub fn on_data_changed<G>(self, callback: G) -> (r: Container<W, D, FS, G>)
        ensures
            r.parent_index == self.parent_index,
            r.widget == self.widget,
            r.data_holder.data == self.data_holder.data,
            r.data_holder.on_data_changed == callback,
            r.state == self.state,
            r.on_state_changed == self.on_state_changed,
    {
        Container {
            parent_index: self.parent_index,
            widget: self.widget,
            data_holder: self.data_holder.with_callback(callback),
            state: self.state,
            on_state_changed: self.on_state_changed,
        }
    }

    /// The index of the parent widget.
    pub fn parent_index(&self) -> (r: usize)
        ensures
            r == self.parent_index,
    {
        self.parent_index
    }

    /// Records the index of the parent widget.
    pub fn set_parent(&mut self, index: usize)
        ensures
            *final(self) == (Container { parent_index: index, ..*old(self) }),
    {
        self.parent_index = index;
    }
}

impl<W, D, FS, FD> Container<W, D, FS, FD> where D: WidgetData, FD: DataChangedCallback<W, D::Data> {
    /// Runs the data callback on the widget if the bound data changed.
    pub fn update(&mut self)
        ensures
            final(self).parent_index == old(self).parent_index,
            final(self).data_holder == old(self).data_holder,
            final(self).state == old(self).state,
            final(self).on_state_changed == old(self).on_state_changed,
            !old(self).data_holder.data.spec_changed() ==> *final(self) == *old(self),
            old(self).data_holder.data.spec_changed() ==> old(self).data_holder.on_data_changed.spec_data_changed_call(
                old(self).widget,
                old(self).data_holder.data.spec_data(),
                final(self).widget,
            ),
    {
        self.data_holder.update(&mut self.widget);
    }
}

} // verus!
