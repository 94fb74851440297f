//! Data that widgets are bound to.
//!
//! A widget reads its bound data when the data has changed, and writes it through
//! `update`, which marks the data as changed.

use vstd::prelude::*;

use crate::widgets::utils::callback::DataUpdate;

verus! {

/// Data a widget can be bound to.
pub trait WidgetData {
    /// The value the data holds.
    type Data;

    /// The value.
    spec fn spec_data(&self) -> Self::Data;

    /// Whether the value changed since the last `reset_changed`.
    spec fn spec_changed(&self) -> bool;

    /// Whether the value changed since the last `reset_changed`.
    fn is_changed(&self) -> (r: bool)
        ensures
            r == self.spec_changed(),
    ;

    /// Read access to the value.
    fn data(&self) -> (r: &Self::Data)
        ensures
            *r == self.spec_data(),
    ;

    /// Lets `f` modify the value.
    fn update<U: DataUpdate<Self::Data>>(&mut self, f: U)
        ensures
            f.spec_update(old(self).spec_data(), final(self).spec_data()),
    ;

    /// Forgets that the value changed.
    fn reset_changed(&mut self)
        ensures
            !final(self).spec_changed(),
            final(self).spec_data() == old(self).spec_data(),
    ;
}

/// No data: widgets that are not bound to anything.
#[derive(Clone, Copy, Debug, PartialEq, Eq, Structural)]
pub struct NoData;

impl WidgetData for NoData {
    type Data = ();

    open spec fn spec_data(&self) -> () {
        ()
    }

    open spec fn spec_changed(&self) -> bool {
        false
    }

    fn is_changed(&self) -> (r: bool) {
        false
    }

    fn data(&self) -> (r: &()) {
        &()
    }

    fn update<U: DataUpdate<()>>(&mut self, f: U) {
        let mut unit = ();
        f.apply(&mut unit);
    }

    fn reset_changed(&mut self) {
    }
}

/// A value that remembers whether it changed.
pub struct BoundData<T> {
    data: T,
    changed: bool,
}

impl<T> BoundData<T> {
    /// Binds `data`. The value counts as changed, so the first update of a widget that is
    /// bound to it shows the value.
    pub fn new(data: T) -> (r: BoundData<T>)
        ensures
            r.spec_data() == data,
            r.spec_changed(),
    {
        BoundData { data, changed: true }
    }
}

impl<T> WidgetData for BoundData<T> {
    type Data = T;

    closed spec fn spec_data(&self) -> T {
        self.data
    }

    closed spec fn spec_changed(&self) -> bool {
        self.changed
    }

    fn is_changed(&self) -> (r: bool) {
        self.changed
    }

    fn data(&self) -> (r: &T) {
        &self.data
    }

    fn update<U: DataUpdate<T>>(&mut self, f: U)
        ensures
            final(self).spec_changed(),
    {
        f.apply(&mut self.data);
        self.changed = true;
    }

    fn reset_changed(&mut self) {
        self.changed = false;
    }
}

} // verus!
