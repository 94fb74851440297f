//! Base widgets.
//!
//! The widgets do as little as necessary each: one sets a background color, another a
//! border, a third adds spacing, and so on. They are combined by nesting them.
//!
//! A widget tree is indexed depth first: a widget has index 0 within its own subtree, its
//! first child 1, and so on. `children` counts the descendants; it is a property of the
//! widget's type, since the shape of a tree is fixed by the types it is built from.

use vstd::prelude::*;

use crate::geometry::{BoundingBox, MeasureSpec, MeasuredSize, Position};
use crate::input::{InputContext, InputEvent};
use crate::state::WidgetState;

pub mod background;
pub mod border;
pub mod button;
pub mod container;
pub mod fill;
pub mod graphical;
pub mod label;
pub mod layouts;
pub mod primitives;
pub mod scroll;
pub mod slider;
pub mod spacing;
pub mod text_box;
pub mod textbox;
pub mod toggle;
pub mod utils;
pub mod wrapper;

pub use utils::WidgetDataHolder;


verus! {

/// A node of the widget tree.
pub trait Widget: Sized {
    /// The area the widget occupies.
    spec fn spec_bounding_box(&self) -> BoundingBox;

    /// The number of descendants.
    spec fn spec_children() -> nat;

    /// The index of the parent widget.
    spec fn spec_parent_index(&self) -> usize;

    /// Whether the widget can be selected.
    spec fn spec_is_selectable(&self) -> bool;

    /// Whether measuring under `measure_spec` may turn the widget into `after`.
    spec fn spec_measures_to(&self, measure_spec: MeasureSpec, after: Self) -> bool;

    /// Whether setting the measured size `size` may turn the widget into `after`.
    spec fn spec_resizes_to(&self, size: MeasuredSize, after: Self) -> bool;

    /// Whether `update` may turn the widget into `after`.
    spec fn spec_updates_to(&self, after: Self) -> bool;

    /// Whether `reset_changed` may turn the widget into `after`.
    spec fn spec_resets_to(&self, after: Self) -> bool;

    /// Whether asking for `event` may turn the widget into `after` with the answer `r`.
    spec fn spec_tests_input(&self, event: InputEvent, after: Self, r: Option<usize>) -> bool;

    /// Whether handling `event` may turn the widget into `after` with the answer `r`.
    spec fn spec_handles_input(&self, ctxt: InputContext, event: InputEvent, after: Self, r: bool) -> bool;

    /// Whether learning of the parent's state `state` may turn the widget into `after`.
    spec fn spec_state_changes_to(&self, state: WidgetState, after: Self) -> bool;

    /// Tells the widget its parent's index and its own index in the tree; the widget then
    /// reports `parent` as its parent.
    fn attach(&mut self, parent: usize, index: usize)
        requires
            Self::spec_children() < usize::MAX,
        ensures
            final(self).spec_bounding_box() == old(self).spec_bounding_box(),
            final(self).spec_parent_index() == parent,
    ;

    /// The area the widget occupies.
    fn bounding_box(&self) -> (r: BoundingBox)
        ensures
            r == self.spec_bounding_box(),
    ;

    /// The number of descendants.
    fn children(&self) -> (r: usize)
        requires
            Self::spec_children() <= usize::MAX,
        ensures
            r == Self::spec_children(),
    ;

    /// Computes the widget's size under `measure_spec`. Measuring never moves a widget.
    fn measure(&mut self, measure_spec: MeasureSpec)
        requires
            Self::spec_children() < usize::MAX,
        ensures
            final(self).spec_bounding_box().position == old(self).spec_bounding_box().position,
            old(self).spec_measures_to(measure_spec, *final(self)),
    ;

    /// Places the widget at `position`. Arranging never resizes a widget.
    fn arrange(&mut self, position: Position)
        requires
            Self::spec_children() < usize::MAX,
        ensures
            final(self).spec_bounding_box() == (BoundingBox {
                position,
                size: old(self).spec_bounding_box().size,
            }),
    ;

    /// Sets the size that measuring found; the widget stays where it is. (A widget that
    /// draws around its content, such as a border, hands the size on to the content.)
    fn set_measured_size(&mut self, size: MeasuredSize)
        ensures
            final(self).spec_bounding_box().position == old(self).spec_bounding_box().position,
            old(self).spec_resizes_to(size, *final(self)),
    ;

    /// Lets the widget react to changed data and run its animations.
    fn update(&mut self)
        ensures
            old(self).spec_updates_to(*final(self)),
    ;

    /// Forgets that the bound data changed.
    fn reset_changed(&mut self)
        ensures
            old(self).spec_resets_to(*final(self)),
    ;

    /// The index of the parent widget.
    fn parent_index(&self) -> (r: usize)
        ensures
            r == self.spec_parent_index(),
    ;

    /// Records the index of the parent widget.
    fn set_parent(&mut self, index: usize)
        ensures
            final(self).spec_bounding_box() == old(self).spec_bounding_box(),
    ;

    /// Asks the subtree which of its widgets, if any, wants `event`: 0 is this widget,
    /// `i > 0` its `i`-th descendant.
    fn test_input(&mut self, event: InputEvent) -> (r: Option<usize>)
        requires
            Self::spec_children() < usize::MAX,
        ensures
            r matches Some(i) ==> i <= Self::spec_children(),
            old(self).spec_tests_input(event, *final(self), r),
    ;

    /// Lets the widget handle `event`. Returns whether it did.
    fn handle_input(&mut self, ctxt: InputContext, event: InputEvent) -> (r: bool)
        ensures
            old(self).spec_handles_input(ctxt, event, *final(self), r),
    ;

    /// Tells the widget that the state of its parent changed.
    fn on_state_changed(&mut self, state: WidgetState)
        ensures
            old(self).spec_state_changes_to(state, *final(self)),
    ;

    /// Whether the widget can be selected.
    fn is_selectable(&self) -> (r: bool)
        ensures
            r == self.spec_is_selectable(),
    ;
}

} // verus!
