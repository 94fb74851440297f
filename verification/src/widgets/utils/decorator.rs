//! Widget decorators: widgets that wrap exactly one other widget and add one aspect to it
//! (a background, a border, visibility, bound data).
//!
//! A decorator implements `WidgetDecorator`; the `Widget` implementation follows from it.
//! The decorated widget counts as the decorator's first descendant.

use vstd::prelude::*;

use crate::geometry::{BoundingBox, MeasureSpec, MeasuredSize, Position};
use crate::input::{InputContext, InputEvent};
use crate::state::WidgetState;
use crate::widgets::Widget;

verus! {

/// A widget that wraps another one.
pub trait WidgetDecorator: Sized {
    /// The decorated widget's type.
    type Widget: Widget;

    /// The decorated widget.
    spec fn spec_widget(&self) -> Self::Widget;

    /// The area the decorator occupies.
    spec fn spec_bounds(&self) -> BoundingBox;

    /// The decorator with `widget` in place of the decorated widget.
    spec fn spec_with_widget(&self, widget: Self::Widget) -> Self;

    /// Whether measuring under `measure_spec` may turn the decorator into `after`.
    spec fn spec_decorator_measures_to(&self, measure_spec: MeasureSpec, after: Self) -> bool;

    /// Whether setting the measured size `size` may turn the decorator into `after`.
    spec fn spec_decorator_resizes_to(&self, size: MeasuredSize, after: Self) -> bool;

    /// What a decorator that updates in its own way may do besides passing the update on
    /// (`false` for one that just passes it on).
    spec fn spec_decorator_own_update(&self, after: Self) -> bool;

    /// What a decorator that forgets changed data in its own way may do besides passing
    /// the call on (`false` for one that just passes it on).
    spec fn spec_decorator_own_reset(&self, after: Self) -> bool;

    /// Whether the decorator keeps input away from the decorated widget.
    spec fn spec_decorator_blocks_input(&self) -> bool;

    /// What the decorator's own state callback may do (`false` for a decorator without
    /// one, whose `fire_on_state_changed` changes nothing).
    spec fn spec_decorator_fires(&self, state: WidgetState, after: Self) -> bool;

    /// Whether the decorator keeps input away from the decorated widget.
    fn blocks_input(&self) -> (r: bool)
        ensures
            r == self.spec_decorator_blocks_input(),
    ;

    /// The decorated widget.
    fn widget(&self) -> (r: &Self::Widget)
        ensures
            *r == self.spec_widget(),
    ;

    /// Write access to the decorated widget; what is written through it is what the
    /// decorator then holds.
    fn widget_mut(&mut self) -> (r: &mut Self::Widget)
        ensures
            *r == old(self).spec_widget(),
            final(self).spec_widget() == *final(r),
            *final(self) == old(self).spec_with_widget(*final(r)),
    ;

    fn attach(&mut self, parent: usize, self_index: usize)
        requires
            <Self::Widget as Widget>::spec_children() + 1 < usize::MAX,
        ensures
            final(self).spec_bounds() == old(self).spec_bounds(),
            final(self).spec_widget().spec_parent_index() == parent,
    ;

    fn bounding_box(&self) -> (r: BoundingBox)
        ensures
            r == self.spec_bounds(),
    ;

    fn measure(&mut self, measure_spec: MeasureSpec)
        requires
            <Self::Widget as Widget>::spec_children() + 1 < usize::MAX,
        ensures
            final(self).spec_bounds().position == old(self).spec_bounds().position,
            old(self).spec_decorator_measures_to(measure_spec, *final(self)),
    ;

    fn arrange(&mut self, position: Position)
        requires
            <Self::Widget as Widget>::spec_children() + 1 < usize::MAX,
        ensures
            final(self).spec_bounds() == (BoundingBox {
                position,
                size: old(self).spec_bounds().size,
            }),
    ;

    fn set_measured_size(&mut self, size: MeasuredSize)
        ensures
            final(self).spec_bounds().position == old(self).spec_bounds().position,
            old(self).spec_decorator_resizes_to(size, *final(self)),
    ;

    /// The decorated widget and its descendants.
    fn children(&self) -> (r: usize)
        requires
            <Self::Widget as Widget>::spec_children() + 1 <= usize::MAX,
        ensures
            r == <Self::Widget as Widget>::spec_children() + 1,
    {
        1 + self.widget().children()
    }

    /// The decorated widget's parent.
    fn parent_index(&self) -> (r: usize)
        ensures
            r == self.spec_widget().spec_parent_index(),
    {
        self.widget().parent_index()
    }

    /// Passes the update on to the decorated widget.
    fn update(&mut self)
        ensures
            old(self).spec_widget().spec_updates_to(final(self).spec_widget())
                && *final(self) == old(self).spec_with_widget(final(self).spec_widget())
                || old(self).spec_decorator_own_update(*final(self)),
    {
        self.widget_mut().update();
    }

    /// Passes the call on to the decorated widget.
    fn reset_changed(&mut self)
        ensures
            old(self).spec_widget().spec_resets_to(final(self).spec_widget())
                && *final(self) == old(self).spec_with_widget(final(self).spec_widget())
                || old(self).spec_decorator_own_reset(*final(self)),
    {
        self.widget_mut().reset_changed();
    }

    /// Tells the decorator, then the decorated widget, of a new state.
    fn on_state_changed(&mut self, state: WidgetState)
        ensures
            exists|mid: Self|
                #![trigger mid.spec_with_widget(final(self).spec_widget())]
                (mid == *old(self) || old(self).spec_decorator_fires(state, mid))
                    && mid.spec_widget().spec_state_changes_to(state, final(self).spec_widget())
                    && *final(self) == mid.spec_with_widget(final(self).spec_widget()),
    {
        self.fire_on_state_changed(state);
        let ghost mid = *self;
        self.widget_mut().on_state_changed(state);
        assert(old(self).spec_decorator_fires(state, mid) || mid == *old(self));
    }

    /// Runs the decorator's own state callback.
    fn fire_on_state_changed(&mut self, state: WidgetState)
        ensures
            *final(self) == *old(self) || old(self).spec_decorator_fires(state, *final(self)),
    {
    }

    /// A decorator does not record its parent; the decorated widget does.
    fn set_parent(&mut self, index: usize)
        ensures
            *final(self) == *old(self),
    {
    }

    /// Passes the decorated widget's wish on, counting it as the first descendant.
    fn test_input(&mut self, event: InputEvent) -> (r: Option<usize>)
        requires
            <Self::Widget as Widget>::spec_children() + 1 < usize::MAX,
        ensures
            r matches Some(i) ==> i <= <Self::Widget as Widget>::spec_children() + 1,
            old(self).spec_decorator_blocks_input() ==> r is None && *final(self) == *old(self),
            !old(self).spec_decorator_blocks_input() ==> *final(self) == old(self).spec_with_widget(
                final(self).spec_widget(),
            ) && match r {
                Some(i) => i >= 1 && old(self).spec_widget().spec_tests_input(
                    event,
                    final(self).spec_widget(),
                    Some((i - 1) as usize),
                ),
                None => old(self).spec_widget().spec_tests_input(event, final(self).spec_widget(), None),
            },
    {
        if self.blocks_input() {
            return None;
        }
        match self.widget_mut().test_input(event) {
            Some(i) => Some(i + 1),
            None => None,
        }
    }

    /// Passes the event on to the decorated widget.
    fn handle_input(&mut self, ctxt: InputContext, event: InputEvent) -> (r: bool)
        ensures
            old(self).spec_widget().spec_handles_input(ctxt, event, final(self).spec_widget(), r),
            *final(self) == old(self).spec_with_widget(final(self).spec_widget()),
    {
        self.widget_mut().handle_input(ctxt, event)
    }

    /// Whether the decorated widget can be selected.
    fn is_selectable(&self) -> (r: bool)
        ensures
            r == self.spec_widget().spec_is_selectable(),
    {
        self.widget().is_selectable()
    }
}

/// Whether `after` is `before` with only the decorated widget changed.
pub open spec fn decorator_only_widget_changed<T: WidgetDecorator>(before: T, after: T) -> bool {
    after == before.spec_with_widget(after.spec_widget())
}

/// Whether `update` may turn the decorator `before` into `after`: it passes the update on,
/// or updates in its own way.
pub open spec fn decorator_updates_to<T: WidgetDecorator>(before: T, after: T) -> bool {
    ||| before.spec_widget().spec_updates_to(after.spec_widget()) && decorator_only_widget_changed(before, after)
    ||| before.spec_decorator_own_update(after)
}

/// Whether `reset_changed` may turn the decorator `before` into `after`.
pub open spec fn decorator_resets_to<T: WidgetDecorator>(before: T, after: T) -> bool {
    ||| before.spec_widget().spec_resets_to(after.spec_widget()) && decorator_only_widget_changed(before, after)
    ||| before.spec_decorator_own_reset(after)
}

/// Whether the decorator's own state callback may turn `before` into `after`.
pub open spec fn decorator_fired<T: WidgetDecorator>(before: T, state: WidgetState, after: T) -> bool {
    after == before || before.spec_decorator_fires(state, after)
}

/// Whether learning of the state `state` may turn the decorator `before` into `after`:
/// its own callback runs, then the decorated widget learns of the state.
pub open spec fn decorator_state_changes_to<T: WidgetDecorator>(before: T, state: WidgetState, after: T) -> bool {
    exists|mid: T|
        #![trigger mid.spec_with_widget(after.spec_widget())]
        (mid == before || before.spec_decorator_fires(state, mid))
            && mid.spec_widget().spec_state_changes_to(state, after.spec_widget())
            && decorator_only_widget_changed(mid, after)
}

/// Whether asking the decorator `before` for `event` may turn it into `after` with the
/// answer `r`: none if the decorator keeps input away from the decorated widget, else
/// the decorated widget's answer, counted from the decorator.
pub open spec fn decorator_tests_input<T: WidgetDecorator>(before: T, event: InputEvent, after: T, r: Option<usize>) -> bool {
    if before.spec_decorator_blocks_input() {
        r is None && after == before
    } else {
        decorator_only_widget_changed(before, after) && match r {
            Some(i) => i >= 1 && before.spec_widget().spec_tests_input(event, after.spec_widget(), Some((i - 1) as usize)),
            None => before.spec_widget().spec_tests_input(event, after.spec_widget(), None),
        }
    }
}

impl<T> Widget for T where T: WidgetDecorator {
    open spec fn spec_bounding_box(&self) -> BoundingBox {
        self.spec_bounds()
    }

    open spec fn spec_children() -> nat {
        <T::Widget as Widget>::spec_children() + 1
    }

    open spec fn spec_parent_index(&self) -> usize {
        self.spec_widget().spec_parent_index()
    }

    open spec fn spec_is_selectable(&self) -> bool {
        self.spec_widget().spec_is_selectable()
    }

    open spec fn spec_measures_to(&self, measure_spec: MeasureSpec, after: Self) -> bool {
        self.spec_decorator_measures_to(measure_spec, after)
    }

    open spec fn spec_resizes_to(&self, size: MeasuredSize, after: Self) -> bool {
        self.spec_decorator_resizes_to(size, after)
    }

    open spec fn spec_updates_to(&self, after: Self) -> bool {
        decorator_updates_to(*self, after)
    }

    open spec fn spec_resets_to(&self, after: Self) -> bool {
        decorator_resets_to(*self, after)
    }

    open spec fn spec_tests_input(&self, event: InputEvent, after: Self, r: Option<usize>) -> bool {
        decorator_tests_input(*self, event, after, r)
    }

    open spec fn spec_handles_input(&self, ctxt: InputContext, event: InputEvent, after: Self, r: bool) -> bool {
        self.spec_widget().spec_handles_input(ctxt, event, after.spec_widget(), r)
            && decorator_only_widget_changed(*self, after)
    }

    open spec fn spec_state_changes_to(&self, state: WidgetState, after: Self) -> bool {
        decorator_state_changes_to(*self, state, after)
    }

    fn attach(&mut self, parent: usize, self_index: usize) {
        WidgetDecorator::attach(self, parent, self_index);
    }

    fn bounding_box(&self) -> (r: BoundingBox) {
        WidgetDecorator::bounding_box(self)
    }

    fn children(&self) -> (r: usize) {
        WidgetDecorator::children(self)
    }

    fn measure(&mut self, measure_spec: MeasureSpec) {
        WidgetDecorator::measure(self, measure_spec);
    }

    fn arrange(&mut self, position: Position) {
        WidgetDecorator::arrange(self, position);
    }

    fn set_measured_size(&mut self, size: MeasuredSize) {
        WidgetDecorator::set_measured_size(self, size)
    }

    fn update(&mut self) {
        WidgetDecorator::update(self);
    }

    fn reset_changed(&mut self) {
        WidgetDecorator::reset_changed(self);
    }

    fn parent_index(&self) -> (r: usize) {
        WidgetDecorator::parent_index(self)
    }

    fn set_parent(&mut self, index: usize) {
        WidgetDecorator::set_parent(self, index);
    }

    fn test_input(&mut self, event: InputEvent) -> (r: Option<usize>) {
        WidgetDecorator::test_input(self, event)
    }

    fn handle_input(&mut self, ctxt: InputContext, event: InputEvent) -> (r: bool) {
        WidgetDecorator::handle_input(self, ctxt, event)
    }

    fn on_state_changed(&mut self, state: WidgetState) {
        WidgetDecorator::on_state_changed(self, state);
    }

    fn is_selectable(&self) -> (r: bool) {
        WidgetDecorator::is_selectable(self)
    }
}

} // verus!
