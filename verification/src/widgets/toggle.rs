//! A toggle: a widget that is checked or unchecked by clicking it.

use vstd::prelude::*;

use core::marker::PhantomData;

use crate::data::{NoData, WidgetData};
use crate::geometry::{BoundingBox, MeasureSpec, MeasuredSize, Position};
use crate::input::{InputContext, InputEvent, PointerEvent};
use crate::rendering::{Canvas, WidgetRenderer};
use crate::state::{State, WidgetState, lemma_group_value};
use crate::widgets::utils::callback::{
    DataChangedCallback, NoCallback, SelectedCallback, SelectedUpdate,
};
use crate::widgets::utils::WidgetDataHolder;
use crate::widgets::Widget;

verus! {

/// The pointer is elsewhere.
#[derive(Clone, Copy, Debug, PartialEq, Eq, Structural)]
pub struct Idle;

impl State for Idle {
    open spec fn spec_mask() -> u32 {
        3
    }

    open spec fn spec_value() -> u32 {
        0
    }

    fn mask(&self) -> (r: u32) {
        3
    }

    fn value(&self) -> (r: u32) {
        0
    }

    proof fn lemma_value_within_mask() {
        lemma_group_value(3, 0);
    }
}

/// The pointer is above the toggle.
#[derive(Clone, Copy, Debug, PartialEq, Eq, Structural)]
pub struct Hovered;

impl State for Hovered {
    open spec fn spec_mask() -> u32 {
        3
    }

    open spec fn spec_value() -> u32 {
        1
    }

    fn mask(&self) -> (r: u32) {
        3
    }

    fn value(&self) -> (r: u32) {
        1
    }

    proof fn lemma_value_within_mask() {
        lemma_group_value(3, 1);
    }
}

/// The toggle is held down.
#[derive(Clone, Copy, Debug, PartialEq, Eq, Structural)]
pub struct Pressed;

impl State for Pressed {
    open spec fn spec_mask() -> u32 {
        3
    }

    open spec fn spec_value() -> u32 {
        2
    }

    fn mask(&self) -> (r: u32) {
        3
    }

    fn value(&self) -> (r: u32) {
        2
    }

    proof fn lemma_value_within_mask() {
        lemma_group_value(3, 2);
    }
}

/// The toggle is off.
#[derive(Clone, Copy, Debug, PartialEq, Eq, Structural)]
pub struct Unchecked;

impl State for Unchecked {
    open spec fn spec_mask() -> u32 {
        4
    }

    open spec fn spec_value() -> u32 {
        0
    }

    fn mask(&self) -> (r: u32) {
        4
    }

    fn value(&self) -> (r: u32) {
        0
    }

    proof fn lemma_value_within_mask() {
        lemma_group_value(4, 0);
    }
}

/// The toggle is on.
#[derive(Clone, Copy, Debug, PartialEq, Eq, Structural)]
pub struct Checked;

impl State for Checked {
    open spec fn spec_mask() -> u32 {
        4
    }

    open spec fn spec_value() -> u32 {
        4
    }

    fn mask(&self) -> (r: u32) {
        4
    }

    fn value(&self) -> (r: u32) {
        4
    }

    proof fn lemma_value_within_mask() {
        lemma_group_value(4, 4);
    }
}

/// The toggle reacts to input.
#[derive(Clone, Copy, Debug, PartialEq, Eq, Structural)]
pub struct Active;

impl State for Active {
    open spec fn spec_mask() -> u32 {
        8
    }

    open spec fn spec_value() -> u32 {
        0
    }

    fn mask(&self) -> (r: u32) {
        8
    }

    fn value(&self) -> (r: u32) {
        0
    }

    proof fn lemma_value_within_mask() {
        lemma_group_value(8, 0);
    }
}

/// The toggle ignores input.
#[derive(Clone, Copy, Debug, PartialEq, Eq, Structural)]
pub struct Inactive;

impl State for Inactive {
    open spec fn spec_mask() -> u32 {
        8
    }

    open spec fn spec_value() -> u32 {
        8
    }

    fn mask(&self) -> (r: u32) {
        8
    }

    fn value(&self) -> (r: u32) {
        8
    }

    proof fn lemma_value_within_mask() {
        lemma_group_value(8, 8);
    }
}

/// The fields of a toggle that callbacks may change.
///
/// They are split off from the data so that callbacks can work on the toggle while the
/// data is borrowed.
pub struct ToggleFields<W, D, FSel = NoCallback, FS = NoCallback> {
    pub parent_index: usize,
    pub inner: W,
    pub on_selected_changed: FSel,
    pub on_state_changed: FS,
    pub state: WidgetState,
    pub data: PhantomData<D>,
}

impl<W: Widget, D, FSel, FS> ToggleFields<W, D, FSel, FS> {
    /// Whether `change_state` to a state of type `S` may turn the fields into `after`: the
    /// state is set, and if that changed it, the content learns of the new state.
    pub open spec fn spec_change_state<S: State>(&self, after: Self) -> bool {
        let st = self.state.spec_set_state::<S>();
        if st == self.state {
            after == *self
        } else {
            self.inner.spec_state_changes_to(st, after.inner)
                && after == (ToggleFields { inner: after.inner, state: st, ..*self })
        }
    }

    /// How an active toggle routes `event` (see `Widget::test_input`): a press goes to the
    /// content first, then to the toggle if it falls inside it; a drag inside makes it
    /// hovered unless it is pressed, a drag outside idle; a hover goes to the content first,
    /// which makes the toggle idle, else makes it hovered inside and idle outside without
    /// taking the event; a cancel makes it idle.
    pub open spec fn spec_routes_input(&self, event: InputEvent, after: Self, r: Option<usize>) -> bool {
        match event {
            InputEvent::Cancel => r is None && self.spec_change_state::<Idle>(after),
            InputEvent::PointerEvent(p, PointerEvent::Down) => exists|ir: Option<usize>|
                #![trigger self.inner.spec_tests_input(event, after.inner, ir)]
                self.inner.spec_tests_input(event, after.inner, ir)
                    && after == (ToggleFields { inner: after.inner, ..*self })
                    && r == match ir {
                    Some(i) => Some((i + 1) as usize),
                    None => if after.inner.spec_bounding_box().spec_contains(p) { Some(0usize) } else { None },
                },
            InputEvent::PointerEvent(p, PointerEvent::Drag) => if self.inner.spec_bounding_box().spec_contains(p) {
                r == Some(0usize) && if self.state.spec_has_state::<Pressed>() {
                    after == *self
                } else {
                    self.spec_change_state::<Hovered>(after)
                }
            } else {
                r is None && self.spec_change_state::<Idle>(after)
            },
            InputEvent::PointerEvent(_, PointerEvent::Up) => after == *self
                && r == (if self.state.spec_has_state::<Pressed>() { Some(0usize) } else { None }),
            InputEvent::PointerEvent(p, PointerEvent::Hover) => exists|ir: Option<usize>, mid: Self|
                #![trigger self.inner.spec_tests_input(event, mid.inner, ir)]
                self.inner.spec_tests_input(event, mid.inner, ir)
                    && mid == (ToggleFields { inner: mid.inner, ..*self })
                    && match ir {
                    Some(i) => r == Some((i + 1) as usize) && mid.spec_change_state::<Idle>(after),
                    None => r is None && if mid.inner.spec_bounding_box().spec_contains(p) {
                        mid.spec_change_state::<Hovered>(after)
                    } else {
                        mid.spec_change_state::<Idle>(after)
                    },
                },
            _ => r is None && after == *self,
        }
    }

    /// Sets `state` and tells the content if that changed anything.
    fn change_state<S: State>(&mut self, state: S)
        ensures
            old(self).spec_change_state::<S>(*final(self)),
            final(self).state == old(self).state.spec_set_state::<S>(),
            final(self).parent_index == old(self).parent_index,
            final(self).on_selected_changed == old(self).on_selected_changed,
            final(self).on_state_changed == old(self).on_state_changed,
            final(self).state == old(self).state ==> *final(self) == *old(self),
    {
        if self.state.set_state(state) {
            self.inner.on_state_changed(self.state);
        }
    }

    /// Lets the toggle react to input, or not.
    pub fn set_active(&mut self, active: bool) -> (r: &mut Self)
        ensures
            r.state == (if active {
                old(self).state.spec_set_state::<Active>()
            } else {
                old(self).state.spec_set_state::<Inactive>()
            }),
            r.parent_index == old(self).parent_index,
            r.on_selected_changed == old(self).on_selected_changed,
            r.on_state_changed == old(self).on_state_changed,
            *final(self) == *final(r),
    {
        if active {
            self.change_state(Active);
        } else {
            self.change_state(Inactive);
        }
        self
    }

    /// Whether the toggle is checked.
    pub fn is_checked(&self) -> (r: bool)
        ensures
            r == self.state.spec_has_state::<Checked>(),
    {
        self.state.has_state(Checked)
    }

    /// Checks or unchecks the toggle.
    pub fn set_checked(&mut self, checked: bool) -> (r: &mut Self)
        ensures
            r.state == (if checked {
                old(self).state.spec_set_state::<Checked>()
            } else {
                old(self).state.spec_set_state::<Unchecked>()
            }),
            r.parent_index == old(self).parent_index,
            r.on_selected_changed == old(self).on_selected_changed,
            r.on_state_changed == old(self).on_state_changed,
            checked ==> old(self).spec_change_state::<Checked>(*r),
            !checked ==> old(self).spec_change_state::<Unchecked>(*r),
            *final(self) == *final(r),
    {
        if checked {
            self.change_state(Checked);
        } else {
            self.change_state(Unchecked);
        }
        self
    }
}

/// A toggle. With `MANUAL_UNCHECK` false, clicking a checked toggle leaves it checked, as
/// in a group of radio buttons.
pub struct Toggle<W, D: WidgetData, const MANUAL_UNCHECK: bool, FSel = NoCallback, FS = NoCallback, FD = NoCallback> {
    pub fields: ToggleFields<W, D::Data, FSel, FS>,
    pub data_holder: WidgetDataHolder<ToggleFields<W, D::Data, FSel, FS>, D, FD>,
}

impl Toggle<(), NoData, true> {
    pub const STATE_IDLE: Idle = Idle;
    pub const STATE_HOVERED: Hovered = Hovered;
    pub const STATE_PRESSED: Pressed = Pressed;
    pub const STATE_INACTIVE: Inactive = Inactive;
    pub const STATE_ACTIVE: Active = Active;
    pub const STATE_CHECKED: Checked = Checked;
    pub const STATE_UNCHECKED: Unchecked = Unchecked;
}

impl<W: Widget> Toggle<W, NoData, true> {
    /// An unchecked toggle around `inner`, bound to no data.
    pub fn new(inner: W) -> (r: Self)
        ensures
            r.fields.inner == inner,
            r.fields.parent_index == 0,
            r.fields.state == WidgetState(0),
    {
        Toggle {
            fields: ToggleFields {
                parent_index: 0,
                inner,
                on_selected_changed: NoCallback,
                on_state_changed: NoCallback,
                state: WidgetState(0),
                data: PhantomData,
            },
            data_holder: WidgetDataHolder::new(NoData),
        }
    }
}

impl<W: Widget, const MANUAL_UNCHECK: bool, FSel, FS> Toggle<W, NoData, MANUAL_UNCHECK, FSel, FS, NoCallback> {
    /// Binds the toggle to `data`. The callbacks start out doing nothing.
    pub fn bind<D: WidgetData>(self, data: D) -> (r: Toggle<W, D, MANUAL_UNCHECK>)
        ensures
            r.fields.inner == self.fields.inner,
            r.fields.parent_index == self.fields.parent_index,
            r.fields.state == self.fields.state,
            r.data_holder.data == data,
    {
        Toggle {
            fields: ToggleFields {
                parent_index: self.fields.parent_index,
                inner: self.fields.inner,
                on_selected_changed: NoCallback,
                on_state_changed: NoCallback,
                state: self.fields.state,
                data: PhantomData,
            },
            data_holder: WidgetDataHolder::new(data),
        }
    }
}

impl<W: Widget, D: WidgetData, FSel, FS, FD> Toggle<W, D, true, FSel, FS, FD> {
    /// The same toggle, which clicking no longer unchecks.
    pub fn disallow_manual_uncheck(self) -> (r: Toggle<W, D, false, FSel, FS, FD>)
        ensures
            r.fields == self.fields,
            r.data_holder == self.data_holder,
    {
        Toggle { fields: self.fields, data_holder: self.data_holder }
    }
}

impl<W: Widget, D: WidgetData, const MANUAL_UNCHECK: bool, FSel, FS, FD> Toggle<W, D, MANUAL_UNCHECK, FSel, FS, FD> {
    /// Lets the toggle react to input, or not.
    pub fn active(self, active: bool) -> (r: Self)
        ensures
            r.fields.state == (if active {
                self.fields.state.spec_set_state::<Active>()
            } else {
                self.fields.state.spec_set_state::<Inactive>()
            }),
            r.data_holder == self.data_holder,
    {
        let mut s = self;
        s.set_active(active);
        s
    }

    /// Lets the toggle react to input, or not.
    pub fn set_active(&mut self, active: bool) -> (r: &mut Self)
        ensures
            r.fields.state == (if active {
                old(self).fields.state.spec_set_state::<Active>()
            } else {
                old(self).fields.state.spec_set_state::<Inactive>()
            }),
            r.data_holder == old(self).data_holder,
            *final(self) == *final(r),
    {
        self.fields.set_active(active);
        self
    }

    /// Checks or unchecks the toggle.
    pub fn checked(self, checked: bool) -> (r: Self)
        ensures
            r.fields.state == (if checked {
                self.fields.state.spec_set_state::<Checked>()
            } else {
                self.fields.state.spec_set_state::<Unchecked>()
            }),
            r.data_holder == self.data_holder,
    {
        let mut s = self;
        s.set_checked(checked);
        s
    }

    /// Checks or unchecks the toggle.
    pub fn set_checked(&mut self, checked: bool) -> (r: &mut Self)
        ensures
            r.fields.state == (if checked {
                old(self).fields.state.spec_set_state::<Checked>()
            } else {
                old(self).fields.state.spec_set_state::<Unchecked>()
            }),
            r.data_holder == old(self).data_holder,
            *final(self) == *final(r),
    {
        self.fields.set_checked(checked);
        self
    }

    /// Sets the callback that runs when the bound data changed.
    pub fn on_data_changed<G>(self, callback: G) -> (r: Toggle<W, D, MANUAL_UNCHECK, FSel, FS, G>)
        ensures
            r.fields == self.fields,
            r.data_holder.data == self.data_holder.data,
            r.data_holder.on_data_changed == callback,
    {
        Toggle { fields: self.fields, data_holder: self.data_holder.with_callback(callback) }
    }

    /// Sets the callback that receives the new checked state and the bound data when a
    /// click changed it.
    pub fn on_selected_changed<G>(self, callback: G) -> (r: Toggle<W, D, MANUAL_UNCHECK, G, FS, FD>)
        ensures
            r.fields.inner == self.fields.inner,
            r.fields.parent_index == self.fields.parent_index,
            r.fields.state == self.fields.state,
            r.fields.on_selected_changed == callback,
            r.fields.on_state_changed == self.fields.on_state_changed,
            r.data_holder.data == self.data_holder.data,
            r.data_holder.on_data_changed == self.data_holder.on_data_changed,
    {
        Toggle {
            fields: ToggleFields {
                parent_index: self.fields.parent_index,
                inner: self.fields.inner,
                on_selected_changed: callback,
                on_state_changed: self.fields.on_state_changed,
                state: self.fields.state,
                data: PhantomData,
            },
            data_holder: self.data_holder.retarget(),
        }
    }
}

/// The state of a toggle after a click: a toggle that may be unchecked by hand flips; one
/// that may not only goes from unchecked to checked.
pub open spec fn clicked_state(state: WidgetState, manual_uncheck: bool) -> WidgetState {
    let checked = state.spec_has_state::<Checked>();
    if manual_uncheck || !checked {
        if checked {
            state.spec_set_state::<Unchecked>()
        } else {
            state.spec_set_state::<Checked>()
        }
    } else {
        state
    }
}

impl<W: Widget, D: WidgetData, const MANUAL_UNCHECK: bool, FSel: SelectedCallback<D::Data>, FS, FD> Toggle<W, D, MANUAL_UNCHECK, FSel, FS, FD> {
    /// Flips the checked state, unless that would uncheck a toggle that may not be
    /// unchecked by hand, and reports the new state to the bound data.
    fn fire_on_selected_changed(&mut self)
        ensures
            final(self).fields.state == clicked_state(old(self).fields.state, MANUAL_UNCHECK),
            final(self).fields.parent_index == old(self).fields.parent_index,
            final(self).fields.on_selected_changed == old(self).fields.on_selected_changed,
            final(self).data_holder.on_data_changed == old(self).data_holder.on_data_changed,
            ({
                let was = old(self).fields.state.spec_has_state::<Checked>();
                if MANUAL_UNCHECK || !was {
                    &&& old(self).fields.on_selected_changed.spec_selected_call(
                        !was,
                        old(self).data_holder.data.spec_data(),
                        final(self).data_holder.data.spec_data(),
                    )
                    &&& if was {
                        old(self).fields.spec_change_state::<Unchecked>(final(self).fields)
                    } else {
                        old(self).fields.spec_change_state::<Checked>(final(self).fields)
                    }
                } else {
                    *final(self) == *old(self)
                }
            }),
    {
        let is_checked = self.fields.state.has_state(Checked);
        if MANUAL_UNCHECK || !is_checked {
            self.fields.set_checked(!is_checked);
            self.data_holder.data.update(SelectedUpdate {
                callback: &self.fields.on_selected_changed,
                selected: !is_checked,
            });
        }
    }
}

/// Law: a toggle that may be unchecked by hand is checked after a click exactly when it
/// was not before; one that may not is always checked after a click.
pub proof fn law_click_toggles(state: WidgetState, manual_uncheck: bool)
    ensures
        manual_uncheck ==> clicked_state(state, manual_uncheck).spec_has_state::<Checked>()
            == !state.spec_has_state::<Checked>(),
        !manual_uncheck ==> clicked_state(state, manual_uncheck).spec_has_state::<Checked>(),
{
    crate::state::law_set_state_has_state::<Checked>(state);
    Unchecked::lemma_value_within_mask();
    crate::state::lemma_set_bits_has(state.0, 4, 0);
}

impl<
    W: Widget,
    D: WidgetData,
    const MANUAL_UNCHECK: bool,
    FSel: SelectedCallback<D::Data>,
    FS,
    FD: DataChangedCallback<ToggleFields<W, D::Data, FSel, FS>, D::Data>,
> Widget for Toggle<W, D, MANUAL_UNCHECK, FSel, FS, FD> {
    open spec fn spec_bounding_box(&self) -> BoundingBox {
        self.fields.inner.spec_bounding_box()
    }

    open spec fn spec_children() -> nat {
        W::spec_children() + 1
    }

    open spec fn spec_parent_index(&self) -> usize {
        self.fields.parent_index
    }

    open spec fn spec_is_selectable(&self) -> bool {
        true
    }

    open spec fn spec_measures_to(&self, measure_spec: MeasureSpec, after: Self) -> bool {
        self.fields.inner.spec_measures_to(measure_spec, after.fields.inner)
            && after == (Toggle { fields: ToggleFields { inner: after.fields.inner, ..self.fields }, ..*self })
    }

    open spec fn spec_resizes_to(&self, size: MeasuredSize, after: Self) -> bool {
        self.fields.inner.spec_resizes_to(size, after.fields.inner)
            && after == (Toggle { fields: ToggleFields { inner: after.fields.inner, ..self.fields }, ..*self })
    }

    open spec fn spec_updates_to(&self, after: Self) -> bool {
        if self.data_holder.data.spec_changed() {
            self.data_holder.on_data_changed.spec_data_changed_call(
                self.fields,
                self.data_holder.data.spec_data(),
                after.fields,
            ) && after == (Toggle { fields: after.fields, ..*self })
        } else {
            after == *self
        }
    }

    open spec fn spec_resets_to(&self, after: Self) -> bool {
        &&& after == (Toggle { data_holder: after.data_holder, ..*self })
        &&& !after.data_holder.data.spec_changed()
        &&& after.data_holder.data.spec_data() == self.data_holder.data.spec_data()
        &&& after.data_holder.on_data_changed == self.data_holder.on_data_changed
    }

    open spec fn spec_tests_input(&self, event: InputEvent, after: Self, r: Option<usize>) -> bool {
        &&& after.fields.parent_index == self.fields.parent_index
        &&& self.fields.state.spec_has_state::<Inactive>() ==> r is None && after == *self
        &&& (!self.fields.state.spec_has_state::<Inactive>() ==> match event {
            InputEvent::Cancel => r is None && after.fields.state == self.fields.state.spec_set_state::<Idle>(),
            InputEvent::PointerEvent(p, PointerEvent::Down) => after.fields.state == self.fields.state
                && (r == Some(0usize) ==> after.fields.inner.spec_bounding_box().spec_contains(p))
                && (r is None ==> !after.fields.inner.spec_bounding_box().spec_contains(p)),
            InputEvent::PointerEvent(p, PointerEvent::Drag) => if self.fields.inner.spec_bounding_box().spec_contains(p) {
                r == Some(0usize) && after.fields.state == (if self.fields.state.spec_has_state::<Pressed>() {
                    self.fields.state
                } else {
                    self.fields.state.spec_set_state::<Hovered>()
                })
            } else {
                r is None && after.fields.state == self.fields.state.spec_set_state::<Idle>()
            },
            InputEvent::PointerEvent(_, PointerEvent::Up) => after == *self
                && r == (if self.fields.state.spec_has_state::<Pressed>() { Some(0usize) } else { None }),
            InputEvent::PointerEvent(_, PointerEvent::Hover) => r != Some(0usize)
                && (r is Some ==> after.fields.state == self.fields.state.spec_set_state::<Idle>())
                && (r is None ==> after.fields.state == self.fields.state.spec_set_state::<Idle>()
                    || after.fields.state == self.fields.state.spec_set_state::<Hovered>()),
            _ => r is None && after == *self,
        })
        &&& (!self.fields.state.spec_has_state::<Inactive>() ==> self.fields.spec_routes_input(
            event,
            after.fields,
            r,
        ) && after.data_holder == self.data_holder)
    }

    open spec fn spec_handles_input(&self, ctxt: InputContext, event: InputEvent, after: Self, r: bool) -> bool {
        &&& after.fields.parent_index == self.fields.parent_index
        &&& self.fields.state.spec_has_state::<Inactive>() ==> !r && after == *self
        &&& (!self.fields.state.spec_has_state::<Inactive>() ==> match event {
            InputEvent::Cancel => r && after.fields.state == (if self.fields.state.spec_has_state::<Pressed>() {
                self.fields.state.spec_set_state::<Hovered>()
            } else {
                self.fields.state
            }),
            InputEvent::PointerEvent(_, PointerEvent::Down) => r
                && after.fields.state == self.fields.state.spec_set_state::<Pressed>(),
            InputEvent::PointerEvent(_, PointerEvent::Up) => r
                && after.fields.state == clicked_state(self.fields.state.spec_set_state::<Hovered>(), MANUAL_UNCHECK),
            _ => !r && after == *self,
        })
        &&& (!self.fields.state.spec_has_state::<Inactive>() ==> match event {
            InputEvent::Cancel => after.data_holder == self.data_holder && if self.fields.state.spec_has_state::<Pressed>() {
                self.fields.spec_change_state::<Hovered>(after.fields)
            } else {
                after.fields == self.fields
            },
            InputEvent::PointerEvent(_, PointerEvent::Down) => after.data_holder == self.data_holder
                && self.fields.spec_change_state::<Pressed>(after.fields),
            InputEvent::PointerEvent(_, PointerEvent::Up) => exists|mid: ToggleFields<W, D::Data, FSel, FS>|
                #![trigger self.fields.spec_change_state::<Hovered>(mid)]
                self.fields.spec_change_state::<Hovered>(mid) && if MANUAL_UNCHECK || !mid.state.spec_has_state::<Checked>() {
                    if mid.state.spec_has_state::<Checked>() {
                        mid.spec_change_state::<Unchecked>(after.fields)
                    } else {
                        mid.spec_change_state::<Checked>(after.fields)
                    }
                } else {
                    after.fields == mid
                },
            _ => true,
        })
        &&& ((!self.fields.state.spec_has_state::<Inactive>() && (event is PointerEvent && event->PointerEvent_1 == PointerEvent::Up))
            ==> ({
            let was = self.fields.state.spec_set_state::<Hovered>().spec_has_state::<Checked>();
            if MANUAL_UNCHECK || !was {
                self.fields.on_selected_changed.spec_selected_call(
                    !was,
                    self.data_holder.data.spec_data(),
                    after.data_holder.data.spec_data(),
                )
            } else {
                after.data_holder == self.data_holder
            }
        }))
    }

    open spec fn spec_state_changes_to(&self, state: WidgetState, after: Self) -> bool {
        after == *self
    }

    fn attach(&mut self, parent: usize, self_index: usize)
        ensures
            final(self).fields.parent_index == parent,
    {
        self.set_parent(parent);
        self.fields.inner.attach(self_index, self_index.wrapping_add(1));
    }

    fn arrange(&mut self, position: Position) {
        self.fields.inner.arrange(position);
    }

    fn bounding_box(&self) -> (r: BoundingBox) {
        self.fields.inner.bounding_box()
    }

    fn measure(&mut self, measure_spec: MeasureSpec) {
        self.fields.inner.measure(measure_spec)
    }

    fn set_measured_size(&mut self, size: MeasuredSize) {
        self.fields.inner.set_measured_size(size);
    }

    fn children(&self) -> (r: usize) {
        1 + self.fields.inner.children()
    }

    fn update(&mut self) {
        self.data_holder.update(&mut self.fields);
    }

    fn reset_changed(&mut self) {
        self.data_holder.reset_changed();
    }

    fn parent_index(&self) -> (r: usize) {
        self.fields.parent_index
    }

    fn set_parent(&mut self, index: usize)
        ensures
            final(self).fields.parent_index == index,
    {
        self.fields.parent_index = index;
    }

    /// An inactive toggle wants nothing. A press goes to the content if it wants it, else
    /// to the toggle if it falls inside it; a drag stays with the toggle while inside and
    /// cancels outside; a release goes to a pressed toggle. Hovering sets the hovered state
    /// but is not taken.
    fn test_input(&mut self, event: InputEvent) -> (r: Option<usize>)
        ensures
            final(self).fields.parent_index == old(self).fields.parent_index,
            old(self).fields.state.spec_has_state::<Inactive>() ==> r is None && *final(self) == *old(self),
            !old(self).fields.state.spec_has_state::<Inactive>() ==> match event {
                InputEvent::Cancel => r is None && final(self).fields.state == old(self).fields.state.spec_set_state::<Idle>(),
                InputEvent::PointerEvent(p, PointerEvent::Down) => final(self).fields.state == old(self).fields.state
                    && (r == Some(0usize) ==> final(self).fields.inner.spec_bounding_box().spec_contains(p))
                    && (r is None ==> !final(self).fields.inner.spec_bounding_box().spec_contains(p)),
                InputEvent::PointerEvent(p, PointerEvent::Drag) => if old(self).fields.inner.spec_bounding_box().spec_contains(p) {
                    r == Some(0usize) && final(self).fields.state == (if old(self).fields.state.spec_has_state::<Pressed>() {
                        old(self).fields.state
                    } else {
                        old(self).fields.state.spec_set_state::<Hovered>()
                    })
                } else {
                    r is None && final(self).fields.state == old(self).fields.state.spec_set_state::<Idle>()
                },
                InputEvent::PointerEvent(_, PointerEvent::Up) => *final(self) == *old(self)
                    && r == (if old(self).fields.state.spec_has_state::<Pressed>() { Some(0usize) } else { None }),
                InputEvent::PointerEvent(_, PointerEvent::Hover) => r != Some(0usize)
                    && (r is Some ==> final(self).fields.state == old(self).fields.state.spec_set_state::<Idle>())
                    && (r is None ==> final(self).fields.state == old(self).fields.state.spec_set_state::<Idle>()
                        || final(self).fields.state == old(self).fields.state.spec_set_state::<Hovered>()),
                _ => r is None && *final(self) == *old(self),
            },
            !old(self).fields.state.spec_has_state::<Inactive>() ==> old(self).fields.spec_routes_input(
                event,
                final(self).fields,
                r,
            ) && final(self).data_holder == old(self).data_holder,
    {
        if self.fields.state.has_state(Inactive) {
            return None;
        }
        match event {
            InputEvent::Cancel => {
                self.fields.change_state(Idle);
                None
            },
            InputEvent::PointerEvent(position, PointerEvent::Down) => {
                let ir = self.fields.inner.test_input(event);
                assert(old(self).fields.inner.spec_tests_input(event, self.fields.inner, ir));
                match ir {
                    // we give priority to our child
                    Some(idx) => Some(idx + 1),
                    None => if self.fields.inner.bounding_box().contains(position) {
                        Some(0)
                    } else {
                        None
                    },
                }
            },
            InputEvent::PointerEvent(position, PointerEvent::Drag) => {
                if self.fields.inner.bounding_box().contains(position) {
                    if !self.fields.state.has_state(Pressed) {
                        self.fields.change_state(Hovered);
                    }
                    Some(0)
                } else {
                    // Drag outside = cancel
                    self.fields.change_state(Idle);
                    None
                }
            },
            // We only get Up if we handled Down
            InputEvent::PointerEvent(_, PointerEvent::Up) => {
                if self.fields.state.has_state(Pressed) {
                    Some(0)
                } else {
                    None
                }
            },
            InputEvent::PointerEvent(position, PointerEvent::Hover) => {
                let ir = self.fields.inner.test_input(event);
                let ghost mid = self.fields;
                assert(old(self).fields.inner.spec_tests_input(event, mid.inner, ir));
                match ir {
                    Some(idx) => {
                        // we give priority to our child
                        self.fields.change_state(Idle);
                        Some(idx + 1)
                    },
                    None => {
                        if self.fields.inner.bounding_box().contains(position) {
                            self.fields.change_state(Hovered);
                            // We deliberately don't handle hover events. In case the toggle
                            // is partially displayed, handling hover would route clicks that
                            // fall on the hidden parts.
                            None
                        } else {
                            // Make sure we reset our state if we don't handle the pointer
                            // event. It's possible we were the target for the last one.
                            self.fields.change_state(Idle);
                            None
                        }
                    },
                }
            },
            InputEvent::KeyEvent(_) => None,
            InputEvent::ScrollEvent(_) => None,
        }
    }

    /// An inactive toggle handles nothing. A press makes it pressed; a release makes it
    /// hovered and clicks it; a cancel turns pressed into hovered. The content learns of
    /// every change of state.
    fn handle_input(&mut self, ctxt: InputContext, event: InputEvent) -> (r: bool)
        ensures
            final(self).fields.parent_index == old(self).fields.parent_index,
            old(self).fields.state.spec_has_state::<Inactive>() ==> !r && *final(self) == *old(self),
            !old(self).fields.state.spec_has_state::<Inactive>() ==> match event {
                InputEvent::Cancel => r && final(self).fields.state == (if old(self).fields.state.spec_has_state::<Pressed>() {
                    old(self).fields.state.spec_set_state::<Hovered>()
                } else {
                    old(self).fields.state
                }),
                InputEvent::PointerEvent(_, PointerEvent::Down) => r
                    && final(self).fields.state == old(self).fields.state.spec_set_state::<Pressed>(),
                InputEvent::PointerEvent(_, PointerEvent::Up) => r
                    && final(self).fields.state == clicked_state(old(self).fields.state.spec_set_state::<Hovered>(), MANUAL_UNCHECK),
                _ => !r && *final(self) == *old(self),
            },
            !old(self).fields.state.spec_has_state::<Inactive>() ==> match event {
                InputEvent::Cancel => final(self).data_holder == old(self).data_holder && if old(self).fields.state.spec_has_state::<Pressed>() {
                    old(self).fields.spec_change_state::<Hovered>(final(self).fields)
                } else {
                    final(self).fields == old(self).fields
                },
                InputEvent::PointerEvent(_, PointerEvent::Down) => final(self).data_holder == old(self).data_holder
                    && old(self).fields.spec_change_state::<Pressed>(final(self).fields),
                InputEvent::PointerEvent(_, PointerEvent::Up) => exists|mid: ToggleFields<W, D::Data, FSel, FS>|
                    #![trigger old(self).fields.spec_change_state::<Hovered>(mid)]
                    old(self).fields.spec_change_state::<Hovered>(mid) && if MANUAL_UNCHECK || !mid.state.spec_has_state::<Checked>() {
                        if mid.state.spec_has_state::<Checked>() {
                            mid.spec_change_state::<Unchecked>(final(self).fields)
                        } else {
                            mid.spec_change_state::<Checked>(final(self).fields)
                        }
                    } else {
                        final(self).fields == mid
                    },
                _ => true,
            },
            (!old(self).fields.state.spec_has_state::<Inactive>() && (event is PointerEvent && event->PointerEvent_1 == PointerEvent::Up))
                ==> ({
                let was = old(self).fields.state.spec_set_state::<Hovered>().spec_has_state::<Checked>();
                if MANUAL_UNCHECK || !was {
                    old(self).fields.on_selected_changed.spec_selected_call(
                        !was,
                        old(self).data_holder.data.spec_data(),
                        final(self).data_holder.data.spec_data(),
                    )
                } else {
                    final(self).data_holder == old(self).data_holder
                }
            }),
    {
        if self.fields.state.has_state(Inactive) {
            return false;
        }
        match event {
            InputEvent::Cancel => {
                if self.fields.state.has_state(Pressed) {
                    self.fields.change_state(Hovered);
                }
                true
            },
            InputEvent::PointerEvent(_, pe) => match pe {
                PointerEvent::Hover | PointerEvent::Drag => false,
                PointerEvent::Down => {
                    self.fields.change_state(Pressed);
                    true
                },
                PointerEvent::Up => {
                    self.fields.change_state(Hovered);
                    let ghost mid = self.fields;
                    self.fire_on_selected_changed();
                    assert(old(self).fields.spec_change_state::<Hovered>(mid));
                    true
                },
            },
            _ => false,
        }
    }

    fn on_state_changed(&mut self, state: WidgetState) {
        // don't react to parent's state change
    }

    fn is_selectable(&self) -> (r: bool) {
        true
    }
}

impl<C, W, D, const MANUAL_UNCHECK: bool, FSel, FS, FD> WidgetRenderer<C> for Toggle<W, D, MANUAL_UNCHECK, FSel, FS, FD> where
    W: Widget + WidgetRenderer<C>,
    C: Canvas,
    D: WidgetData,
 {
    open spec fn spec_draws(&self, canvas: C, after: Self, canvas_after: C, r: Result<(), C::Error>) -> bool {
        self.fields.inner.spec_draws(canvas, after.fields.inner, canvas_after, r) && after == (Toggle { fields: ToggleFields { inner: after.fields.inner, ..self.fields }, ..*self })
    }

    /// Draws the content.
    fn draw(&mut self, canvas: &mut C) -> (r: Result<(), C::Error>)
        ensures
            final(self).fields.state == old(self).fields.state,
            final(self).data_holder == old(self).data_holder,
    {
        self.fields.inner.draw(canvas)
    }
}

} // verus!
