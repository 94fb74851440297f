//! A button: a widget that can be clicked.

use vstd::prelude::*;

use core::marker::PhantomData;

use crate::data::{NoData, WidgetData};
use crate::geometry::{BoundingBox, MeasureSpec, MeasuredSize, Position};
use crate::input::{InputContext, InputEvent, PointerEvent};
use crate::rendering::{Canvas, WidgetRenderer};
use crate::state::selection::{Selected, Unselected};
use crate::state::{SELECTION_MASK, WidgetState};
use crate::widgets::utils::callback::{
    ClickUpdate, DataCallback, DataChangedCallback, NoCallback, StateCallback,
};
use crate::widgets::utils::WidgetDataHolder;
use crate::widgets::Widget;

verus! {

/// The fields of a button that callbacks may change.
///
/// They are split off from the data so that callbacks can work on the button while the
/// data is borrowed.
pub struct ButtonFields<W, D, FC = NoCallback, FS = NoCallback> {
    pub parent_index: usize,
    pub inner: W,
    pub on_clicked: FC,
    pub on_state_changed: FS,
    pub state: WidgetState,
    pub data: PhantomData<D>,
}

/// The state bits after `change_state(state)`: the selection is kept, the rest replaced.
pub open spec fn changed_bits(old_bits: u32, state: u32) -> u32 {
    (old_bits & SELECTION_MASK) | (state & !SELECTION_MASK)
}

/// Changing to the state the widget is in changes no bit.
pub proof fn lemma_changed_bits_same(bits: u32)
    ensures
        changed_bits(bits, bits & !SELECTION_MASK) == bits,
{
    assert(((bits & 0x8000_0000) | ((bits & !0x8000_0000u32) & !0x8000_0000u32)) == bits) by (bit_vector);
}

impl<W: Widget, D, FC, FS: StateCallback<ButtonFields<W, D, FC, FS>> + Copy> ButtonFields<W, D, FC, FS> {
    /// Whether `change_state(state)` may turn the fields into `after`: when the bits
    /// change, the content learns of the new state and then the state callback runs.
    pub open spec fn spec_change_state(&self, state: u32, after: Self) -> bool {
        let bits = changed_bits(self.state.0, state);
        if bits == self.state.0 {
            after == *self
        } else {
            exists|inner: W|
                #![trigger self.inner.spec_state_changes_to(WidgetState(bits), inner)]
                self.inner.spec_state_changes_to(WidgetState(bits), inner)
                    && self.on_state_changed.spec_state_call(
                    ButtonFields { inner, state: WidgetState(bits), ..*self },
                    WidgetState(bits),
                    after,
                )
        }
    }

    /// Sets the state. If that changed anything, the content hears of the new state and
    /// the state callback runs.
    pub fn change_state(&mut self, state: u32) -> (r: &mut Self)
        ensures
            changed_bits(old(self).state.0, state) == old(self).state.0 ==> *r == *old(self),
            old(self).spec_change_state(state, *r),
            *final(self) == *final(r),
    {
        if self.state.change_state(state) {
            self.inner.on_state_changed(self.state);
            let ghost mid = *self;
            let callback = self.on_state_changed;
            let new_state = self.state;
            callback.call(self, new_state);
            assert(old(self).inner.spec_state_changes_to(new_state, mid.inner));
        }
        self
    }

    /// Enables the button, unless it is in another state than disabled, or disables it.
    pub fn set_enabled(&mut self, enabled: bool) -> (r: &mut Self)
        ensures
            enabled && old(self).state.spec_state() != 3 ==> *r == *old(self),
            !enabled && old(self).state.spec_state() == 3 ==> *r == *old(self),
            enabled && old(self).state.spec_state() == 3 ==> old(self).spec_change_state(0, *r),
            !enabled && old(self).state.spec_state() != 3 ==> old(self).spec_change_state(3, *r),
            *final(self) == *final(r),
    {
        if enabled {
            if self.state.state() == 3 {
                // Don't want to override other states
                self.change_state(0);
            }
        } else {
            proof {
                lemma_changed_bits_same(self.state.0);
            }
            self.change_state(3);
        }
        self
    }
}

/// How a button that is not disabled routes `event` (see `Widget::test_input`): a press
/// goes to the content first, then to the button if it falls inside it; a drag inside makes
/// the button hovered unless it is pressed, a drag outside makes it idle; a hover goes to
/// the content first, which makes the button idle, else makes it hovered inside and idle
/// outside without taking the event; a cancel makes it idle.
pub open spec fn button_routes_input<W: Widget, D, FC, FS: StateCallback<ButtonFields<W, D, FC, FS>> + Copy>(
    before: ButtonFields<W, D, FC, FS>,
    event: InputEvent,
    after: ButtonFields<W, D, FC, FS>,
    r: Option<usize>,
) -> bool {
    match event {
        InputEvent::Cancel => r is None && before.spec_change_state(0, after),
        InputEvent::PointerEvent(p, PointerEvent::Down) => exists|ir: Option<usize>|
            #![trigger before.inner.spec_tests_input(event, after.inner, ir)]
            before.inner.spec_tests_input(event, after.inner, ir)
                && after == (ButtonFields { inner: after.inner, ..before })
                && r == match ir {
                Some(i) => Some((i + 1) as usize),
                None => if after.inner.spec_bounding_box().spec_contains(p) { Some(0usize) } else { None },
            },
        InputEvent::PointerEvent(p, PointerEvent::Drag) => if before.inner.spec_bounding_box().spec_contains(p) {
            r == Some(0usize) && if before.state.spec_state() != 2 {
                before.spec_change_state(1, after)
            } else {
                after == before
            }
        } else {
            r is None && before.spec_change_state(0, after)
        },
        InputEvent::PointerEvent(_, PointerEvent::Up) => after == before
            && r == (if before.state.spec_state() == 2 { Some(0usize) } else { None }),
        InputEvent::PointerEvent(p, PointerEvent::Hover) => exists|ir: Option<usize>, mid: ButtonFields<W, D, FC, FS>|
            #![trigger before.inner.spec_tests_input(event, mid.inner, ir)]
            before.inner.spec_tests_input(event, mid.inner, ir)
                && mid == (ButtonFields { inner: mid.inner, ..before })
                && match ir {
                Some(i) => r == Some((i + 1) as usize) && mid.spec_change_state(0, after),
                None => r is None && if mid.inner.spec_bounding_box().spec_contains(p) {
                    mid.spec_change_state(1, after)
                } else {
                    mid.spec_change_state(0, after)
                },
            },
        _ => r is None && after == before,
    }
}

/// A widget that can be clicked.
pub struct Button<W, D: WidgetData = NoData, FC = NoCallback, FS = NoCallback, FD = NoCallback> {
    pub fields: ButtonFields<W, D::Data, FC, FS>,
    pub data_holder: WidgetDataHolder<ButtonFields<W, D::Data, FC, FS>, D, FD>,
}

impl Button<(), NoData> {
    pub const STATE_IDLE: u32 = 0;
    pub const STATE_HOVERED: u32 = 1;
    pub const STATE_PRESSED: u32 = 2;
    pub const STATE_DISABLED: u32 = 3;
}

impl<W: Widget> Button<W, NoData, NoCallback, NoCallback, NoCallback> {
    /// A button around `inner`, idle, bound to no data.
    pub fn new(inner: W) -> (r: Self)
        ensures
            r.fields.inner == inner,
            r.fields.parent_index == 0,
            r.fields.state == WidgetState(0),
    {
        Button {
            fields: ButtonFields {
                parent_index: 0,
                inner,
                on_clicked: NoCallback,
                on_state_changed: NoCallback,
                state: WidgetState(0),
                data: PhantomData,
            },
            data_holder: WidgetDataHolder::new(NoData),
        }
    }
}

impl<W: Widget, FC, FS> Button<W, NoData, FC, FS, NoCallback> {
    /// Binds the button to `data`. The callbacks start out doing nothing.
    pub fn bind<D: WidgetData>(self, data: D) -> (r: Button<W, D, NoCallback, NoCallback, NoCallback>)
        ensures
            r.fields.inner == self.fields.inner,
            r.fields.parent_index == self.fields.parent_index,
            r.fields.state == self.fields.state,
            r.data_holder.data == data,
    {
        Button {
            fields: ButtonFields {
                parent_index: self.fields.parent_index,
                inner: self.fields.inner,
                on_clicked: NoCallback,
                on_state_changed: NoCallback,
                state: self.fields.state,
                data: PhantomData,
            },
            data_holder: WidgetDataHolder::new(data),
        }
    }
}

impl<W: Widget, D: WidgetData, FC, FS: StateCallback<ButtonFields<W, D::Data, FC, FS>> + Copy, FD> Button<W, D, FC, FS, FD> {
    /// Enables or disables the button.
    pub fn enabled(self, enabled: bool) -> (r: Self)
        ensures
            enabled && self.fields.state.spec_state() != 3 ==> r == self,
            !enabled && self.fields.state.spec_state() == 3 ==> r == self,
            enabled && self.fields.state.spec_state() == 3 ==> self.fields.spec_change_state(0, r.fields),
            !enabled && self.fields.state.spec_state() != 3 ==> self.fields.spec_change_state(3, r.fields),
            r.data_holder == self.data_holder,
    {
        let mut s = self;
        s.set_enabled(enabled);
        s
    }

    /// Enables or disables the button.
    pub fn set_enabled(&mut self, enabled: bool) -> (r: &mut Self)
        ensures
            enabled && old(self).fields.state.spec_state() != 3 ==> *r == *old(self),
            !enabled && old(self).fields.state.spec_state() == 3 ==> *r == *old(self),
            enabled && old(self).fields.state.spec_state() == 3 ==> old(self).fields.spec_change_state(0, r.fields),
            !enabled && old(self).fields.state.spec_state() != 3 ==> old(self).fields.spec_change_state(3, r.fields),
            r.data_holder == old(self).data_holder,
            *final(self) == *final(r),
    {
        self.fields.set_enabled(enabled);
        self
    }
}

impl<W: Widget, D: WidgetData, FC, FS, FD> Button<W, D, FC, FS, FD> {
    /// Sets the callback that runs when the bound data changed.
    pub fn on_data_changed<G>(self, callback: G) -> (r: Button<W, D, FC, FS, G>)
        ensures
            r.fields == self.fields,
            r.data_holder.data == self.data_holder.data,
            r.data_holder.on_data_changed == callback,
    {
        Button { fields: self.fields, data_holder: self.data_holder.with_callback(callback) }
    }

    /// Sets the callback that runs on the bound data when the button is clicked.
    pub fn on_clicked<G>(self, callback: G) -> (r: Button<W, D, G, FS, FD>)
        ensures
            r.fields.inner == self.fields.inner,
            r.fields.parent_index == self.fields.parent_index,
            r.fields.state == self.fields.state,
            r.fields.on_state_changed == self.fields.on_state_changed,
            r.fields.on_clicked == callback,
            r.data_holder.data == self.data_holder.data,
            r.data_holder.on_data_changed == self.data_holder.on_data_changed,
    {
        Button {
            fields: ButtonFields {
                parent_index: self.fields.parent_index,
                inner: self.fields.inner,
                on_clicked: callback,
                on_state_changed: self.fields.on_state_changed,
                state: self.fields.state,
                data: PhantomData,
            },
            data_holder: self.data_holder.retarget(),
        }
    }
}

impl<W: Widget, D: WidgetData, FC: DataCallback<D::Data>, FS, FD> Button<W, D, FC, FS, FD> {
    fn fire_on_pressed(&mut self)
        ensures
            *final(self) == *old(self),
    {
    }

    /// Runs the click callback on the bound data.
    fn fire_on_clicked(&mut self)
        ensures
            final(self).fields == old(self).fields,
            final(self).data_holder.on_data_changed == old(self).data_holder.on_data_changed,
            old(self).fields.on_clicked.spec_data_call(
                old(self).data_holder.data.spec_data(),
                final(self).data_holder.data.spec_data(),
            ),
    {
        self.data_holder.data.update(ClickUpdate { callback: &self.fields.on_clicked });
    }
}

impl<W: Widget, D: WidgetData, FC, FS: StateCallback<ButtonFields<W, D::Data, FC, FS>> + Copy, FD> Button<W, D, FC, FS, FD> {
    /// Sets the state (see `ButtonFields::change_state`).
    pub fn change_state(&mut self, state: u32)
        ensures
            changed_bits(old(self).fields.state.0, state) == old(self).fields.state.0 ==> *final(self) == *old(self),
            old(self).fields.spec_change_state(state, final(self).fields),
            final(self).data_holder == old(self).data_holder,
    {
        self.fields.change_state(state);
    }

    /// Whether `change_selection(selected)` may turn the fields into `after`: when the
    /// selection changes, the state callback runs; deselecting then makes the button idle.
    pub open spec fn spec_change_selection(
        fields: ButtonFields<W, D::Data, FC, FS>,
        selected: bool,
        after: ButtonFields<W, D::Data, FC, FS>,
    ) -> bool {
        let sel = if selected {
            fields.state.spec_set_state::<Selected>()
        } else {
            fields.state.spec_set_state::<Unselected>()
        };
        exists|mid: ButtonFields<W, D::Data, FC, FS>|
            #![trigger mid.spec_change_state(0, after)]
            (if sel == fields.state {
                mid == fields
            } else {
                fields.on_state_changed.spec_state_call(ButtonFields { state: sel, ..fields }, sel, mid)
            }) && (if selected { after == mid } else { mid.spec_change_state(0, after) })
    }

    /// Selects or deselects the button. Deselecting also makes it idle.
    pub fn change_selection(&mut self, selected: bool)
        ensures
            final(self).data_holder == old(self).data_holder,
            Self::spec_change_selection(old(self).fields, selected, final(self).fields),
    {
        // apply state
        let changed = self.fields.state.change_selection(selected);
        let ghost sel_fields = self.fields;
        if changed {
            let callback = self.fields.on_state_changed;
            let new_state = self.fields.state;
            callback.call(&mut self.fields, new_state);
        }
        let ghost mid = self.fields;
        assert(sel_fields == (ButtonFields { state: sel_fields.state, ..old(self).fields }));
        if !selected {
            // while this isn't correct (i.e. deselecting by keyboard removes hover state)
            // it might be good enough
            self.change_state(0);
        }
        proof {
            let sel = sel_fields.state;
            assert(if sel == old(self).fields.state {
                mid == old(self).fields
            } else {
                old(self).fields.on_state_changed.spec_state_call(
                    ButtonFields { state: sel, ..old(self).fields },
                    sel,
                    mid,
                )
            });
            assert(sel == (if selected {
                old(self).fields.state.spec_set_state::<Selected>()
            } else {
                old(self).fields.state.spec_set_state::<Unselected>()
            }));
            assert(if selected { self.fields == mid } else { mid.spec_change_state(0, self.fields) });
            let change_to_idle = mid.spec_change_state(0, self.fields);
            assert(Self::spec_change_selection(old(self).fields, selected, self.fields));
        }
    }
}

impl<
    W: Widget,
    D: WidgetData,
    FC: DataCallback<D::Data>,
    FS: StateCallback<ButtonFields<W, D::Data, FC, FS>> + Copy,
    FD: DataChangedCallback<ButtonFields<W, D::Data, FC, FS>, D::Data>,
> Widget for Button<W, D, FC, FS, FD> {
    open spec fn spec_bounding_box(&self) -> BoundingBox {
        self.fields.inner.spec_bounding_box()
    }

    open spec fn spec_children() -> nat {
        W::spec_children() + 1
    }

    open spec fn spec_parent_index(&self) -> usize {
        self.fields.parent_index
    }

    open spec fn spec_is_selectable(&self) -> bool {
        true
    }

    open spec fn spec_measures_to(&self, measure_spec: MeasureSpec, after: Self) -> bool {
        self.fields.inner.spec_measures_to(measure_spec, after.fields.inner)
            && after == (Button { fields: ButtonFields { inner: after.fields.inner, ..self.fields }, ..*self })
    }

    open spec fn spec_resizes_to(&self, size: MeasuredSize, after: Self) -> bool {
        self.fields.inner.spec_resizes_to(size, after.fields.inner)
            && after == (Button { fields: ButtonFields { inner: after.fields.inner, ..self.fields }, ..*self })
    }

    open spec fn spec_updates_to(&self, after: Self) -> bool {
        if self.data_holder.data.spec_changed() {
            self.data_holder.on_data_changed.spec_data_changed_call(
                self.fields,
                self.data_holder.data.spec_data(),
                after.fields,
            ) && after.data_holder == self.data_holder
        } else {
            after == *self
        }
    }

    open spec fn spec_resets_to(&self, after: Self) -> bool {
        &&& after.fields == self.fields
        &&& !after.data_holder.data.spec_changed()
        &&& after.data_holder.data.spec_data() == self.data_holder.data.spec_data()
        &&& after.data_holder.on_data_changed == self.data_holder.on_data_changed
    }

    open spec fn spec_tests_input(&self, event: InputEvent, after: Self, r: Option<usize>) -> bool {
        &&& self.fields.state.spec_state() == 3 ==> r is None && after == *self
        &&& (self.fields.state.spec_state() != 3 ==> match event {
            InputEvent::Cancel => r is None,
            InputEvent::PointerEvent(p, PointerEvent::Down) => after.fields.state == self.fields.state
                && (r == Some(0usize) ==> after.fields.inner.spec_bounding_box().spec_contains(p))
                && (r is None ==> !after.fields.inner.spec_bounding_box().spec_contains(p)),
            InputEvent::PointerEvent(p, PointerEvent::Drag) => r == (if self.fields.inner.spec_bounding_box().spec_contains(p) {
                Some(0usize)
            } else {
                None
            }),
            InputEvent::PointerEvent(_, PointerEvent::Up) => after == *self
                && r == (if self.fields.state.spec_state() == 2 { Some(0usize) } else { None }),
            InputEvent::PointerEvent(_, PointerEvent::Hover) => r != Some(0usize),
            _ => r is None && after == *self,
        })
        &&& (self.fields.state.spec_state() != 3 ==> button_routes_input(self.fields, event, after.fields, r)
            && after.data_holder == self.data_holder)
    }

    open spec fn spec_handles_input(&self, ctxt: InputContext, event: InputEvent, after: Self, r: bool) -> bool {
        &&& self.fields.state.spec_state() == 3 ==> !r && after == *self
        &&& (self.fields.state.spec_state() != 3 ==> r == match event {
            InputEvent::Cancel => true,
            InputEvent::PointerEvent(_, PointerEvent::Down) => true,
            InputEvent::PointerEvent(_, PointerEvent::Up) => true,
            _ => false,
        })
        &&& self.fields.state.spec_state() != 3 && !r ==> after == *self
        &&& (self.fields.state.spec_state() != 3 ==> match event {
            InputEvent::Cancel => if self.fields.state.spec_state() == 2 {
                self.fields.spec_change_state(1, after.fields)
                    && after.data_holder == self.data_holder
            } else {
                after == *self
            },
            InputEvent::PointerEvent(_, PointerEvent::Down) => self.fields.spec_change_state(2, after.fields)
                && after.data_holder == self.data_holder,
            InputEvent::PointerEvent(_, PointerEvent::Up) => self.fields.spec_change_state(1, after.fields)
                && after.fields.on_clicked.spec_data_call(
                self.data_holder.data.spec_data(),
                after.data_holder.data.spec_data(),
            ) && after.data_holder.on_data_changed == self.data_holder.on_data_changed,
            _ => true,
        })
    }

    open spec fn spec_state_changes_to(&self, state: WidgetState, after: Self) -> bool {
        self.fields.spec_change_state(state.spec_state(), after.fields) && after.data_holder == self.data_holder
    }

    fn attach(&mut self, parent: usize, self_index: usize)
        ensures
            final(self).fields.parent_index == parent,
    {
        self.set_parent(parent);
        self.fields.inner.attach(self_index, self_index.wrapping_add(1));
    }

    fn arrange(&mut self, position: Position) {
        self.fields.inner.arrange(position);
    }

    fn bounding_box(&self) -> (r: BoundingBox) {
        self.fields.inner.bounding_box()
    }

    fn measure(&mut self, measure_spec: MeasureSpec) {
        self.fields.inner.measure(measure_spec)
    }

    fn set_measured_size(&mut self, size: MeasuredSize) {
        self.fields.inner.set_measured_size(size);
    }

    fn children(&self) -> (r: usize) {
        1 + self.fields.inner.children()
    }

    fn update(&mut self) {
        self.data_holder.update(&mut self.fields);
    }

    fn reset_changed(&mut self) {
        self.data_holder.reset_changed();
    }

    fn parent_index(&self) -> (r: usize) {
        self.fields.parent_index
    }

    fn set_parent(&mut self, index: usize)
        ensures
            final(self).fields.parent_index == index,
    {
        self.fields.parent_index = index;
    }

    /// A disabled button wants nothing. A press goes to the content if it wants it, else to
    /// the button if it falls inside it; a drag stays with the button while inside and
    /// cancels outside; a release goes to a pressed button. Hovering sets the hovered state
    /// but is not taken, so that clicks on hidden parts of the button go elsewhere.
    fn test_input(&mut self, event: InputEvent) -> (r: Option<usize>)
        ensures
            old(self).fields.state.spec_state() == 3 ==> r is None && *final(self) == *old(self),
            old(self).fields.state.spec_state() != 3 ==> match event {
                InputEvent::Cancel => r is None,
                InputEvent::PointerEvent(p, PointerEvent::Down) => final(self).fields.state == old(self).fields.state
                    && (r == Some(0usize) ==> final(self).fields.inner.spec_bounding_box().spec_contains(p))
                    && (r is None ==> !final(self).fields.inner.spec_bounding_box().spec_contains(p)),
                InputEvent::PointerEvent(p, PointerEvent::Drag) => r == (if old(self).fields.inner.spec_bounding_box().spec_contains(p) {
                    Some(0usize)
                } else {
                    None
                }),
                InputEvent::PointerEvent(_, PointerEvent::Up) => *final(self) == *old(self)
                    && r == (if old(self).fields.state.spec_state() == 2 { Some(0usize) } else { None }),
                InputEvent::PointerEvent(_, PointerEvent::Hover) => r != Some(0usize),
                _ => r is None && *final(self) == *old(self),
            },
            old(self).fields.state.spec_state() != 3 ==> button_routes_input(old(self).fields, event, final(self).fields, r)
                && final(self).data_holder == old(self).data_holder,
    {
        if self.fields.state.state() == 3 {
            return None;
        }
        match event {
            InputEvent::Cancel => {
                self.change_state(0);
                None
            },
            InputEvent::PointerEvent(position, PointerEvent::Down) => {
                let ir = self.fields.inner.test_input(event);
                assert(old(self).fields.inner.spec_tests_input(event, self.fields.inner, ir));
                match ir {
                    // we give priority to our child
                    Some(idx) => Some(idx + 1),
                    None => if self.fields.inner.bounding_box().contains(position) {
                        Some(0)
                    } else {
                        None
                    },
                }
            },
            InputEvent::PointerEvent(position, PointerEvent::Drag) => {
                if self.fields.inner.bounding_box().contains(position) {
                    if self.fields.state.state() != 2 {
                        self.change_state(1);
                    }
                    Some(0)
                } else {
                    // Drag outside = cancel
                    self.change_state(0);
                    None
                }
            },
            // We only get Up if we handled Down
            InputEvent::PointerEvent(_, PointerEvent::Up) => {
                if self.fields.state.state() == 2 {
                    Some(0)
                } else {
                    None
                }
            },
            InputEvent::PointerEvent(position, PointerEvent::Hover) => {
                let ir = self.fields.inner.test_input(event);
                let ghost mid = self.fields;
                assert(old(self).fields.inner.spec_tests_input(event, mid.inner, ir));
                match ir {
                    Some(idx) => {
                        // we give priority to our child
                        self.change_state(0);
                        Some(idx + 1)
                    },
                    None => {
                        if self.fields.inner.bounding_box().contains(position) {
                            self.change_state(1);
                            // We deliberately don't handle hover events. In case the button
                            // is partially displayed, handling hover would route clicks
                            // that fall on the hidden parts.
                            None
                        } else {
                            // Make sure we reset our state if we don't handle the pointer
                            // event. It's possible we were the target for the last one.
                            self.change_state(0);
                            None
                        }
                    },
                }
            },
            InputEvent::KeyEvent(_) => None,
            InputEvent::ScrollEvent(_) => None,
        }
    }

    /// A disabled button handles nothing. A press makes it pressed; a release makes it
    /// hovered and clicks it; a cancel turns pressed into hovered.
    fn handle_input(&mut self, ctxt: InputContext, event: InputEvent) -> (r: bool)
        ensures
            old(self).fields.state.spec_state() == 3 ==> !r && *final(self) == *old(self),
            old(self).fields.state.spec_state() != 3 ==> r == match event {
                InputEvent::Cancel => true,
                InputEvent::PointerEvent(_, PointerEvent::Down) => true,
                InputEvent::PointerEvent(_, PointerEvent::Up) => true,
                _ => false,
            },
            old(self).fields.state.spec_state() != 3 && !r ==> *final(self) == *old(self),
            old(self).fields.state.spec_state() != 3 ==> match event {
                InputEvent::Cancel => if old(self).fields.state.spec_state() == 2 {
                    old(self).fields.spec_change_state(1, final(self).fields)
                        && final(self).data_holder == old(self).data_holder
                } else {
                    *final(self) == *old(self)
                },
                InputEvent::PointerEvent(_, PointerEvent::Down) => old(self).fields.spec_change_state(2, final(self).fields)
                    && final(self).data_holder == old(self).data_holder,
                InputEvent::PointerEvent(_, PointerEvent::Up) => old(self).fields.spec_change_state(1, final(self).fields)
                    && final(self).fields.on_clicked.spec_data_call(
                    old(self).data_holder.data.spec_data(),
                    final(self).data_holder.data.spec_data(),
                ) && final(self).data_holder.on_data_changed == old(self).data_holder.on_data_changed,
                _ => true,
            },
    {
        if self.fields.state.state() == 3 {
            return false;
        }
        match event {
            InputEvent::Cancel => {
                if self.fields.state.state() == 2 {
                    self.change_state(1);
                }
                true
            },
            InputEvent::PointerEvent(_, pe) => match pe {
                PointerEvent::Hover | PointerEvent::Drag => false,
                PointerEvent::Down => {
                    self.fire_on_pressed();
                    self.change_state(2);
                    true
                },
                PointerEvent::Up => {
                    self.change_state(1);
                    self.fire_on_clicked();
                    true
                },
            },
            _ => false,
        }
    }

    /// The button takes over the state bits of its parent, keeping its selection.
    fn on_state_changed(&mut self, state: WidgetState) {
        self.change_state(state.state());
    }

    fn is_selectable(&self) -> (r: bool) {
        true
    }
}

impl<C, W, D, FC, FS, FD> WidgetRenderer<C> for Button<W, D, FC, FS, FD> where
    W: Widget + WidgetRenderer<C>,
    C: Canvas,
    D: WidgetData,
 {
    open spec fn spec_draws(&self, canvas: C, after: Self, canvas_after: C, r: Result<(), C::Error>) -> bool {
        self.fields.inner.spec_draws(canvas, after.fields.inner, canvas_after, r) && after == (Button { fields: ButtonFields { inner: after.fields.inner, ..self.fields }, ..*self })
    }

    /// Draws the content.
    fn draw(&mut self, canvas: &mut C) -> (r: Result<(), C::Error>)
        ensures
            final(self).fields.state == old(self).fields.state,
            final(self).data_holder == old(self).data_holder,
    {
        self.fields.inner.draw(canvas)
    }
}

} // verus!
