//! Widget state: a set of bits, partitioned into groups.
//!
//! A state group owns the bits of its mask; each state of the group is one value of those
//! bits. Setting a state overwrites the bits of its group and leaves every other bit alone.

use vstd::prelude::*;

pub mod selection;

verus! {

/// A state of some group: the group's mask and the value of the masked bits.
pub trait State {
    /// The bits that belong to the state's group.
    spec fn spec_mask() -> u32;

    /// The value of the group's bits when the widget is in this state.
    spec fn spec_value() -> u32;

    /// The group's mask.
    fn mask(&self) -> (r: u32)
        ensures
            r == Self::spec_mask(),
    ;

    /// The state's value.
    fn value(&self) -> (r: u32)
        ensures
            r == Self::spec_value(),
    ;

    /// A state sets no bit outside its group.
    proof fn lemma_value_within_mask()
        ensures
            Self::spec_value() & !Self::spec_mask() == 0,
    ;
}

/// The mask of the selection group, which the older `change_state` API leaves alone.
pub const SELECTION_MASK: u32 = 0x8000_0000;

/// The state bits of a widget.
#[derive(Clone, Copy, Debug, PartialEq, Eq, Structural)]
pub struct WidgetState(pub u32);

/// The bits after a state of the group `mask` with value `value` is set on `bits`.
pub open spec fn set_bits(bits: u32, mask: u32, value: u32) -> u32 {
    (bits & !mask) | value
}

/// Whether `bits` are in the state of the group `mask` with value `value`.
pub open spec fn has_bits(bits: u32, mask: u32, value: u32) -> bool {
    bits & mask == value
}

/// After a state is set, the widget has it.
pub proof fn lemma_set_bits_has(bits: u32, mask: u32, value: u32)
    requires
        value & !mask == 0,
    ensures
        has_bits(set_bits(bits, mask, value), mask, value),
{
    assert(((bits & !mask) | value) & mask == value) by (bit_vector)
        requires
            value & !mask == 0,
    ;
}

/// Setting a state leaves the bits of every other group unchanged.
pub proof fn lemma_set_bits_other_group(bits: u32, mask: u32, value: u32, other: u32)
    requires
        value & !mask == 0,
        mask & other == 0,
    ensures
        set_bits(bits, mask, value) & other == bits & other,
{
    assert(((bits & !mask) | value) & other == bits & other) by (bit_vector)
        requires
            value & !mask == 0,
            mask & other == 0,
    ;
}

/// Setting a state twice is the same as setting it once.
pub proof fn lemma_set_bits_idempotent(bits: u32, mask: u32, value: u32)
    requires
        value & !mask == 0,
    ensures
        set_bits(set_bits(bits, mask, value), mask, value) == set_bits(bits, mask, value),
{
    assert((((bits & !mask) | value) & !mask) | value == (bits & !mask) | value) by (bit_vector)
        requires
            value & !mask == 0,
    ;
}

/// The states that the widgets of this crate define: each value lies within its mask.
pub proof fn lemma_group_value(mask: u32, value: u32)
    requires
        (mask == 1 && (value == 0 || value == 1)) || (mask == 2 && (value == 0 || value == 2))
            || (mask == 3 && (value == 0 || value == 1 || value == 2)) || (mask == 4 && (value
            == 0 || value == 4)) || (mask == 8 && (value == 0 || value == 8)) || (mask
            == 0x8000_0000 && (value == 0 || value == 0x8000_0000)),
    ensures
        value & !mask == 0,
{
    assert(value & !mask == 0) by (bit_vector)
        requires
            (mask == 1 && (value == 0 || value == 1)) || (mask == 2 && (value == 0 || value
                == 2)) || (mask == 3 && (value == 0 || value == 1 || value == 2)) || (mask == 4
                && (value == 0 || value == 4)) || (mask == 8 && (value == 0 || value == 8))
                || (mask == 0x8000_0000 && (value == 0 || value == 0x8000_0000)),
    ;
}

impl Default for WidgetState {
    fn default() -> (r: WidgetState)
        ensures
            r == WidgetState(0),
    {
        WidgetState(0)
    }
}

impl WidgetState {
    pub open spec fn spec_has_state<S: State>(self) -> bool {
        has_bits(self.0, S::spec_mask(), S::spec_value())
    }

    pub open spec fn spec_set_state<S: State>(self) -> WidgetState {
        WidgetState(set_bits(self.0, S::spec_mask(), S::spec_value()))
    }

    /// The bits outside the selection group.
    pub open spec fn spec_state(self) -> u32 {
        self.0 & !SELECTION_MASK
    }

    /// Sets `state`, overwriting the other states of its group. Returns whether the bits
    /// changed.
    pub fn set_state<S: State>(&mut self, state: S) -> (changed: bool)
        ensures
            *final(self) == old(self).spec_set_state::<S>(),
            changed == (*final(self) != *old(self)),
    {
        let new_bits = (self.0 & !state.mask()) | state.value();
        let changed = new_bits != self.0;
        self.0 = new_bits;
        changed
    }

    /// Whether the widget is in `state`.
    pub fn has_state<S: State>(&self, state: S) -> (r: bool)
        ensures
            r == self.spec_has_state::<S>(),
    {
        (self.0 & state.mask()) == state.value()
    }

    /// The state bits outside the selection group.
    pub fn state(&self) -> (r: u32)
        ensures
            r == self.spec_state(),
    {
        self.0 & !SELECTION_MASK
    }

    /// Replaces the bits outside the selection group with those of `state`; the
    /// selection is kept. Returns whether the bits changed.
    pub fn change_state(&mut self, state: u32) -> (changed: bool)
        ensures
            final(self).0 == (old(self).0 & SELECTION_MASK) | (state & !SELECTION_MASK),
            changed == (*final(self) != *old(self)),
    {
        let new_bits = (self.0 & SELECTION_MASK) | (state & !SELECTION_MASK);
        let changed = new_bits != self.0;
        self.0 = new_bits;
        changed
    }

    /// Selects or deselects the widget. Returns whether the bits changed.
    pub fn change_selection(&mut self, selected: bool) -> (changed: bool)
        ensures
            *final(self) == (if selected {
                old(self).spec_set_state::<selection::Selected>()
            } else {
                old(self).spec_set_state::<selection::Unselected>()
            }),
            changed == (*final(self) != *old(self)),
    {
        if selected {
            self.set_state(selection::Selected)
        } else {
            self.set_state(selection::Unselected)
        }
    }
}

/// Law: after `set_state(s)`, `has_state(s)` holds.
pub proof fn law_set_state_has_state<S: State>(w: WidgetState)
    ensures
        w.spec_set_state::<S>().spec_has_state::<S>(),
{
    S::lemma_value_within_mask();
    lemma_set_bits_has(w.0, S::spec_mask(), S::spec_value());
}

/// Law: setting a state of one group does not change whether the widget is in a state of
/// another, disjoint group.
pub proof fn law_set_state_keeps_other_group<S: State, T: State>(w: WidgetState)
    requires
        S::spec_mask() & T::spec_mask() == 0,
    ensures
        w.spec_set_state::<S>().spec_has_state::<T>() == w.spec_has_state::<T>(),
{
    S::lemma_value_within_mask();
    lemma_set_bits_other_group(w.0, S::spec_mask(), S::spec_value(), T::spec_mask());
}

/// Law: setting the same state twice changes nothing the second time.
pub proof fn law_set_state_idempotent<S: State>(w: WidgetState)
    ensures
        w.spec_set_state::<S>().spec_set_state::<S>() == w.spec_set_state::<S>(),
{
    S::lemma_value_within_mask();
    lemma_set_bits_idempotent(w.0, S::spec_mask(), S::spec_value());
}

} // verus!
