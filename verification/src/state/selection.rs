//! The selection state group.

use vstd::prelude::*;
use crate::state::{State, lemma_group_value};

verus! {

/// The widget is selected.
#[derive(Clone, Copy, Debug)]
pub struct Selected;

/// The widget is not selected.
#[derive(Clone, Copy, Debug)]
pub struct Unselected;

impl State for Selected {
    open spec fn spec_mask() -> u32 {
        0x8000_0000
    }

    open spec fn spec_value() -> u32 {
        0x8000_0000
    }

    fn mask(&self) -> (r: u32) {
        0x8000_0000
    }

    fn value(&self) -> (r: u32) {
        0x8000_0000
    }

    proof fn lemma_value_within_mask() {
        lemma_group_value(0x8000_0000, 0x8000_0000);
    }
}

impl State for Unselected {
    open spec fn spec_mask() -> u32 {
        0x8000_0000
    }

    open spec fn spec_value() -> u32 {
        0
    }

    fn mask(&self) -> (r: u32) {
        0x8000_0000
    }

    fn value(&self) -> (r: u32) {
        0
    }

    proof fn lemma_value_within_mask() {
        lemma_group_value(0x8000_0000, 0);
    }
}

} // verus!
