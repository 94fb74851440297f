//! Names the main and the cross axis of a horizontal or a vertical arrangement.

use vstd::prelude::*;

verus! {

/// Orders a pair of values as (main axis, cross axis).
pub trait AxisOrder {
    /// Whether the main axis is the horizontal one.
    spec fn spec_is_horizontal() -> bool;

    /// The main-axis component of `(x, y)`.
    fn main_axis<V>(x: V, y: V) -> (r: V)
        ensures
            r == (if Self::spec_is_horizontal() { x } else { y }),
    ;

    /// The cross-axis component of `(x, y)`.
    fn cross_axis<V>(x: V, y: V) -> (r: V)
        ensures
            r == (if Self::spec_is_horizontal() { y } else { x }),
    ;

    /// Builds `(x, y)` from a main-axis and a cross-axis component.
    fn merge<V>(main: V, cross: V) -> (r: (V, V))
        ensures
            r == (if Self::spec_is_horizontal() { (main, cross) } else { (cross, main) }),
    ;
}

/// The main axis is `x`.
#[derive(Clone, Copy)]
pub struct Horizontal;

/// The main axis is `y`.
#[derive(Clone, Copy)]
pub struct Vertical;

impl AxisOrder for Horizontal {
    open spec fn spec_is_horizontal() -> bool {
        true
    }

    fn main_axis<V>(x: V, y: V) -> (r: V) {
        x
    }

    fn cross_axis<V>(x: V, y: V) -> (r: V) {
        y
    }

    fn merge<V>(main: V, cross: V) -> (r: (V, V)) {
        (main, cross)
    }
}

impl AxisOrder for Vertical {
    open spec fn spec_is_horizontal() -> bool {
        false
    }

    fn main_axis<V>(x: V, y: V) -> (r: V) {
        y
    }

    fn cross_axis<V>(x: V, y: V) -> (r: V) {
        x
    }

    fn merge<V>(main: V, cross: V) -> (r: (V, V)) {
        (cross, main)
    }
}

} // verus!
