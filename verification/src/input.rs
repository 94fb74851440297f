//! Input events routed to widgets.

use vstd::prelude::*;

use crate::geometry::Position;

verus! {

/// What happened to the pointer.
#[derive(Clone, Copy, Debug, PartialEq, Eq, Structural)]
pub enum PointerEvent {
    Hover,
    Down,
    Drag,
    Up,
}

/// A scroll wheel movement.
#[derive(Clone, Copy, Debug, PartialEq, Eq, Structural)]
pub enum ScrollEvent {
    HorizontalScroll(i32),
    VerticalScroll(i32),
}

/// A key of the keyboard.
#[derive(Clone, Copy, Debug, PartialEq, Eq, Structural)]
pub enum Key {
    Backspace,
    Delete,
    Enter,
    Tab,
    ArrowLeft,
    ArrowRight,
    ArrowUp,
    ArrowDown,
    Home,
    End,
    Character(char),
}

/// Modifier keys held during a key event.
#[derive(Clone, Copy, Debug, PartialEq, Eq, Structural)]
pub enum Modifier {
    NoModifier,
    Shift,
    Control,
    Alt,
}

/// A keyboard event.
#[derive(Clone, Copy, Debug, PartialEq, Eq, Structural)]
pub enum KeyEvent {
    /// A key went down; the counter says how often it repeated.
    KeyDown(Key, Modifier, u32),
    KeyUp(Key, Modifier),
}

/// An input event.
#[derive(Clone, Copy, Debug, PartialEq, Eq, Structural)]
pub enum InputEvent {
    /// Ends whatever interaction was going on.
    Cancel,
    PointerEvent(Position, PointerEvent),
    ScrollEvent(ScrollEvent),
    KeyEvent(KeyEvent),
}

/// What the input controller hands to the widget that handles an event.
#[derive(Clone, Copy, Debug, PartialEq, Eq, Structural)]
pub struct InputContext {
    /// The index of the widget that handles the event.
    pub target: usize,
}

} // verus!
