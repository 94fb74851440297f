use embedded_gui::geometry::{
    cast_i32_u32, cast_u32_i32, max_u32, trunc_div_i32, wrapping_add_i32,
    wrapping_add_u32, wrapping_double_u32, wrapping_sub_i32, BoundingBox, MeasureConstraint,
    MeasuredSize, Position, PositionDelta,
};
use embedded_gui::state::selection::{Selected, Unselected};
use embedded_gui::state::WidgetState;
use embedded_gui::widgets::toggle::{Checked, Hovered, Idle, Pressed, Unchecked};

fn bbox(x: i32, y: i32, width: u32, height: u32) -> BoundingBox {
    BoundingBox { position: Position { x, y }, size: MeasuredSize { width, height } }
}

#[test]
fn casts_reinterpret_twos_complement() {
    assert_eq!(cast_u32_i32(5), 5);
    assert_eq!(cast_u32_i32(u32::MAX), -1);
    assert_eq!(cast_u32_i32(0x8000_0000), i32::MIN);
    assert_eq!(cast_i32_u32(-1), u32::MAX);
    assert_eq!(cast_i32_u32(7), 7);
    assert_eq!(cast_i32_u32(i32::MIN), 0x8000_0000);
}

#[test]
fn wrapping_arithmetic_wraps() {
    assert_eq!(wrapping_add_i32(i32::MAX, 1), i32::MIN);
    assert_eq!(wrapping_sub_i32(i32::MIN, 1), i32::MAX);
    assert_eq!(wrapping_add_i32(3, -5), -2);
    assert_eq!(wrapping_add_u32(u32::MAX, 2), 1);
    assert_eq!(wrapping_double_u32(0x8000_0001), 2);
    assert_eq!(wrapping_double_u32(21), 42);
}

#[test]
fn division_rounds_towards_zero() {
    assert_eq!(trunc_div_i32(7, 2), 3);
    assert_eq!(trunc_div_i32(-7, 2), -3);
    assert_eq!(trunc_div_i32(7, -2), -3);
    assert_eq!(trunc_div_i32(-7, -2), 3);
    assert_eq!(trunc_div_i32(i32::MIN, -1), i32::MIN);
    assert_eq!(trunc_div_i32(i32::MIN, 2), -0x4000_0000);
}

#[test]
fn max_of_sizes() {
    assert_eq!(max_u32(3, 9), 9);
    assert_eq!(max_u32(4, 4), 4);
}

#[test]
fn positions_move_by_deltas() {
    let p = Position { x: 10, y: -4 };
    let d = PositionDelta { x: 3, y: 5 };
    let moved = p.translate(d);
    assert_eq!(moved, Position { x: 13, y: 1 });
    assert_eq!(moved.translate_back(d), p);
    assert_eq!(moved.delta_from(p), d);
    assert_eq!(p.plus(Position { x: -10, y: 4 }), Position::zero());
    assert_eq!(Position::default(), Position { x: 0, y: 0 });
}

#[test]
fn bounding_box_contains_half_open_area() {
    let b = bbox(10, 20, 5, 3);
    assert!(b.contains(Position { x: 10, y: 20 }));
    assert!(b.contains(Position { x: 14, y: 22 }));
    assert!(!b.contains(Position { x: 15, y: 22 }));
    assert!(!b.contains(Position { x: 14, y: 23 }));
    assert!(!b.contains(Position { x: 9, y: 21 }));
    assert!(!BoundingBox::empty().contains(Position { x: 0, y: 0 }));
    assert_eq!(BoundingBox::default(), bbox(0, 0, 0, 0));
}

#[test]
fn bounding_box_contains_near_the_coordinate_limit() {
    let b = bbox(i32::MAX - 1, 0, 10, 1);
    assert!(b.contains(Position { x: i32::MAX, y: 0 }));
    assert!(!b.contains(Position { x: i32::MIN, y: 0 }));
}

#[test]
fn measure_constraints() {
    assert_eq!(MeasureConstraint::AtMost(10).shrink(4), MeasureConstraint::AtMost(6));
    assert_eq!(MeasureConstraint::Exactly(3).shrink(4), MeasureConstraint::Exactly(0));
    assert_eq!(MeasureConstraint::Unspecified.shrink(4), MeasureConstraint::Unspecified);
    assert_eq!(MeasureConstraint::AtMost(10).largest(), Some(10));
    assert_eq!(MeasureConstraint::Exactly(7).largest(), Some(7));
    assert_eq!(MeasureConstraint::Unspecified.largest(), None);
    assert_eq!(MeasureConstraint::AtMost(10).apply_to_measured(4), 4);
    assert_eq!(MeasureConstraint::AtMost(10).apply_to_measured(40), 10);
    assert_eq!(MeasureConstraint::Exactly(10).apply_to_measured(4), 10);
    assert_eq!(MeasureConstraint::Unspecified.apply_to_measured(40), 40);
}

#[test]
fn setting_a_state_makes_the_widget_have_it() {
    let mut s = WidgetState::default();
    assert!(s.has_state(Unchecked));
    assert!(s.set_state(Checked));
    assert!(s.has_state(Checked));
    assert!(!s.has_state(Unchecked));
    // setting it again changes nothing
    assert!(!s.set_state(Checked));
    assert!(s.has_state(Checked));
}

#[test]
fn setting_a_state_keeps_other_groups() {
    let mut s = WidgetState::default();
    s.set_state(Checked);
    s.set_state(Pressed);
    assert!(s.has_state(Checked));
    assert!(s.has_state(Pressed));
    s.set_state(Hovered);
    assert!(s.has_state(Hovered));
    assert!(!s.has_state(Idle));
    assert!(s.has_state(Checked));
}

#[test]
fn change_state_keeps_the_selection() {
    let mut s = WidgetState::default();
    assert!(s.change_selection(true));
    assert!(s.has_state(Selected));
    assert!(s.change_state(0x8000_0003));
    assert_eq!(s.0, 0x8000_0003);
    assert_eq!(s.state(), 3);
    assert!(s.change_state(1));
    assert_eq!(s.0, 0x8000_0001);
    assert!(!s.change_state(1));
    assert!(s.change_selection(false));
    assert!(s.has_state(Unselected));
    assert_eq!(s.0, 1);
}
