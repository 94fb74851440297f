//! A scrollable area.

use vstd::prelude::*;

use core::marker::PhantomData;

use crate::data::{NoData, WidgetData};
use crate::geometry::axis_order::{AxisOrder, Horizontal as HorizontalOrder, Vertical as VerticalOrder};
use crate::geometry::{
    BoundingBox, MeasureConstraint, MeasureSpec, MeasuredSize, Position, PositionDelta,
    cast_i32_u32, cast_u32_i32, i32_to_u32, lemma_u32_i32_roundtrip, trunc_div, trunc_div_i32, u32_to_i32,
    wrap_i32, wrapping_add_i32, wrapping_sub_i32,
};
use crate::input::{InputContext, InputEvent, PointerEvent, ScrollEvent};
use crate::state::{State, WidgetState, lemma_group_value};
use crate::widgets::utils::callback::{DataChangedCallback, NoCallback, ValueCallback, ValueUpdate};
use crate::widgets::utils::WidgetDataHolder;
use crate::widgets::Widget;

verus! {

/// What a scroll area reports when its offset changed.
#[derive(Clone, Copy, Debug, PartialEq, Eq, Structural)]
pub struct ScrollData {
    /// The current scroll position.
    pub offset: i32,
    /// The largest possible value of `offset`.
    pub maximum_offset: i32,
    /// The Scroll widget's main size (height of Vertical, width of Horizontal).
    pub viewport_size: i32,
}

/// The main-axis component of a delta.
pub open spec fn delta_main(horizontal: bool, d: PositionDelta) -> i32 {
    if horizontal {
        d.x
    } else {
        d.y
    }
}

/// The delta that is `v` along the main axis.
pub open spec fn delta_from_main(horizontal: bool, v: i32) -> PositionDelta {
    if horizontal {
        PositionDelta { x: v, y: 0 }
    } else {
        PositionDelta { x: 0, y: v }
    }
}

/// `v`, or 0 if `v` is negative.
pub open spec fn at_least_zero(v: i32) -> i32 {
    if v >= 0 {
        v
    } else {
        0
    }
}

/// The largest offset a scroll area of size `own` with content of size `child` can have:
/// how much larger the content is along the main axis.
pub open spec fn max_offset(horizontal: bool, child: MeasuredSize, own: MeasuredSize) -> i32 {
    let c = if horizontal { child.width } else { child.height };
    let o = if horizontal { own.width } else { own.height };
    u32_to_i32(if c >= o { (c - o) as u32 } else { 0 })
}

/// `offset`, but not beyond the largest offset.
pub open spec fn clamped_offset(horizontal: bool, offset: i32, child: MeasuredSize, own: MeasuredSize) -> i32 {
    let m = max_offset(horizontal, child, own);
    if offset <= m {
        offset
    } else {
        m
    }
}

/// The step an animated scroll takes from `current` towards `target` in one frame, when it
/// should take `frames` frames: an equal part of the distance, but at least one pixel. A
/// time of 0 frames reaches the target at once.
pub open spec fn spec_scroll_step(target: i32, current: i32, frames: u32) -> i32 {
    let delta = wrap_i32(target - current);
    let f = u32_to_i32(frames);
    let q = if f == 0 { delta } else { wrap_i32(trunc_div(delta as int, f as int)) };
    if q == 0 {
        if target > current {
            1i32
        } else {
            -1i32
        }
    } else {
        q
    }
}

/// The direction in which a scroll area scrolls, and its scroll offset.
pub trait ScrollDirection {
    type AxisOrder: AxisOrder;

    /// The scroll offset along the main axis.
    spec fn spec_offset(&self) -> i32;

    /// The scroll offset as a delta.
    fn offset(&self) -> (r: PositionDelta)
        ensures
            r == delta_from_main(<Self::AxisOrder as AxisOrder>::spec_is_horizontal(), self.spec_offset()),
    ;

    /// Moves the offset by the main-axis component of `delta`, but not below zero.
    fn change_offset(&mut self, delta: PositionDelta)
        ensures
            final(self).spec_offset() == at_least_zero(
                wrap_i32(old(self).spec_offset() + delta_main(<Self::AxisOrder as AxisOrder>::spec_is_horizontal(), delta)),
            ),
    ;

    /// Sets the offset to the main-axis component of `offset`.
    fn override_offset(&mut self, offset: PositionDelta)
        ensures
            final(self).spec_offset() == delta_main(<Self::AxisOrder as AxisOrder>::spec_is_horizontal(), offset),
    ;
}

/// Scrolls along the horizontal axis.
pub struct Horizontal {
    offset: u32,
}

impl ScrollDirection for Horizontal {
    type AxisOrder = HorizontalOrder;

    closed spec fn spec_offset(&self) -> i32 {
        u32_to_i32(self.offset)
    }

    fn offset(&self) -> (r: PositionDelta) {
        PositionDelta { x: cast_u32_i32(self.offset), y: 0 }
    }

    fn change_offset(&mut self, delta: PositionDelta) {
        let moved = wrapping_add_i32(cast_u32_i32(self.offset), delta.x);
        self.offset = if moved >= 0 { moved as u32 } else { 0 };
    }

    fn override_offset(&mut self, offset: PositionDelta) {
        self.offset = cast_i32_u32(HorizontalOrder::main_axis(offset.x, offset.y));
        proof {
            lemma_u32_i32_roundtrip(offset.x);
        }
    }
}

/// Scrolls along the vertical axis.
pub struct Vertical {
    offset: u32,
}

impl ScrollDirection for Vertical {
    type AxisOrder = VerticalOrder;

    closed spec fn spec_offset(&self) -> i32 {
        u32_to_i32(self.offset)
    }

    fn offset(&self) -> (r: PositionDelta) {
        PositionDelta { x: 0, y: cast_u32_i32(self.offset) }
    }

    fn change_offset(&mut self, delta: PositionDelta) {
        let moved = wrapping_add_i32(cast_u32_i32(self.offset), delta.y);
        self.offset = if moved >= 0 { moved as u32 } else { 0 };
    }

    fn override_offset(&mut self, offset: PositionDelta) {
        self.offset = cast_i32_u32(VerticalOrder::main_axis(offset.x, offset.y));
        proof {
            lemma_u32_i32_roundtrip(offset.y);
        }
    }
}

/// Lets a scroll area keep moving after the pointer let go.
pub trait FlingController: Sized {
    /// The distance the fling moves in the current frame.
    spec fn spec_fling_delta(&self) -> i32;

    /// Whether advancing the fling by one frame may turn it into `after`.
    spec fn spec_fling_updates_to(&self, after: Self) -> bool;

    /// Whether starting the fling may turn it into `after`.
    spec fn spec_fling_starts_to(&self, after: Self) -> bool;

    /// Whether stopping the fling may turn it into `after`.
    spec fn spec_fling_stops_to(&self, after: Self) -> bool;

    /// Whether recording the pointer movement `delta` may turn the fling into `after`.
    spec fn spec_fling_records(&self, delta: i32, after: Self) -> bool;

    /// Advances the fling by one frame.
    fn update(&mut self)
        ensures
            old(self).spec_fling_updates_to(*final(self)),
    ;

    /// Starts a fling with the last movement of the pointer.
    fn start_fling(&mut self)
        ensures
            old(self).spec_fling_starts_to(*final(self)),
    ;

    /// Stops the fling.
    fn stop_fling(&mut self)
        ensures
            final(self).spec_fling_delta() == 0,
            old(self).spec_fling_stops_to(*final(self)),
    ;

    /// The distance the fling moves in the current frame.
    fn fling_delta(&self) -> (r: i32)
        ensures
            r == self.spec_fling_delta(),
    ;

    /// Records the last movement of the pointer.
    fn set_fling_delta(&mut self, delta: i32)
        ensures
            old(self).spec_fling_records(delta, *final(self)),
    ;
}

/// No fling: the area stops when the pointer lets go.
#[derive(Clone, Copy, Debug, PartialEq, Eq, Structural)]
pub struct NoFling;

/// A fling that slows down by `friction / divisor` pixels per frame.
pub struct PointerFling {
    next_delta: i32,
    delta: i32,
    divisor: i32,
    friction: i32,
}

/// The fling speed after one frame of friction: it moves towards zero by `friction` and
/// stops there.
pub open spec fn spec_friction_step(delta: i32, friction: i32) -> i32 {
    if delta == 0 {
        0
    } else if delta < 0 {
        let v = wrap_i32(delta + friction);
        if v <= 0 { v } else { 0 }
    } else {
        let v = wrap_i32(delta - friction);
        if v >= 0 { v } else { 0 }
    }
}

/// The fling speed after `frames` frames of friction, starting at `delta`.
pub open spec fn spec_fling_speed_after(delta: i32, friction: i32, frames: nat) -> i32
    decreases frames,
{
    if frames == 0 {
        delta
    } else {
        spec_friction_step(spec_fling_speed_after(delta, friction, (frames - 1) as nat), friction)
    }
}

/// The distance a fling that started at speed `delta` moves in frame number `frames`.
pub open spec fn spec_fling_frame_delta(delta: i32, friction: i32, divisor: i32, frames: nat) -> i32 {
    wrap_i32(trunc_div(spec_fling_speed_after(delta, friction, frames) as int, divisor as int))
}

/// With a friction that is not negative, the speed drops by the friction every frame until
/// it reaches zero.
proof fn lemma_fling_speed_closed_form(delta: i32, friction: i32, frames: nat)
    requires
        friction >= 0,
    ensures
        delta >= 0 ==> spec_fling_speed_after(delta, friction, frames) == (if delta - frames * friction > 0 {
            delta - frames * friction
        } else {
            0
        }),
        delta <= 0 ==> spec_fling_speed_after(delta, friction, frames) == (if delta + frames * friction < 0 {
            delta + frames * friction
        } else {
            0
        }),
    decreases frames,
{
    if frames > 0 {
        lemma_fling_speed_closed_form(delta, friction, (frames - 1) as nat);
        assert((frames - 1) * friction + friction == frames * friction) by (nonlinear_arith);
        assert((frames - 1) * friction >= 0) by (nonlinear_arith)
            requires
                frames >= 1,
                friction >= 0,
        ;
    }
}

/// Dividing a value in the range of `i32` by a positive number, rounding towards zero,
/// stays in that range.
proof fn lemma_trunc_div_fits(a: int, b: int)
    requires
        i32::MIN <= a <= i32::MAX,
        b >= 1,
    ensures
        a >= 0 ==> 0 <= a / b <= a,
        a < 0 ==> 0 <= (-a) / b <= -a,
        wrap_i32(trunc_div(a, b)) == trunc_div(a, b),
{
    if a >= 0 {
        assert(0 <= a / b <= a) by (nonlinear_arith)
            requires
                a >= 0,
                b >= 1,
        ;
    } else {
        assert(0 <= (-a) / b <= -a) by (nonlinear_arith)
            requires
                a < 0,
                b >= 1,
        ;
    }
}

/// Law: a higher friction gives a shorter fling: started at the same speed and divided by
/// the same positive divisor, a fling with more friction moves in a frame only if one with
/// less friction still moves in it, and never by more.
pub proof fn law_more_friction_shorter_fling(delta: i32, friction1: i32, friction2: i32, divisor: i32, frames: nat)
    requires
        0 <= friction1 <= friction2,
        divisor >= 1,
    ensures
        spec_fling_frame_delta(delta, friction2, divisor, frames) != 0
            ==> spec_fling_frame_delta(delta, friction1, divisor, frames) != 0,
        delta >= 0 ==> 0 <= spec_fling_frame_delta(delta, friction2, divisor, frames)
            <= spec_fling_frame_delta(delta, friction1, divisor, frames),
        delta <= 0 ==> spec_fling_frame_delta(delta, friction1, divisor, frames)
            <= spec_fling_frame_delta(delta, friction2, divisor, frames) <= 0,
{
    lemma_fling_speed_closed_form(delta, friction1, frames);
    lemma_fling_speed_closed_form(delta, friction2, frames);
    let s1 = spec_fling_speed_after(delta, friction1, frames) as int;
    let s2 = spec_fling_speed_after(delta, friction2, frames) as int;
    let d = divisor as int;
    assert(frames * friction1 <= frames * friction2) by (nonlinear_arith)
        requires
            0 <= friction1 <= friction2,
    ;
    assert(frames * friction1 >= 0) by (nonlinear_arith)
        requires
            0 <= friction1,
    ;
    lemma_trunc_div_fits(s1, d);
    lemma_trunc_div_fits(s2, d);
    if delta >= 0 {
        assert(s2 / d <= s1 / d) by (nonlinear_arith)
            requires
                0 <= s2 <= s1,
                d >= 1,
        ;
    } else {
        assert((-s2) / d <= (-s1) / d) by (nonlinear_arith)
            requires
                0 <= -s2 <= -s1,
                d >= 1,
        ;
    }
}

/// Law: a higher friction divisor gives a longer fling: a fling started by the same pointer
/// movement `movement`, with the same friction, moves in the first frame by the movement
/// itself under either divisor, and under the larger divisor it still moves in every frame
/// in which it moves under the smaller one.
pub proof fn law_bigger_divisor_longer_fling(movement: i32, friction: i32, divisor1: i32, divisor2: i32, frames: nat)
    requires
        friction >= 0,
        1 <= divisor1 <= divisor2,
        i32::MIN <= movement * divisor2 <= i32::MAX,
    ensures
        spec_fling_frame_delta(vstd::wrapping::i32_specs::wrapping_mul(movement, divisor1), friction, divisor1, 0) == movement,
        spec_fling_frame_delta(vstd::wrapping::i32_specs::wrapping_mul(movement, divisor2), friction, divisor2, 0) == movement,
        spec_fling_frame_delta(vstd::wrapping::i32_specs::wrapping_mul(movement, divisor1), friction, divisor1, frames) != 0
            ==> spec_fling_frame_delta(vstd::wrapping::i32_specs::wrapping_mul(movement, divisor2), friction, divisor2, frames) != 0,
{
    let n = movement as int;
    let d1 = divisor1 as int;
    let d2 = divisor2 as int;
    let kf = frames * friction;
    assert(kf >= 0) by (nonlinear_arith)
        requires
            friction >= 0,
            kf == frames * friction,
    ;
    if n >= 0 {
        assert(0 <= n * d1 <= n * d2) by (nonlinear_arith)
            requires
                n >= 0,
                1 <= d1 <= d2,
        ;
        assert((n - 1) * d1 <= (n - 1) * d2 || n == 0) by (nonlinear_arith)
            requires
                n >= 0,
                1 <= d1 <= d2,
        ;
    } else {
        assert(n * d2 <= n * d1 < 0) by (nonlinear_arith)
            requires
                n < 0,
                1 <= d1 <= d2,
        ;
        assert((n + 1) * d2 <= (n + 1) * d1) by (nonlinear_arith)
            requires
                n < 0,
                1 <= d1 <= d2,
        ;
    }
    let p1 = n * d1;
    let p2 = n * d2;
    assert(vstd::wrapping::i32_specs::wrapping_mul(movement, divisor1) == p1) by {
        vstd::arithmetic::div_mod::lemma_fundamental_div_mod(p1, 0x1_0000_0000);
    }
    assert(vstd::wrapping::i32_specs::wrapping_mul(movement, divisor2) == p2) by {
        vstd::arithmetic::div_mod::lemma_fundamental_div_mod(p2, 0x1_0000_0000);
    }
    lemma_fling_speed_closed_form(p1 as i32, friction, frames);
    lemma_fling_speed_closed_form(p2 as i32, friction, frames);
    lemma_fling_speed_closed_form(p1 as i32, friction, 0);
    lemma_fling_speed_closed_form(p2 as i32, friction, 0);
    let s1 = spec_fling_speed_after(p1 as i32, friction, frames) as int;
    let s2 = spec_fling_speed_after(p2 as i32, friction, frames) as int;
    lemma_trunc_div_fits(s1, d1);
    lemma_trunc_div_fits(s2, d2);
    lemma_trunc_div_fits(p1, d1);
    lemma_trunc_div_fits(p2, d2);
    if n >= 0 {
        assert(p1 / d1 == n) by (nonlinear_arith)
            requires
                p1 == n * d1,
                d1 >= 1,
        ;
        assert(p2 / d2 == n) by (nonlinear_arith)
            requires
                p2 == n * d2,
                d2 >= 1,
        ;
        if s1 / d1 != 0 {
            assert(s1 >= d1) by (nonlinear_arith)
                requires
                    s1 >= 0,
                    d1 >= 1,
                    s1 / d1 != 0,
            ;
            assert(s2 >= d2) by (nonlinear_arith)
                requires
                    s1 == n * d1 - kf,
                    s1 >= d1,
                    s2 == (if n * d2 - kf > 0 { n * d2 - kf } else { 0 }),
                    1 <= d1 <= d2,
                    n >= 0,
                    kf >= 0,
            ;
            assert(s2 / d2 >= 1) by (nonlinear_arith)
                requires
                    s2 >= d2,
                    d2 >= 1,
            ;
        }
    } else {
        assert((-p1) / d1 == -n) by (nonlinear_arith)
            requires
                p1 == n * d1,
                d1 >= 1,
        ;
        assert((-p2) / d2 == -n) by (nonlinear_arith)
            requires
                p2 == n * d2,
                d2 >= 1,
        ;
        if (-s1) / d1 != 0 {
            assert(-s1 >= d1) by (nonlinear_arith)
                requires
                    -s1 >= 0,
                    d1 >= 1,
                    (-s1) / d1 != 0,
            ;
            assert(-s2 >= d2) by (nonlinear_arith)
                requires
                    s1 == n * d1 + kf,
                    -s1 >= d1,
                    s2 == (if n * d2 + kf < 0 { n * d2 + kf } else { 0 }),
                    1 <= d1 <= d2,
                    n <= -1,
            ;
            assert((-s2) / d2 >= 1) by (nonlinear_arith)
                requires
                    -s2 >= d2,
                    d2 >= 1,
            ;
        }
    }
}

impl PointerFling {
    #[verifier::type_invariant]
    spec fn divisor_nonzero(self) -> bool {
        self.divisor != 0
    }

    pub closed spec fn spec_delta(self) -> i32 {
        self.delta
    }

    pub closed spec fn spec_next_delta(self) -> i32 {
        self.next_delta
    }

    pub closed spec fn spec_divisor(self) -> i32 {
        self.divisor
    }

    pub closed spec fn spec_friction(self) -> i32 {
        self.friction
    }

    /// A fling at rest, with friction 1 and divisor 1.
    pub fn new() -> (r: PointerFling)
        ensures
            r.spec_delta() == 0,
            r.spec_next_delta() == 0,
            r.spec_divisor() == 1,
            r.spec_friction() == 1,
    {
        PointerFling { delta: 0, next_delta: 0, divisor: 1, friction: 1 }
    }

    /// Sets the friction value.
    pub fn set_friction(&mut self, friction: i32)
        ensures
            final(self).spec_friction() == friction,
            final(self).spec_delta() == old(self).spec_delta(),
            final(self).spec_next_delta() == old(self).spec_next_delta(),
            final(self).spec_divisor() == old(self).spec_divisor(),
    {
        proof {
            use_type_invariant(&*self);
        }
        self.friction = friction;
    }

    /// Sets the friction divisor. A divisor of zero is refused: the fling divides by it.
    pub fn set_divisor(&mut self, divisor: i32)
        requires
            divisor != 0,
        ensures
            final(self).spec_divisor() == divisor,
            final(self).spec_delta() == old(self).spec_delta(),
            final(self).spec_next_delta() == old(self).spec_next_delta(),
            final(self).spec_friction() == old(self).spec_friction(),
    {
        proof {
            use_type_invariant(&*self);
        }
        self.divisor = divisor;
    }
}

impl FlingController for NoFling {
    open spec fn spec_fling_delta(&self) -> i32 {
        0
    }

    open spec fn spec_fling_updates_to(&self, after: Self) -> bool {
        after == *self
    }

    open spec fn spec_fling_starts_to(&self, after: Self) -> bool {
        after == *self
    }

    open spec fn spec_fling_stops_to(&self, after: Self) -> bool {
        after == *self
    }

    open spec fn spec_fling_records(&self, delta: i32, after: Self) -> bool {
        after == *self
    }

    fn start_fling(&mut self)
        ensures
            *final(self) == *old(self),
    {
    }

    fn stop_fling(&mut self) {
    }

    fn update(&mut self)
        ensures
            *final(self) == *old(self),
    {
    }

    fn fling_delta(&self) -> (r: i32) {
        0
    }

    fn set_fling_delta(&mut self, delta: i32)
        ensures
            *final(self) == *old(self),
    {
    }
}

impl FlingController for PointerFling {
    closed spec fn spec_fling_delta(&self) -> i32 {
        wrap_i32(trunc_div(self.delta as int, self.divisor as int))
    }

    /// The speed drops by the friction; the rest is kept.
    open spec fn spec_fling_updates_to(&self, after: Self) -> bool {
        &&& after.spec_delta() == spec_friction_step(self.spec_delta(), self.spec_friction())
        &&& after.spec_next_delta() == self.spec_next_delta()
        &&& after.spec_divisor() == self.spec_divisor()
        &&& after.spec_friction() == self.spec_friction()
    }

    /// The speed becomes the last pointer movement times the divisor.
    open spec fn spec_fling_starts_to(&self, after: Self) -> bool {
        &&& after.spec_delta() == vstd::wrapping::i32_specs::wrapping_mul(self.spec_next_delta(), self.spec_divisor())
        &&& after.spec_next_delta() == 0
        &&& after.spec_divisor() == self.spec_divisor()
        &&& after.spec_friction() == self.spec_friction()
    }

    /// The speed becomes zero; the rest is kept.
    open spec fn spec_fling_stops_to(&self, after: Self) -> bool {
        &&& after.spec_delta() == 0
        &&& after.spec_next_delta() == self.spec_next_delta()
        &&& after.spec_divisor() == self.spec_divisor()
        &&& after.spec_friction() == self.spec_friction()
    }

    /// The movement is remembered for the next start.
    open spec fn spec_fling_records(&self, delta: i32, after: Self) -> bool {
        &&& after.spec_next_delta() == delta
        &&& after.spec_delta() == self.spec_delta()
        &&& after.spec_divisor() == self.spec_divisor()
        &&& after.spec_friction() == self.spec_friction()
    }

    /// Starts the fling: the last pointer movement, scaled up by the divisor.
    fn start_fling(&mut self)
        ensures
            final(self).spec_delta() == vstd::wrapping::i32_specs::wrapping_mul(old(self).spec_next_delta(), old(self).spec_divisor()),
            final(self).spec_next_delta() == 0,
            final(self).spec_divisor() == old(self).spec_divisor(),
            final(self).spec_friction() == old(self).spec_friction(),
    {
        // multiplication because a friction value of 1 might be too big
        proof {
            use_type_invariant(&*self);
        }
        self.delta = self.next_delta.wrapping_mul(self.divisor);
        self.next_delta = 0;
    }

    fn stop_fling(&mut self)
        ensures
            final(self).spec_delta() == 0,
            final(self).spec_next_delta() == old(self).spec_next_delta(),
            final(self).spec_divisor() == old(self).spec_divisor(),
            final(self).spec_friction() == old(self).spec_friction(),
    {
        proof {
            use_type_invariant(&*self);
        }
        self.delta = 0;
    }

    /// Slows the fling down by the friction.
    fn update(&mut self)
        ensures
            final(self).spec_delta() == spec_friction_step(old(self).spec_delta(), old(self).spec_friction()),
            final(self).spec_next_delta() == old(self).spec_next_delta(),
            final(self).spec_divisor() == old(self).spec_divisor(),
            final(self).spec_friction() == old(self).spec_friction(),
    {
        proof {
            use_type_invariant(&*self);
        }
        if self.delta != 0 {
            self.delta = if self.delta < 0 {
                let v = wrapping_add_i32(self.delta, self.friction);
                if v <= 0 { v } else { 0 }
            } else {
                let v = wrapping_sub_i32(self.delta, self.friction);
                if v >= 0 { v } else { 0 }
            };
        }
    }

    fn fling_delta(&self) -> (r: i32) {
        proof {
            use_type_invariant(self);
        }
        trunc_div_i32(self.delta, self.divisor)
    }

    fn set_fling_delta(&mut self, delta: i32)
        ensures
            final(self).spec_next_delta() == delta,
            final(self).spec_delta() == old(self).spec_delta(),
            final(self).spec_divisor() == old(self).spec_divisor(),
            final(self).spec_friction() == old(self).spec_friction(),
    {
        proof {
            use_type_invariant(&*self);
        }
        self.next_delta = delta;
    }
}

/// Law: a fling updated frame by frame follows `spec_fling_speed_after`, and the distance it
/// moves in each frame is `spec_fling_frame_delta` of the speed it started at: the laws on
/// friction and divisor speak of the flings that `update` produces.
pub proof fn law_fling_follows_frames(flings: Seq<PointerFling>, frames: nat)
    requires
        frames < flings.len(),
        forall|j: int| 0 <= j < frames ==> #[trigger] flings[j].spec_fling_updates_to(flings[j + 1]),
    ensures
        flings[frames as int].spec_delta() == spec_fling_speed_after(flings[0].spec_delta(), flings[0].spec_friction(), frames),
        flings[frames as int].spec_friction() == flings[0].spec_friction(),
        flings[frames as int].spec_divisor() == flings[0].spec_divisor(),
        flings[frames as int].spec_fling_delta() == spec_fling_frame_delta(
            flings[0].spec_delta(),
            flings[0].spec_friction(),
            flings[0].spec_divisor(),
            frames,
        ),
    decreases frames,
{
    if frames > 0 {
        law_fling_follows_frames(flings, (frames - 1) as nat);
        let j = frames - 1;
        assert(flings[j].spec_fling_updates_to(flings[j + 1]));
    }
}

/// Law: after a scroll event or a drag, the offset is never negative and never beyond the
/// largest offset the content allows, when the content is at most `i32::MAX` pixels
/// larger than the area.
pub proof fn law_offset_within_content(horizontal: bool, offset: i32, child: MeasuredSize, own: MeasuredSize)
    requires
        (if horizontal { child.width - own.width } else { child.height - own.height }) <= i32::MAX,
    ensures
        0 <= clamped_offset(horizontal, at_least_zero(offset), child, own),
        clamped_offset(horizontal, at_least_zero(offset), child, own) <= max_offset(horizontal, child, own),
{
}

/// Law: with a positive friction, a fling slows down every frame and comes to rest
/// without turning around.
pub proof fn law_fling_slows_down(delta: i32, friction: i32)
    requires
        friction > 0,
    ensures
        delta > 0 ==> 0 <= spec_friction_step(delta, friction) < delta,
        delta < 0 ==> delta < spec_friction_step(delta, friction) <= 0,
        delta == 0 ==> spec_friction_step(delta, friction) == 0,
{
}

/// The one-frame step of an animated scroll from `current` towards `target`.
pub fn scroll_step(target: i32, current: i32, frames: u32) -> (r: i32)
    requires
        target != current,
    ensures
        r == spec_scroll_step(target, current, frames),
{
    let delta = wrapping_sub_i32(target, current);
    let f = cast_u32_i32(frames);
    let q = if f == 0 {
        delta
    } else {
        trunc_div_i32(delta, f)
    };
    if q == 0 {
        if target > current {
            1
        } else {
            -1
        }
    } else {
        q
    }
}

/// Law: an animated scroll moves towards its target and never overshoots it, when the
/// distance fits an `i32` and the time is a positive number of frames that fits one too.
pub proof fn law_scroll_step_approaches_target(target: i32, current: i32, frames: u32)
    requires
        target != current,
        1 <= frames <= i32::MAX,
        i32::MIN <= target - current <= i32::MAX,
    ensures
        target > current ==> 0 < spec_scroll_step(target, current, frames) <= target - current,
        target < current ==> target - current <= spec_scroll_step(target, current, frames) < 0,
{
    let d = target - current;
    let f = frames as int;
    if d > 0 {
        assert(d / f <= d) by (nonlinear_arith)
            requires
                d > 0,
                f >= 1,
        ;
        assert(d / f >= 0) by (nonlinear_arith)
            requires
                d > 0,
                f >= 1,
        ;
    } else {
        assert((-d) / f <= -d) by (nonlinear_arith)
            requires
                d < 0,
                f >= 1,
        ;
        assert((-d) / f >= 0) by (nonlinear_arith)
            requires
                d < 0,
                f >= 1,
        ;
    }
}

/// Law: the bigger the scroll time, the slower an animated scroll: with more frames, a
/// step towards the target is never longer.
pub proof fn law_longer_scroll_time_smaller_step(target: i32, current: i32, frames1: u32, frames2: u32)
    requires
        target != current,
        1 <= frames1 <= frames2 <= i32::MAX,
        i32::MIN <= target - current <= i32::MAX,
    ensures
        target > current ==> spec_scroll_step(target, current, frames2) <= spec_scroll_step(target, current, frames1),
        target < current ==> spec_scroll_step(target, current, frames2) >= spec_scroll_step(target, current, frames1),
{
    law_scroll_step_approaches_target(target, current, frames1);
    law_scroll_step_approaches_target(target, current, frames2);
    let d = target - current;
    let f1 = frames1 as int;
    let f2 = frames2 as int;
    if d > 0 {
        assert(d / f2 <= d / f1) by (nonlinear_arith)
            requires
                d > 0,
                1 <= f1 <= f2,
        ;
    } else {
        assert((-d) / f2 <= (-d) / f1) by (nonlinear_arith)
            requires
                d < 0,
                1 <= f1 <= f2,
        ;
    }
}

/// The pointer is elsewhere.
#[derive(Clone, Copy, Debug, PartialEq, Eq, Structural)]
pub struct Idle;

impl State for Idle {
    open spec fn spec_mask() -> u32 {
        1
    }

    open spec fn spec_value() -> u32 {
        0
    }

    fn mask(&self) -> (r: u32) {
        1
    }

    fn value(&self) -> (r: u32) {
        0
    }

    proof fn lemma_value_within_mask() {
        lemma_group_value(1, 0);
    }
}

/// The pointer is above the scroll area.
#[derive(Clone, Copy, Debug, PartialEq, Eq, Structural)]
pub struct Hovered;

impl State for Hovered {
    open spec fn spec_mask() -> u32 {
        1
    }

    open spec fn spec_value() -> u32 {
        1
    }

    fn mask(&self) -> (r: u32) {
        1
    }

    fn value(&self) -> (r: u32) {
        1
    }

    proof fn lemma_value_within_mask() {
        lemma_group_value(1, 1);
    }
}

/// The scroll area reacts to input.
#[derive(Clone, Copy, Debug, PartialEq, Eq, Structural)]
pub struct Active;

impl State for Active {
    open spec fn spec_mask() -> u32 {
        2
    }

    open spec fn spec_value() -> u32 {
        0
    }

    fn mask(&self) -> (r: u32) {
        2
    }

    fn value(&self) -> (r: u32) {
        0
    }

    proof fn lemma_value_within_mask() {
        lemma_group_value(2, 0);
    }
}

/// The scroll area ignores input.
#[derive(Clone, Copy, Debug, PartialEq, Eq, Structural)]
pub struct Inactive;

impl State for Inactive {
    open spec fn spec_mask() -> u32 {
        2
    }

    open spec fn spec_value() -> u32 {
        2
    }

    fn mask(&self) -> (r: u32) {
        2
    }

    fn value(&self) -> (r: u32) {
        2
    }

    proof fn lemma_value_within_mask() {
        lemma_group_value(2, 2);
    }
}

/// The fields of a scroll area that callbacks may change.
pub struct ScrollFields<W, SD, D, F = NoCallback> {
    pub parent_index: usize,
    pub inner: W,
    pub bounds: BoundingBox,
    pub direction: SD,
    pub state: WidgetState,
    pub last_pointer_pos: Option<Position>,
    pub on_scroll_changed: F,
    pub offset_target: Option<i32>,
    pub scroll_time: u32,
    pub data: PhantomData<D>,
}

impl<W, SD: ScrollDirection, D, F> ScrollFields<W, SD, D, F> {
    /// Starts an animated scroll to `offset`.
    pub fn scroll_to(&mut self, offset: i32)
        ensures
            *final(self) == (ScrollFields { offset_target: Some(offset), ..*old(self) }),
    {
        self.offset_target = Some(offset);
    }

    /// Jumps to `offset`, cancelling an animated scroll.
    pub fn set_position(&mut self, offset: i32)
        ensures
            final(self).direction.spec_offset() == offset,
            final(self).offset_target is None,
            final(self).inner == old(self).inner,
            final(self).bounds == old(self).bounds,
            final(self).state == old(self).state,
            final(self).last_pointer_pos == old(self).last_pointer_pos,
            final(self).scroll_time == old(self).scroll_time,
            final(self).parent_index == old(self).parent_index,
            *final(self) == (ScrollFields { direction: final(self).direction, offset_target: None, ..*old(self) }),
    {
        let (x, y) = SD::AxisOrder::merge(offset, 0i32);
        // Cancel animated scroll
        self.offset_target = None;
        self.direction.override_offset(PositionDelta { x, y });
    }

    /// Sets the number of frames an animated scroll takes.
    pub fn set_scroll_time(&mut self, time: u32)
        ensures
            *final(self) == (ScrollFields { scroll_time: time, ..*old(self) }),
    {
        self.scroll_time = time;
    }
}

impl<W: Widget, SD, D, F> ScrollFields<W, SD, D, F> {
    /// Lets the area react to input, or not.
    pub fn set_active(&mut self, active: bool)
        ensures
            final(self).state == (if active {
                old(self).state.spec_set_state::<Active>()
            } else {
                old(self).state.spec_set_state::<Inactive>()
            }),
            final(self).bounds == old(self).bounds,
            final(self).offset_target == old(self).offset_target,
            final(self).last_pointer_pos == old(self).last_pointer_pos,
            final(self).scroll_time == old(self).scroll_time,
            final(self).parent_index == old(self).parent_index,
            final(self).direction == old(self).direction,
            final(self).on_scroll_changed == old(self).on_scroll_changed,
            final(self).state == old(self).state ==> *final(self) == *old(self),
            final(self).state != old(self).state ==> old(self).inner.spec_state_changes_to(final(self).state, final(self).inner),
    {
        if active {
            self.change_state(Active);
        } else {
            self.change_state(Inactive);
        }
    }

    /// Whether setting the state bits `st` may turn the fields into `after`: if that
    /// changes them, the content learns of the new state; nothing else changes.
    pub open spec fn spec_state_set_to(&self, st: WidgetState, after: Self) -> bool {
        if st == self.state {
            after == *self
        } else {
            self.inner.spec_state_changes_to(st, after.inner)
                && after == (ScrollFields { inner: after.inner, state: st, ..*self })
        }
    }

    /// Sets `state` and tells the content if that changed anything.
    fn change_state<S: State>(&mut self, state: S)
        ensures
            old(self).spec_state_set_to(old(self).state.spec_set_state::<S>(), *final(self)),
            final(self).state == old(self).state.spec_set_state::<S>(),
            final(self).bounds == old(self).bounds,
            final(self).offset_target == old(self).offset_target,
            final(self).last_pointer_pos == old(self).last_pointer_pos,
            final(self).scroll_time == old(self).scroll_time,
            final(self).parent_index == old(self).parent_index,
            final(self).direction == old(self).direction,
            final(self).on_scroll_changed == old(self).on_scroll_changed,
            final(self).state == old(self).state ==> *final(self) == *old(self),
            final(self).state != old(self).state ==> old(self).inner.spec_state_changes_to(final(self).state, final(self).inner),
    {
        if self.state.set_state(state) {
            self.inner.on_state_changed(self.state);
        }
    }
}

/// A scrollable area around a widget.
pub struct Scroll<W, SD, D: WidgetData = NoData, Fl = PointerFling, F = NoCallback, FD = NoCallback> {
    pub fields: ScrollFields<W, SD, D::Data, F>,
    pub data_holder: WidgetDataHolder<ScrollFields<W, SD, D::Data, F>, D, FD>,
    pub fling_controller: Fl,
}

/// The fields of a new scroll area around `inner`.
fn initial_fields<W, SD, D>(inner: W, direction: SD) -> (r: ScrollFields<W, SD, D, NoCallback>)
    ensures
        r.parent_index == 0,
        r.inner == inner,
        r.bounds == BoundingBox::spec_empty(),
        r.direction == direction,
        r.state == WidgetState(0),
        r.last_pointer_pos is None,
        r.offset_target is None,
        r.scroll_time == 6,
        r.on_scroll_changed == NoCallback,
{
    ScrollFields {
        parent_index: 0,
        inner,
        bounds: BoundingBox::empty(),
        direction,
        state: WidgetState(0),
        last_pointer_pos: None,
        on_scroll_changed: NoCallback,
        offset_target: None,
        scroll_time: 6,
        data: PhantomData,
    }
}

impl<W: Widget> Scroll<W, Horizontal, NoData, PointerFling, NoCallback, NoCallback> {
    /// A horizontally scrolling area around `inner`, at offset 0, with the default fling.
    pub fn horizontal(inner: W) -> (r: Self)
        ensures
            r.fields.inner == inner,
            r.fields.direction.spec_offset() == 0,
            r.fields.bounds == BoundingBox::spec_empty(),
            r.fields.state == WidgetState(0),
            r.fields.offset_target is None,
            r.fields.scroll_time == 6,
            r.fields.parent_index == 0,
            r.fields.last_pointer_pos is None,
            r.fields.on_scroll_changed == NoCallback,
            r.fling_controller.spec_delta() == 0,
            r.fling_controller.spec_next_delta() == 0,
            r.fling_controller.spec_divisor() == 1,
            r.fling_controller.spec_friction() == 1,
            r.data_holder.data == NoData,
            r.data_holder.on_data_changed == NoCallback,
    {
        Scroll {
            fields: initial_fields(inner, Horizontal { offset: 0 }),
            fling_controller: PointerFling::new(),
            data_holder: WidgetDataHolder::new(NoData),
        }
    }
}

impl<W: Widget> Scroll<W, Vertical, NoData, PointerFling, NoCallback, NoCallback> {
    /// A vertically scrolling area around `inner`, at offset 0, with the default fling.
    pub fn vertical(inner: W) -> (r: Self)
        ensures
            r.fields.inner == inner,
            r.fields.direction.spec_offset() == 0,
            r.fields.bounds == BoundingBox::spec_empty(),
            r.fields.state == WidgetState(0),
            r.fields.offset_target is None,
            r.fields.scroll_time == 6,
            r.fields.parent_index == 0,
            r.fields.last_pointer_pos is None,
            r.fields.on_scroll_changed == NoCallback,
            r.fling_controller.spec_delta() == 0,
            r.fling_controller.spec_next_delta() == 0,
            r.fling_controller.spec_divisor() == 1,
            r.fling_controller.spec_friction() == 1,
            r.data_holder.data == NoData,
            r.data_holder.on_data_changed == NoCallback,
    {
        Scroll {
            fields: initial_fields(inner, Vertical { offset: 0 }),
            fling_controller: PointerFling::new(),
            data_holder: WidgetDataHolder::new(NoData),
        }
    }
}


impl<W: Widget, SD: ScrollDirection, D: WidgetData, F, FD> Scroll<W, SD, D, PointerFling, F, FD> {
    /// Lets the area react to input, or not.
    pub fn set_active(self, active: bool) -> (r: Self)
        ensures
            r.fields.state == (if active {
                self.fields.state.spec_set_state::<Active>()
            } else {
                self.fields.state.spec_set_state::<Inactive>()
            }),
            r.fields.offset_target == self.fields.offset_target,
            r.fields.scroll_time == self.fields.scroll_time,
            r.fields.bounds == self.fields.bounds,
            r.fields.direction == self.fields.direction,
            r.fields.last_pointer_pos == self.fields.last_pointer_pos,
            r.fields.parent_index == self.fields.parent_index,
            r.fields.on_scroll_changed == self.fields.on_scroll_changed,
            r.fields.state == self.fields.state ==> r.fields == self.fields,
            r.fields.state != self.fields.state ==> self.fields.inner.spec_state_changes_to(r.fields.state, r.fields.inner),
            r.fling_controller == self.fling_controller,
            r.data_holder == self.data_holder,
    {
        let mut s = self;
        s.fields.set_active(active);
        s
    }

    /// Sets the friction value.
    ///
    /// A higher value results in a shorter fling.
    pub fn friction(self, friction: i32) -> (r: Self)
        ensures
            r.fling_controller.spec_friction() == friction,
            r.fling_controller.spec_divisor() == self.fling_controller.spec_divisor(),
            r.fling_controller.spec_delta() == self.fling_controller.spec_delta(),
            r.fling_controller.spec_next_delta() == self.fling_controller.spec_next_delta(),
            r.fields == self.fields,
            r.data_holder == self.data_holder,
    {
        let mut s = self;
        s.fling_controller.set_friction(friction);
        s
    }

    /// Sets the friction divisor.
    ///
    /// A higher value results in a smaller overall friction value, i.e. a longer fling.
    /// Used to fine-tune the friction or to allow for smaller friction values. The fling
    /// divides by it, so it must not be zero.
    pub fn friction_divisor(self, divisor: i32) -> (r: Self)
        requires
            divisor != 0,
        ensures
            r.fling_controller.spec_divisor() == divisor,
            r.fling_controller.spec_friction() == self.fling_controller.spec_friction(),
            r.fling_controller.spec_delta() == self.fling_controller.spec_delta(),
            r.fling_controller.spec_next_delta() == self.fling_controller.spec_next_delta(),
            r.fields == self.fields,
            r.data_holder == self.data_holder,
    {
        let mut s = self;
        s.fling_controller.set_divisor(divisor);
        s
    }

    /// Determines the time it takes for `scroll_to` to reach its target.
    ///
    /// The bigger the `time` parameter, the slower the scrolling speed. Does not affect
    /// manual scrolling speed.
    pub fn scroll_time(self, time: u32) -> (r: Self)
        ensures
            r.fields == (ScrollFields { scroll_time: time, ..self.fields }),
            r.fling_controller == self.fling_controller,
            r.data_holder == self.data_holder,
    {
        let mut s = self;
        s.fields.set_scroll_time(time);
        s
    }
}

impl<W: Widget, SD, Fl, F> Scroll<W, SD, NoData, Fl, F, NoCallback> {
    /// Binds the area to `data`. The callbacks start out doing nothing.
    pub fn bind<D: WidgetData>(self, data: D) -> (r: Scroll<W, SD, D, Fl, NoCallback, NoCallback>)
        ensures
            r.fields.parent_index == self.fields.parent_index,
            r.fields.inner == self.fields.inner,
            r.fields.bounds == self.fields.bounds,
            r.fields.direction == self.fields.direction,
            r.fields.state == self.fields.state,
            r.fields.last_pointer_pos == self.fields.last_pointer_pos,
            r.fields.offset_target == self.fields.offset_target,
            r.fields.scroll_time == self.fields.scroll_time,
            r.data_holder.data == data,
            r.fling_controller == self.fling_controller,
    {
        Scroll {
            fields: ScrollFields {
                parent_index: self.fields.parent_index,
                inner: self.fields.inner,
                bounds: self.fields.bounds,
                direction: self.fields.direction,
                state: self.fields.state,
                last_pointer_pos: self.fields.last_pointer_pos,
                on_scroll_changed: NoCallback,
                offset_target: self.fields.offset_target,
                scroll_time: self.fields.scroll_time,
                data: PhantomData,
            },
            fling_controller: self.fling_controller,
            data_holder: WidgetDataHolder::new(data),
        }
    }
}

impl<W: Widget, SD: ScrollDirection, D: WidgetData, Fl, F, FD> Scroll<W, SD, D, Fl, F, FD> {
    /// The same area without fling: it stops when the pointer lets go.
    pub fn disable_fling(self) -> (r: Scroll<W, SD, D, NoFling, F, FD>)
        ensures
            r.fields == self.fields,
            r.data_holder == self.data_holder,
    {
        Scroll { fields: self.fields, fling_controller: NoFling, data_holder: self.data_holder }
    }

    /// Sets the callback that runs when the bound data changed.
    pub fn on_data_changed<G>(self, callback: G) -> (r: Scroll<W, SD, D, Fl, F, G>)
        ensures
            r.fields == self.fields,
            r.data_holder.data == self.data_holder.data,
            r.data_holder.on_data_changed == callback,
            r.fling_controller == self.fling_controller,
    {
        Scroll {
            fields: self.fields,
            fling_controller: self.fling_controller,
            data_holder: self.data_holder.with_callback(callback),
        }
    }

    /// Sets the callback that receives the scroll data whenever the offset changed.
    pub fn on_scroll_changed<G>(self, callback: G) -> (r: Scroll<W, SD, D, Fl, G, FD>)
        ensures
            r.fields.parent_index == self.fields.parent_index,
            r.fields.inner == self.fields.inner,
            r.fields.bounds == self.fields.bounds,
            r.fields.direction == self.fields.direction,
            r.fields.state == self.fields.state,
            r.fields.last_pointer_pos == self.fields.last_pointer_pos,
            r.fields.offset_target == self.fields.offset_target,
            r.fields.scroll_time == self.fields.scroll_time,
            r.fields.on_scroll_changed == callback,
            r.data_holder.data == self.data_holder.data,
            r.data_holder.on_data_changed == self.data_holder.on_data_changed,
            r.fling_controller == self.fling_controller,
    {
        Scroll {
            fields: ScrollFields {
                parent_index: self.fields.parent_index,
                inner: self.fields.inner,
                bounds: self.fields.bounds,
                direction: self.fields.direction,
                state: self.fields.state,
                last_pointer_pos: self.fields.last_pointer_pos,
                on_scroll_changed: callback,
                offset_target: self.fields.offset_target,
                scroll_time: self.fields.scroll_time,
                data: PhantomData,
            },
            fling_controller: self.fling_controller,
            data_holder: self.data_holder.retarget(),
        }
    }
}

/// The scroll data a scroll area reports: its clamped offset, the largest offset and the
/// size of the viewport, all along the main axis.
pub open spec fn spec_scroll_data(horizontal: bool, offset: i32, child: MeasuredSize, own: MeasuredSize) -> ScrollData {
    ScrollData {
        offset: clamped_offset(horizontal, offset, child, own),
        maximum_offset: max_offset(horizontal, child, own),
        viewport_size: u32_to_i32(if horizontal { own.width } else { own.height }),
    }
}

impl<W: Widget, SD: ScrollDirection, D: WidgetData, Fl: FlingController, F: ValueCallback<D::Data, ScrollData>, FD> Scroll<W, SD, D, Fl, F, FD> {
    /// Moves the offset by `offset`, then clamps it and reports it.
    fn change_offset(&mut self, offset: PositionDelta)
        ensures
            final(self).fields.direction.spec_offset() == clamped_offset(
                <SD::AxisOrder as AxisOrder>::spec_is_horizontal(),
                at_least_zero(wrap_i32(old(self).fields.direction.spec_offset()
                    + delta_main(<SD::AxisOrder as AxisOrder>::spec_is_horizontal(), offset))),
                old(self).fields.inner.spec_bounding_box().size,
                old(self).fields.bounds.size,
            ),
            final(self).fields == (ScrollFields { direction: final(self).fields.direction, ..old(self).fields }),
            final(self).fling_controller == old(self).fling_controller,
            final(self).data_holder.on_data_changed == old(self).data_holder.on_data_changed,
            old(self).fields.on_scroll_changed.spec_value_call(
                old(self).data_holder.data.spec_data(),
                spec_scroll_data(
                    <SD::AxisOrder as AxisOrder>::spec_is_horizontal(),
                    at_least_zero(wrap_i32(old(self).fields.direction.spec_offset()
                        + delta_main(<SD::AxisOrder as AxisOrder>::spec_is_horizontal(), offset))),
                    old(self).fields.inner.spec_bounding_box().size,
                    old(self).fields.bounds.size,
                ),
                final(self).data_holder.data.spec_data(),
            ),
    {
        self.fields.direction.change_offset(offset);
        self.update_scroll_data();
    }

    /// Clamps the offset to the largest one the content allows and reports the scroll
    /// data to the bound data.
    fn update_scroll_data(&mut self)
        ensures
            final(self).fields.direction.spec_offset() == clamped_offset(
                <SD::AxisOrder as AxisOrder>::spec_is_horizontal(),
                old(self).fields.direction.spec_offset(),
                old(self).fields.inner.spec_bounding_box().size,
                old(self).fields.bounds.size,
            ),
            final(self).fields == (ScrollFields { direction: final(self).fields.direction, ..old(self).fields }),
            final(self).fling_controller == old(self).fling_controller,
            final(self).data_holder.on_data_changed == old(self).data_holder.on_data_changed,
            old(self).fields.on_scroll_changed.spec_value_call(
                old(self).data_holder.data.spec_data(),
                spec_scroll_data(
                    <SD::AxisOrder as AxisOrder>::spec_is_horizontal(),
                    old(self).fields.direction.spec_offset(),
                    old(self).fields.inner.spec_bounding_box().size,
                    old(self).fields.bounds.size,
                ),
                final(self).data_holder.data.spec_data(),
            ),
    {
        let child_size = self.fields.inner.bounding_box().size;
        let own_size = self.fields.bounds.size;
        let current = self.fields.direction.offset();
        let max_offset_x = cast_u32_i32(child_size.width.saturating_sub(own_size.width));
        let max_offset_y = cast_u32_i32(child_size.height.saturating_sub(own_size.height));
        let offset = PositionDelta {
            x: if current.x <= max_offset_x { current.x } else { max_offset_x },
            y: if current.y <= max_offset_y { current.y } else { max_offset_y },
        };
        // Apply clamping.
        self.fields.direction.override_offset(offset);
        let scroll_data = ScrollData {
            maximum_offset: SD::AxisOrder::main_axis(max_offset_x, max_offset_y),
            offset: SD::AxisOrder::main_axis(offset.x, offset.y),
            viewport_size: SD::AxisOrder::main_axis(cast_u32_i32(own_size.width), cast_u32_i32(own_size.height)),
        };
        assert(scroll_data == spec_scroll_data(
            <SD::AxisOrder as AxisOrder>::spec_is_horizontal(),
            old(self).fields.direction.spec_offset(),
            child_size,
            own_size,
        ));
        self.data_holder.data.update(ValueUpdate { callback: &self.fields.on_scroll_changed, value: scroll_data });
    }
}


impl<
    W: Widget,
    SD: ScrollDirection,
    D: WidgetData,
    Fl: FlingController,
    F: ValueCallback<D::Data, ScrollData>,
    FD: DataChangedCallback<ScrollFields<W, SD, D::Data, F>, D::Data>,
> Scroll<W, SD, D, Fl, F, FD> {
    /// Whether reacting to the bound data may turn the fields into `mid`: the callback runs
    /// when the data changed, and otherwise the fields stay as they are.
    pub open spec fn spec_reacts_to_data(&self, mid: ScrollFields<W, SD, D::Data, F>) -> bool {
        if self.data_holder.data.spec_changed() {
            self.data_holder.on_data_changed.spec_data_changed_call(self.fields, self.data_holder.data.spec_data(), mid)
        } else {
            mid == self.fields
        }
    }

    /// Whether one frame of animation, starting from the fields `mid`, may lead to `after`:
    /// the content is updated; then an animated scroll ends at its target or moves one step
    /// towards it and stops the fling; without a target the fling moves on. Every move of
    /// the offset is clamped and reported.
    pub open spec fn spec_animates_from(&self, mid: ScrollFields<W, SD, D::Data, F>, after: Self) -> bool {
        &&& mid.inner.spec_updates_to(after.fields.inner)
        &&& match mid.offset_target {
            Some(target) => if target == mid.direction.spec_offset() {
                &&& after.fields == (ScrollFields { inner: after.fields.inner, offset_target: None, ..mid })
                &&& after.fling_controller == self.fling_controller
                &&& after.data_holder == self.data_holder
            } else {
                let moved = at_least_zero(wrap_i32(mid.direction.spec_offset()
                    + spec_scroll_step(target, mid.direction.spec_offset(), mid.scroll_time)));
                &&& after.fields == (ScrollFields { inner: after.fields.inner, direction: after.fields.direction, ..mid })
                &&& after.fields.direction.spec_offset() == clamped_offset(
                    <SD::AxisOrder as AxisOrder>::spec_is_horizontal(), moved, after.fields.inner.spec_bounding_box().size, mid.bounds.size)
                &&& self.fling_controller.spec_fling_stops_to(after.fling_controller)
                &&& after.data_holder.on_data_changed == self.data_holder.on_data_changed
                &&& mid.on_scroll_changed.spec_value_call(
                    self.data_holder.data.spec_data(),
                    spec_scroll_data(<SD::AxisOrder as AxisOrder>::spec_is_horizontal(), moved, after.fields.inner.spec_bounding_box().size, mid.bounds.size),
                    after.data_holder.data.spec_data(),
                )
            },
            None => {
                let moved = at_least_zero(wrap_i32(mid.direction.spec_offset() + after.fling_controller.spec_fling_delta()));
                &&& self.fling_controller.spec_fling_updates_to(after.fling_controller)
                &&& if after.fling_controller.spec_fling_delta() != 0 {
                    &&& after.fields == (ScrollFields { inner: after.fields.inner, direction: after.fields.direction, ..mid })
                    &&& after.fields.direction.spec_offset() == clamped_offset(
                        <SD::AxisOrder as AxisOrder>::spec_is_horizontal(), moved, after.fields.inner.spec_bounding_box().size, mid.bounds.size)
                    &&& after.data_holder.on_data_changed == self.data_holder.on_data_changed
                    &&& mid.on_scroll_changed.spec_value_call(
                        self.data_holder.data.spec_data(),
                        spec_scroll_data(<SD::AxisOrder as AxisOrder>::spec_is_horizontal(), moved, after.fields.inner.spec_bounding_box().size, mid.bounds.size),
                        after.data_holder.data.spec_data(),
                    )
                } else {
                    &&& after.fields == (ScrollFields { inner: after.fields.inner, ..mid })
                    &&& after.data_holder == self.data_holder
                }
            },
        }
    }

    /// Whether one update may turn the area into `after`: a reaction to the bound data,
    /// followed by one frame of animation.
    pub open spec fn spec_scroll_updates_to(&self, after: Self) -> bool {
        exists|mid: ScrollFields<W, SD, D::Data, F>|
            #![trigger self.spec_reacts_to_data(mid), self.spec_animates_from(mid, after)]
            self.spec_reacts_to_data(mid) && self.spec_animates_from(mid, after)
    }

    /// Law: an update moves an animated scroll strictly closer to its target without passing
    /// it, and keeps the target until it is reached, when the bound data did not change, the
    /// offset and the target lie within the largest offset the updated content allows, and
    /// the scroll time is a positive number of frames; at the target, the animation ends.
    /// So the target is reached within as many updates as it is pixels away.
    pub proof fn law_scroll_to_approaches_target(&self, after: Self)
        requires
            self.spec_scroll_updates_to(after),
            !self.data_holder.data.spec_changed(),
            self.fields.offset_target is Some,
            0 <= self.fields.offset_target->0 <= max_offset(
                <SD::AxisOrder as AxisOrder>::spec_is_horizontal(), after.fields.inner.spec_bounding_box().size, self.fields.bounds.size),
            0 <= self.fields.direction.spec_offset() <= max_offset(
                <SD::AxisOrder as AxisOrder>::spec_is_horizontal(), after.fields.inner.spec_bounding_box().size, self.fields.bounds.size),
            1 <= self.fields.scroll_time <= i32::MAX,
        ensures
            ({
                let t = self.fields.offset_target->0;
                let c = self.fields.direction.spec_offset();
                let c2 = after.fields.direction.spec_offset();
                &&& t == c ==> after.fields.offset_target is None && c2 == c
                &&& t > c ==> after.fields.offset_target == Some(t) && c < c2 <= t
                &&& t < c ==> after.fields.offset_target == Some(t) && t <= c2 < c
            }),
    {
        let mid = choose|mid: ScrollFields<W, SD, D::Data, F>|
            #![trigger self.spec_reacts_to_data(mid), self.spec_animates_from(mid, after)]
            self.spec_reacts_to_data(mid) && self.spec_animates_from(mid, after);
        assert(mid == self.fields);
        let t = self.fields.offset_target->0;
        let c = self.fields.direction.spec_offset();
        if t != c {
            law_scroll_step_approaches_target(t, c, self.fields.scroll_time);
        }
    }
}

impl<
    W: Widget,
    SD: ScrollDirection,
    D: WidgetData,
    Fl: FlingController,
    F: ValueCallback<D::Data, ScrollData>,
    FD: DataChangedCallback<ScrollFields<W, SD, D::Data, F>, D::Data>,
> Widget for Scroll<W, SD, D, Fl, F, FD> {
    open spec fn spec_bounding_box(&self) -> BoundingBox {
        self.fields.bounds
    }

    open spec fn spec_children() -> nat {
        W::spec_children() + 1
    }

    open spec fn spec_parent_index(&self) -> usize {
        self.fields.parent_index
    }

    open spec fn spec_is_selectable(&self) -> bool {
        false
    }

    open spec fn spec_measures_to(&self, measure_spec: MeasureSpec, after: Self) -> bool {
        &&& (after.fields.bounds.size == ({
            let h = <SD::AxisOrder as AxisOrder>::spec_is_horizontal();
            let child = after.fields.inner.spec_bounding_box().size;
            let main_spec = if h { measure_spec.width } else { measure_spec.height };
            let main = match main_spec.spec_largest() {
                Some(s) => s,
                None => if h { child.width } else { child.height },
            };
            let cross = if h { child.height } else { child.width };
            if h {
                MeasuredSize { width: main, height: cross }
            } else {
                MeasuredSize { width: cross, height: main }
            }
        }))
        &&& (after.fields.direction.spec_offset() == self.fields.direction.spec_offset()
            || after.fields.direction.spec_offset() == clamped_offset(
            <SD::AxisOrder as AxisOrder>::spec_is_horizontal(),
            self.fields.direction.spec_offset(),
            after.fields.inner.spec_bounding_box().size,
            after.fields.bounds.size,
        ))
        &&& (self.fields.inner.spec_measures_to(
            if <SD::AxisOrder as AxisOrder>::spec_is_horizontal() {
                MeasureSpec { width: MeasureConstraint::Unspecified, height: measure_spec.height }
            } else {
                MeasureSpec { width: measure_spec.width, height: MeasureConstraint::Unspecified }
            },
            after.fields.inner,
        ))
        &&& after.fling_controller == self.fling_controller
        &&& (self.fields.inner.spec_bounding_box() != after.fields.inner.spec_bounding_box()
            || self.fields.bounds != after.fields.bounds
            ==> self.fields.on_scroll_changed.spec_value_call(
            self.data_holder.data.spec_data(),
            spec_scroll_data(
                <SD::AxisOrder as AxisOrder>::spec_is_horizontal(),
                self.fields.direction.spec_offset(),
                after.fields.inner.spec_bounding_box().size,
                after.fields.bounds.size,
            ),
            after.data_holder.data.spec_data(),
        ))
        &&& (self.fields.inner.spec_bounding_box() == after.fields.inner.spec_bounding_box()
            && self.fields.bounds == after.fields.bounds
            ==> after.data_holder == self.data_holder)
    }

    open spec fn spec_resizes_to(&self, size: MeasuredSize, after: Self) -> bool {
        &&& after.fields.bounds == (BoundingBox { size, ..self.fields.bounds })
    }

    open spec fn spec_updates_to(&self, after: Self) -> bool {
        self.spec_scroll_updates_to(after)
    }

    open spec fn spec_resets_to(&self, after: Self) -> bool {
        &&& after == (Scroll { data_holder: after.data_holder, ..*self })
        &&& !after.data_holder.data.spec_changed()
        &&& after.data_holder.data.spec_data() == self.data_holder.data.spec_data()
        &&& after.data_holder.on_data_changed == self.data_holder.on_data_changed
    }

    open spec fn spec_tests_input(&self, event: InputEvent, after: Self, r: Option<usize>) -> bool {
        &&& after.fields.bounds == self.fields.bounds
        &&& after.fields.direction == self.fields.direction
        &&& after.fields.offset_target == self.fields.offset_target
        &&& self.fields.state.spec_has_state::<Inactive>() ==> r is None && after == *self
        &&& (!self.fields.state.spec_has_state::<Inactive>() ==> match event {
            InputEvent::Cancel => r is None && after.fields.state == self.fields.state,
            InputEvent::PointerEvent(p, PointerEvent::Hover) => if self.fields.bounds.spec_contains(p) {
                after.fields.state == self.fields.state.spec_set_state::<Hovered>()
                    && r != Some(0usize)
            } else {
                after.fields.state == self.fields.state.spec_set_state::<Idle>() && r is None
            },
            InputEvent::ScrollEvent(_) => after.fields.state == self.fields.state
                && (r is None ==> !self.fields.state.spec_has_state::<Hovered>())
                && (r == Some(0usize) ==> self.fields.state.spec_has_state::<Hovered>()),
            InputEvent::PointerEvent(p, PointerEvent::Down) => after.fields.state == self.fields.state
                && (!self.fields.bounds.spec_contains(p) ==> r is None)
                && (r == Some(0usize) ==> self.fields.state.spec_has_state::<Hovered>()
                    && after.fields.last_pointer_pos is None)
                && (self.fields.bounds.spec_contains(p) && r is None
                    ==> !self.fields.state.spec_has_state::<Hovered>()),
            InputEvent::PointerEvent(_, _) => after.fields.state == self.fields.state
                && r == (if self.fields.state.spec_has_state::<Hovered>() {
                    Some(0usize)
                } else {
                    None
                }),
            InputEvent::KeyEvent(_) => after.fields.state == self.fields.state && r != Some(0usize),
        })
        &&& after.data_holder == self.data_holder
        &&& after.fling_controller == self.fling_controller
        &&& ((!self.fields.state.spec_has_state::<Inactive>() && event is ScrollEvent) ==> exists|ir: Option<usize>|
            #![trigger self.fields.inner.spec_tests_input(event, after.fields.inner, ir)]
            self.fields.inner.spec_tests_input(event, after.fields.inner, ir)
                && after.fields == (ScrollFields { inner: after.fields.inner, ..self.fields })
                && r == match ir {
                Some(i) => Some((i + 1) as usize),
                None => if self.fields.state.spec_has_state::<Hovered>() { Some(0usize) } else { None },
            })
        &&& ((!self.fields.state.spec_has_state::<Inactive>() && event is KeyEvent) ==> exists|ir: Option<usize>|
            #![trigger self.fields.inner.spec_tests_input(event, after.fields.inner, ir)]
            self.fields.inner.spec_tests_input(event, after.fields.inner, ir)
                && after.fields == (ScrollFields { inner: after.fields.inner, ..self.fields })
                && r == match ir {
                Some(i) => Some((i + 1) as usize),
                None => None,
            })
        &&& ((!self.fields.state.spec_has_state::<Inactive>() && event is PointerEvent && event->PointerEvent_1 == PointerEvent::Down
            && self.fields.bounds.spec_contains(event->PointerEvent_0)) ==> exists|ir: Option<usize>|
            #![trigger self.fields.inner.spec_tests_input(event, after.fields.inner, ir)]
            self.fields.inner.spec_tests_input(event, after.fields.inner, ir) && match ir {
                Some(i) => r == Some((i + 1) as usize)
                    && after.fields == (ScrollFields { inner: after.fields.inner, ..self.fields }),
                None => if self.fields.state.spec_has_state::<Hovered>() {
                    r == Some(0usize) && after.fields == (ScrollFields {
                        inner: after.fields.inner,
                        last_pointer_pos: None,
                        ..self.fields
                    })
                } else {
                    r is None && after.fields == (ScrollFields { inner: after.fields.inner, ..self.fields })
                },
            })
        &&& ((!self.fields.state.spec_has_state::<Inactive>() && event is PointerEvent && event->PointerEvent_1 == PointerEvent::Down
            && !self.fields.bounds.spec_contains(event->PointerEvent_0)) ==> r is None && after == *self)
        &&& (event is PointerEvent && (event->PointerEvent_1 == PointerEvent::Drag || event->PointerEvent_1 == PointerEvent::Up)) ==> after == *self
        &&& ((!self.fields.state.spec_has_state::<Inactive>() && event is Cancel) ==> exists|ir: Option<usize>|
            #![trigger self.fields.inner.spec_tests_input(InputEvent::Cancel, after.fields.inner, ir)]
            self.fields.inner.spec_tests_input(InputEvent::Cancel, after.fields.inner, ir)
                && after.fields == (ScrollFields { inner: after.fields.inner, ..self.fields })
                && r is None)
        &&& ((!self.fields.state.spec_has_state::<Inactive>() && event is PointerEvent
            && event->PointerEvent_1 == PointerEvent::Hover) ==> exists|mid: ScrollFields<W, SD, D::Data, F>, ir: Option<usize>|
            #![trigger mid.inner.spec_tests_input(event, after.fields.inner, ir)]
            #![trigger mid.inner.spec_tests_input(InputEvent::Cancel, after.fields.inner, ir)]
            after.fields == (ScrollFields { inner: after.fields.inner, ..mid })
                && if self.fields.bounds.spec_contains(event->PointerEvent_0) {
                &&& self.fields.spec_state_set_to(self.fields.state.spec_set_state::<Hovered>(), mid)
                &&& mid.inner.spec_tests_input(event, after.fields.inner, ir)
                &&& r == match ir {
                    Some(i) => Some((i + 1) as usize),
                    None => None,
                }
            } else {
                &&& self.fields.spec_state_set_to(self.fields.state.spec_set_state::<Idle>(), mid)
                &&& mid.inner.spec_tests_input(InputEvent::Cancel, after.fields.inner, ir)
                &&& r is None
            })
    }

    open spec fn spec_handles_input(&self, ctxt: InputContext, event: InputEvent, after: Self, r: bool) -> bool {
        &&& after.fields.bounds == self.fields.bounds
        &&& after.fields.state == self.fields.state
        &&& self.fields.state.spec_has_state::<Inactive>() ==> !r && after == *self
        &&& (!self.fields.state.spec_has_state::<Inactive>() ==> r == match event {
            InputEvent::ScrollEvent(_) => true,
            InputEvent::PointerEvent(_, pe) => self.fields.state.spec_has_state::<Hovered>()
                && pe != PointerEvent::Hover,
            _ => false,
        })
        &&& (!self.fields.state.spec_has_state::<Inactive>() ==> match event {
            InputEvent::ScrollEvent(se) => after.fields.offset_target is None
                && after.fields.direction.spec_offset() == clamped_offset(
                <SD::AxisOrder as AxisOrder>::spec_is_horizontal(),
                at_least_zero(wrap_i32(self.fields.direction.spec_offset() + delta_main(
                    <SD::AxisOrder as AxisOrder>::spec_is_horizontal(),
                    match se {
                        ScrollEvent::HorizontalScroll(dx) => PositionDelta { x: wrap_i32(0 - dx), y: 0 },
                        ScrollEvent::VerticalScroll(dy) => PositionDelta { x: 0, y: wrap_i32(0 - dy) },
                    },
                ))),
                self.fields.inner.spec_bounding_box().size,
                self.fields.bounds.size,
            ),
            InputEvent::PointerEvent(p, PointerEvent::Down) => self.fields.state.spec_has_state::<Hovered>()
                ==> after.fields.last_pointer_pos == Some(p)
                && after.fields.offset_target is None
                && after.fields.direction == self.fields.direction,
            InputEvent::PointerEvent(p, PointerEvent::Drag) => self.fields.state.spec_has_state::<Hovered>()
                ==> after.fields.last_pointer_pos == Some(p) && match self.fields.last_pointer_pos {
                Some(last) => after.fields.direction.spec_offset() == clamped_offset(
                    <SD::AxisOrder as AxisOrder>::spec_is_horizontal(),
                    at_least_zero(wrap_i32(self.fields.direction.spec_offset() + delta_main(
                        <SD::AxisOrder as AxisOrder>::spec_is_horizontal(),
                        last.spec_delta_from(p),
                    ))),
                    self.fields.inner.spec_bounding_box().size,
                    self.fields.bounds.size,
                ),
                None => after.fields.direction == self.fields.direction,
            },
            InputEvent::PointerEvent(_, PointerEvent::Up) => self.fields.state.spec_has_state::<Hovered>()
                ==> after.fields.last_pointer_pos is None,
            _ => after == *self,
        })
        &&& (!self.fields.state.spec_has_state::<Inactive>() ==> match event {
            InputEvent::ScrollEvent(se) => {
                let d = match se {
                    ScrollEvent::HorizontalScroll(dx) => PositionDelta { x: wrap_i32(0 - dx), y: 0 },
                    ScrollEvent::VerticalScroll(dy) => PositionDelta { x: 0, y: wrap_i32(0 - dy) },
                };
                &&& self.fling_controller.spec_fling_stops_to(after.fling_controller)
                &&& self.fields.on_scroll_changed.spec_value_call(
                    self.data_holder.data.spec_data(),
                    spec_scroll_data(
                        <SD::AxisOrder as AxisOrder>::spec_is_horizontal(),
                        at_least_zero(wrap_i32(self.fields.direction.spec_offset()
                            + delta_main(<SD::AxisOrder as AxisOrder>::spec_is_horizontal(), d))),
                        self.fields.inner.spec_bounding_box().size,
                        self.fields.bounds.size,
                    ),
                    after.data_holder.data.spec_data(),
                )
            },
            InputEvent::PointerEvent(_, PointerEvent::Down) => self.fields.state.spec_has_state::<Hovered>()
                ==> self.fling_controller.spec_fling_stops_to(after.fling_controller)
                && after.data_holder == self.data_holder,
            InputEvent::PointerEvent(p, PointerEvent::Drag) => self.fields.state.spec_has_state::<Hovered>()
                ==> (exists|mid: Fl|
                #![trigger self.fling_controller.spec_fling_stops_to(mid)]
                self.fling_controller.spec_fling_stops_to(mid) && mid.spec_fling_records(
                    match self.fields.last_pointer_pos {
                        Some(last) => delta_main(<SD::AxisOrder as AxisOrder>::spec_is_horizontal(), last.spec_delta_from(p)),
                        None => 0,
                    },
                    after.fling_controller,
                )) && match self.fields.last_pointer_pos {
                Some(last) => self.fields.on_scroll_changed.spec_value_call(
                    self.data_holder.data.spec_data(),
                    spec_scroll_data(
                        <SD::AxisOrder as AxisOrder>::spec_is_horizontal(),
                        at_least_zero(wrap_i32(self.fields.direction.spec_offset() + delta_main(
                            <SD::AxisOrder as AxisOrder>::spec_is_horizontal(),
                            last.spec_delta_from(p),
                        ))),
                        self.fields.inner.spec_bounding_box().size,
                        self.fields.bounds.size,
                    ),
                    after.data_holder.data.spec_data(),
                ),
                None => after.data_holder == self.data_holder,
            },
            InputEvent::PointerEvent(_, PointerEvent::Up) => self.fields.state.spec_has_state::<Hovered>()
                ==> self.fling_controller.spec_fling_starts_to(after.fling_controller)
                && after.data_holder == self.data_holder,
            _ => true,
        })
        &&& (!self.fields.state.spec_has_state::<Inactive>() ==> match event {
            InputEvent::ScrollEvent(_) => after.fields == (ScrollFields {
                direction: after.fields.direction,
                offset_target: None,
                ..self.fields
            }) && after.data_holder.on_data_changed == self.data_holder.on_data_changed,
            InputEvent::PointerEvent(p, pe) => if !self.fields.state.spec_has_state::<Hovered>() || pe == PointerEvent::Hover {
                after == *self
            } else {
                match pe {
                    PointerEvent::Down => after.fields == (ScrollFields {
                        last_pointer_pos: Some(p),
                        offset_target: None,
                        ..self.fields
                    }),
                    PointerEvent::Drag => after.fields == (ScrollFields {
                        last_pointer_pos: Some(p),
                        direction: after.fields.direction,
                        ..self.fields
                    }) && after.data_holder.on_data_changed == self.data_holder.on_data_changed,
                    _ => after.fields == (ScrollFields { last_pointer_pos: None, ..self.fields }),
                }
            },
            _ => true,
        })
    }

    open spec fn spec_state_changes_to(&self, state: WidgetState, after: Self) -> bool {
        after == *self
    }

    fn attach(&mut self, parent: usize, self_index: usize)
        ensures
            final(self).fields.parent_index == parent,
    {
        self.set_parent(parent);
        self.fields.inner.attach(self_index, self_index.wrapping_add(1));
    }

    /// Places the area at `position` and its content the scroll offset before it.
    fn arrange(&mut self, position: Position)
        ensures
            final(self).fields.inner.spec_bounding_box().position == position.spec_translate_back(
                delta_from_main(<SD::AxisOrder as AxisOrder>::spec_is_horizontal(), old(self).fields.direction.spec_offset()),
            ),
            final(self).fields.direction == old(self).fields.direction,
    {
        let offset = self.fields.direction.offset();
        self.fields.inner.arrange(position.translate_back(offset));
        self.fields.bounds.position = position;
    }

    fn bounding_box(&self) -> (r: BoundingBox) {
        self.fields.bounds
    }

    /// The content is measured without a limit along the main axis. The area is as large
    /// as the parent allows along the main axis, or as the content if the parent sets no
    /// limit, and as the content along the cross axis. If the area or its content changed
    /// size, the offset is clamped again.
    fn measure(&mut self, measure_spec: MeasureSpec)
        ensures
            final(self).fields.bounds.size == ({
                let h = <SD::AxisOrder as AxisOrder>::spec_is_horizontal();
                let child = final(self).fields.inner.spec_bounding_box().size;
                let main_spec = if h { measure_spec.width } else { measure_spec.height };
                let main = match main_spec.spec_largest() {
                    Some(s) => s,
                    None => if h { child.width } else { child.height },
                };
                let cross = if h { child.height } else { child.width };
                if h {
                    MeasuredSize { width: main, height: cross }
                } else {
                    MeasuredSize { width: cross, height: main }
                }
            }),
            final(self).fields.direction.spec_offset() == old(self).fields.direction.spec_offset()
                || final(self).fields.direction.spec_offset() == clamped_offset(
                <SD::AxisOrder as AxisOrder>::spec_is_horizontal(),
                old(self).fields.direction.spec_offset(),
                final(self).fields.inner.spec_bounding_box().size,
                final(self).fields.bounds.size,
            ),
            old(self).fields.inner.spec_measures_to(
                if <SD::AxisOrder as AxisOrder>::spec_is_horizontal() {
                    MeasureSpec { width: MeasureConstraint::Unspecified, height: measure_spec.height }
                } else {
                    MeasureSpec { width: measure_spec.width, height: MeasureConstraint::Unspecified }
                },
                final(self).fields.inner,
            ),
            final(self).fling_controller == old(self).fling_controller,
            old(self).fields.inner.spec_bounding_box() != final(self).fields.inner.spec_bounding_box()
                || old(self).fields.bounds != final(self).fields.bounds
                ==> old(self).fields.on_scroll_changed.spec_value_call(
                old(self).data_holder.data.spec_data(),
                spec_scroll_data(
                    <SD::AxisOrder as AxisOrder>::spec_is_horizontal(),
                    old(self).fields.direction.spec_offset(),
                    final(self).fields.inner.spec_bounding_box().size,
                    final(self).fields.bounds.size,
                ),
                final(self).data_holder.data.spec_data(),
            ),
            old(self).fields.inner.spec_bounding_box() == final(self).fields.inner.spec_bounding_box()
                && old(self).fields.bounds == final(self).fields.bounds
                ==> final(self).data_holder == old(self).data_holder,
    {
        let inner_bb_old = self.fields.inner.bounding_box();
        let bb_old = self.fields.bounds;
        let (width_spec, height_spec) = SD::AxisOrder::merge(
            MeasureConstraint::Unspecified,
            SD::AxisOrder::cross_axis(measure_spec.width, measure_spec.height),
        );
        self.fields.inner.measure(MeasureSpec { width: width_spec, height: height_spec });
        // Scroll is as big as parent lets it to be, children are (depending on the
        // direction) as big as they want to be. If parent gives us an unspecified
        // dimension, scroll will take up as much space as the child.
        let child_size = self.fields.inner.bounding_box().size;
        let main_size = match SD::AxisOrder::main_axis(measure_spec.width, measure_spec.height).largest() {
            Some(size) => size,
            None => SD::AxisOrder::main_axis(child_size.width, child_size.height),
        };
        let cross_size = SD::AxisOrder::cross_axis(child_size.width, child_size.height);
        let (width, height) = SD::AxisOrder::merge(main_size, cross_size);
        self.fields.bounds.size = MeasuredSize { width, height };
        if inner_bb_old != self.fields.inner.bounding_box() || bb_old != self.fields.bounds {
            self.update_scroll_data();
        }
    }

    fn set_measured_size(&mut self, size: MeasuredSize)
        ensures
            final(self).fields.bounds == (BoundingBox { size, ..old(self).fields.bounds }),
    {
        self.fields.bounds.size = size;
    }

    fn children(&self) -> (r: usize) {
        1 + self.fields.inner.children()
    }

    fn parent_index(&self) -> (r: usize) {
        self.fields.parent_index
    }

    fn set_parent(&mut self, index: usize)
        ensures
            final(self).fields.parent_index == index,
    {
        self.fields.parent_index = index;
    }

    /// Reacts to changed data, updates the content, then moves an animated scroll one step
    /// towards its target, or else moves the fling on.
    fn update(&mut self)
        ensures
            old(self).spec_scroll_updates_to(*final(self)),
    {
        let ghost start = *self;
        self.data_holder.update(&mut self.fields);
        let ghost mid = self.fields;
        assert(start.spec_reacts_to_data(mid));
        self.fields.inner.update();
        match self.fields.offset_target {
            Some(target) => {
                let current_offset = self.fields.direction.offset();
                let current = SD::AxisOrder::main_axis(current_offset.x, current_offset.y);
                if target == current {
                    self.fields.offset_target = None;
                    assert(start.spec_animates_from(mid, *self));
                    return;
                }
                let delta = scroll_step(target, current, self.fields.scroll_time);
                let (x, y) = SD::AxisOrder::merge(delta, 0i32);
                self.change_offset(PositionDelta { x, y });
                self.fling_controller.stop_fling();
                assert(start.spec_animates_from(mid, *self));
            },
            None => {
                self.fling_controller.update();
                let delta = self.fling_controller.fling_delta();
                if delta != 0 {
                    let (x, y) = SD::AxisOrder::merge(delta, 0i32);
                    self.change_offset(PositionDelta { x, y });
                }
                assert(start.spec_animates_from(mid, *self));
            },
        }
    }

    fn reset_changed(&mut self) {
        self.data_holder.reset_changed();
    }

    /// Routes `event`: the area wants scroll events and drags while hovered, its content
    /// gets the first chance at events that fall inside the area.
    fn test_input(&mut self, event: InputEvent) -> (r: Option<usize>)
        ensures
            final(self).fields.bounds == old(self).fields.bounds,
            final(self).fields.direction == old(self).fields.direction,
            final(self).fields.offset_target == old(self).fields.offset_target,
            old(self).fields.state.spec_has_state::<Inactive>() ==> r is None && *final(self) == *old(self),
            !old(self).fields.state.spec_has_state::<Inactive>() ==> match event {
                InputEvent::Cancel => r is None && final(self).fields.state == old(self).fields.state,
                InputEvent::PointerEvent(p, PointerEvent::Hover) => if old(self).fields.bounds.spec_contains(p) {
                    final(self).fields.state == old(self).fields.state.spec_set_state::<Hovered>()
                        && r != Some(0usize)
                } else {
                    final(self).fields.state == old(self).fields.state.spec_set_state::<Idle>() && r is None
                },
                InputEvent::ScrollEvent(_) => final(self).fields.state == old(self).fields.state
                    && (r is None ==> !old(self).fields.state.spec_has_state::<Hovered>())
                    && (r == Some(0usize) ==> old(self).fields.state.spec_has_state::<Hovered>()),
                InputEvent::PointerEvent(p, PointerEvent::Down) => final(self).fields.state == old(self).fields.state
                    && (!old(self).fields.bounds.spec_contains(p) ==> r is None)
                    && (r == Some(0usize) ==> old(self).fields.state.spec_has_state::<Hovered>()
                        && final(self).fields.last_pointer_pos is None)
                    && (old(self).fields.bounds.spec_contains(p) && r is None
                        ==> !old(self).fields.state.spec_has_state::<Hovered>()),
                InputEvent::PointerEvent(_, _) => final(self).fields.state == old(self).fields.state
                    && r == (if old(self).fields.state.spec_has_state::<Hovered>() {
                        Some(0usize)
                    } else {
                        None
                    }),
                InputEvent::KeyEvent(_) => final(self).fields.state == old(self).fields.state && r != Some(0usize),
            },
            final(self).data_holder == old(self).data_holder,
            final(self).fling_controller == old(self).fling_controller,
            (!old(self).fields.state.spec_has_state::<Inactive>() && event is ScrollEvent) ==> exists|ir: Option<usize>|
                #![trigger old(self).fields.inner.spec_tests_input(event, final(self).fields.inner, ir)]
                old(self).fields.inner.spec_tests_input(event, final(self).fields.inner, ir)
                    && final(self).fields == (ScrollFields { inner: final(self).fields.inner, ..old(self).fields })
                    && r == match ir {
                    Some(i) => Some((i + 1) as usize),
                    None => if old(self).fields.state.spec_has_state::<Hovered>() { Some(0usize) } else { None },
                },
            (!old(self).fields.state.spec_has_state::<Inactive>() && event is KeyEvent) ==> exists|ir: Option<usize>|
                #![trigger old(self).fields.inner.spec_tests_input(event, final(self).fields.inner, ir)]
                old(self).fields.inner.spec_tests_input(event, final(self).fields.inner, ir)
                    && final(self).fields == (ScrollFields { inner: final(self).fields.inner, ..old(self).fields })
                    && r == match ir {
                    Some(i) => Some((i + 1) as usize),
                    None => None,
                },
            (!old(self).fields.state.spec_has_state::<Inactive>() && event is PointerEvent && event->PointerEvent_1 == PointerEvent::Down
                && old(self).fields.bounds.spec_contains(event->PointerEvent_0)) ==> exists|ir: Option<usize>|
                #![trigger old(self).fields.inner.spec_tests_input(event, final(self).fields.inner, ir)]
                old(self).fields.inner.spec_tests_input(event, final(self).fields.inner, ir) && match ir {
                    Some(i) => r == Some((i + 1) as usize)
                        && final(self).fields == (ScrollFields { inner: final(self).fields.inner, ..old(self).fields }),
                    None => if old(self).fields.state.spec_has_state::<Hovered>() {
                        r == Some(0usize) && final(self).fields == (ScrollFields {
                            inner: final(self).fields.inner,
                            last_pointer_pos: None,
                            ..old(self).fields
                        })
                    } else {
                        r is None && final(self).fields == (ScrollFields { inner: final(self).fields.inner, ..old(self).fields })
                    },
                },
            (!old(self).fields.state.spec_has_state::<Inactive>() && event is PointerEvent && event->PointerEvent_1 == PointerEvent::Down
                && !old(self).fields.bounds.spec_contains(event->PointerEvent_0)) ==> r is None && *final(self) == *old(self),
            (event is PointerEvent && (event->PointerEvent_1 == PointerEvent::Drag || event->PointerEvent_1 == PointerEvent::Up)) ==> *final(self) == *old(self),
            (!old(self).fields.state.spec_has_state::<Inactive>() && event is Cancel) ==> exists|ir: Option<usize>|
                #![trigger old(self).fields.inner.spec_tests_input(InputEvent::Cancel, final(self).fields.inner, ir)]
                old(self).fields.inner.spec_tests_input(InputEvent::Cancel, final(self).fields.inner, ir)
                    && final(self).fields == (ScrollFields { inner: final(self).fields.inner, ..old(self).fields })
                    && r is None,
            (!old(self).fields.state.spec_has_state::<Inactive>() && event is PointerEvent
                && event->PointerEvent_1 == PointerEvent::Hover) ==> exists|mid: ScrollFields<W, SD, D::Data, F>, ir: Option<usize>|
                #![trigger mid.inner.spec_tests_input(event, final(self).fields.inner, ir)]
                #![trigger mid.inner.spec_tests_input(InputEvent::Cancel, final(self).fields.inner, ir)]
                final(self).fields == (ScrollFields { inner: final(self).fields.inner, ..mid })
                    && if old(self).fields.bounds.spec_contains(event->PointerEvent_0) {
                    &&& old(self).fields.spec_state_set_to(old(self).fields.state.spec_set_state::<Hovered>(), mid)
                    &&& mid.inner.spec_tests_input(event, final(self).fields.inner, ir)
                    &&& r == match ir {
                        Some(i) => Some((i + 1) as usize),
                        None => None,
                    }
                } else {
                    &&& old(self).fields.spec_state_set_to(old(self).fields.state.spec_set_state::<Idle>(), mid)
                    &&& mid.inner.spec_tests_input(InputEvent::Cancel, final(self).fields.inner, ir)
                    &&& r is None
                },
    {
        if self.fields.state.has_state(Inactive) {
            return None;
        }
        match event {
            InputEvent::Cancel => {
                let ir = self.fields.inner.test_input(InputEvent::Cancel);
                assert(old(self).fields.inner.spec_tests_input(InputEvent::Cancel, self.fields.inner, ir));
                None
            },
            InputEvent::PointerEvent(position, PointerEvent::Hover) => {
                // Need to keep track of hovered state because a Scroll event has no position
                if self.fields.bounds.contains(position) {
                    self.fields.change_state(Hovered);
                    let ghost mid = self.fields;
                    let ir = self.fields.inner.test_input(event);
                    assert(mid.inner.spec_tests_input(event, self.fields.inner, ir));
                    match ir {
                        Some(idx) => Some(idx + 1),
                        None => None,
                    }
                } else {
                    self.fields.change_state(Idle);
                    let ghost mid = self.fields;
                    let ir = self.fields.inner.test_input(InputEvent::Cancel);
                    assert(mid.inner.spec_tests_input(InputEvent::Cancel, self.fields.inner, ir));
                    None
                }
            },
            InputEvent::ScrollEvent(_) => {
                let ir = self.fields.inner.test_input(event);
                assert(old(self).fields.inner.spec_tests_input(event, self.fields.inner, ir));
                match ir {
                    Some(idx) => Some(idx + 1),
                    None => if self.fields.state.has_state(Hovered) {
                        Some(0)
                    } else {
                        None
                    },
                }
            },
            InputEvent::PointerEvent(position, PointerEvent::Down) => {
                // Pointer down = start drag-scrolling
                if self.fields.bounds.contains(position) {
                    let ir = self.fields.inner.test_input(event);
                    let ghost inner_after = self.fields.inner;
                    assert(old(self).fields.inner.spec_tests_input(event, inner_after, ir));
                    let r = match ir {
                        // we give priority to our child
                        Some(idx) => Some(idx + 1),
                        None => if self.fields.state.has_state(Hovered) {
                            // Avoid jumping when some events were handled by children.
                            self.fields.last_pointer_pos = None;
                            Some(0)
                        } else {
                            None
                        },
                    };
                    assert(self.fields.inner == inner_after);
                    assert(old(self).fields.inner.spec_tests_input(event, self.fields.inner, ir));
                    r
                } else {
                    None
                }
            },
            // We only get Up if we handled Down
            InputEvent::PointerEvent(_, _) => {
                if self.fields.state.has_state(Hovered) {
                    Some(0)
                } else {
                    None
                }
            },
            InputEvent::KeyEvent(_) => {
                let ir = self.fields.inner.test_input(event);
                assert(old(self).fields.inner.spec_tests_input(event, self.fields.inner, ir));
                match ir {
                    Some(idx) => Some(idx + 1),
                    None => None,
                }
            },
        }
    }

    /// Scrolls: by the wheel's delta, or while hovered by dragging the pointer; a drag
    /// records the last movement for the fling.
    fn handle_input(&mut self, ctxt: InputContext, event: InputEvent) -> (r: bool)
        ensures
            final(self).fields.bounds == old(self).fields.bounds,
            final(self).fields.state == old(self).fields.state,
            old(self).fields.state.spec_has_state::<Inactive>() ==> !r && *final(self) == *old(self),
            !old(self).fields.state.spec_has_state::<Inactive>() ==> r == match event {
                InputEvent::ScrollEvent(_) => true,
                InputEvent::PointerEvent(_, pe) => old(self).fields.state.spec_has_state::<Hovered>()
                    && pe != PointerEvent::Hover,
                _ => false,
            },
            !old(self).fields.state.spec_has_state::<Inactive>() ==> match event {
                InputEvent::ScrollEvent(se) => final(self).fields.offset_target is None
                    && final(self).fields.direction.spec_offset() == clamped_offset(
                    <SD::AxisOrder as AxisOrder>::spec_is_horizontal(),
                    at_least_zero(wrap_i32(old(self).fields.direction.spec_offset() + delta_main(
                        <SD::AxisOrder as AxisOrder>::spec_is_horizontal(),
                        match se {
                            ScrollEvent::HorizontalScroll(dx) => PositionDelta { x: wrap_i32(0 - dx), y: 0 },
                            ScrollEvent::VerticalScroll(dy) => PositionDelta { x: 0, y: wrap_i32(0 - dy) },
                        },
                    ))),
                    old(self).fields.inner.spec_bounding_box().size,
                    old(self).fields.bounds.size,
                ),
                InputEvent::PointerEvent(p, PointerEvent::Down) => old(self).fields.state.spec_has_state::<Hovered>()
                    ==> final(self).fields.last_pointer_pos == Some(p)
                    && final(self).fields.offset_target is None
                    && final(self).fields.direction == old(self).fields.direction,
                InputEvent::PointerEvent(p, PointerEvent::Drag) => old(self).fields.state.spec_has_state::<Hovered>()
                    ==> final(self).fields.last_pointer_pos == Some(p) && match old(self).fields.last_pointer_pos {
                    Some(last) => final(self).fields.direction.spec_offset() == clamped_offset(
                        <SD::AxisOrder as AxisOrder>::spec_is_horizontal(),
                        at_least_zero(wrap_i32(old(self).fields.direction.spec_offset() + delta_main(
                            <SD::AxisOrder as AxisOrder>::spec_is_horizontal(),
                            last.spec_delta_from(p),
                        ))),
                        old(self).fields.inner.spec_bounding_box().size,
                        old(self).fields.bounds.size,
                    ),
                    None => final(self).fields.direction == old(self).fields.direction,
                },
                InputEvent::PointerEvent(_, PointerEvent::Up) => old(self).fields.state.spec_has_state::<Hovered>()
                    ==> final(self).fields.last_pointer_pos is None,
                _ => *final(self) == *old(self),
            },
            !old(self).fields.state.spec_has_state::<Inactive>() ==> match event {
                InputEvent::ScrollEvent(se) => {
                    let d = match se {
                        ScrollEvent::HorizontalScroll(dx) => PositionDelta { x: wrap_i32(0 - dx), y: 0 },
                        ScrollEvent::VerticalScroll(dy) => PositionDelta { x: 0, y: wrap_i32(0 - dy) },
                    };
                    &&& old(self).fling_controller.spec_fling_stops_to(final(self).fling_controller)
                    &&& old(self).fields.on_scroll_changed.spec_value_call(
                        old(self).data_holder.data.spec_data(),
                        spec_scroll_data(
                            <SD::AxisOrder as AxisOrder>::spec_is_horizontal(),
                            at_least_zero(wrap_i32(old(self).fields.direction.spec_offset()
                                + delta_main(<SD::AxisOrder as AxisOrder>::spec_is_horizontal(), d))),
                            old(self).fields.inner.spec_bounding_box().size,
                            old(self).fields.bounds.size,
                        ),
                        final(self).data_holder.data.spec_data(),
                    )
                },
                InputEvent::PointerEvent(_, PointerEvent::Down) => old(self).fields.state.spec_has_state::<Hovered>()
                    ==> old(self).fling_controller.spec_fling_stops_to(final(self).fling_controller)
                    && final(self).data_holder == old(self).data_holder,
                InputEvent::PointerEvent(p, PointerEvent::Drag) => old(self).fields.state.spec_has_state::<Hovered>()
                    ==> (exists|mid: Fl|
                    #![trigger old(self).fling_controller.spec_fling_stops_to(mid)]
                    old(self).fling_controller.spec_fling_stops_to(mid) && mid.spec_fling_records(
                        match old(self).fields.last_pointer_pos {
                            Some(last) => delta_main(<SD::AxisOrder as AxisOrder>::spec_is_horizontal(), last.spec_delta_from(p)),
                            None => 0,
                        },
                        final(self).fling_controller,
                    )) && match old(self).fields.last_pointer_pos {
                    Some(last) => old(self).fields.on_scroll_changed.spec_value_call(
                        old(self).data_holder.data.spec_data(),
                        spec_scroll_data(
                            <SD::AxisOrder as AxisOrder>::spec_is_horizontal(),
                            at_least_zero(wrap_i32(old(self).fields.direction.spec_offset() + delta_main(
                                <SD::AxisOrder as AxisOrder>::spec_is_horizontal(),
                                last.spec_delta_from(p),
                            ))),
                            old(self).fields.inner.spec_bounding_box().size,
                            old(self).fields.bounds.size,
                        ),
                        final(self).data_holder.data.spec_data(),
                    ),
                    None => final(self).data_holder == old(self).data_holder,
                },
                InputEvent::PointerEvent(_, PointerEvent::Up) => old(self).fields.state.spec_has_state::<Hovered>()
                    ==> old(self).fling_controller.spec_fling_starts_to(final(self).fling_controller)
                    && final(self).data_holder == old(self).data_holder,
                _ => true,
            },
            !old(self).fields.state.spec_has_state::<Inactive>() ==> match event {
                InputEvent::ScrollEvent(_) => final(self).fields == (ScrollFields {
                    direction: final(self).fields.direction,
                    offset_target: None,
                    ..old(self).fields
                }) && final(self).data_holder.on_data_changed == old(self).data_holder.on_data_changed,
                InputEvent::PointerEvent(p, pe) => if !old(self).fields.state.spec_has_state::<Hovered>() || pe == PointerEvent::Hover {
                    *final(self) == *old(self)
                } else {
                    match pe {
                        PointerEvent::Down => final(self).fields == (ScrollFields {
                            last_pointer_pos: Some(p),
                            offset_target: None,
                            ..old(self).fields
                        }),
                        PointerEvent::Drag => final(self).fields == (ScrollFields {
                            last_pointer_pos: Some(p),
                            direction: final(self).fields.direction,
                            ..old(self).fields
                        }) && final(self).data_holder.on_data_changed == old(self).data_holder.on_data_changed,
                        _ => final(self).fields == (ScrollFields { last_pointer_pos: None, ..old(self).fields }),
                    }
                },
                _ => true,
            },
    {
        if self.fields.state.has_state(Inactive) {
            return false;
        }
        let hovered = self.fields.state.has_state(Hovered);
        match event {
            InputEvent::ScrollEvent(ScrollEvent::HorizontalScroll(dx)) => {
                self.change_offset(PositionDelta { x: wrapping_sub_i32(0, dx), y: 0 });
                self.fling_controller.stop_fling();
                // Cancel ongoing scroll_to
                self.fields.offset_target = None;
                true
            },
            InputEvent::ScrollEvent(ScrollEvent::VerticalScroll(dy)) => {
                self.change_offset(PositionDelta { x: 0, y: wrapping_sub_i32(0, dy) });
                self.fling_controller.stop_fling();
                // Cancel ongoing scroll_to
                self.fields.offset_target = None;
                true
            },
            InputEvent::PointerEvent(position, evt) => {
                if !hovered {
                    return false;
                }
                match evt {
                    PointerEvent::Down => {
                        self.fling_controller.stop_fling();
                        // Cancel ongoing scroll_to
                        self.fields.offset_target = None;
                        self.fields.last_pointer_pos = Some(position);
                        true
                    },
                    PointerEvent::Drag => {
                        self.fling_controller.stop_fling();
                        let ghost mid = self.fling_controller;
                        assert(old(self).fling_controller.spec_fling_stops_to(mid));
                        let delta = match self.fields.last_pointer_pos {
                            Some(last) => {
                                let delta = last.delta_from(position);
                                self.change_offset(delta);
                                SD::AxisOrder::main_axis(delta.x, delta.y)
                            },
                            None => 0,
                        };
                        self.fling_controller.set_fling_delta(delta);
                        self.fields.last_pointer_pos = Some(position);
                        true
                    },
                    PointerEvent::Up => {
                        self.fling_controller.start_fling();
                        self.fields.last_pointer_pos = None;
                        true
                    },
                    PointerEvent::Hover => false,
                }
            },
            _ => false,
        }
    }

    fn on_state_changed(&mut self, state: WidgetState) {
        // don't react to parent's state change
    }

    fn is_selectable(&self) -> (r: bool) {
        false
    }
}

} // verus!
