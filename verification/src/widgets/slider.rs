//! A slider: a value in a range, set by dragging a handle.

use vstd::prelude::*;

use core::marker::PhantomData;
use core::ops::RangeInclusive;

use crate::data::{NoData, WidgetData};
use crate::geometry::axis_order::{AxisOrder, Horizontal as HorizontalOrder, Vertical as VerticalOrder};
use crate::geometry::{
    BoundingBox, MeasureSpec, MeasuredSize, Position, PositionDelta, cast_u32_i32, trunc_div, trunc_div_i128, lemma_mul_magnitude,
    trunc_div_i32, u32_to_i32, wrap_i32, wrap_u32, wrapping_add_i32, wrapping_sub_i32,
};
use crate::input::{InputContext, InputEvent, PointerEvent, ScrollEvent};
use crate::state::{State, WidgetState, lemma_group_value};
use crate::widgets::scroll::{ScrollData, ScrollDirection, ScrollFields};
use crate::widgets::utils::callback::{DataChangedCallback, NoCallback, ValueCallback, ValueUpdate};
use crate::widgets::utils::WidgetDataHolder;
use crate::widgets::Widget;

verus! {

/// The lower bound of `r`, as `RangeInclusive::start` returns it.
#[verifier::external_body]
fn range_start(r: &RangeInclusive<i32>) -> (s: i32)
    ensures
        !r@.exhausted ==> s == r@.start,
{
    *r.start()
}

/// The upper bound of `r`, as `RangeInclusive::end` returns it.
#[verifier::external_body]
fn range_end(r: &RangeInclusive<i32>) -> (e: i32)
    ensures
        !r@.exhausted ==> e == r@.end,
{
    *r.end()
}

/// Whether `v` lies in `r`.
pub open spec fn range_contains(r: RangeInclusive<i32>, v: i32) -> bool {
    r@.start <= v && if r@.exhausted {
        v < r@.end
    } else {
        v <= r@.end
    }
}

/// Whether `v` lies in `r`, as `RangeInclusive::contains` says.
fn contains_value(r: &RangeInclusive<i32>, v: i32) -> (b: bool)
    ensures
        b == range_contains(*r, v),
{
    r.contains(&v)
}

/// The value `x` in `[x0, x1]` maps to in `[y0, y1]`, rounded to the nearest integer (halves
/// rounding away from `y0`); `y0` if the first range is a single point.
pub open spec fn spec_lerp(x: i32, x0: i32, x1: i32, y0: i32, y1: i32) -> i32 {
    if x1 == x0 {
        y0
    } else {
        let d = x1 - x0;
        (trunc_div((y1 - y0) * (x - x0) + trunc_div(d, 2), d) + y0) as i32
    }
}

/// Linear interpolation: maps `x` from `[x0, x1]` to `[y0, y1]`. The arithmetic is exact;
/// only a result outside `i32` (for `x` far outside `[x0, x1]`) is truncated.
fn lerp(x: i32, x0: i32, x1: i32, y0: i32, y1: i32) -> (r: i32)
    ensures
        r == spec_lerp(x, x0, x1, y0, y1),
{
    if x1 == x0 {
        y0
    } else {
        let d: i128 = x1 as i128 - x0 as i128;
        let dy: i128 = y1 as i128 - y0 as i128;
        let dx: i128 = x as i128 - x0 as i128;
        proof {
            lemma_mul_magnitude(dy as int, dx as int, 0x1_0000_0000);
        }
        let half = trunc_div_i128(d, 2);
        let n: i128 = dy * dx + half;
        let q: i128 = trunc_div_i128(n, d);
        let sum: i128 = q + y0 as i128;
        (#[verifier::truncate] (sum as i32))
    }
}

/// Law: interpolation maps the ends of the first range to the ends of the second, and
/// every point between them to a point between them.
pub proof fn law_lerp_in_range(x: i32, x0: i32, x1: i32, y0: i32, y1: i32)
    requires
        x0 < x1,
        y0 <= y1,
        x0 <= x <= x1,
    ensures
        y0 <= spec_lerp(x, x0, x1, y0, y1) <= y1,
        spec_lerp(x0, x0, x1, y0, y1) == y0,
        spec_lerp(x1, x0, x1, y0, y1) == y1,
{
    let d = x1 - x0;
    let dy = y1 - y0;
    let dx = x - x0;
    let h = d / 2;
    assert(0 <= h < d) by (nonlinear_arith)
        requires
            d >= 1,
            h == d / 2,
    ;
    assert(0 <= dy * dx <= dy * d) by (nonlinear_arith)
        requires
            dy >= 0,
            0 <= dx <= d,
    ;
    let n = dy * dx + h;
    assert(0 <= n / d <= dy) by (nonlinear_arith)
        requires
            d >= 1,
            0 <= n < dy * d + d,
            dy >= 0,
    ;
    assert((dy * d + h) / d == dy) by (nonlinear_arith)
        requires
            d >= 1,
            0 <= h < d,
            dy >= 0,
    ;
    assert((dy * 0 + h) / d == 0) by (nonlinear_arith)
        requires
            d >= 1,
            0 <= h < d,
    ;
}

/// The point of `[x0, x1]` nearest to `x`, and the value it maps to in `[y0, y1]`.
pub open spec fn spec_lerp_clipped(x: i32, x0: i32, x1: i32, y0: i32, y1: i32) -> (i32, i32) {
    if x < x0 {
        (x0, y0)
    } else if x > x1 {
        (x1, y1)
    } else {
        (x, spec_lerp(x, x0, x1, y0, y1))
    }
}

/// Clips `x` into `[x0, x1]` and interpolates.
fn lerp_clipped(x: i32, x0: i32, x1: i32, y0: i32, y1: i32) -> (r: (i32, i32))
    ensures
        r == spec_lerp_clipped(x, x0, x1, y0, y1),
{
    if x < x0 {
        (x0, y0)
    } else if x > x1 {
        (x1, y1)
    } else {
        (x, lerp(x, x0, x1, y0, y1))
    }
}

/// The direction of a slider.
pub trait SliderDirection {
    type AxisOrder: AxisOrder;

    spec fn spec_handles_scroll(event: ScrollEvent) -> bool;

    /// Whether the slider moves on `event`.
    fn handles_scroll(event: ScrollEvent) -> (r: bool)
        ensures
            r == Self::spec_handles_scroll(event),
    ;
}

/// A slider along the horizontal axis.
pub struct Horizontal;

/// A slider along the vertical axis.
pub struct Vertical;

impl SliderDirection for Horizontal {
    type AxisOrder = HorizontalOrder;

    open spec fn spec_handles_scroll(event: ScrollEvent) -> bool {
        true
    }

    fn handles_scroll(event: ScrollEvent) -> (r: bool) {
        true
    }
}

impl SliderDirection for Vertical {
    type AxisOrder = VerticalOrder;

    open spec fn spec_handles_scroll(event: ScrollEvent) -> bool {
        event is VerticalScroll
    }

    fn handles_scroll(event: ScrollEvent) -> (r: bool) {
        match event {
            ScrollEvent::VerticalScroll(_) => true,
            _ => false,
        }
    }
}

/// What a backend says about how a slider looks.
pub trait SliderProperties {
    type Direction: SliderDirection;

    /// Cross axis size of the draggable area.
    spec fn spec_thickness() -> u32;

    /// Size of the range of values represented by the draggable slider.
    spec fn spec_length(&self) -> u32;

    /// Cross axis size of the draggable area.
    fn thickness() -> (r: u32)
        ensures
            r == Self::spec_thickness(),
    ;

    /// Size of the range of values represented by the draggable slider.
    fn length(&self) -> (r: u32)
        ensures
            r == self.spec_length(),
    ;

    /// Set the size of the range of values represented by the draggable slider.
    fn set_length(&mut self, length: u32)
        ensures
            final(self).spec_length() == length,
    ;

    fn main_axis<V>(x: V, y: V) -> (r: V)
        ensures
            r == (if <<Self::Direction as SliderDirection>::AxisOrder as AxisOrder>::spec_is_horizontal() { x } else { y }),
    {
        <Self::Direction as SliderDirection>::AxisOrder::main_axis(x, y)
    }

    fn cross_axis<V>(x: V, y: V) -> (r: V)
        ensures
            r == (if <<Self::Direction as SliderDirection>::AxisOrder as AxisOrder>::spec_is_horizontal() { y } else { x }),
    {
        <Self::Direction as SliderDirection>::AxisOrder::cross_axis(x, y)
    }

    fn merge<V>(main: V, cross: V) -> (r: (V, V))
        ensures
            r == (if <<Self::Direction as SliderDirection>::AxisOrder as AxisOrder>::spec_is_horizontal() {
                (main, cross)
            } else {
                (cross, main)
            }),
    {
        <Self::Direction as SliderDirection>::AxisOrder::merge(main, cross)
    }
}

/// Whether the slider of `SP` lies along the horizontal axis.
pub open spec fn slider_horizontal<SP: SliderProperties>() -> bool {
    <<SP::Direction as SliderDirection>::AxisOrder as AxisOrder>::spec_is_horizontal()
}

/// The pointer is elsewhere.
#[derive(Clone, Copy, Debug, PartialEq, Eq, Structural)]
pub struct Idle;

impl State for Idle {
    open spec fn spec_mask() -> u32 {
        3
    }

    open spec fn spec_value() -> u32 {
        0
    }

    fn mask(&self) -> (r: u32) {
        3
    }

    fn value(&self) -> (r: u32) {
        0
    }

    proof fn lemma_value_within_mask() {
        lemma_group_value(3, 0);
    }
}

/// The pointer is above the slider.
#[derive(Clone, Copy, Debug, PartialEq, Eq, Structural)]
pub struct Hovered;

impl State for Hovered {
    open spec fn spec_mask() -> u32 {
        3
    }

    open spec fn spec_value() -> u32 {
        1
    }

    fn mask(&self) -> (r: u32) {
        3
    }

    fn value(&self) -> (r: u32) {
        1
    }

    proof fn lemma_value_within_mask() {
        lemma_group_value(3, 1);
    }
}

/// The slider is being dragged.
#[derive(Clone, Copy, Debug, PartialEq, Eq, Structural)]
pub struct Dragged;

impl State for Dragged {
    open spec fn spec_mask() -> u32 {
        3
    }

    open spec fn spec_value() -> u32 {
        2
    }

    fn mask(&self) -> (r: u32) {
        3
    }

    fn value(&self) -> (r: u32) {
        2
    }

    proof fn lemma_value_within_mask() {
        lemma_group_value(3, 2);
    }
}

/// The slider reacts to input.
#[derive(Clone, Copy, Debug, PartialEq, Eq, Structural)]
pub struct Active;

impl State for Active {
    open spec fn spec_mask() -> u32 {
        4
    }

    open spec fn spec_value() -> u32 {
        0
    }

    fn mask(&self) -> (r: u32) {
        4
    }

    fn value(&self) -> (r: u32) {
        0
    }

    proof fn lemma_value_within_mask() {
        lemma_group_value(4, 0);
    }
}

/// The slider ignores input.
#[derive(Clone, Copy, Debug, PartialEq, Eq, Structural)]
pub struct Inactive;

impl State for Inactive {
    open spec fn spec_mask() -> u32 {
        4
    }

    open spec fn spec_value() -> u32 {
        4
    }

    fn mask(&self) -> (r: u32) {
        4
    }

    fn value(&self) -> (r: u32) {
        4
    }

    proof fn lemma_value_within_mask() {
        lemma_group_value(4, 4);
    }
}

/// The fields of a slider that callbacks may change.
pub struct SliderFields<SP, D, F = NoCallback> {
    pub parent_index: usize,
    pub on_value_changed: F,
    pub value: i32,
    pub limits: RangeInclusive<i32>,
    pub bounds: BoundingBox,
    pub properties: SP,
    pub state: WidgetState,
    pub data: PhantomData<D>,
}

/// The area of the draggable handle of a slider: it is placed along the slider in
/// proportion to the value's place in the limits.
pub open spec fn spec_slider_bounds<SP: SliderProperties, D, F>(f: SliderFields<SP, D, F>) -> BoundingBox {
    let h = slider_horizontal::<SP>();
    let total = if h { f.bounds.size.width } else { f.bounds.size.height };
    let length = f.properties.spec_length();
    let space = if total >= length { (total - length) as u32 } else { 0 };
    let pos = spec_lerp(f.value, f.limits@.start, f.limits@.end, 0, u32_to_i32(space));
    let delta = if h { Position { x: pos, y: 0 } } else { Position { x: 0, y: pos } };
    BoundingBox {
        position: Position { x: wrap_i32(f.bounds.position.x + delta.x), y: wrap_i32(f.bounds.position.y + delta.y) },
        size: if h {
            MeasuredSize { width: length, height: SP::spec_thickness() }
        } else {
            MeasuredSize { width: SP::spec_thickness(), height: length }
        },
    }
}

impl<SP: SliderProperties, D, F> SliderFields<SP, D, F> {
    /// Lets the slider react to input, or not.
    pub fn set_active(&mut self, active: bool)
        ensures
            *final(self) == (SliderFields {
                state: if active {
                    old(self).state.spec_set_state::<Active>()
                } else {
                    old(self).state.spec_set_state::<Inactive>()
                },
                ..*old(self)
            }),
    {
        if active {
            self.change_state(Active);
        } else {
            self.change_state(Inactive);
        }
    }

    fn change_state<S: State>(&mut self, state: S)
        ensures
            *final(self) == (SliderFields { state: old(self).state.spec_set_state::<S>(), ..*old(self) }),
    {
        self.state.set_state(state);
    }

    /// Sets the value if it lies within the limits. Returns whether it did.
    fn change_value(&mut self, value: i32) -> (changed: bool)
        ensures
            changed == range_contains(old(self).limits, value),
            *final(self) == (SliderFields {
                value: if changed { value } else { old(self).value },
                ..*old(self)
            }),
    {
        if contains_value(&self.limits, value) {
            self.value = value;
            true
        } else {
            false
        }
    }

    /// Sets the value if it lies within the limits; a value outside is ignored.
    pub fn set_value(&mut self, value: i32)
        ensures
            *final(self) == (SliderFields {
                value: if range_contains(old(self).limits, value) { value } else { old(self).value },
                ..*old(self)
            }),
    {
        self.change_value(value);
    }

    /// Sets the limits of the value. The value itself is left as it is.
    pub fn set_range(&mut self, limits: RangeInclusive<i32>)
        ensures
            *final(self) == (SliderFields { limits, ..*old(self) }),
    {
        self.limits = limits;
    }

    /// The area of the draggable handle.
    pub fn slider_bounds(&self) -> (r: BoundingBox)
        ensures
            !self.limits@.exhausted ==> r == spec_slider_bounds(*self),
    {
        let total_size = SP::main_axis(self.bounds.size.width, self.bounds.size.height);
        let slider_length = self.properties.length();
        let space = total_size.saturating_sub(slider_length);
        let pos = lerp(
            self.value,
            range_start(&self.limits),
            range_end(&self.limits),
            0,
            cast_u32_i32(space),
        );
        let (x, y) = SP::merge(pos, 0i32);
        let (width, height) = SP::merge(slider_length, SP::thickness());
        BoundingBox {
            position: self.bounds.position.plus(Position { x, y }),
            size: MeasuredSize { width, height },
        }
    }
}


/// Where the value of a slider comes from.
#[derive(Clone, Copy, Debug, PartialEq, Eq, Structural)]
enum OffsetSource {
    ScrollWidget,
    Scrollbar,
    External,
}

/// Connects a scroll area and a slider that acts as its scrollbar, through data both are
/// bound to.
pub struct ScrollbarConnector<SD, SP> {
    offset_source: OffsetSource,
    data: ScrollData,
    marker: PhantomData<(SD, SP)>,
}

impl<SD, SP> ScrollbarConnector<SD, SP> {
    /// The scroll data last reported or set.
    pub closed spec fn spec_data(self) -> ScrollData {
        self.data
    }

    /// Whether the scroll area moved last (and the slider has to follow).
    pub closed spec fn spec_from_scroll_widget(self) -> bool {
        self.offset_source == OffsetSource::ScrollWidget
    }

    /// Whether the slider moved last (and the scroll area has to follow at once).
    pub closed spec fn spec_from_scrollbar(self) -> bool {
        self.offset_source == OffsetSource::Scrollbar
    }

    /// Whether the offset was set from outside (and the scroll area has to scroll there).
    pub closed spec fn spec_from_outside(self) -> bool {
        self.offset_source == OffsetSource::External
    }

    /// A connector at offset 0 that follows the scroll area.
    pub fn new() -> (r: Self)
        ensures
            r.spec_data() == (ScrollData { offset: 0, maximum_offset: 0, viewport_size: 0 }),
            r.spec_from_scroll_widget(),
    {
        ScrollbarConnector {
            offset_source: OffsetSource::ScrollWidget,
            data: ScrollData { offset: 0, maximum_offset: 0, viewport_size: 0 },
            marker: PhantomData,
        }
    }

    /// The scroll data last reported or set.
    pub fn data(&self) -> (r: &ScrollData)
        ensures
            *r == self.spec_data(),
    {
        &self.data
    }

    /// Asks the scroll area to scroll to `pos`.
    pub fn scroll_to(&mut self, pos: i32)
        ensures
            final(self).spec_data() == (ScrollData { offset: pos, ..old(self).spec_data() }),
            final(self).spec_from_outside(),
    {
        self.data.offset = pos;
        self.offset_source = OffsetSource::External;
    }

    /// Records the scroll data the scroll area reported.
    pub fn on_scroll_widget_scroll_changed(data: &mut Self, pos: ScrollData)
        ensures
            final(data).spec_data() == pos,
            final(data).spec_from_scroll_widget(),
    {
        data.data = pos;
        data.offset_source = OffsetSource::ScrollWidget;
    }

    /// Records the value the slider was moved to.
    pub fn on_scrollbar_value_changed(data: &mut Self, value: i32)
        ensures
            final(data).spec_data() == (ScrollData { offset: value, ..old(data).spec_data() }),
            final(data).spec_from_scrollbar(),
    {
        data.data.offset = value;
        data.offset_source = OffsetSource::Scrollbar;
    }
}

impl<SD, SP> Default for ScrollbarConnector<SD, SP> {
    fn default() -> (r: Self)
        ensures
            r.spec_data() == (ScrollData { offset: 0, maximum_offset: 0, viewport_size: 0 }),
            r.spec_from_scroll_widget(),
    {
        Self::new()
    }
}

/// Whether the scroll area `after` is `before` made to follow `data`: unchanged when the
/// area itself reported the offset, scrolling towards an offset set from outside, and at
/// the offset the slider was moved to.
pub open spec fn scroll_follows<W, SD: ScrollDirection, SP, F>(
    before: ScrollFields<W, SD, ScrollbarConnector<SD, SP>, F>,
    data: ScrollbarConnector<SD, SP>,
    after: ScrollFields<W, SD, ScrollbarConnector<SD, SP>, F>,
) -> bool {
    &&& data.spec_from_scroll_widget() ==> after == before
    &&& data.spec_from_outside() ==> after == (ScrollFields {
        offset_target: Some(data.spec_data().offset),
        ..before
    })
    &&& data.spec_from_scrollbar() ==> after.direction.spec_offset() == data.spec_data().offset
        && after == (ScrollFields { direction: after.direction, offset_target: None, ..before })
}

impl<SD: ScrollDirection, SP> ScrollbarConnector<SD, SP> {
    /// Makes the scroll area follow the connector: to scroll to an offset set from
    /// outside, or to jump to the offset the slider was moved to.
    pub fn on_scroll_widget_data_changed<W, F>(scroll: &mut ScrollFields<W, SD, Self, F>, data: &Self)
        ensures
            scroll_follows(*old(scroll), *data, *final(scroll)),
    {
        match data.offset_source {
            OffsetSource::ScrollWidget => {},
            OffsetSource::External => scroll.scroll_to(data.data.offset),
            OffsetSource::Scrollbar => scroll.set_position(data.data.offset),
        }
    }
}

/// The length of the handle of a scrollbar of main-axis size `bar` for a viewport of
/// `viewport` pixels on content of `content` pixels: the bar's share the viewport takes.
pub open spec fn handle_length(bar: u32, viewport: u32, content: u32) -> u32 {
    (vstd::wrapping::u32_specs::wrapping_mul(bar, viewport) / content) as u32
}

/// Whether the slider `after` is `before` made to follow the scroll data of `data`: its
/// handle takes the share of the bar that the viewport takes of the content, its range is
/// that of the offset, and its value the offset mapped onto that range. Nothing changes
/// while there is no content.
pub open spec fn scrollbar_follows<SD, SP: SliderProperties, F>(
    before: SliderFields<SP, ScrollbarConnector<SD, SP>, F>,
    data: ScrollbarConnector<SD, SP>,
    after: SliderFields<SP, ScrollbarConnector<SD, SP>, F>,
) -> bool {
    let d = data.spec_data();
    let viewport = crate::geometry::i32_to_u32(d.viewport_size);
    let content = crate::geometry::i32_to_u32(wrap_i32(d.maximum_offset + d.viewport_size));
    let bar = if slider_horizontal::<SP>() {
        before.bounds.size.width
    } else {
        before.bounds.size.height
    };
    if content > 0 {
        &&& after.properties.spec_length() == handle_length(bar, viewport, content)
        &&& after.limits@.start == 0
        &&& after.limits@.end == d.maximum_offset
        &&& !after.limits@.exhausted
        &&& after.value == ({
            let v = spec_lerp(d.offset, 0, d.maximum_offset, 0, d.maximum_offset);
            if 0 <= v <= d.maximum_offset { v } else { before.value }
        })
        &&& after.bounds == before.bounds
        &&& after.state == before.state
    } else {
        after == before
    }
}

impl<SD, SP: SliderProperties> ScrollbarConnector<SD, SP> {
    /// Makes the slider follow the scroll area: its handle takes the share of the bar that
    /// the viewport takes of the content, its range is that of the offset, and its value
    /// the offset mapped onto that range. Nothing happens while there is no content.
    pub fn on_scrollbar_data_changed<F>(scrollbar: &mut SliderFields<SP, Self, F>, data: &Self)
        ensures
            scrollbar_follows(*old(scrollbar), *data, *final(scrollbar)),
    {
        let scrollbar_height = SP::main_axis(scrollbar.bounds.size.width, scrollbar.bounds.size.height);
        let scrollview_height = crate::geometry::cast_i32_u32(data.data.viewport_size);
        let scrollview_data_height = crate::geometry::cast_i32_u32(
            wrapping_add_i32(data.data.maximum_offset, data.data.viewport_size),
        );
        if scrollview_data_height > 0 {
            scrollbar.properties.set_length(
                scrollbar_height.wrapping_mul(scrollview_height) / scrollview_data_height,
            );
            scrollbar.set_range(RangeInclusive::new(0, data.data.maximum_offset));
            let end = range_end(&scrollbar.limits);
            scrollbar.set_value(lerp(data.data.offset, 0, data.data.maximum_offset, 0, end));
        }
    }
}

/// Law: a scrollbar's handle takes the share of the bar that the viewport takes of the
/// content: its length times the content size is the bar size times the viewport size,
/// rounded down to a whole pixel, so that it is the whole bar when the viewport shows all
/// of the content. This holds as long as the sizes are not negative and the products fit.
pub proof fn law_scrollbar_handle_is_viewport_share<SD, SP: SliderProperties, F>(
    before: SliderFields<SP, ScrollbarConnector<SD, SP>, F>,
    data: ScrollbarConnector<SD, SP>,
    after: SliderFields<SP, ScrollbarConnector<SD, SP>, F>,
)
    requires
        scrollbar_follows(before, data, after),
        data.spec_data().viewport_size >= 0,
        data.spec_data().maximum_offset >= 0,
        0 < data.spec_data().maximum_offset + data.spec_data().viewport_size <= i32::MAX,
        (if slider_horizontal::<SP>() { before.bounds.size.width } else { before.bounds.size.height })
            * data.spec_data().viewport_size <= u32::MAX,
    ensures
        ({
            let d = data.spec_data();
            let bar = if slider_horizontal::<SP>() { before.bounds.size.width } else { before.bounds.size.height };
            let content = d.maximum_offset + d.viewport_size;
            let len = after.properties.spec_length() as int;
            &&& len * content <= bar * d.viewport_size
            &&& bar * d.viewport_size < (len + 1) * content
            &&& len <= bar
            &&& d.maximum_offset == 0 ==> len == bar
        }),
{
    let d = data.spec_data();
    let bar = if slider_horizontal::<SP>() { before.bounds.size.width } else { before.bounds.size.height };
    let v = d.viewport_size as int;
    let c = d.maximum_offset + d.viewport_size;
    let p = bar * v;
    assert(vstd::wrapping::u32_specs::wrapping_mul(bar, d.viewport_size as u32) == p) by {
        vstd::arithmetic::div_mod::lemma_small_mod(p as nat, 0x1_0000_0000nat);
    }
    let len = after.properties.spec_length() as int;
    assert(len == p / c);
    vstd::arithmetic::div_mod::lemma_fundamental_div_mod(p, c);
    assert(0 <= p % c < c) by {
        vstd::arithmetic::div_mod::lemma_mod_bound(p, c);
    }
    assert(c * (p / c) == (p / c) * c) by (nonlinear_arith);
    assert(len * c <= p && p < (len + 1) * c) by (nonlinear_arith)
        requires
            len == p / c,
            p == c * (p / c) + p % c,
            0 <= p % c < c,
            c * (p / c) == (p / c) * c,
    ;
    assert(p <= bar * c) by (nonlinear_arith)
        requires
            p == bar * v,
            0 <= v <= c,
            bar >= 0,
    ;
    assert(len <= bar) by (nonlinear_arith)
        requires
            len * c <= p,
            p <= bar * c,
            c > 0,
    ;
    if d.maximum_offset == 0 {
        assert(len == bar) by (nonlinear_arith)
            requires
                len * c <= p,
                p < (len + 1) * c,
                p == bar * c,
                c > 0,
        ;
    }
}

/// Law: the larger the viewport of the same content, the longer the handle of a scrollbar
/// that follows it.
pub proof fn law_scrollbar_handle_grows_with_viewport<SD, SP: SliderProperties, F>(
    before: SliderFields<SP, ScrollbarConnector<SD, SP>, F>,
    data1: ScrollbarConnector<SD, SP>,
    after1: SliderFields<SP, ScrollbarConnector<SD, SP>, F>,
    data2: ScrollbarConnector<SD, SP>,
    after2: SliderFields<SP, ScrollbarConnector<SD, SP>, F>,
)
    requires
        scrollbar_follows(before, data1, after1),
        scrollbar_follows(before, data2, after2),
        0 <= data1.spec_data().viewport_size <= data2.spec_data().viewport_size,
        data1.spec_data().maximum_offset >= 0,
        data2.spec_data().maximum_offset >= 0,
        0 < data1.spec_data().maximum_offset + data1.spec_data().viewport_size <= i32::MAX,
        data1.spec_data().maximum_offset + data1.spec_data().viewport_size
            == data2.spec_data().maximum_offset + data2.spec_data().viewport_size,
        (if slider_horizontal::<SP>() { before.bounds.size.width } else { before.bounds.size.height })
            * data2.spec_data().viewport_size <= u32::MAX,
    ensures
        after1.properties.spec_length() <= after2.properties.spec_length(),
{
    let bar = if slider_horizontal::<SP>() { before.bounds.size.width } else { before.bounds.size.height };
    let v1 = data1.spec_data().viewport_size as int;
    let v2 = data2.spec_data().viewport_size as int;
    assert(bar * v1 <= bar * v2) by (nonlinear_arith)
        requires
            0 <= v1 <= v2,
            bar >= 0,
    ;
    law_scrollbar_handle_is_viewport_share(before, data1, after1);
    law_scrollbar_handle_is_viewport_share(before, data2, after2);
    let c = data1.spec_data().maximum_offset + data1.spec_data().viewport_size;
    let l1 = after1.properties.spec_length() as int;
    let l2 = after2.properties.spec_length() as int;
    assert(l1 <= l2) by (nonlinear_arith)
        requires
            l1 * c <= bar * v1,
            bar * v1 <= bar * v2,
            bar * v2 < (l2 + 1) * c,
            c > 0,
    ;
}

/// Makes a connector record the scroll data a scroll area reports.
#[derive(Clone, Copy, Debug, PartialEq, Eq, Structural)]
pub struct ScrollWidgetScrollChanged;

/// Makes a scroll area follow its connector.
#[derive(Clone, Copy, Debug, PartialEq, Eq, Structural)]
pub struct ScrollWidgetDataChanged;

/// Makes a slider follow its connector.
#[derive(Clone, Copy, Debug, PartialEq, Eq, Structural)]
pub struct ScrollbarDataChanged;

/// Makes a connector record the value a slider was moved to.
#[derive(Clone, Copy, Debug, PartialEq, Eq, Structural)]
pub struct ScrollbarValueChanged;

impl<SD, SP> ValueCallback<ScrollbarConnector<SD, SP>, ScrollData> for ScrollWidgetScrollChanged {
    open spec fn spec_value_call(&self, before: ScrollbarConnector<SD, SP>, value: ScrollData, after: ScrollbarConnector<SD, SP>) -> bool {
        after.spec_data() == value && after.spec_from_scroll_widget()
    }

    fn call(&self, data: &mut ScrollbarConnector<SD, SP>, value: ScrollData) {
        ScrollbarConnector::on_scroll_widget_scroll_changed(data, value);
    }
}

impl<SD, SP> ValueCallback<ScrollbarConnector<SD, SP>, i32> for ScrollbarValueChanged {
    open spec fn spec_value_call(&self, before: ScrollbarConnector<SD, SP>, value: i32, after: ScrollbarConnector<SD, SP>) -> bool {
        after.spec_data() == (ScrollData { offset: value, ..before.spec_data() }) && after.spec_from_scrollbar()
    }

    fn call(&self, data: &mut ScrollbarConnector<SD, SP>, value: i32) {
        ScrollbarConnector::on_scrollbar_value_changed(data, value);
    }
}

impl<W, SD: ScrollDirection, SP, F> DataChangedCallback<ScrollFields<W, SD, ScrollbarConnector<SD, SP>, F>, ScrollbarConnector<SD, SP>> for ScrollWidgetDataChanged {
    open spec fn spec_data_changed_call(&self, before: ScrollFields<W, SD, ScrollbarConnector<SD, SP>, F>, data: ScrollbarConnector<SD, SP>, after: ScrollFields<W, SD, ScrollbarConnector<SD, SP>, F>) -> bool {
        scroll_follows(before, data, after)
    }

    fn call(&self, target: &mut ScrollFields<W, SD, ScrollbarConnector<SD, SP>, F>, data: &ScrollbarConnector<SD, SP>) {
        ScrollbarConnector::on_scroll_widget_data_changed(target, data);
    }
}

impl<SD, SP: SliderProperties, F> DataChangedCallback<SliderFields<SP, ScrollbarConnector<SD, SP>, F>, ScrollbarConnector<SD, SP>> for ScrollbarDataChanged {
    open spec fn spec_data_changed_call(&self, before: SliderFields<SP, ScrollbarConnector<SD, SP>, F>, data: ScrollbarConnector<SD, SP>, after: SliderFields<SP, ScrollbarConnector<SD, SP>, F>) -> bool {
        scrollbar_follows(before, data, after)
    }

    fn call(&self, target: &mut SliderFields<SP, ScrollbarConnector<SD, SP>, F>, data: &ScrollbarConnector<SD, SP>) {
        ScrollbarConnector::on_scrollbar_data_changed(target, data);
    }
}


/// A slider.
pub struct Slider<SP, D: WidgetData = NoData, F = NoCallback, FD = NoCallback> {
    pub fields: SliderFields<SP, D::Data, F>,
    pub data_holder: WidgetDataHolder<SliderFields<SP, D::Data, F>, D, FD>,
    pub drag_offset: Option<i32>,
}

impl Slider<(), NoData> {
    pub const STATE_IDLE: Idle = Idle;
    pub const STATE_HOVERED: Hovered = Hovered;
    pub const STATE_DRAGGED: Dragged = Dragged;
    pub const STATE_INACTIVE: Inactive = Inactive;
    pub const STATE_ACTIVE: Active = Active;
}

impl<SP: SliderProperties> Slider<SP, NoData, NoCallback, NoCallback> {
    /// A slider over `limits`, at their lower bound.
    pub fn new(limits: RangeInclusive<i32>, properties: SP) -> (r: Self)
        ensures
            !limits@.exhausted ==> r.fields.value == limits@.start,
            r.fields.limits == limits,
            r.fields.properties == properties,
            r.fields.bounds == BoundingBox::spec_empty(),
            r.fields.state == WidgetState(0),
            r.fields.parent_index == 0,
            r.drag_offset is None,
    {
        let value = range_start(&limits);
        Slider {
            fields: SliderFields {
                parent_index: 0,
                on_value_changed: NoCallback,
                value,
                bounds: BoundingBox::empty(),
                limits,
                properties,
                state: WidgetState(0),
                data: PhantomData,
            },
            data_holder: WidgetDataHolder::new(NoData),
            drag_offset: None,
        }
    }
}

impl<SP: SliderProperties, F> Slider<SP, NoData, F, NoCallback> {
    /// Binds the slider to `data`. The callbacks start out doing nothing.
    pub fn bind<D: WidgetData>(self, data: D) -> (r: Slider<SP, D, NoCallback, NoCallback>)
        ensures
            r.fields.parent_index == self.fields.parent_index,
            r.fields.value == self.fields.value,
            r.fields.limits == self.fields.limits,
            r.fields.bounds == self.fields.bounds,
            r.fields.properties == self.fields.properties,
            r.fields.state == self.fields.state,
            r.data_holder.data == data,
            r.drag_offset is None,
    {
        Slider {
            fields: SliderFields {
                parent_index: self.fields.parent_index,
                on_value_changed: NoCallback,
                value: self.fields.value,
                bounds: self.fields.bounds,
                limits: self.fields.limits,
                properties: self.fields.properties,
                state: self.fields.state,
                data: PhantomData,
            },
            data_holder: WidgetDataHolder::new(data),
            drag_offset: None,
        }
    }
}

/// Where the pointer at main-axis position `pos` (relative to the slider) puts the handle,
/// and the value that corresponds to: the handle's middle follows the pointer within the
/// slider, and its travel maps linearly onto the limits.
pub open spec fn spec_position_value<SP: SliderProperties, D, F>(f: SliderFields<SP, D, F>, pos: i32) -> (i32, i32) {
    let total = if slider_horizontal::<SP>() { f.bounds.size.width } else { f.bounds.size.height };
    let length = f.properties.spec_length();
    let x0 = length / 2;
    let x1 = vstd::wrapping::u32_specs::wrapping_sub(wrap_u32(x0 + total), length);
    spec_lerp_clipped(pos, u32_to_i32(x0 as u32), u32_to_i32(x1), f.limits@.start, f.limits@.end)
}

/// Whether setting the value `v` may turn the bound data `before` into `after`: a value
/// within the limits is reported to the value callback; one outside leaves the data alone.
pub open spec fn value_reported<SP, D, F: ValueCallback<D, i32>>(f: SliderFields<SP, D, F>, v: i32, before: D, after: D) -> bool {
    if range_contains(f.limits, v) {
        f.on_value_changed.spec_value_call(before, v, after)
    } else {
        after == before
    }
}

/// The value after `set_value(v)`: `v` if it lies within the limits.
pub open spec fn value_after<SP, D, F>(f: SliderFields<SP, D, F>, v: i32) -> i32 {
    if range_contains(f.limits, v) {
        v
    } else {
        f.value
    }
}

/// The main-axis component of a delta, along a slider's direction.
pub open spec fn slider_main<SP: SliderProperties>(d: PositionDelta) -> i32 {
    if slider_horizontal::<SP>() {
        d.x
    } else {
        d.y
    }
}

/// Law: the handle of a slider whose value lies within its limits lies within the slider
/// along its axis, when the handle is no longer than the slider and the slider's length
/// and far end are coordinates.
pub proof fn law_handle_within_slider<SP: SliderProperties, D, F>(f: SliderFields<SP, D, F>)
    requires
        !f.limits@.exhausted,
        f.limits@.start < f.limits@.end,
        f.limits@.start <= f.value <= f.limits@.end,
        f.properties.spec_length() <= (if slider_horizontal::<SP>() { f.bounds.size.width } else { f.bounds.size.height }),
        (if slider_horizontal::<SP>() { f.bounds.size.width } else { f.bounds.size.height }) <= i32::MAX,
        (if slider_horizontal::<SP>() { f.bounds.position.x + f.bounds.size.width } else { f.bounds.position.y + f.bounds.size.height }) <= i32::MAX,
    ensures
        ({
            let h = slider_horizontal::<SP>();
            let sb = spec_slider_bounds(f);
            let start = if h { f.bounds.position.x } else { f.bounds.position.y };
            let total = if h { f.bounds.size.width } else { f.bounds.size.height };
            let handle_start = if h { sb.position.x } else { sb.position.y };
            let handle_length = if h { sb.size.width } else { sb.size.height };
            start <= handle_start && handle_start + handle_length <= start + total
        }),
{
    let h = slider_horizontal::<SP>();
    let total = if h { f.bounds.size.width } else { f.bounds.size.height };
    let length = f.properties.spec_length();
    let space = (total - length) as u32;
    law_lerp_in_range(f.value, f.limits@.start, f.limits@.end, 0, u32_to_i32(space));
}

impl<SP: SliderProperties, D: WidgetData, F, FD> Slider<SP, D, F, FD> {
    /// Lets the slider react to input, or not.
    pub fn set_active(self, active: bool) -> (r: Self)
        ensures
            r.fields == (SliderFields {
                state: if active {
                    self.fields.state.spec_set_state::<Active>()
                } else {
                    self.fields.state.spec_set_state::<Inactive>()
                },
                ..self.fields
            }),
            r.drag_offset == self.drag_offset,
    {
        let mut s = self;
        s.fields.set_active(active);
        s
    }

    /// Sets the callback that runs when the bound data changed.
    pub fn on_data_changed<G>(self, callback: G) -> (r: Slider<SP, D, F, G>)
        ensures
            r.fields == self.fields,
            r.data_holder.data == self.data_holder.data,
            r.data_holder.on_data_changed == callback,
            r.drag_offset == self.drag_offset,
    {
        Slider {
            fields: self.fields,
            data_holder: self.data_holder.with_callback(callback),
            drag_offset: self.drag_offset,
        }
    }

    /// Sets the callback that receives the value whenever the slider changed it.
    pub fn on_value_changed<G>(self, callback: G) -> (r: Slider<SP, D, G, FD>)
        ensures
            r.fields.parent_index == self.fields.parent_index,
            r.fields.value == self.fields.value,
            r.fields.limits == self.fields.limits,
            r.fields.bounds == self.fields.bounds,
            r.fields.properties == self.fields.properties,
            r.fields.state == self.fields.state,
            r.fields.on_value_changed == callback,
            r.data_holder.data == self.data_holder.data,
            r.data_holder.on_data_changed == self.data_holder.on_data_changed,
            r.drag_offset == self.drag_offset,
    {
        Slider {
            fields: SliderFields {
                parent_index: self.fields.parent_index,
                on_value_changed: callback,
                value: self.fields.value,
                bounds: self.fields.bounds,
                limits: self.fields.limits,
                properties: self.fields.properties,
                state: self.fields.state,
                data: PhantomData,
            },
            data_holder: self.data_holder.retarget(),
            drag_offset: self.drag_offset,
        }
    }
}

impl<SP: SliderProperties, D: WidgetData, F: ValueCallback<D::Data, i32>, FD> Slider<SP, D, F, FD> {
    /// Sets the value if it lies within the limits, and then reports it to the bound data.
    pub fn set_value(&mut self, value: i32)
        ensures
            final(self).fields == (SliderFields { value: value_after(old(self).fields, value), ..old(self).fields }),
            final(self).drag_offset == old(self).drag_offset,
            final(self).data_holder.on_data_changed == old(self).data_holder.on_data_changed,
            value_reported(old(self).fields, value, old(self).data_holder.data.spec_data(), final(self).data_holder.data.spec_data()),
            !range_contains(old(self).fields.limits, value) ==> final(self).data_holder == old(self).data_holder,
    {
        if self.fields.change_value(value) {
            self.data_holder.data.update(ValueUpdate { callback: &self.fields.on_value_changed, value });
        }
    }

    /// Moves the handle to the pointer at main-axis position `pos` and sets the value that
    /// corresponds to; returns where the handle went.
    fn set_slider_position(&mut self, pos: i32) -> (r: i32)
        ensures
            !old(self).fields.limits@.exhausted ==> ({
                let (p, v) = spec_position_value(old(self).fields, pos);
                r == p && final(self).fields == (SliderFields { value: value_after(old(self).fields, v), ..old(self).fields })
                    && value_reported(old(self).fields, v, old(self).data_holder.data.spec_data(), final(self).data_holder.data.spec_data())
            }),
            old(self).fields.limits@.exhausted ==> final(self).fields == (SliderFields { value: final(self).fields.value, ..old(self).fields }),
            old(self).fields.limits@.exhausted ==> exists|v: i32|
                #[trigger] value_after(old(self).fields, v) == final(self).fields.value
                    && value_reported(old(self).fields, v, old(self).data_holder.data.spec_data(), final(self).data_holder.data.spec_data()),
            final(self).drag_offset == old(self).drag_offset,
            final(self).data_holder.on_data_changed == old(self).data_holder.on_data_changed,
    {
        let total_size = SP::main_axis(self.fields.bounds.size.width, self.fields.bounds.size.height);
        let slider_length = self.fields.properties.length();
        let x0 = slider_length / 2;
        let x1 = x0.wrapping_add(total_size).wrapping_sub(slider_length);
        let (pos, value) = lerp_clipped(
            pos,
            cast_u32_i32(x0),
            cast_u32_i32(x1),
            range_start(&self.fields.limits),
            range_end(&self.fields.limits),
        );
        self.set_value(value);
        assert(value_after(old(self).fields, value) == self.fields.value);
        pos
    }
}

impl<SP: SliderProperties, D: WidgetData, F: ValueCallback<D::Data, i32>, FD: DataChangedCallback<SliderFields<SP, D::Data, F>, D::Data>> Widget for Slider<SP, D, F, FD> {
    open spec fn spec_bounding_box(&self) -> BoundingBox {
        self.fields.bounds
    }

    open spec fn spec_children() -> nat {
        0
    }

    open spec fn spec_parent_index(&self) -> usize {
        self.fields.parent_index
    }

    open spec fn spec_is_selectable(&self) -> bool {
        true
    }

    open spec fn spec_measures_to(&self, measure_spec: MeasureSpec, after: Self) -> bool {
        &&& (after.fields.bounds.size == ({
            let h = slider_horizontal::<SP>();
            let main_spec = if h { measure_spec.width } else { measure_spec.height };
            let cross_spec = if h { measure_spec.height } else { measure_spec.width };
            let main = match main_spec.spec_largest() {
                Some(s) => s,
                None => 0,
            };
            let cross = cross_spec.spec_apply_to_measured(SP::spec_thickness());
            if h {
                MeasuredSize { width: main, height: cross }
            } else {
                MeasuredSize { width: cross, height: main }
            }
        }))
    }

    open spec fn spec_resizes_to(&self, size: MeasuredSize, after: Self) -> bool {
        &&& after.fields.bounds == (BoundingBox { size, ..self.fields.bounds })
    }

    open spec fn spec_updates_to(&self, after: Self) -> bool {
        if self.data_holder.data.spec_changed() {
            self.data_holder.on_data_changed.spec_data_changed_call(
                self.fields,
                self.data_holder.data.spec_data(),
                after.fields,
            ) && after == (Slider { fields: after.fields, ..*self })
        } else {
            after == *self
        }
    }

    open spec fn spec_resets_to(&self, after: Self) -> bool {
        &&& after == (Slider { data_holder: after.data_holder, ..*self })
        &&& !after.data_holder.data.spec_changed()
        &&& after.data_holder.data.spec_data() == self.data_holder.data.spec_data()
        &&& after.data_holder.on_data_changed == self.data_holder.on_data_changed
    }

    open spec fn spec_tests_input(&self, event: InputEvent, after: Self, r: Option<usize>) -> bool {
        &&& self.fields.state.spec_has_state::<Inactive>() ==> r is None && after == *self
        &&& (!self.fields.state.spec_has_state::<Inactive>() ==> match event {
            InputEvent::PointerEvent(p, PointerEvent::Hover) => r is None
                && after.fields == (SliderFields {
                state: if self.fields.bounds.spec_contains(p) {
                    self.fields.state.spec_set_state::<Hovered>()
                } else {
                    self.fields.state.spec_set_state::<Idle>()
                },
                ..self.fields
            }),
            InputEvent::PointerEvent(_, PointerEvent::Down) => after == *self
                && r == (if self.fields.state.spec_has_state::<Hovered>() { Some(0usize) } else { None }),
            InputEvent::PointerEvent(_, _) => after == *self
                && r == (if self.fields.state.spec_has_state::<Dragged>() { Some(0usize) } else { None }),
            InputEvent::ScrollEvent(se) => after == *self
                && r == (if self.fields.state.spec_has_state::<Hovered>()
                && <SP::Direction as SliderDirection>::spec_handles_scroll(se) {
                Some(0usize)
            } else {
                None
            }),
            _ => r is None && after == *self,
        })
    }

    open spec fn spec_handles_input(&self, ctxt: InputContext, event: InputEvent, after: Self, r: bool) -> bool {
        &&& after.fields.bounds == self.fields.bounds
        &&& after.fields.limits == self.fields.limits
        &&& self.fields.state.spec_has_state::<Inactive>() ==> !r && after == *self
        &&& (!self.fields.state.spec_has_state::<Inactive>() ==> match event {
            InputEvent::Cancel => r && after.drag_offset is None && after.data_holder == self.data_holder
                && after.fields == (SliderFields {
                state: if self.fields.state.spec_has_state::<Dragged>() {
                    self.fields.state.spec_set_state::<Hovered>()
                } else {
                    self.fields.state
                },
                ..self.fields
            }),
            InputEvent::PointerEvent(p, PointerEvent::Down) => r
                && after.fields.state == self.fields.state.spec_set_state::<Dragged>()
                && after.fields == (SliderFields {
                    value: after.fields.value,
                    state: after.fields.state,
                    ..self.fields
                })
                && after.data_holder.on_data_changed == self.data_holder.on_data_changed
                && (self.fields.limits@.exhausted ==> (after.fields.value == self.fields.value
                    && after.data_holder == self.data_holder) || exists|v: i32|
                    #[trigger] value_after(self.fields, v) == after.fields.value
                        && value_reported(self.fields, v, self.data_holder.data.spec_data(), after.data_holder.data.spec_data()))
                && (!self.fields.limits@.exhausted ==> ({
                let sb = spec_slider_bounds(self.fields);
                if sb.spec_contains(p) {
                    let vp = slider_main::<SP>(p.spec_delta_from(sb.position));
                    let half = trunc_div(u32_to_i32(if slider_horizontal::<SP>() { sb.size.width } else { sb.size.height }) as int, 2) as i32;
                    after.drag_offset == Some(wrap_i32(half - vp))
                        && after.fields.value == self.fields.value
                        && after.data_holder == self.data_holder
                } else {
                    let vp = slider_main::<SP>(p.spec_delta_from(self.fields.bounds.position));
                    let (np, v) = spec_position_value(self.fields, vp);
                    after.drag_offset == Some(wrap_i32(np - vp))
                        && after.fields.value == value_after(self.fields, v)
                        && value_reported(self.fields, v, self.data_holder.data.spec_data(), after.data_holder.data.spec_data())
                }
            })),
            InputEvent::PointerEvent(p, PointerEvent::Drag) => match self.drag_offset {
                Some(o) => r && after.drag_offset == Some(o)
                    && after.fields.state == self.fields.state
                    && after.fields == (SliderFields { value: after.fields.value, ..self.fields })
                    && after.data_holder.on_data_changed == self.data_holder.on_data_changed
                    && (self.fields.limits@.exhausted ==> exists|v: i32|
                        #[trigger] value_after(self.fields, v) == after.fields.value
                            && value_reported(self.fields, v, self.data_holder.data.spec_data(), after.data_holder.data.spec_data()))
                    && (!self.fields.limits@.exhausted ==> ({
                    let vp = slider_main::<SP>(p.spec_delta_from(self.fields.bounds.position));
                    let (np, v) = spec_position_value(self.fields, wrap_i32(vp + o));
                    after.fields.value == value_after(self.fields, v)
                        && value_reported(self.fields, v, self.data_holder.data.spec_data(), after.data_holder.data.spec_data())
                })),
                None => !r && after == *self,
            },
            InputEvent::PointerEvent(_, PointerEvent::Up) => r && after.drag_offset is None
                && after.data_holder == self.data_holder
                && after.fields == (SliderFields {
                state: self.fields.state.spec_set_state::<Hovered>(),
                ..self.fields
            }),
            InputEvent::ScrollEvent(se) => r && after.drag_offset == self.drag_offset && ({
                let down = match se {
                    ScrollEvent::HorizontalScroll(d) => d < 0,
                    ScrollEvent::VerticalScroll(d) => wrap_i32(0 - d) < 0,
                };
                let t = if down {
                    wrap_i32(self.fields.value - 1)
                } else {
                    wrap_i32(self.fields.value + 1)
                };
                after.fields == (SliderFields { value: value_after(self.fields, t), ..self.fields })
                    && value_reported(self.fields, t, self.data_holder.data.spec_data(), after.data_holder.data.spec_data())
            }),
            _ => !r && after == *self,
        })
    }

    open spec fn spec_state_changes_to(&self, state: WidgetState, after: Self) -> bool {
        after == *self
    }

    fn attach(&mut self, parent: usize, index: usize)
        ensures
            final(self).fields.parent_index == parent,
    {
        self.set_parent(parent);
    }

    fn bounding_box(&self) -> (r: BoundingBox) {
        self.fields.bounds
    }

    fn children(&self) -> (r: usize) {
        0
    }

    /// A slider takes all the main-axis space it may (none if unlimited) and its thickness
    /// across, within the constraint.
    fn measure(&mut self, measure_spec: MeasureSpec)
        ensures
            final(self).fields.bounds.size == ({
                let h = slider_horizontal::<SP>();
                let main_spec = if h { measure_spec.width } else { measure_spec.height };
                let cross_spec = if h { measure_spec.height } else { measure_spec.width };
                let main = match main_spec.spec_largest() {
                    Some(s) => s,
                    None => 0,
                };
                let cross = cross_spec.spec_apply_to_measured(SP::spec_thickness());
                if h {
                    MeasuredSize { width: main, height: cross }
                } else {
                    MeasuredSize { width: cross, height: main }
                }
            }),
    {
        // Measure depends on platform specifics
        let main_spec = SP::main_axis(measure_spec.width, measure_spec.height);
        let cross_spec = SP::cross_axis(measure_spec.width, measure_spec.height);
        let cross_size = cross_spec.apply_to_measured(SP::thickness());
        let main_size = match main_spec.largest() {
            Some(size) => size,
            None => 0,
        };
        let (width, height) = SP::merge(main_size, cross_size);
        self.set_measured_size(MeasuredSize { width, height });
    }

    fn arrange(&mut self, position: Position) {
        self.fields.bounds.position = position;
    }

    fn set_measured_size(&mut self, size: MeasuredSize)
        ensures
            final(self).fields.bounds == (BoundingBox { size, ..old(self).fields.bounds }),
    {
        self.fields.bounds.size = size;
    }

    fn update(&mut self) {
        self.data_holder.update(&mut self.fields);
    }

    fn reset_changed(&mut self) {
        self.data_holder.reset_changed();
    }

    fn parent_index(&self) -> (r: usize) {
        self.fields.parent_index
    }

    fn set_parent(&mut self, index: usize)
        ensures
            final(self).fields.parent_index == index,
    {
        self.fields.parent_index = index;
    }

    /// The slider wants a press while hovered, drags and releases while dragged, and scroll
    /// events along its direction while hovered. Hovering sets the hovered state but is
    /// never taken, so that clicks on hidden parts of the slider go elsewhere.
    fn test_input(&mut self, event: InputEvent) -> (r: Option<usize>)
        ensures
            old(self).fields.state.spec_has_state::<Inactive>() ==> r is None && *final(self) == *old(self),
            !old(self).fields.state.spec_has_state::<Inactive>() ==> match event {
                InputEvent::PointerEvent(p, PointerEvent::Hover) => r is None
                    && final(self).fields == (SliderFields {
                    state: if old(self).fields.bounds.spec_contains(p) {
                        old(self).fields.state.spec_set_state::<Hovered>()
                    } else {
                        old(self).fields.state.spec_set_state::<Idle>()
                    },
                    ..old(self).fields
                }),
                InputEvent::PointerEvent(_, PointerEvent::Down) => *final(self) == *old(self)
                    && r == (if old(self).fields.state.spec_has_state::<Hovered>() { Some(0usize) } else { None }),
                InputEvent::PointerEvent(_, _) => *final(self) == *old(self)
                    && r == (if old(self).fields.state.spec_has_state::<Dragged>() { Some(0usize) } else { None }),
                InputEvent::ScrollEvent(se) => *final(self) == *old(self)
                    && r == (if old(self).fields.state.spec_has_state::<Hovered>()
                    && <SP::Direction as SliderDirection>::spec_handles_scroll(se) {
                    Some(0usize)
                } else {
                    None
                }),
                _ => r is None && *final(self) == *old(self),
            },
    {
        if self.fields.state.has_state(Inactive) {
            return None;
        }
        match event {
            InputEvent::PointerEvent(position, PointerEvent::Hover) => {
                if self.fields.bounds.contains(position) {
                    self.fields.state.set_state(Hovered);
                    // We deliberately don't handle hover events. In case the slider is
                    // partially displayed, handling hover would route clicks that fall on
                    // the hidden parts.
                } else {
                    // Make sure we reset our state if we don't handle the pointer event.
                    // It's possible we were the target for the last one.
                    self.fields.state.set_state(Idle);
                }
                None
            },
            InputEvent::PointerEvent(_, PointerEvent::Down) => {
                if self.fields.state.has_state(Hovered) {
                    Some(0)
                } else {
                    None
                }
            },
            InputEvent::PointerEvent(_, _) => {
                if self.fields.state.has_state(Dragged) {
                    Some(0)
                } else {
                    None
                }
            },
            InputEvent::ScrollEvent(scroll) => {
                if self.fields.state.has_state(Hovered) && SP::Direction::handles_scroll(scroll) {
                    Some(0)
                } else {
                    None
                }
            },
            _ => None,
        }
    }

    /// Dragging moves the handle with the pointer, a press on the bar outside the handle
    /// jumps there, and the wheel steps the value by one.
    fn handle_input(&mut self, ctxt: InputContext, event: InputEvent) -> (r: bool)
        ensures
            final(self).fields.bounds == old(self).fields.bounds,
            final(self).fields.limits == old(self).fields.limits,
            old(self).fields.state.spec_has_state::<Inactive>() ==> !r && *final(self) == *old(self),
            !old(self).fields.state.spec_has_state::<Inactive>() ==> match event {
                InputEvent::Cancel => r && final(self).drag_offset is None && final(self).data_holder == old(self).data_holder
                    && final(self).fields == (SliderFields {
                    state: if old(self).fields.state.spec_has_state::<Dragged>() {
                        old(self).fields.state.spec_set_state::<Hovered>()
                    } else {
                        old(self).fields.state
                    },
                    ..old(self).fields
                }),
                InputEvent::PointerEvent(p, PointerEvent::Down) => r
                    && final(self).fields.state == old(self).fields.state.spec_set_state::<Dragged>()
                    && final(self).fields == (SliderFields {
                        value: final(self).fields.value,
                        state: final(self).fields.state,
                        ..old(self).fields
                    })
                    && final(self).data_holder.on_data_changed == old(self).data_holder.on_data_changed
                    && (old(self).fields.limits@.exhausted ==> (final(self).fields.value == old(self).fields.value
                        && final(self).data_holder == old(self).data_holder) || exists|v: i32|
                        #[trigger] value_after(old(self).fields, v) == final(self).fields.value
                            && value_reported(old(self).fields, v, old(self).data_holder.data.spec_data(), final(self).data_holder.data.spec_data()))
                    && (!old(self).fields.limits@.exhausted ==> ({
                    let sb = spec_slider_bounds(old(self).fields);
                    if sb.spec_contains(p) {
                        let vp = slider_main::<SP>(p.spec_delta_from(sb.position));
                        let half = trunc_div(u32_to_i32(if slider_horizontal::<SP>() { sb.size.width } else { sb.size.height }) as int, 2) as i32;
                        final(self).drag_offset == Some(wrap_i32(half - vp))
                            && final(self).fields.value == old(self).fields.value
                            && final(self).data_holder == old(self).data_holder
                    } else {
                        let vp = slider_main::<SP>(p.spec_delta_from(old(self).fields.bounds.position));
                        let (np, v) = spec_position_value(old(self).fields, vp);
                        final(self).drag_offset == Some(wrap_i32(np - vp))
                            && final(self).fields.value == value_after(old(self).fields, v)
                            && value_reported(old(self).fields, v, old(self).data_holder.data.spec_data(), final(self).data_holder.data.spec_data())
                    }
                })),
                InputEvent::PointerEvent(p, PointerEvent::Drag) => match old(self).drag_offset {
                    Some(o) => r && final(self).drag_offset == Some(o)
                        && final(self).fields.state == old(self).fields.state
                        && final(self).fields == (SliderFields { value: final(self).fields.value, ..old(self).fields })
                        && final(self).data_holder.on_data_changed == old(self).data_holder.on_data_changed
                        && (old(self).fields.limits@.exhausted ==> exists|v: i32|
                            #[trigger] value_after(old(self).fields, v) == final(self).fields.value
                                && value_reported(old(self).fields, v, old(self).data_holder.data.spec_data(), final(self).data_holder.data.spec_data()))
                        && (!old(self).fields.limits@.exhausted ==> ({
                        let vp = slider_main::<SP>(p.spec_delta_from(old(self).fields.bounds.position));
                        let (np, v) = spec_position_value(old(self).fields, wrap_i32(vp + o));
                        final(self).fields.value == value_after(old(self).fields, v)
                            && value_reported(old(self).fields, v, old(self).data_holder.data.spec_data(), final(self).data_holder.data.spec_data())
                    })),
                    None => !r && *final(self) == *old(self),
                },
                InputEvent::PointerEvent(_, PointerEvent::Up) => r && final(self).drag_offset is None
                    && final(self).data_holder == old(self).data_holder
                    && final(self).fields == (SliderFields {
                    state: old(self).fields.state.spec_set_state::<Hovered>(),
                    ..old(self).fields
                }),
                InputEvent::ScrollEvent(se) => r && final(self).drag_offset == old(self).drag_offset && ({
                    let down = match se {
                        ScrollEvent::HorizontalScroll(d) => d < 0,
                        ScrollEvent::VerticalScroll(d) => wrap_i32(0 - d) < 0,
                    };
                    let t = if down {
                        wrap_i32(old(self).fields.value - 1)
                    } else {
                        wrap_i32(old(self).fields.value + 1)
                    };
                    final(self).fields == (SliderFields { value: value_after(old(self).fields, t), ..old(self).fields })
                        && value_reported(old(self).fields, t, old(self).data_holder.data.spec_data(), final(self).data_holder.data.spec_data())
                }),
                _ => !r && *final(self) == *old(self),
            },
    {
        if self.fields.state.has_state(Inactive) {
            return false;
        }
        match event {
            InputEvent::Cancel => {
                self.drag_offset = None;
                if self.fields.state.has_state(Dragged) {
                    self.fields.state.set_state(Hovered);
                }
                true
            },
            InputEvent::PointerEvent(position, PointerEvent::Down) => {
                let sb = self.fields.slider_bounds();
                if sb.contains(position) {
                    let delta = position.delta_from(sb.position);
                    let value_pos = SP::main_axis(delta.x, delta.y);
                    let slider_size = SP::main_axis(sb.size.width, sb.size.height);
                    let half = trunc_div_i32(cast_u32_i32(slider_size), 2);
                    self.drag_offset = Some(wrapping_sub_i32(half, value_pos));
                } else {
                    let delta = position.delta_from(self.fields.bounds.position);
                    let value_pos = SP::main_axis(delta.x, delta.y);
                    let new_pos = self.set_slider_position(value_pos);
                    self.drag_offset = Some(wrapping_sub_i32(new_pos, value_pos));
                }
                self.fields.state.set_state(Dragged);
                true
            },
            InputEvent::PointerEvent(position, PointerEvent::Drag) => {
                match self.drag_offset {
                    Some(offset) => {
                        let delta = position.delta_from(self.fields.bounds.position);
                        let value_pos = SP::main_axis(delta.x, delta.y);
                        let _ = self.set_slider_position(wrapping_add_i32(value_pos, offset));
                        true
                    },
                    None => false,
                }
            },
            InputEvent::PointerEvent(_, PointerEvent::Up) => {
                self.drag_offset = None;
                self.fields.state.set_state(Hovered);
                true
            },
            InputEvent::ScrollEvent(scroll) => {
                let delta = match scroll {
                    ScrollEvent::HorizontalScroll(delta) => delta,
                    ScrollEvent::VerticalScroll(delta) => wrapping_sub_i32(0, delta),
                };
                // The value moves by one step per scroll event.
                let value = if delta < 0 {
                    wrapping_sub_i32(self.fields.value, 1)
                } else {
                    wrapping_add_i32(self.fields.value, 1)
                };
                self.set_value(value);
                true
            },
            _ => false,
        }
    }

    fn on_state_changed(&mut self, state: WidgetState) {
        // don't react to parent's state change
    }

    fn is_selectable(&self) -> (r: bool) {
        true
    }
}

} // verus!
