//! The common implementation of rows and columns.

use vstd::prelude::*;

use crate::chain::{Chain, ChainElement, Link};
use crate::geometry::axis_order::AxisOrder;
use crate::geometry::{BoundingBox, MeasureConstraint, MeasureSpec, MeasuredSize, Position};
use crate::input::{InputContext, InputEvent};
use crate::state::WidgetState;
use crate::rendering::{Canvas, WidgetRenderer};
use crate::widgets::layouts::linear::private::{
    LayoutDirection, LinearLayoutChainElement, arranged_position, cell_offset, cross_constraint,
    cross_size, lemma_cell_offset_at_least, lemma_cell_offset_monotonic, main_constraint,
    main_size, merged_size, merged_spec,
};
use crate::widgets::layouts::linear::{Cell, NoWeight, Weight};
use crate::widgets::Widget;

verus! {

/// `v` clamped into the range of `u32`.
pub open spec fn sat_u32(v: int) -> u32 {
    if v > u32::MAX {
        u32::MAX
    } else if v < 0 {
        0
    } else {
        v as u32
    }
}

/// The sum of the first `n` weights.
pub open spec fn weight_sum(ws: Seq<u32>, n: nat) -> int
    decreases n,
{
    if n == 0 {
        0
    } else {
        weight_sum(ws, (n - 1) as nat) + ws[n - 1]
    }
}

/// The total weight, as the layout computes it: the sum, saturated at `u32::MAX`.
pub open spec fn total_weight(ws: Seq<u32>) -> u32 {
    sat_u32(weight_sum(ws, ws.len()))
}

/// Whether cell `k` is served before cell `i` when the left-over pixels are handed out:
/// heavier cells come first, and among cells of the same weight the earlier one.
pub open spec fn ranked_before(ws: Seq<u32>, k: int, i: int) -> bool {
    ws[k] > ws[i] || (ws[k] == ws[i] && k < i)
}

/// The weight of those of the first `n` cells that are served before cell `i`.
pub open spec fn weight_ahead(ws: Seq<u32>, i: int, n: nat) -> int
    decreases n,
{
    if n == 0 {
        0
    } else {
        weight_ahead(ws, i, (n - 1) as nat) + if ranked_before(ws, n - 1, i) { ws[n - 1] as int } else { 0 }
    }
}

/// The part of the `r0` left-over pixels that cell `i` receives: they are handed out to the
/// heaviest cells first, at most one per unit of weight, so that a cell never gets fewer
/// of them than a lighter one.
pub open spec fn extra_share(r0: int, ws: Seq<u32>, i: int) -> int {
    let left = r0 - weight_ahead(ws, i, ws.len());
    let left = if left > 0 { left } else { 0 };
    if left < ws[i] {
        left
    } else {
        ws[i] as int
    }
}

/// The main-axis size the `i`-th cell receives when `remaining` pixels are divided among
/// the cells with the weights `ws`: an equal amount per unit of weight, plus its part of
/// the pixels left over.
pub open spec fn weighted_share(remaining: u32, ws: Seq<u32>, i: int) -> int {
    let tw = total_weight(ws) as int;
    ((remaining as int) / tw) * ws[i] + extra_share((remaining as int) % tw, ws, i)
}

/// The sum of the first `n` shares.
pub open spec fn share_sum(remaining: u32, ws: Seq<u32>, n: nat) -> int
    decreases n,
{
    if n == 0 {
        0
    } else {
        share_sum(remaining, ws, (n - 1) as nat) + weighted_share(remaining, ws, n - 1)
    }
}

/// The sum of the main-axis sizes of the first `n` cells without weight.
pub open spec fn fixed_main_sum(h: bool, bs: Seq<BoundingBox>, ws: Seq<u32>, n: nat) -> int
    decreases n,
{
    if n == 0 {
        0
    } else {
        fixed_main_sum(h, bs, ws, (n - 1) as nat) + if ws[n - 1] == 0 {
            main_size(h, bs[n - 1].size) as int
        } else {
            0
        }
    }
}

/// The sum of the main-axis sizes of the first `n` cells.
pub open spec fn all_main_sum(h: bool, bs: Seq<BoundingBox>, n: nat) -> int
    decreases n,
{
    if n == 0 {
        0
    } else {
        all_main_sum(h, bs, (n - 1) as nat) + main_size(h, bs[n - 1].size)
    }
}

/// The largest cross-axis size of the first `n` cells.
pub open spec fn cross_max(h: bool, bs: Seq<BoundingBox>, n: nat) -> u32
    decreases n,
{
    if n == 0 {
        0
    } else {
        let m = cross_max(h, bs, (n - 1) as nat);
        let c = cross_size(h, bs[n - 1].size);
        if m >= c {
            m
        } else {
            c
        }
    }
}

/// The largest cross-axis size of the first `n` cells whose weight is zero (`weighted`
/// false) or not (`weighted` true).
pub open spec fn cross_max_where(h: bool, bs: Seq<BoundingBox>, ws: Seq<u32>, n: nat, weighted: bool) -> u32
    decreases n,
{
    if n == 0 {
        0
    } else {
        let m = cross_max_where(h, bs, ws, (n - 1) as nat, weighted);
        let c = cross_size(h, bs[n - 1].size);
        if (ws[n - 1] != 0) == weighted && c > m {
            c
        } else {
            m
        }
    }
}

/// The space the gaps between `n` cells take.
pub open spec fn gaps(n: nat, spacing: u32) -> int {
    if n == 0 {
        0
    } else {
        (n - 1) * spacing
    }
}

/// The size a linear layout takes after its cells were measured to the boxes `bs`.
pub open spec fn layout_size(
    h: bool,
    spec: MeasureSpec,
    bs: Seq<BoundingBox>,
    ws: Seq<u32>,
    spacing: u32,
) -> MeasuredSize {
    let n = bs.len();
    let cross = cross_constraint(h, spec).spec_apply_to_measured(cross_max(h, bs, n));
    match main_constraint(h, spec).spec_largest() {
        None => merged_size(h, sat_u32(all_main_sum(h, bs, n) + gaps(n, spacing)), cross),
        Some(max) => merged_size(
            h,
            if total_weight(ws) == 0 {
                sat_u32(fixed_main_sum(h, bs, ws, n) + gaps(n, spacing))
            } else {
                max
            },
            cross,
        ),
    }
}

/// The constraints cell `k` is measured under when the layout is measured under
/// `measure_spec` and its cells end up with the boxes `bs`. When the main axis is unbounded,
/// every cell gets `measure_spec` itself. Otherwise a cell without weight may take at most
/// what the cells without weight before it left over, and a cell with weight takes exactly
/// its share of what is left after all cells without weight and the gaps.
pub open spec fn cell_measure_spec(
    h: bool,
    measure_spec: MeasureSpec,
    bs: Seq<BoundingBox>,
    ws: Seq<u32>,
    spacing: u32,
    k: int,
) -> MeasureSpec {
    match main_constraint(h, measure_spec).spec_largest() {
        None => measure_spec,
        Some(max) => {
            let cross = cross_constraint(h, measure_spec);
            if ws[k] == 0 {
                merged_spec(
                    h,
                    MeasureConstraint::AtMost(sat_u32(max - sat_u32(fixed_main_sum(h, bs, ws, k as nat)))),
                    cross,
                )
            } else {
                let taken = sat_u32(sat_u32(fixed_main_sum(h, bs, ws, ws.len())) + sat_u32(gaps(ws.len(), spacing)));
                let remaining = sat_u32(max - taken);
                merged_spec(h, MeasureConstraint::Exactly(weighted_share(remaining, ws, k) as u32), cross)
            }
        },
    }
}

/// The constraints of a cell only look at the cells without weight.
proof fn lemma_cell_measure_spec_frame(
    h: bool,
    measure_spec: MeasureSpec,
    bs1: Seq<BoundingBox>,
    bs2: Seq<BoundingBox>,
    ws: Seq<u32>,
    spacing: u32,
    k: int,
)
    requires
        0 <= k < ws.len(),
        bs1.len() == ws.len(),
        bs2.len() == ws.len(),
        forall|j: int| 0 <= j < ws.len() && ws[j] == 0 ==> bs1[j] == bs2[j],
    ensures
        cell_measure_spec(h, measure_spec, bs1, ws, spacing, k) == cell_measure_spec(h, measure_spec, bs2, ws, spacing, k),
{
    lemma_unweighted_frame(h, bs1, bs2, ws, k as nat);
    lemma_unweighted_frame(h, bs1, bs2, ws, ws.len());
}

proof fn lemma_weight_sum_monotonic(ws: Seq<u32>, j: nat, k: nat)
    requires
        j <= k <= ws.len(),
    ensures
        weight_sum(ws, j) <= weight_sum(ws, k),
        k > j ==> weight_sum(ws, j) + ws[j as int] <= weight_sum(ws, k),
    decreases k,
{
    if j < k {
        lemma_weight_sum_monotonic(ws, j, (k - 1) as nat);
    }
}

/// Law: every cell with weight receives its equal part, and at most one extra pixel per
/// unit of weight; a cell without weight receives nothing.
pub proof fn law_weighted_share_bounds(remaining: u32, ws: Seq<u32>, i: int)
    requires
        total_weight(ws) > 0,
        0 <= i < ws.len(),
    ensures
        ((remaining as int) / (total_weight(ws) as int)) * ws[i] <= weighted_share(remaining, ws, i)
            <= ((remaining as int) / (total_weight(ws) as int)) * ws[i] + ws[i],
        ws[i] == 0 ==> weighted_share(remaining, ws, i) == 0,
{
    let q = (remaining as int) / (total_weight(ws) as int);
    assert(ws[i] == 0 ==> q * ws[i] == 0) by (nonlinear_arith);
}

/// A cell that is served before cell `j` has all the weight served before it served
/// before `j` too, and its own.
proof fn lemma_weight_ahead_heavier(ws: Seq<u32>, i: int, j: int, n: nat)
    requires
        0 <= i < ws.len(),
        0 <= j < ws.len(),
        n <= ws.len(),
        ranked_before(ws, i, j),
    ensures
        weight_ahead(ws, j, n) >= weight_ahead(ws, i, n) + if i < n { ws[i] as int } else { 0 },
    decreases n,
{
    if n > 0 {
        lemma_weight_ahead_heavier(ws, i, j, (n - 1) as nat);
    }
}

/// The weight served before a cell is never negative.
proof fn lemma_weight_ahead_nonnegative(ws: Seq<u32>, i: int, n: nat)
    requires
        n <= ws.len(),
    ensures
        weight_ahead(ws, i, n) >= 0,
    decreases n,
{
    if n > 0 {
        lemma_weight_ahead_nonnegative(ws, i, (n - 1) as nat);
    }
}

/// Law: a cell with more weight takes up more space: a cell with at least the weight of
/// another, and served before it, never receives less than it. In particular a strictly
/// heavier cell never receives less.
pub proof fn law_more_weight_more_space(remaining: u32, ws: Seq<u32>, i: int, j: int)
    requires
        total_weight(ws) > 0,
        0 <= i < ws.len(),
        0 <= j < ws.len(),
        ws[i] > ws[j] || (ws[i] == ws[j] && i <= j),
    ensures
        weighted_share(remaining, ws, i) >= weighted_share(remaining, ws, j),
{
    if i != j {
        lemma_weight_ahead_heavier(ws, i, j, ws.len());
    }
    lemma_weight_ahead_nonnegative(ws, i, ws.len());
    lemma_weight_ahead_nonnegative(ws, j, ws.len());
    law_weighted_share_bounds(remaining, ws, i);
    law_weighted_share_bounds(remaining, ws, j);
    let q = (remaining as int) / (total_weight(ws) as int);
    assert(q >= 0) by (nonlinear_arith)
        requires
            remaining >= 0,
            total_weight(ws) > 0,
            q == (remaining as int) / (total_weight(ws) as int),
    ;
    assert(q * ws[i] >= q * ws[j]) by (nonlinear_arith)
        requires
            q >= 0,
            ws[i] >= ws[j],
    ;
}

/// The sum of `f` over `0..n`.
pub open spec fn sum_to(f: spec_fn(int) -> int, n: nat) -> int
    decreases n,
{
    if n == 0 {
        0
    } else {
        sum_to(f, (n - 1) as nat) + f(n - 1)
    }
}

/// Leaving out the term at `m` of a sum over `0..n` leaves the sum over the other
/// `n - 1` terms, in order.
proof fn lemma_sum_without(f: spec_fn(int) -> int, g: spec_fn(int) -> int, m: int, n: nat)
    requires
        0 <= m < n,
        forall|k: int| 0 <= k < n - 1 ==> #[trigger] g(k) == f(if k < m { k } else { k + 1 }),
    ensures
        sum_to(f, n) == sum_to(g, (n - 1) as nat) + f(m),
    decreases n,
{
    if m < n - 1 {
        lemma_sum_without(f, g, m, (n - 1) as nat);
    } else {
        lemma_sum_same(f, g, (n - 1) as nat);
    }
}

/// Sums of functions that agree on `0..n` agree.
proof fn lemma_sum_same(f: spec_fn(int) -> int, g: spec_fn(int) -> int, n: nat)
    requires
        forall|k: int| 0 <= k < n ==> #[trigger] g(k) == f(k),
    ensures
        sum_to(f, n) == sum_to(g, n),
    decreases n,
{
    if n > 0 {
        lemma_sum_same(f, g, (n - 1) as nat);
    }
}

/// The weights of the cells served before cell `i`, as a function of the cell.
pub open spec fn ahead_term(ws: Seq<u32>, i: int) -> spec_fn(int) -> int {
    |k: int| if ranked_before(ws, k, i) { ws[k] as int } else { 0 }
}

proof fn lemma_weight_ahead_sum(ws: Seq<u32>, i: int, n: nat)
    ensures
        weight_ahead(ws, i, n) == sum_to(ahead_term(ws, i), n),
    decreases n,
{
    if n > 0 {
        lemma_weight_ahead_sum(ws, i, (n - 1) as nat);
    }
}

proof fn lemma_weight_sum_sum(ws: Seq<u32>, n: nat)
    ensures
        weight_sum(ws, n) == sum_to(|k: int| ws[k] as int, n),
    decreases n,
{
    if n > 0 {
        lemma_weight_sum_sum(ws, (n - 1) as nat);
    }
}

/// The cell among the first `n` that is served last.
pub open spec fn last_served(ws: Seq<u32>, n: nat) -> int
    decreases n,
{
    if n <= 1 {
        0
    } else {
        let m = last_served(ws, (n - 1) as nat);
        if ranked_before(ws, m, n - 1) {
            n - 1
        } else {
            m
        }
    }
}

proof fn lemma_last_served(ws: Seq<u32>, n: nat)
    requires
        1 <= n <= ws.len(),
    ensures
        0 <= last_served(ws, n) < n,
        forall|i: int| 0 <= i < n && i != last_served(ws, n) ==> #[trigger] ranked_before(ws, i, last_served(ws, n)),
    decreases n,
{
    if n > 1 {
        lemma_last_served(ws, (n - 1) as nat);
        let m = last_served(ws, (n - 1) as nat);
        assert forall|i: int| 0 <= i < n && i != last_served(ws, n) implies #[trigger] ranked_before(ws, i, last_served(ws, n)) by {
            if i < n - 1 && i != m {
                assert(ranked_before(ws, i, m));
            }
        }
    }
}

/// The left-over pixels handed out to the cells add up to all of them, as long as there
/// are no more of them than units of weight.
proof fn lemma_extra_sum(r0: int, ws: Seq<u32>)
    requires
        r0 >= 0,
    ensures
        sum_to(|i: int| extra_share(r0, ws, i), ws.len()) == (if r0 <= weight_sum(ws, ws.len()) {
            r0
        } else {
            weight_sum(ws, ws.len())
        }),
    decreases ws.len(),
{
    let n = ws.len();
    let f = |i: int| extra_share(r0, ws, i);
    if n == 0 {
    } else {
        lemma_last_served(ws, n);
        let m = last_served(ws, n);
        let ws2 = ws.remove(m);
        let idx = |k: int| if k < m { k } else { k + 1 };
        let f2 = |i: int| extra_share(r0, ws2, i);
        assert forall|k: int| 0 <= k < n - 1 implies #[trigger] f2(k) == f(idx(k)) by {
            let i = idx(k);
            lemma_weight_ahead_sum(ws2, k, (n - 1) as nat);
            lemma_weight_ahead_sum(ws, i, n);
            assert forall|j: int| 0 <= j < n - 1 implies #[trigger] ahead_term(ws2, k)(j) == ahead_term(ws, i)(idx(j)) by {}
            assert(ranked_before(ws, i, m));
            assert(!ranked_before(ws, m, i));
            lemma_sum_without(ahead_term(ws, i), ahead_term(ws2, k), m, n);
        }
        lemma_sum_without(f, f2, m, n);
        lemma_extra_sum(r0, ws2);
        let w = |k: int| ws[k] as int;
        let w2 = |k: int| ws2[k] as int;
        lemma_weight_sum_sum(ws, n);
        lemma_weight_sum_sum(ws2, (n - 1) as nat);
        lemma_sum_without(w, w2, m, n);
        lemma_weight_ahead_sum(ws, m, n);
        let t = |k: int| if k == m { 0 } else { ws[k] as int };
        assert forall|k: int| 0 <= k < n implies #[trigger] ahead_term(ws, m)(k) == t(k) by {}
        lemma_sum_same(ahead_term(ws, m), t, n);
        let t2 = |k: int| t(if k < m { k } else { k + 1 });
        lemma_sum_without(t, t2, m, n);
        lemma_sum_same(w2, t2, (n - 1) as nat);
    }
}

/// Law: the shares of the cells with weight add up to exactly the space divided, as long
/// as the weights add up to no more than `u32::MAX`.
pub proof fn law_weighted_shares_fill_space(remaining: u32, ws: Seq<u32>)
    requires
        0 < weight_sum(ws, ws.len()) <= u32::MAX,
    ensures
        share_sum(remaining, ws, ws.len()) == remaining,
{
    let tw = total_weight(ws) as int;
    let q = (remaining as int) / tw;
    let r0 = (remaining as int) % tw;
    vstd::arithmetic::div_mod::lemma_fundamental_div_mod(remaining as int, tw);
    lemma_extra_sum(r0, ws);
    lemma_share_sum_split(remaining, ws, ws.len());
}

/// The sum of the shares is the equal parts plus the left-over pixels.
proof fn lemma_share_sum_split(remaining: u32, ws: Seq<u32>, n: nat)
    requires
        total_weight(ws) > 0,
        n <= ws.len(),
    ensures
        share_sum(remaining, ws, n) == ((remaining as int) / (total_weight(ws) as int)) * weight_sum(ws, n)
            + sum_to(|i: int| extra_share((remaining as int) % (total_weight(ws) as int), ws, i), n),
    decreases n,
{
    if n > 0 {
        lemma_share_sum_split(remaining, ws, (n - 1) as nat);
        let q = (remaining as int) / (total_weight(ws) as int);
        let a = weight_sum(ws, (n - 1) as nat);
        let b = ws[n - 1] as int;
        assert(q * (a + b) == q * a + q * b) by (nonlinear_arith);
    }
}

/// A share never exceeds the space divided.
proof fn lemma_share_fits(remaining: u32, ws: Seq<u32>, i: int)
    requires
        total_weight(ws) > 0,
        0 <= i < ws.len(),
    ensures
        0 <= weighted_share(remaining, ws, i) <= remaining,
{
    let tw = total_weight(ws) as int;
    let q = (remaining as int) / tw;
    let r0 = (remaining as int) % tw;
    vstd::arithmetic::div_mod::lemma_fundamental_div_mod(remaining as int, tw);
    lemma_weight_sum_monotonic(ws, i as nat, ws.len());
    lemma_weight_sum_monotonic(ws, 0, i as nat);
    lemma_weight_ahead_nonnegative(ws, i, ws.len());
    assert(ws[i] <= tw);
    assert(q >= 0) by (nonlinear_arith)
        requires
            remaining >= 0,
            tw > 0,
            q == (remaining as int) / tw,
    ;
    assert(q * ws[i] <= q * tw) by (nonlinear_arith)
        requires
            q >= 0,
            ws[i] <= tw,
    ;
    assert(tw * q == q * tw) by (nonlinear_arith);
    assert(0 <= q * ws[i]) by (nonlinear_arith)
        requires
            q >= 0,
            ws[i] >= 0,
    ;
}

/// Law: when a layout is measured under a bounded main axis, a cell with more weight than
/// another is given at least as much space as it; so is a cell with the same weight that
/// comes earlier.
pub proof fn law_heavier_cell_measured_larger(
    h: bool,
    measure_spec: MeasureSpec,
    bs: Seq<BoundingBox>,
    ws: Seq<u32>,
    spacing: u32,
    i: int,
    j: int,
)
    requires
        main_constraint(h, measure_spec).spec_largest() is Some,
        0 <= i < ws.len(),
        0 <= j < ws.len(),
        ws[j] != 0,
        ws[i] > ws[j] || (ws[i] == ws[j] && i <= j),
    ensures
        ({
            let ci = main_constraint(h, cell_measure_spec(h, measure_spec, bs, ws, spacing, i));
            let cj = main_constraint(h, cell_measure_spec(h, measure_spec, bs, ws, spacing, j));
            &&& ci is Exactly
            &&& cj is Exactly
            &&& ci->Exactly_0 >= cj->Exactly_0
        }),
{
    lemma_weight_sum_monotonic(ws, j as nat, ws.len());
    lemma_weight_sum_monotonic(ws, 0, j as nat);
    let max = main_constraint(h, measure_spec).spec_largest()->0;
    let taken = sat_u32(sat_u32(fixed_main_sum(h, bs, ws, ws.len())) + sat_u32(gaps(ws.len(), spacing)));
    let remaining = sat_u32(max - taken);
    assert(total_weight(ws) > 0);
    lemma_share_fits(remaining, ws, i);
    lemma_share_fits(remaining, ws, j);
    law_more_weight_more_space(remaining, ws, i, j);
}

/// The largest cross-axis size is at least that of every cell, and that of one of them.
proof fn lemma_cross_max_covers(h: bool, bs: Seq<BoundingBox>, n: nat)
    requires
        n <= bs.len(),
    ensures
        forall|k: int| 0 <= k < n ==> #[trigger] cross_size(h, bs[k].size) <= cross_max(h, bs, n),
        n > 0 ==> exists|k: int| 0 <= k < n && #[trigger] cross_size(h, bs[k].size) == cross_max(h, bs, n),
    decreases n,
{
    if n > 0 {
        lemma_cross_max_covers(h, bs, (n - 1) as nat);
        let last = n - 1;
        if n > 1 {
            let j = choose|k: int| 0 <= k < n - 1 && #[trigger] cross_size(h, bs[k].size) == cross_max(h, bs, (n - 1) as nat);
            assert(cross_size(h, bs[j].size) == cross_max(h, bs, n) || cross_size(h, bs[last].size) == cross_max(h, bs, n));
        } else {
            assert(cross_max(h, bs, 0) == 0);
            assert(cross_size(h, bs[last].size) == cross_max(h, bs, n));
        }
    }
}

/// Common implementation of linear layouts.
///
/// ## Cell measurement
///
/// The measurement process consists of two phases. At first, cells without weight are
/// measured. Then, the rest of the available space is partitioned according to the weights
/// of the remaining cells. The more weight a cell has, the more space it will take up.
///
/// ### Example:
///
/// We have a layout with three cells:
///  - A cell with weight 1.
///  - A cell without weight, which contains a widget that is 40 px high.
///  - A cell with weight 2.
///
/// The layout has 160 px height.
///
/// 1. At first, the second cell is measured. It needs 40 px for its widget, which leaves
///    120 px of unused space.
/// 2. Next, the remaining space is divided into 3 (the sum of weights), and assigned to the
///    rest of the cells. Each cell receives space according to its weight.
///
/// The final layout will look like this:
///  - The first cell will take up 40 px because of weight 1.
///  - The second cell will take up 40 px because it has a fixed height of 40.
///  - The third cell will take up 80 px because of weight 2.
///
/// When the space does not divide evenly, the pixels left over go one per unit of weight
/// to the heaviest cells first (among cells of equal weight, to the earlier one), so that a
/// cell never takes up less space than a lighter one.
///
/// Sums of sizes saturate at `u32::MAX`, and the space left over is never negative.
pub struct LinearLayout<CE, L> {
    pub bounds: BoundingBox,
    pub widgets: CE,
    pub direction: L,
}

} // verus!

verus! {

/// The sums over cells without weight only look at those cells.
proof fn lemma_unweighted_frame(h: bool, bs1: Seq<BoundingBox>, bs2: Seq<BoundingBox>, ws: Seq<u32>, n: nat)
    requires
        n <= bs1.len(),
        n <= bs2.len(),
        n <= ws.len(),
        forall|k: int| 0 <= k < n && ws[k] == 0 ==> bs1[k] == bs2[k],
    ensures
        fixed_main_sum(h, bs1, ws, n) == fixed_main_sum(h, bs2, ws, n),
        cross_max_where(h, bs1, ws, n, false) == cross_max_where(h, bs2, ws, n, false),
    decreases n,
{
    if n > 0 {
        lemma_unweighted_frame(h, bs1, bs2, ws, (n - 1) as nat);
    }
}

/// The largest size among cells with weight only looks at those cells.
proof fn lemma_weighted_frame(h: bool, bs1: Seq<BoundingBox>, bs2: Seq<BoundingBox>, ws: Seq<u32>, n: nat)
    requires
        n <= bs1.len(),
        n <= bs2.len(),
        n <= ws.len(),
        forall|k: int| 0 <= k < n && ws[k] != 0 ==> bs1[k] == bs2[k],
    ensures
        cross_max_where(h, bs1, ws, n, true) == cross_max_where(h, bs2, ws, n, true),
    decreases n,
{
    if n > 0 {
        lemma_weighted_frame(h, bs1, bs2, ws, (n - 1) as nat);
    }
}

/// The sums over all cells only look at the first `n` cells.
proof fn lemma_all_frame(h: bool, bs1: Seq<BoundingBox>, bs2: Seq<BoundingBox>, n: nat)
    requires
        n <= bs1.len(),
        n <= bs2.len(),
        forall|k: int| 0 <= k < n ==> bs1[k] == bs2[k],
    ensures
        all_main_sum(h, bs1, n) == all_main_sum(h, bs2, n),
        cross_max(h, bs1, n) == cross_max(h, bs2, n),
    decreases n,
{
    if n > 0 {
        lemma_all_frame(h, bs1, bs2, (n - 1) as nat);
    }
}

/// Sums of sizes are not negative.
proof fn lemma_sums_nonnegative(h: bool, bs: Seq<BoundingBox>, ws: Seq<u32>, n: nat)
    ensures
        fixed_main_sum(h, bs, ws, n) >= 0,
        all_main_sum(h, bs, n) >= 0,
    decreases n,
{
    if n > 0 {
        lemma_sums_nonnegative(h, bs, ws, (n - 1) as nat);
    }
}

/// The largest cross size is the larger of the largest among the cells without weight and
/// the largest among those with.
proof fn lemma_cross_max_split(h: bool, bs: Seq<BoundingBox>, ws: Seq<u32>, n: nat)
    ensures
        cross_max(h, bs, n) == ({
            let a = cross_max_where(h, bs, ws, n, false);
            let b = cross_max_where(h, bs, ws, n, true);
            if a >= b {
                a
            } else {
                b
            }
        }),
    decreases n,
{
    if n > 0 {
        lemma_cross_max_split(h, bs, ws, (n - 1) as nat);
    }
}

/// The space the gaps between `count` cells take, saturated at `u32::MAX`.
fn gap_total(count: usize, spacing: u32) -> (r: u32)
    requires
        count >= 1,
    ensures
        r == sat_u32(gaps(count as nat, spacing)),
{
    if spacing == 0 {
        0
    } else if count - 1 > 0xffff_ffffusize {
        let ghost c = count - 1;
        assert(c * spacing >= c) by (nonlinear_arith)
            requires
                spacing >= 1,
                c >= 0,
        ;
        u32::MAX
    } else {
        let c: u32 = (count - 1) as u32;
        match c.checked_mul(spacing) {
            Some(v) => v,
            None => u32::MAX,
        }
    }
}

/// The left-over pixels cell `k` receives out of `r0`: what the cells served before it
/// leave of `r0`, at most one pixel per unit of its weight.
fn extra_pixels<CE: LinearLayoutChainElement>(widgets: &CE, k: usize, r0: u32) -> (r: u32)
    requires
        CE::spec_count_widgets() < usize::MAX,
        k < CE::spec_len(),
    ensures
        r == extra_share(r0 as int, widgets.spec_weights(), k as int),
{
    proof {
        widgets.lemma_shape();
        lemma_cell_offset_at_least(CE::spec_child_counts(), CE::spec_len());
    }
    let ghost ws = widgets.spec_weights();
    let count = widgets.len();
    let w = widgets.weight_at(k);
    let mut ahead: u32 = 0;
    let mut j: usize = 0;
    while j < count
        invariant
            CE::spec_count_widgets() < usize::MAX,
            ws == widgets.spec_weights(),
            ws.len() == count,
            count == CE::spec_len(),
            k < count,
            w == ws[k as int],
            j <= count,
            ahead == sat_u32(weight_ahead(ws, k as int, j as nat)),
            weight_ahead(ws, k as int, j as nat) >= 0,
        decreases count - j,
    {
        let wj = widgets.weight_at(j);
        if wj > w || (wj == w && j < k) {
            ahead = ahead.saturating_add(wj);
        }
        j = j + 1;
    }
    let left = r0.saturating_sub(ahead);
    if left < w {
        left
    } else {
        w
    }
}

impl<CE: LinearLayoutChainElement, L: LayoutDirection> LinearLayout<CE, L> {
    /// Law: the cross-axis size of a measured linear layout is what its cross-axis
    /// constraint makes of the largest cross-axis size among all its cells, those with
    /// weight included: it is at least what the constraint makes of each cell's, and equal
    /// to what it makes of one cell's.
    pub proof fn law_cross_size_covers_every_cell(&self, measure_spec: MeasureSpec, after: Self)
        requires
            self.spec_measures_to(measure_spec, after),
        ensures
            ({
                let h = <L::AxisOrder as AxisOrder>::spec_is_horizontal();
                let bs = after.widgets.spec_bounds();
                let c = cross_constraint(h, measure_spec);
                &&& forall|k: int| 0 <= k < bs.len() ==>
                    c.spec_apply_to_measured(#[trigger] cross_size(h, bs[k].size)) <= cross_size(h, after.bounds.size)
                &&& exists|k: int| 0 <= k < bs.len()
                    && c.spec_apply_to_measured(#[trigger] cross_size(h, bs[k].size)) == cross_size(h, after.bounds.size)
            }),
    {
        let h = <L::AxisOrder as AxisOrder>::spec_is_horizontal();
        let bs = after.widgets.spec_bounds();
        after.widgets.lemma_shape();
        lemma_cross_max_covers(h, bs, bs.len());
        let j = choose|k: int| 0 <= k < bs.len() && #[trigger] cross_size(h, bs[k].size) == cross_max(h, bs, bs.len());
        assert(cross_size(h, bs[j].size) == cross_max(h, bs, bs.len()));
    }
}

impl<CE: LinearLayoutChainElement, L: LayoutDirection> LinearLayout<CE, L> {
    /// Measures every cell under `measure_spec` (no weights: the space is unbounded).
    fn measure_unbounded(&mut self, measure_spec: MeasureSpec)
        requires
            CE::spec_count_widgets() < usize::MAX,
            main_constraint(<L::AxisOrder as AxisOrder>::spec_is_horizontal(), measure_spec).spec_largest() is None,
        ensures
            final(self).bounds.size == layout_size(
                <L::AxisOrder as AxisOrder>::spec_is_horizontal(),
                measure_spec,
                final(self).widgets.spec_bounds(),
                old(self).widgets.spec_weights(),
                old(self).direction.spec_element_spacing(),
            ),
            final(self).widgets.spec_weights() == old(self).widgets.spec_weights(),
            final(self).bounds.position == old(self).bounds.position,
            final(self).direction == old(self).direction,
            forall|k: int|
                0 <= k < CE::spec_len() ==> #[trigger] old(self).widgets.spec_cell_measured(k, measure_spec, final(self).widgets),
    {
        let ghost h = <L::AxisOrder as AxisOrder>::spec_is_horizontal();
        let ghost ws = self.widgets.spec_weights();
        let ghost w0 = self.widgets;
        proof {
            self.widgets.lemma_shape();
            lemma_cell_offset_at_least(CE::spec_child_counts(), CE::spec_len());
            assert forall|j: int| 0 <= j < CE::spec_len() implies #[trigger] w0.spec_cell_same(j, self.widgets) by {
                w0.lemma_cell_same_refl(j);
            }
        }
        let count = self.widgets.len();
        let spacing = self.direction.element_spacing();
        let cross_spec = L::cross_axis_measure_spec(measure_spec);
        let mut total: u32 = 0;
        let mut max_cross: u32 = 0;
        let mut i: usize = 0;
        while i < count
            invariant
                forall|j: int| 0 <= j < i ==> #[trigger] w0.spec_cell_measured(j, measure_spec, self.widgets),
                forall|j: int| i <= j < count ==> #[trigger] w0.spec_cell_same(j, self.widgets),
                CE::spec_count_widgets() < usize::MAX,
                h == <L::AxisOrder as AxisOrder>::spec_is_horizontal(),
                count == CE::spec_len(),
                i <= count,
                self.widgets.spec_bounds().len() == count,
                self.widgets.spec_weights() == ws,
                self.bounds == old(self).bounds,
                self.direction == old(self).direction,
                total == sat_u32(all_main_sum(h, self.widgets.spec_bounds(), i as nat)),
                max_cross == cross_max(h, self.widgets.spec_bounds(), i as nat),
            decreases count - i,
        {
            let ghost before = self.widgets.spec_bounds();
            let ghost wb = self.widgets;
            self.widgets.measure_at(i, measure_spec);
            proof {
                assert forall|j: int| 0 <= j < i + 1 implies #[trigger] w0.spec_cell_measured(j, measure_spec, self.widgets) by {
                    if j < i {
                        assert(wb.spec_cell_same(j, self.widgets));
                        w0.lemma_cell_measured_then_same(j, measure_spec, wb, self.widgets);
                    } else {
                        w0.lemma_cell_same_then_measured(j, wb, measure_spec, self.widgets);
                    }
                }
                assert forall|j: int| i + 1 <= j < count implies #[trigger] w0.spec_cell_same(j, self.widgets) by {
                    assert(wb.spec_cell_same(j, self.widgets));
                    w0.lemma_cell_same_trans(j, wb, self.widgets);
                }
                lemma_all_frame(h, before, self.widgets.spec_bounds(), i as nat);
                lemma_sums_nonnegative(h, self.widgets.spec_bounds(), ws, i as nat);
            }
            let bb = self.widgets.bounding_box_at(i);
            total = total.saturating_add(L::main_axis_size(bb));
            max_cross = crate::geometry::max_u32(max_cross, L::cross_axis_size(bb));
            assert(all_main_sum(h, self.widgets.spec_bounds(), (i + 1) as nat)
                == all_main_sum(h, self.widgets.spec_bounds(), i as nat) + main_size(h, bb.size));
            assert(cross_max(h, self.widgets.spec_bounds(), (i + 1) as nat) == ({
                let m = cross_max(h, self.widgets.spec_bounds(), i as nat);
                let c = cross_size(h, bb.size);
                if m >= c { m } else { c }
            }));
            i = i + 1;
        }
        proof {
            lemma_sums_nonnegative(h, self.widgets.spec_bounds(), ws, count as nat);
        }
        total = total.saturating_add(gap_total(count, spacing));
        self.bounds.size = L::create_measured_size(total, cross_spec.apply_to_measured(max_cross));
    }

    /// Measures the cells when the main axis has at most `max` pixels: first the cells
    /// without weight, then those with weight, which share the space left over.
    fn measure_bounded(&mut self, measure_spec: MeasureSpec, max: u32)
        requires
            CE::spec_count_widgets() < usize::MAX,
            main_constraint(<L::AxisOrder as AxisOrder>::spec_is_horizontal(), measure_spec).spec_largest() == Some(max),
        ensures
            final(self).bounds.size == layout_size(
                <L::AxisOrder as AxisOrder>::spec_is_horizontal(),
                measure_spec,
                final(self).widgets.spec_bounds(),
                old(self).widgets.spec_weights(),
                old(self).direction.spec_element_spacing(),
            ),
            final(self).widgets.spec_weights() == old(self).widgets.spec_weights(),
            final(self).bounds.position == old(self).bounds.position,
            final(self).direction == old(self).direction,
            forall|k: int|
                0 <= k < CE::spec_len() ==> #[trigger] old(self).widgets.spec_cell_measured(
                    k,
                    cell_measure_spec(
                        <L::AxisOrder as AxisOrder>::spec_is_horizontal(),
                        measure_spec,
                        final(self).widgets.spec_bounds(),
                        old(self).widgets.spec_weights(),
                        old(self).direction.spec_element_spacing(),
                        k,
                    ),
                    final(self).widgets,
                ),
    {
        let ghost h = <L::AxisOrder as AxisOrder>::spec_is_horizontal();
        let ghost ws = self.widgets.spec_weights();
        let ghost w0 = self.widgets;
        proof {
            self.widgets.lemma_shape();
            lemma_cell_offset_at_least(CE::spec_child_counts(), CE::spec_len());
            assert forall|j: int| 0 <= j < CE::spec_len() implies #[trigger] w0.spec_cell_same(j, self.widgets) by {
                w0.lemma_cell_same_refl(j);
            }
        }
        let count = self.widgets.len();
        let spacing = self.direction.element_spacing();
        let cross_spec = L::cross_axis_measure_spec(measure_spec);
        let mut total: u32 = 0;
        let mut max_cross: u32 = 0;
        let mut tw_total: u32 = 0;
        // Measure the cells without weight.
        let mut i: usize = 0;
        while i < count
            invariant
                CE::spec_count_widgets() < usize::MAX,
                h == <L::AxisOrder as AxisOrder>::spec_is_horizontal(),
                count == CE::spec_len(),
                ws.len() == count,
                i <= count,
                self.widgets.spec_bounds().len() == count,
                self.widgets.spec_weights() == ws,
                self.bounds == old(self).bounds,
                self.direction == old(self).direction,
                tw_total == sat_u32(weight_sum(ws, i as nat)),
                total == sat_u32(fixed_main_sum(h, self.widgets.spec_bounds(), ws, i as nat)),
                main_constraint(h, measure_spec).spec_largest() == Some(max),
                cross_spec == cross_constraint(h, measure_spec),
                forall|j: int|
                    0 <= j < i && ws[j] == 0 ==> #[trigger] w0.spec_cell_measured(
                        j,
                        cell_measure_spec(h, measure_spec, self.widgets.spec_bounds(), ws, spacing, j),
                        self.widgets,
                    ),
                forall|j: int| 0 <= j < count && (j >= i || ws[j] != 0) ==> #[trigger] w0.spec_cell_same(j, self.widgets),
                max_cross == cross_max_where(h, self.widgets.spec_bounds(), ws, i as nat, false),
            decreases count - i,
        {
            let weight = self.widgets.weight_at(i);
            proof {
                lemma_weight_sum_monotonic(ws, 0, i as nat);
            }
            tw_total = tw_total.saturating_add(weight);
            assert(weight_sum(ws, (i + 1) as nat) == weight_sum(ws, i as nat) + ws[i as int]);
            if weight == 0 {
                let spec = L::create_measure_spec(
                    MeasureConstraint::AtMost(max.saturating_sub(total)),
                    cross_spec,
                );
                let ghost before = self.widgets.spec_bounds();
                let ghost wb = self.widgets;
                assert(spec == cell_measure_spec(h, measure_spec, before, ws, spacing, i as int));
                self.widgets.measure_at(i, spec);
                proof {
                    assert forall|j: int|
                        0 <= j < i + 1 && ws[j] == 0 implies #[trigger] w0.spec_cell_measured(
                        j,
                        cell_measure_spec(h, measure_spec, self.widgets.spec_bounds(), ws, spacing, j),
                        self.widgets,
                    ) by {
                        lemma_unweighted_frame(h, before, self.widgets.spec_bounds(), ws, j as nat);
                        if j < i {
                            assert(wb.spec_cell_same(j, self.widgets));
                            w0.lemma_cell_measured_then_same(
                                j,
                                cell_measure_spec(h, measure_spec, before, ws, spacing, j),
                                wb,
                                self.widgets,
                            );
                        } else {
                            w0.lemma_cell_same_then_measured(j, wb, spec, self.widgets);
                        }
                    }
                    assert forall|j: int|
                        0 <= j < count && (j >= i + 1 || ws[j] != 0) implies #[trigger] w0.spec_cell_same(j, self.widgets) by {
                        assert(wb.spec_cell_same(j, self.widgets));
                        w0.lemma_cell_same_trans(j, wb, self.widgets);
                    }
                    lemma_unweighted_frame(h, before, self.widgets.spec_bounds(), ws, i as nat);
                    lemma_sums_nonnegative(h, self.widgets.spec_bounds(), ws, i as nat);
                }
                let bb = self.widgets.bounding_box_at(i);
                total = total.saturating_add(L::main_axis_size(bb));
                max_cross = crate::geometry::max_u32(max_cross, L::cross_axis_size(bb));
                assert(fixed_main_sum(h, self.widgets.spec_bounds(), ws, (i + 1) as nat)
                    == fixed_main_sum(h, self.widgets.spec_bounds(), ws, i as nat) + main_size(h, bb.size));
            } else {
                assert(fixed_main_sum(h, self.widgets.spec_bounds(), ws, (i + 1) as nat)
                    == fixed_main_sum(h, self.widgets.spec_bounds(), ws, i as nat));
            }
            assert(cross_max_where(h, self.widgets.spec_bounds(), ws, (i + 1) as nat, false) == ({
                let m = cross_max_where(h, self.widgets.spec_bounds(), ws, i as nat, false);
                let c = cross_size(h, self.widgets.spec_bounds()[i as int].size);
                if (ws[i as int] != 0) == false && c > m { c } else { m }
            }));
            i = i + 1;
        }
        proof {
            lemma_sums_nonnegative(h, self.widgets.spec_bounds(), ws, count as nat);
        }
        // The cells without weight keep their space; the gaps come after them.
        total = total.saturating_add(gap_total(count, spacing));
        if tw_total != 0 {
            // Divide the rest of the space among the cells with weight: an equal amount per
            // unit of weight, and the pixels left over one per unit, heaviest cells first.
            let remaining = max.saturating_sub(total);
            let per_unit = remaining / tw_total;
            let r0 = remaining % tw_total;
            proof {
                vstd::arithmetic::div_mod::lemma_fundamental_div_mod(remaining as int, tw_total as int);
            }
            let ghost phase_one = self.widgets.spec_bounds();
            proof {
                lemma_unweighted_frame(h, phase_one, phase_one, ws, count as nat);
            }
            let mut k: usize = 0;
            while k < count
                invariant
                    main_constraint(h, measure_spec).spec_largest() == Some(max),
                    cross_spec == cross_constraint(h, measure_spec),
                    remaining == sat_u32(max - sat_u32(
                        sat_u32(fixed_main_sum(h, self.widgets.spec_bounds(), ws, count as nat))
                            + sat_u32(gaps(count as nat, spacing)),
                    )),
                    forall|j: int|
                        0 <= j < count && (ws[j] == 0 || j < k) ==> #[trigger] w0.spec_cell_measured(
                            j,
                            cell_measure_spec(h, measure_spec, self.widgets.spec_bounds(), ws, spacing, j),
                            self.widgets,
                        ),
                    forall|j: int| k <= j < count && ws[j] != 0 ==> #[trigger] w0.spec_cell_same(j, self.widgets),
                    CE::spec_count_widgets() < usize::MAX,
                    h == <L::AxisOrder as AxisOrder>::spec_is_horizontal(),
                    count == CE::spec_len(),
                    ws.len() == count,
                    tw_total == total_weight(ws),
                    tw_total > 0,
                    per_unit == remaining / tw_total,
                    r0 == remaining % tw_total,
                    tw_total * per_unit + r0 == remaining,
                    phase_one.len() == count,
                    k <= count,
                    self.widgets.spec_bounds().len() == count,
                    self.widgets.spec_weights() == ws,
                    self.bounds == old(self).bounds,
                    self.direction == old(self).direction,
                    forall|j: int| 0 <= j < count && ws[j] == 0 ==> self.widgets.spec_bounds()[j] == phase_one[j],
                    max_cross == ({
                        let a = cross_max_where(h, phase_one, ws, count as nat, false);
                        let b = cross_max_where(h, self.widgets.spec_bounds(), ws, k as nat, true);
                        if a >= b { a } else { b }
                    }),
                decreases count - k,
            {
                let w = self.widgets.weight_at(k);
                proof {
                    lemma_weight_sum_monotonic(ws, k as nat, count as nat);
                    lemma_weight_sum_monotonic(ws, 0, k as nat);
                }
                assert(w <= tw_total);
                let extra = extra_pixels(&self.widgets, k, r0);
                assert(per_unit * w <= per_unit * tw_total) by (nonlinear_arith)
                    requires
                        w <= tw_total,
                ;
                if w != 0 {
                    proof {
                        lemma_share_fits(remaining, ws, k as int);
                    }
                    let size = per_unit * w + extra;
                    assert(size == weighted_share(remaining, ws, k as int));
                    let spec = L::create_measure_spec(MeasureConstraint::Exactly(size), cross_spec);
                    let ghost before = self.widgets.spec_bounds();
                    let ghost wb = self.widgets;
                    assert(spec == cell_measure_spec(h, measure_spec, before, ws, spacing, k as int));
                    self.widgets.measure_at(k, spec);
                    proof {
                        lemma_unweighted_frame(h, before, self.widgets.spec_bounds(), ws, count as nat);
                        assert forall|j: int|
                            0 <= j < count && (ws[j] == 0 || j < k + 1) implies #[trigger] w0.spec_cell_measured(
                            j,
                            cell_measure_spec(h, measure_spec, self.widgets.spec_bounds(), ws, spacing, j),
                            self.widgets,
                        ) by {
                            lemma_cell_measure_spec_frame(h, measure_spec, before, self.widgets.spec_bounds(), ws, spacing, j);
                            if j != k {
                                assert(wb.spec_cell_same(j, self.widgets));
                                w0.lemma_cell_measured_then_same(
                                    j,
                                    cell_measure_spec(h, measure_spec, before, ws, spacing, j),
                                    wb,
                                    self.widgets,
                                );
                            } else {
                                w0.lemma_cell_same_then_measured(j, wb, spec, self.widgets);
                            }
                        }
                        assert forall|j: int| k + 1 <= j < count && ws[j] != 0 implies #[trigger] w0.spec_cell_same(j, self.widgets) by {
                            assert(wb.spec_cell_same(j, self.widgets));
                            w0.lemma_cell_same_trans(j, wb, self.widgets);
                        }
                        lemma_weighted_frame(h, before, self.widgets.spec_bounds(), ws, k as nat);
                    }
                    let bb = self.widgets.bounding_box_at(k);
                    max_cross = crate::geometry::max_u32(max_cross, L::cross_axis_size(bb));
                }
                assert(cross_max_where(h, self.widgets.spec_bounds(), ws, (k + 1) as nat, true) == ({
                    let m = cross_max_where(h, self.widgets.spec_bounds(), ws, k as nat, true);
                    let c = cross_size(h, self.widgets.spec_bounds()[k as int].size);
                    if (ws[k as int] != 0) == true && c > m { c } else { m }
                }));
                k = k + 1;
            }
            proof {
                lemma_unweighted_frame(h, phase_one, self.widgets.spec_bounds(), ws, count as nat);
                lemma_cross_max_split(h, self.widgets.spec_bounds(), ws, count as nat);
            }
            self.bounds.size = L::create_measured_size(max, cross_spec.apply_to_measured(max_cross));
        } else {
            proof {
                lemma_cross_max_split(h, self.widgets.spec_bounds(), ws, count as nat);
                lemma_all_weightless_max(h, self.widgets.spec_bounds(), ws, count as nat);
                assert forall|j: int| 0 <= j < count implies ws[j] == 0 by {
                    lemma_weight_sum_monotonic(ws, j as nat, ws.len());
                    lemma_weight_sum_monotonic(ws, 0, j as nat);
                }
            }
            self.bounds.size = L::create_measured_size(total, cross_spec.apply_to_measured(max_cross));
        }
    }
}

/// Among cells that all lack weight, the largest size of a weighted cell is 0.
proof fn lemma_all_weightless_max(h: bool, bs: Seq<BoundingBox>, ws: Seq<u32>, n: nat)
    requires
        n <= ws.len(),
        total_weight(ws) == 0,
    ensures
        cross_max_where(h, bs, ws, n, true) == 0,
{
    assert forall|k: int| 0 <= k < n implies ws[k] == 0 by {
        lemma_weight_sum_monotonic(ws, k as nat, ws.len());
        lemma_weight_sum_monotonic(ws, 0, k as nat);
    }
    lemma_weightless_prefix(h, bs, ws, n);
}

proof fn lemma_weightless_prefix(h: bool, bs: Seq<BoundingBox>, ws: Seq<u32>, n: nat)
    requires
        n <= ws.len(),
        forall|k: int| 0 <= k < n ==> ws[k] == 0,
    ensures
        cross_max_where(h, bs, ws, n, true) == 0,
    decreases n,
{
    if n > 0 {
        lemma_weightless_prefix(h, bs, ws, (n - 1) as nat);
    }
}

} // verus!

verus! {

impl<CE: ChainElement, L> LinearLayout<CE, L> {
    /// Appends a cell to the end of the layout.
    ///
    /// Initially, a cell has no weight. Call `weight` to specify the weight of the most
    /// recently added cell.
    pub fn add<W: Widget>(self, widget: W) -> (r: LinearLayout<Link<Cell<W, NoWeight>, CE>, L>)
        ensures
            r.bounds == self.bounds,
            r.widgets.parent == self.widgets,
            r.widgets.object.inner == widget,
            r.direction == self.direction,
    {
        LinearLayout {
            bounds: self.bounds,
            widgets: self.widgets.append(Cell::new(widget)),
            direction: self.direction,
        }
    }
}

impl<CE: LinearLayoutChainElement, L> LinearLayout<CE, L> {
    /// Finds the cell that holds the descendant `idx` of the layout: `Some((cell, j))`
    /// where `j` is 0 for the cell's widget itself and `j > 0` for the `j`-th descendant of
    /// that widget; `None` if the layout has fewer descendants.
    pub fn locate(&self, idx: usize) -> (r: Option<(usize, usize)>)
        requires
            CE::spec_count_widgets() < usize::MAX,
        ensures
            r is None <==> idx >= CE::spec_count_widgets(),
            r matches Some((cell, j)) ==> {
                &&& cell < CE::spec_len()
                &&& j <= CE::spec_child_counts()[cell as int]
                &&& cell_offset(CE::spec_child_counts(), cell as nat) + j == idx
            },
    {
        proof {
            self.widgets.lemma_shape();
            lemma_cell_offset_at_least(CE::spec_child_counts(), CE::spec_len());
        }
        let ghost counts = CE::spec_child_counts();
        let children = self.widgets.len();
        let mut rest = idx;
        let mut i: usize = 0;
        while i < children
            invariant
                CE::spec_count_widgets() < usize::MAX,
                counts == CE::spec_child_counts(),
                counts.len() == children,
                children == CE::spec_len(),
                CE::spec_count_widgets() == cell_offset(counts, children as nat),
                i <= children,
                idx >= cell_offset(counts, i as nat),
                rest == idx - cell_offset(counts, i as nat),
            decreases children - i,
        {
            let grandchildren = self.widgets.children_at(i);
            if rest <= grandchildren {
                proof {
                    lemma_cell_offset_monotonic(counts, (i + 1) as nat, children as nat);
                }
                return Some((i, rest));
            }
            rest = rest - (grandchildren + 1);
            i = i + 1;
        }
        None
    }
}

impl<W: Widget, CE: ChainElement, L> LinearLayout<Link<Cell<W, NoWeight>, CE>, L> {
    /// Sets the weight of the most recently appended cell.
    ///
    /// Weight specifies the relative size of the cell in the second phase of the layout
    /// process. See [`LinearLayout`] for more information.
    pub fn weight(self, weight: u32) -> (r: LinearLayout<Link<Cell<W, Weight>, CE>, L>)
        ensures
            r.bounds == self.bounds,
            r.widgets.parent == self.widgets.parent,
            r.widgets.object.inner == self.widgets.object.inner,
            r.widgets.object.weight.0 == weight,
            r.direction == self.direction,
    {
        LinearLayout {
            bounds: self.bounds,
            widgets: Link { object: self.widgets.object.weight(weight), parent: self.widgets.parent },
            direction: self.direction,
        }
    }
}

impl<W: Widget, L> LinearLayout<Chain<Cell<W, NoWeight>>, L> {
    /// Sets the weight of the most recently appended cell.
    ///
    /// Weight specifies the relative size of the cell in the second phase of the layout
    /// process. See [`LinearLayout`] for more information.
    pub fn weight(self, weight: u32) -> (r: LinearLayout<Chain<Cell<W, Weight>>, L>)
        ensures
            r.bounds == self.bounds,
            r.widgets.object.inner == self.widgets.object.inner,
            r.widgets.object.weight.0 == weight,
            r.direction == self.direction,
    {
        LinearLayout {
            bounds: self.bounds,
            widgets: Chain { object: self.widgets.object.weight(weight) },
            direction: self.direction,
        }
    }
}

impl<CE: LinearLayoutChainElement, L: LayoutDirection> Widget for LinearLayout<CE, L> {
    open spec fn spec_bounding_box(&self) -> BoundingBox {
        self.bounds
    }

    open spec fn spec_children() -> nat {
        CE::spec_count_widgets()
    }

    open spec fn spec_parent_index(&self) -> usize {
        self.widgets.spec_first_parent_index()
    }

    open spec fn spec_is_selectable(&self) -> bool {
        false
    }

    open spec fn spec_measures_to(&self, measure_spec: MeasureSpec, after: Self) -> bool {
        &&& (after.bounds.size == layout_size(
            <L::AxisOrder as AxisOrder>::spec_is_horizontal(),
            measure_spec,
            after.widgets.spec_bounds(),
            self.widgets.spec_weights(),
            self.direction.spec_element_spacing(),
        ))
        &&& after.widgets.spec_weights() == self.widgets.spec_weights()
        &&& forall|k: int|
            0 <= k < CE::spec_len() ==> #[trigger] self.widgets.spec_cell_measured(
                k,
                cell_measure_spec(
                    <L::AxisOrder as AxisOrder>::spec_is_horizontal(),
                    measure_spec,
                    after.widgets.spec_bounds(),
                    self.widgets.spec_weights(),
                    self.direction.spec_element_spacing(),
                    k,
                ),
                after.widgets,
            )
    }

    open spec fn spec_resizes_to(&self, size: MeasuredSize, after: Self) -> bool {
        after == (LinearLayout { bounds: BoundingBox { size, ..self.bounds }, ..*self })
    }

    open spec fn spec_updates_to(&self, after: Self) -> bool {
        self.widgets.spec_chain_updates_to(after.widgets) && after == (LinearLayout { widgets: after.widgets, ..*self })
    }

    open spec fn spec_resets_to(&self, after: Self) -> bool {
        self.widgets.spec_chain_resets_to(after.widgets) && after == (LinearLayout { widgets: after.widgets, ..*self })
    }

    open spec fn spec_tests_input(&self, event: InputEvent, after: Self, r: Option<usize>) -> bool {
        after == (LinearLayout { widgets: after.widgets, ..*self }) && match r {
            Some(i) => i >= 1 && self.widgets.spec_chain_tests_input(event, after.widgets, Some((i - 1) as usize)),
            None => self.widgets.spec_chain_tests_input(event, after.widgets, None),
        }
    }

    open spec fn spec_handles_input(&self, ctxt: InputContext, event: InputEvent, after: Self, r: bool) -> bool {
        !r && after == *self
    }

    open spec fn spec_state_changes_to(&self, state: WidgetState, after: Self) -> bool {
        self.widgets.spec_chain_state_changes_to(state, after.widgets) && after == (LinearLayout { widgets: after.widgets, ..*self })
    }

    /// Attaches the cells' widgets: the first gets `index`, each following one the index
    /// after the previous one's descendants.
    fn attach(&mut self, parent: usize, index: usize) {
        proof {
            self.widgets.lemma_shape();
            lemma_cell_offset_at_least(CE::spec_child_counts(), CE::spec_len());
        }
        let count = self.widgets.len();
        let mut children = index;
        let mut i: usize = 0;
        while i < count
            invariant
                CE::spec_count_widgets() < usize::MAX,
                count == CE::spec_len(),
                i <= count,
                i > 0 ==> self.widgets.spec_first_parent_index() == parent,
                self.bounds == old(self).bounds,
            decreases count - i,
        {
            self.widgets.attach_at(i, parent, children.wrapping_add(i));
            children = children.wrapping_add(self.widgets.children_at(i));
            i = i + 1;
        }
    }

    fn bounding_box(&self) -> (r: BoundingBox) {
        self.bounds
    }

    fn children(&self) -> (r: usize) {
        self.widgets.count_widgets()
    }

    fn measure(&mut self, measure_spec: MeasureSpec)
        ensures
            final(self).bounds.size == layout_size(
                <L::AxisOrder as AxisOrder>::spec_is_horizontal(),
                measure_spec,
                final(self).widgets.spec_bounds(),
                old(self).widgets.spec_weights(),
                old(self).direction.spec_element_spacing(),
            ),
            final(self).widgets.spec_weights() == old(self).widgets.spec_weights(),
            forall|k: int|
                0 <= k < CE::spec_len() ==> #[trigger] old(self).widgets.spec_cell_measured(
                    k,
                    cell_measure_spec(
                        <L::AxisOrder as AxisOrder>::spec_is_horizontal(),
                        measure_spec,
                        final(self).widgets.spec_bounds(),
                        old(self).widgets.spec_weights(),
                        old(self).direction.spec_element_spacing(),
                        k,
                    ),
                    final(self).widgets,
                ),
    {
        match L::main_axis_measure_spec(measure_spec).largest() {
            Some(max) => self.measure_bounded(measure_spec, max),
            None => self.measure_unbounded(measure_spec),
        }
    }

    /// Places the layout at `position` and its cells one after another, the element
    /// spacing apart.
    fn arrange(&mut self, position: Position)
        ensures
            final(self).widgets.spec_weights() == old(self).widgets.spec_weights(),
            final(self).widgets.spec_bounds().len() == old(self).widgets.spec_bounds().len(),
            forall|k: int|
                0 <= k < old(self).widgets.spec_bounds().len() ==> #[trigger] final(self).widgets.spec_bounds()[k]
                    == (BoundingBox {
                    position: arranged_position(
                        <L::AxisOrder as AxisOrder>::spec_is_horizontal(),
                        old(self).widgets.spec_bounds(),
                        position,
                        old(self).direction.spec_element_spacing(),
                        k as nat,
                    ),
                    size: old(self).widgets.spec_bounds()[k].size,
                }),
    {
        self.bounds.position = position;
        let spacing = self.direction.element_spacing();
        self.widgets.arrange(position, self.direction, spacing);
    }

    fn set_measured_size(&mut self, size: MeasuredSize)
        ensures
            final(self).bounds == (BoundingBox { size, ..old(self).bounds }),
    {
        self.bounds.size = size;
    }

    fn update(&mut self) {
        self.widgets.update();
    }

    fn reset_changed(&mut self) {
        self.widgets.reset_changed();
    }

    fn parent_index(&self) -> (r: usize) {
        self.widgets.first_parent_index()
    }

    fn set_parent(&mut self, index: usize) {
    }

    fn test_input(&mut self, event: InputEvent) -> (r: Option<usize>) {
        match self.widgets.test_input(event) {
            Some(idx) => Some(idx + 1),
            None => None,
        }
    }

    /// A layout handles no input itself.
    fn handle_input(&mut self, ctxt: InputContext, event: InputEvent) -> (r: bool)
        ensures
            !r,
            *final(self) == *old(self),
    {
        false
    }

    fn on_state_changed(&mut self, state: WidgetState) {
        self.widgets.on_state_changed(state);
    }

    fn is_selectable(&self) -> (r: bool) {
        false
    }
}

impl<C, CE, L> WidgetRenderer<C> for LinearLayout<CE, L> where
    CE: LinearLayoutChainElement + WidgetRenderer<C>,
    C: Canvas,
 {
    open spec fn spec_draws(&self, canvas: C, after: Self, canvas_after: C, r: Result<(), C::Error>) -> bool {
        self.widgets.spec_draws(canvas, after.widgets, canvas_after, r) && after == (LinearLayout { widgets: after.widgets, ..*self })
    }

    /// Draws the cells, first to last.
    fn draw(&mut self, canvas: &mut C) -> (r: Result<(), C::Error>)
        ensures
            final(self).bounds == old(self).bounds,
    {
        self.widgets.draw(canvas)
    }
}

} // verus!
