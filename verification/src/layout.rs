//! Layout engine: partitions the terminal area into a header band and one
//! equal-width column per CPU core.
//!
//! The remainder rule is leftmost-first: when the body width is not evenly
//! divisible by the core count, the first `width % core_count` columns each
//! get one extra column of width. Columns always sum exactly to the body
//! width, so no column of the terminal is left unassigned.

use vstd::prelude::*;

verus! {

/// A rectangular region of the terminal, in character cells.
#[derive(Clone, Copy, PartialEq, Eq, Structural, Debug)]
pub struct Rect {
    pub x: u16,
    pub y: u16,
    pub width: u16,
    pub height: u16,
}

/// The regions computed for one frame: a header band across the top and one
/// body column per core, in core order.
pub struct LayoutPlan {
    pub header: Rect,
    pub cells: Vec<Rect>,
}

/// Height of the header band: one tenth of the total height, rounded down,
/// but always at least one row so the clock line is never lost.
pub open spec fn spec_header_height(h: int) -> int {
    if h / 10 >= 1 {
        h / 10
    } else {
        1
    }
}

/// The row where the body band starts.
pub open spec fn spec_body_top(area: Rect) -> int {
    area.y + spec_header_height(area.height as int)
}

/// Height of the body band: whatever the header leaves.
pub open spec fn spec_body_height(area: Rect) -> int {
    area.height - spec_header_height(area.height as int)
}

/// Width of body column `i` out of `n`: the equal share `w / n`, plus one
/// extra column for the first `w % n` columns (leftmost-first remainder).
pub open spec fn spec_cell_width(w: int, n: int, i: int) -> int {
    w / n + if i < w % n {
        1int
    } else {
        0int
    }
}

/// Left edge of body column `i`: the area's left edge plus the widths of the
/// `i` columns before it.
pub open spec fn spec_cell_x(x: int, w: int, n: int, i: int) -> int {
    x + i * (w / n) + if i < w % n {
        i
    } else {
        w % n
    }
}

/// Body column `i` of a plan for `area` split across `n` cores has exactly
/// this position and size.
pub open spec fn cell_matches(area: Rect, n: int, i: int, c: Rect) -> bool {
    &&& c.x == spec_cell_x(area.x as int, area.width as int, n, i)
    &&& c.y == spec_body_top(area)
    &&& c.width == spec_cell_width(area.width as int, n, i)
    &&& c.height == spec_body_height(area)
}

/// What `partition` returns for `area` and `n` cores, pinned field by field:
/// the header band spans the full width at the configured height, and every
/// body column has the position and size the remainder rule dictates.
pub open spec fn is_plan_for(area: Rect, n: int, plan: LayoutPlan) -> bool {
    &&& plan.header.x == area.x
    &&& plan.header.y == area.y
    &&& plan.header.width == area.width
    &&& plan.header.height == spec_header_height(area.height as int)
    &&& plan.cells.len() == n
    &&& forall|i: int| 0 <= i < n ==> cell_matches(area, n, i, #[trigger] plan.cells[i])
}

/// Splits `area` vertically into a header band and a body band, then splits
/// the body horizontally into exactly `core_count` columns in core order.
/// Deterministic: the result is a function of `area` and `core_count` alone.
pub fn partition(area: Rect, core_count: usize) -> (plan: LayoutPlan)
    requires
        1 <= core_count,
        1 <= area.width,
        1 <= area.height,
        area.x + area.width <= u16::MAX,
        area.y + area.height <= u16::MAX,
    ensures
        is_plan_for(area, core_count as int, plan),
{
    let header_h: u16 = if area.height / 10 >= 1 {
        area.height / 10
    } else {
        1
    };
    assert(header_h <= area.height);
    let header = Rect { x: area.x, y: area.y, width: area.width, height: header_h };
    let body_y: u16 = area.y + header_h;
    let body_h: u16 = area.height - header_h;
    let w: usize = area.width as usize;
    let base: usize = w / core_count;
    let rem: usize = w % core_count;
    proof {
        vstd::arithmetic::div_mod::lemma_fundamental_div_mod(w as int, core_count as int);
        assert(0 <= (w as int) % (core_count as int) < core_count as int) by (nonlinear_arith)
            requires
                1 <= core_count as int,
                0 <= w as int,
        ;
    }
    let mut cells: Vec<Rect> = Vec::new();
    let mut x: u16 = area.x;
    let mut i: usize = 0;
    while i < core_count
        invariant
            1 <= core_count,
            base == area.width as int / core_count as int,
            rem == area.width as int % core_count as int,
            core_count as int * base as int + rem as int == area.width as int,
            0 <= rem < core_count,
            body_y == spec_body_top(area),
            body_h == spec_body_height(area),
            area.x + area.width <= u16::MAX,
            i <= core_count,
            cells.len() == i,
            forall|j: int| 0 <= j < i ==> cell_matches(area, core_count as int, j, #[trigger] cells[j]),
            x == spec_cell_x(area.x as int, area.width as int, core_count as int, i as int),
        decreases core_count - i,
    {
        let extra: usize = if i < rem {
            1
        } else {
            0
        };
        proof {
            assert((i as int + 1) * base as int == i as int * base as int + base as int)
                by (nonlinear_arith);
            vstd::arithmetic::mul::lemma_mul_inequality(
                i as int + 1,
                core_count as int,
                base as int,
            );
        }
        assert(x as int + base as int + extra as int <= area.x + area.width);
        let cw: u16 = (base + extra) as u16;
        cells.push(Rect { x, y: body_y, width: cw, height: body_h });
        x = x + cw;
        i = i + 1;
    }
    LayoutPlan { header, cells }
}

/// Sum of the widths of the first `k` body columns of a plan for width `w`
/// split across `n` cores.
pub open spec fn sum_cell_widths(w: int, n: int, k: int) -> int
    decreases k,
{
    if k <= 0 {
        0
    } else {
        sum_cell_widths(w, n, k - 1) + spec_cell_width(w, n, k - 1)
    }
}

/// The first `k` column widths sum to `k` equal shares plus one extra column
/// for each remainder column among them.
proof fn lemma_sum_prefix(w: int, n: int, k: int)
    requires
        1 <= n,
        0 <= w,
        0 <= k <= n,
    ensures
        sum_cell_widths(w, n, k) == k * (w / n) + if k < w % n {
            k
        } else {
            w % n
        },
    decreases k,
{
    assert(0 <= w % n < n) by (nonlinear_arith)
        requires
            1 <= n,
            0 <= w,
    ;
    if k > 0 {
        lemma_sum_prefix(w, n, k - 1);
        assert(k * (w / n) == (k - 1) * (w / n) + (w / n)) by (nonlinear_arith);
        assert(sum_cell_widths(w, n, k) == sum_cell_widths(w, n, k - 1) + spec_cell_width(
            w,
            n,
            k - 1,
        ));
        if k - 1 < w % n {
            assert(spec_cell_width(w, n, k - 1) == w / n + 1);
        } else {
            assert(spec_cell_width(w, n, k - 1) == w / n);
        }
    } else {
        assert(sum_cell_widths(w, n, 0) == 0);
        assert(k * (w / n) == 0) by (nonlinear_arith)
            requires
                k == 0,
        ;
    }
}

/// Law: the body columns' widths sum exactly to the body width. Together with
/// `is_plan_for` this says no column of the body band is unassigned and none
/// is counted twice.
pub proof fn lemma_widths_fill_body(w: int, n: int)
    requires
        1 <= n,
        0 <= w,
    ensures
        sum_cell_widths(w, n, n) == w,
{
    lemma_sum_prefix(w, n, n);
    assert(0 <= w % n < n) by (nonlinear_arith)
        requires
            1 <= n,
            0 <= w,
    ;
    vstd::arithmetic::div_mod::lemma_fundamental_div_mod(w, n);
}

/// Law: when there are at least as many body columns as cores, every core's
/// column is at least one column wide.
pub proof fn lemma_no_zero_width(w: int, n: int, i: int)
    requires
        1 <= n <= w,
        0 <= i < n,
    ensures
        spec_cell_width(w, n, i) >= 1,
{
    assert(w / n >= 1) by (nonlinear_arith)
        requires
            1 <= n <= w,
    ;
}

/// Law: `partition` is deterministic. Any two plans that satisfy the
/// partition contract for the same area and core count are identical, header
/// and every cell alike.
pub proof fn lemma_partition_deterministic(area: Rect, n: int, plan_a: LayoutPlan, plan_b: LayoutPlan)
    requires
        is_plan_for(area, n, plan_a),
        is_plan_for(area, n, plan_b),
    ensures
        plan_a.header == plan_b.header,
        plan_a.cells@ == plan_b.cells@,
{
    assert forall|i: int| 0 <= i < n implies plan_a.cells@[i] == plan_b.cells@[i] by {
        assert(cell_matches(area, n, i, plan_a.cells@[i]));
        assert(cell_matches(area, n, i, plan_b.cells@[i]));
    }
    assert(plan_a.cells@ =~= plan_b.cells@);
}

} // verus!
