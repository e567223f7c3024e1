//! The invert filter: every colour component of the render window becomes
//! its complement, alpha is copied, and pixels that the source image does not
//! cover become zero.

use vstd::prelude::*;
use crate::image::{OfxRectI, rect_contains};
use crate::layout::{
    ElementLayout, elem_index, layout_width, layout_wf, lemma_index_in_row, lemma_index_shift,
    lemma_rows_disjoint, pixel_index, row_base, rows_apart,
};
use vstd::arithmetic::div_mod::{lemma_fundamental_div_mod, lemma_fundamental_div_mod_converse};
use crate::status::{OfxResult, kOfxStatOK};

verus! {

/// A component type of integer images: its complement against its largest
/// value, and its zero.
pub trait Channel: Copy + Sized {
    spec fn spec_inverted(self) -> Self;

    spec fn spec_zero() -> Self;

    fn inverted(self) -> (r: Self)
        ensures
            r == self.spec_inverted(),
    ;

    fn zero() -> (r: Self)
        ensures
            r == Self::spec_zero(),
    ;
}

impl Channel for u8 {
    open spec fn spec_inverted(self) -> u8 {
        (255 - self) as u8
    }

    open spec fn spec_zero() -> u8 {
        0
    }

    fn inverted(self) -> (r: u8) {
        255 - self
    }

    fn zero() -> (r: u8) {
        0
    }
}

impl Channel for u16 {
    open spec fn spec_inverted(self) -> u16 {
        (65535 - self) as u16
    }

    open spec fn spec_zero() -> u16 {
        0
    }

    fn inverted(self) -> (r: u16) {
        65535 - self
    }

    fn zero() -> (r: u16) {
        0
    }
}

/// The value that the filter writes for component `c` of pixel `(x, y)`:
/// the complement of the source component, the source component itself for
/// the fourth (alpha) component, and zero where the source has no pixel.
pub open spec fn inverted_component<T: Channel>(
    src: Seq<T>,
    sl: ElementLayout,
    x: int,
    y: int,
    c: int,
) -> T {
    if rect_contains(sl.bounds, x, y) {
        let v = src[elem_index(sl, x, y, c)];
        if c != 3 {
            v.spec_inverted()
        } else {
            v
        }
    } else {
        T::spec_zero()
    }
}

/// Whether row `y` of the render window is written: its first pixel lies in
/// the destination.
pub open spec fn row_written(dl: ElementLayout, rw: OfxRectI, y: int) -> bool {
    rect_contains(dl.bounds, rw.x1 as int, y)
}

/// Whether index `i` of the destination is one that row `y` writes.
pub open spec fn row_span(dl: ElementLayout, rw: OfxRectI, y: int, i: int) -> bool {
    &&& row_written(dl, rw, y)
    &&& elem_index(dl, rw.x1 as int, y, 0) <= i
    &&& i < elem_index(dl, rw.x1 as int, y, 0) + (rw.x2 - rw.x1) * dl.n_comps
}

/// Whether index `i` of the destination is written by one of the rows of the
/// render window before `y_end`.
pub open spec fn covered(dl: ElementLayout, rw: OfxRectI, y_end: int, i: int) -> bool {
    exists|y: int| rw.y1 <= y < y_end && #[trigger] row_span(dl, rw, y, i)
}

/// The component that row `y` of the render window writes at index `i` of
/// the destination, for an index in that row's span: the filtered source
/// component of the pixel and component the index stands for.
pub open spec fn row_value<T: Channel>(
    src: Seq<T>,
    dl: ElementLayout,
    sl: ElementLayout,
    rw: OfxRectI,
    y: int,
    i: int,
) -> T {
    let k = i - elem_index(dl, rw.x1 as int, y, 0);
    inverted_component(src, sl, rw.x1 + k / (dl.n_comps as int), y, k % (dl.n_comps as int))
}

/// What index `i` of the destination holds once the rows of the render
/// window before `y_end` were written, in order, over `old`: the value of
/// the last row that writes it, or its old value when no row does. Where
/// rows overlap in memory, a later row overwrites an earlier one.
pub open spec fn filtered<T: Channel>(
    old: Seq<T>,
    src: Seq<T>,
    dl: ElementLayout,
    sl: ElementLayout,
    rw: OfxRectI,
    y_end: int,
    i: int,
) -> T
    decreases y_end - rw.y1,
{
    if y_end <= rw.y1 {
        old[i]
    } else if row_span(dl, rw, y_end - 1, i) {
        row_value(src, dl, sl, rw, y_end - 1, i)
    } else {
        filtered(old, src, dl, sl, rw, y_end - 1, i)
    }
}

/// The rows of the render window before `y_end` have been written over
/// `old`: every index of the destination holds what `filtered` gives it.
pub open spec fn rows_inverted<T: Channel>(
    new: Seq<T>,
    old: Seq<T>,
    src: Seq<T>,
    dl: ElementLayout,
    sl: ElementLayout,
    rw: OfxRectI,
    y_end: int,
) -> bool {
    &&& new.len() == old.len()
    &&& forall|i: int| 0 <= i < new.len() ==> #[trigger] new[i] == filtered(old, src, dl, sl, rw, y_end, i)
}

/// An index that no row before `y_end` writes keeps its old value.
pub proof fn lemma_uncovered_unchanged<T: Channel>(
    old: Seq<T>,
    src: Seq<T>,
    dl: ElementLayout,
    sl: ElementLayout,
    rw: OfxRectI,
    y_end: int,
    i: int,
)
    requires
        !covered(dl, rw, y_end, i),
    ensures
        filtered(old, src, dl, sl, rw, y_end, i) == old[i],
    decreases y_end - rw.y1,
{
    if y_end > rw.y1 {
        if row_span(dl, rw, y_end - 1, i) {
            assert(covered(dl, rw, y_end, i));
        }
        assert(!covered(dl, rw, y_end - 1, i)) by {
            if covered(dl, rw, y_end - 1, i) {
                let w = choose|w: int| rw.y1 <= w < y_end - 1 && #[trigger] row_span(dl, rw, w, i);
                assert(row_span(dl, rw, w, i));
            }
        }
        lemma_uncovered_unchanged(old, src, dl, sl, rw, y_end - 1, i);
    }
}

/// Row `y` writes component `c` of pixel `(x, y)` at that pixel's index.
proof fn lemma_row_value_at_pixel<T: Channel>(
    src: Seq<T>,
    dl: ElementLayout,
    sl: ElementLayout,
    rw: OfxRectI,
    x: int,
    y: int,
    c: int,
)
    requires
        1 <= dl.n_comps,
        rw.x1 <= x,
        0 <= c < dl.n_comps,
    ensures
        row_value(src, dl, sl, rw, y, elem_index(dl, x, y, c)) == inverted_component(src, sl, x, y, c),
{
    let n = dl.n_comps as int;
    lemma_index_shift(dl, x, rw.x1 as int, y, c);
    let k = elem_index(dl, x, y, c) - elem_index(dl, rw.x1 as int, y, 0);
    assert(k == (x - rw.x1) * n + c);
    assert(0 <= (x - rw.x1) * n) by (nonlinear_arith)
        requires
            rw.x1 <= x,
            n >= 1,
    ;
    lemma_fundamental_div_mod_converse(k, n, x - rw.x1, c);
}

/// Where the rows of the destination lie apart, every written pixel of the
/// render window holds the filtered source component: no later row
/// overwrites it.
pub proof fn lemma_written_pixel<T: Channel>(
    old: Seq<T>,
    src: Seq<T>,
    dl: ElementLayout,
    sl: ElementLayout,
    rw: OfxRectI,
    len: int,
    y_end: int,
    x: int,
    y: int,
    c: int,
)
    requires
        layout_wf(dl, len),
        rows_apart(dl),
        window_fits(dl, rw),
        rw.y1 <= y < y_end <= rw.y2,
        row_written(dl, rw, y),
        rw.x1 <= x < rw.x2,
        0 <= c < dl.n_comps,
    ensures
        filtered(old, src, dl, sl, rw, y_end, elem_index(dl, x, y, c)) == inverted_component(
            src,
            sl,
            x,
            y,
            c,
        ),
    decreases y_end - y,
{
    let i = elem_index(dl, x, y, c);
    let n = dl.n_comps as int;
    assert(rw.x2 <= dl.bounds.x2);
    lemma_index_shift(dl, x, rw.x1 as int, y, c);
    assert((x - rw.x1) * n + c < (rw.x2 - rw.x1) * n) by (nonlinear_arith)
        requires
            x < rw.x2,
            0 <= c < n,
    ;
    assert(0 <= (x - rw.x1) * n) by (nonlinear_arith)
        requires
            rw.x1 <= x,
            n >= 1,
    ;
    if y_end - 1 == y {
        assert(row_span(dl, rw, y, i));
        lemma_row_value_at_pixel(src, dl, sl, rw, x, y, c);
    } else {
        let y2 = y_end - 1;
        if row_span(dl, rw, y2, i) {
            assert(rw.x2 <= dl.bounds.x2);
            lemma_span_in_row(dl, len, rw, y2);
            lemma_span_in_row(dl, len, rw, y);
            lemma_index_in_row(dl, len, x, y, c);
            lemma_rows_disjoint(dl, len, y, y2, i - row_base(dl, y), i - row_base(dl, y2));
        }
        lemma_written_pixel(old, src, dl, sl, rw, len, y_end - 1, x, y, c);
    }
}

/// Every written row of the render window fits in the destination's width.
pub open spec fn window_fits(dl: ElementLayout, rw: OfxRectI) -> bool {
    forall|y: int| rw.y1 <= y < rw.y2 && #[trigger] row_written(dl, rw, y) ==> rw.x2 <= dl.bounds.x2
}

/// On byte images the filter writes, for a pixel of the source, 255 minus
/// each colour component and the alpha component unchanged, and for a pixel
/// the source does not contain, 0 (black) in every component.
pub proof fn lemma_u8_filtered_components(src: Seq<u8>, sl: ElementLayout, x: int, y: int, c: int)
    ensures
        !rect_contains(sl.bounds, x, y) ==> inverted_component(src, sl, x, y, c) == 0u8,
        rect_contains(sl.bounds, x, y) && c != 3 ==> inverted_component(src, sl, x, y, c) as int
            == 255 - src[elem_index(sl, x, y, c)],
        rect_contains(sl.bounds, x, y) && c == 3 ==> inverted_component(src, sl, x, y, c)
            == src[elem_index(sl, x, y, c)],
{
}

/// On 16-bit images the filter writes, for a pixel of the source, 65535
/// minus each colour component and the alpha component unchanged, and for a
/// pixel the source does not contain, 0 (black) in every component.
pub proof fn lemma_u16_filtered_components(src: Seq<u16>, sl: ElementLayout, x: int, y: int, c: int)
    ensures
        !rect_contains(sl.bounds, x, y) ==> inverted_component(src, sl, x, y, c) == 0u16,
        rect_contains(sl.bounds, x, y) && c != 3 ==> inverted_component(src, sl, x, y, c) as int
            == 65535 - src[elem_index(sl, x, y, c)],
        rect_contains(sl.bounds, x, y) && c == 3 ==> inverted_component(src, sl, x, y, c)
            == src[elem_index(sl, x, y, c)],
{
}

/// Inverting a byte component twice gives it back.
pub proof fn lemma_u8_inverted_twice(v: u8)
    ensures
        v.spec_inverted().spec_inverted() == v,
{
}

/// Inverting a 16-bit component twice gives it back.
pub proof fn lemma_u16_inverted_twice(v: u16)
    ensures
        v.spec_inverted().spec_inverted() == v,
{
}

/// Filtering an image and then filtering the result again, with the same
/// layout for every image, gives back the source on every pixel of the
/// render window that lies in the image, for any component type whose
/// complement undoes itself. The layout's rows must lie apart: where rows
/// overlap, a later row overwrites an earlier one and the first filtering
/// loses components.
pub proof fn lemma_invert_twice_restores<T: Channel>(
    src: Seq<T>,
    once: Seq<T>,
    old1: Seq<T>,
    twice: Seq<T>,
    old2: Seq<T>,
    l: ElementLayout,
    rw: OfxRectI,
    x: int,
    y: int,
    c: int,
)
    requires
        forall|v: T| #[trigger] v.spec_inverted().spec_inverted() == v,
        layout_wf(l, old1.len() as int),
        rows_apart(l),
        window_fits(l, rw),
        old2.len() == old1.len(),
        rows_inverted(once, old1, src, l, l, rw, rw.y2 as int),
        rows_inverted(twice, old2, once, l, l, rw, rw.y2 as int),
        rw.y1 <= y < rw.y2,
        row_written(l, rw, y),
        rw.x1 <= x < rw.x2,
        rect_contains(l.bounds, x, y),
        0 <= c < l.n_comps,
    ensures
        twice[elem_index(l, x, y, c)] == src[elem_index(l, x, y, c)],
{
    let e = elem_index(l, x, y, c);
    let len = old1.len() as int;
    lemma_index_in_row(l, len, x, y, c);
    lemma_written_pixel(old2, once, l, l, rw, len, rw.y2 as int, x, y, c);
    lemma_written_pixel(old1, src, l, l, rw, len, rw.y2 as int, x, y, c);
    assert(twice[e] == inverted_component(once, l, x, y, c));
    assert(once[e] == inverted_component(src, l, x, y, c));
    if c != 3 {
        assert(src[e].spec_inverted().spec_inverted() == src[e]);
    }
}

/// Whether every written row of the render window fits in the
/// destination's width.
pub fn render_window_fits(dst_layout: &ElementLayout, render_window: OfxRectI) -> (r: bool)
    ensures
        r == window_fits(*dst_layout, render_window),
{
    let b = dst_layout.bounds;
    let rw = render_window;
    let x_in = b.x1 <= rw.x1 && rw.x1 < b.x2;
    let lo = if rw.y1 > b.y1 { rw.y1 } else { b.y1 };
    let hi = if rw.y2 < b.y2 { rw.y2 } else { b.y2 };
    if x_in && lo < hi {
        assert(row_written(*dst_layout, rw, lo as int));
        rw.x2 <= b.x2
    } else {
        true
    }
}

proof fn lemma_mul_step(a: int, n: int)
    ensures
        (a + 1) * n == a * n + n,
{
    assert((a + 1) * n == a * n + n) by (nonlinear_arith);
}

proof fn lemma_pixel_before(a: int, b: int, n: int, c: int)
    requires
        a < b,
        0 <= c < n,
    ensures
        a * n + c < b * n,
{
    assert(a * n + c < b * n) by (nonlinear_arith)
        requires
            a < b,
            0 <= c < n,
    ;
}

/// A written row lies within its row of the destination.
proof fn lemma_span_in_row(dl: ElementLayout, len: int, rw: OfxRectI, y: int)
    requires
        layout_wf(dl, len),
        row_written(dl, rw, y),
        rw.x2 <= dl.bounds.x2,
    ensures
        row_base(dl, y) <= elem_index(dl, rw.x1 as int, y, 0),
        elem_index(dl, rw.x1 as int, y, 0) + (rw.x2 - rw.x1) * dl.n_comps <= row_base(dl, y)
            + layout_width(dl) * dl.n_comps,
{
    lemma_index_in_row(dl, len, rw.x1 as int, y, 0);
    let n = dl.n_comps as int;
    let a = rw.x1 - dl.bounds.x1;
    let b = rw.x2 - rw.x1;
    let w = layout_width(dl);
    assert(a * n + b * n <= w * n) by (nonlinear_arith)
        requires
            a + b <= w,
            n >= 1,
    ;
}

/// After row `y` is written, each index of its span holds the row's value
/// there.
proof fn lemma_span_value<T: Channel>(
    dst: Seq<T>,
    src: Seq<T>,
    dl: ElementLayout,
    sl: ElementLayout,
    rw: OfxRectI,
    y: int,
    start: int,
    i: int,
)
    requires
        1 <= dl.n_comps,
        start == elem_index(dl, rw.x1 as int, y, 0),
        row_span(dl, rw, y, i),
        forall|x: int, c: int|
            rw.x1 <= x < rw.x2 && 0 <= c < dl.n_comps ==> dst[#[trigger] elem_index(dl, x, y, c)]
                == inverted_component(src, sl, x, y, c),
    ensures
        dst[i] == row_value(src, dl, sl, rw, y, i),
{
    let n = dl.n_comps as int;
    let k = i - start;
    lemma_fundamental_div_mod(k, n);
    let q = k / n;
    let c = k % n;
    assert(0 <= q < rw.x2 - rw.x1) by (nonlinear_arith)
        requires
            k == n * q + c,
            0 <= c < n,
            0 <= k < (rw.x2 - rw.x1) * n,
    ;
    let x = rw.x1 + q;
    lemma_index_shift(dl, x, rw.x1 as int, y, c);
    assert(elem_index(dl, x, y, c) == start + q * n + c) by (nonlinear_arith)
        requires
            elem_index(dl, x, y, c) == elem_index(dl, rw.x1 as int, y, 0) + (x - rw.x1) * n + c,
            x - rw.x1 == q,
            start == elem_index(dl, rw.x1 as int, y, 0),
    ;
    assert(elem_index(dl, x, y, c) == i) by (nonlinear_arith)
        requires
            elem_index(dl, x, y, c) == start + q * n + c,
            k == n * q + c,
            k == i - start,
    ;
}

/// Writes one row of the render window, from pixel `rx1` to `rx2` of row `y`,
/// whose first component is at `start`.
fn invert_row<T: Channel>(
    dst: &mut [T],
    dl: &ElementLayout,
    src: &[T],
    sl: &ElementLayout,
    y: i32,
    rx1: i32,
    rx2: i32,
    start: usize,
)
    requires
        layout_wf(*dl, old(dst)@.len() as int),
        layout_wf(*sl, src@.len() as int),
        dl.n_comps == sl.n_comps,
        rect_contains(dl.bounds, rx1 as int, y as int),
        rx2 <= dl.bounds.x2,
        start == elem_index(*dl, rx1 as int, y as int, 0),
    ensures
        final(dst)@.len() == old(dst)@.len(),
        forall|x: int, c: int|
            rx1 <= x < rx2 && 0 <= c < dl.n_comps ==> final(dst)@[#[trigger] elem_index(
                *dl,
                x,
                y as int,
                c,
            )] == inverted_component(src@, *sl, x, y as int, c),
        forall|i: int|
            0 <= i < old(dst)@.len() && !(start <= i < start + (rx2 - rx1) * dl.n_comps)
                ==> #[trigger] final(dst)@[i] == old(dst)@[i],
{
    let n = dl.n_comps;
    let ghost len = dst@.len() as int;
    let ghost yy = y as int;
    assert(dst@.len() == dst.len());
    assert(src@.len() == src.len());
    let mut x = rx1;
    let mut k = start;
    while x < rx2
        invariant
            n == dl.n_comps,
            len == dst@.len(),
            len == old(dst)@.len(),
            len <= usize::MAX,
            src@.len() <= usize::MAX,
            layout_wf(*dl, len),
            layout_wf(*sl, src@.len() as int),
            dl.n_comps == sl.n_comps,
            rect_contains(dl.bounds, rx1 as int, yy),
            rx2 <= dl.bounds.x2,
            yy == y,
            start == elem_index(*dl, rx1 as int, yy, 0),
            rx1 <= x,
            x <= rx2 || x == rx1,
            k == elem_index(*dl, x as int, yy, 0),
            k == start + (x - rx1) * n,
            forall|xx: int, c: int|
                rx1 <= xx < x && 0 <= c < n ==> dst@[#[trigger] elem_index(*dl, xx, yy, c)]
                    == inverted_component(src@, *sl, xx, yy, c),
            forall|i: int|
                0 <= i < len && !(start <= i < k) ==> #[trigger] dst@[i] == old(dst)@[i],
        decreases rx2 - x,
    {
        proof {
            lemma_index_in_row(*dl, len, x as int, yy, 0);
            lemma_index_in_row(*dl, len, x as int, yy, n - 1);
        }
        let s_idx = pixel_index(sl, src.len(), x, y);
        let mut c: usize = 0;
        while c < n
            invariant
                n == dl.n_comps,
                len == dst@.len(),
                len <= usize::MAX,
                src@.len() <= usize::MAX,
                layout_wf(*dl, len),
                layout_wf(*sl, src@.len() as int),
                dl.n_comps == sl.n_comps,
                rect_contains(dl.bounds, x as int, yy),
                yy == y,
                rx1 <= x < rx2,
                rect_contains(dl.bounds, rx1 as int, yy),
                rx2 <= dl.bounds.x2,
                k == elem_index(*dl, x as int, yy, 0),
                k + n <= len,
                start <= k,
                c <= n,
                s_idx matches Some(si) ==> rect_contains(sl.bounds, x as int, yy) && si
                    == elem_index(*sl, x as int, yy, 0),
                s_idx is None ==> !rect_contains(sl.bounds, x as int, yy),
                forall|cc: int|
                    0 <= cc < c ==> dst@[#[trigger] elem_index(*dl, x as int, yy, cc)]
                        == inverted_component(src@, *sl, x as int, yy, cc),
                forall|xx: int, cc: int|
                    rx1 <= xx < x && 0 <= cc < n ==> dst@[#[trigger] elem_index(*dl, xx, yy, cc)]
                        == inverted_component(src@, *sl, xx, yy, cc),
                forall|i: int|
                    0 <= i < len && !(start <= i < k + c) ==> #[trigger] dst@[i] == old(dst)@[i],
            decreases n - c,
        {
            let v = match s_idx {
                Some(si) => {
                    proof {
                        lemma_index_in_row(*sl, src@.len() as int, x as int, yy, c as int);
                    }
                    assert(si + c == elem_index(*sl, x as int, yy, c as int));
                    let v = src[si + c];
                    if c != 3 {
                        v.inverted()
                    } else {
                        v
                    }
                },
                None => T::zero(),
            };
            let ghost before = dst@;
            assert(k + c == elem_index(*dl, x as int, yy, c as int));
            dst[k + c] = v;
            proof {
                assert(dst@ == before.update(k + c, v));
                assert forall|xx: int, cc: int|
                    rx1 <= xx < x && 0 <= cc < n implies dst@[#[trigger] elem_index(
                    *dl,
                    xx,
                    yy,
                    cc,
                )] == inverted_component(src@, *sl, xx, yy, cc) by {
                    lemma_pixel_before(xx - dl.bounds.x1, x - dl.bounds.x1, n as int, cc);
                    lemma_index_in_row(*dl, len, xx, yy, cc);
                }
            }
            c = c + 1;
        }
        proof {
            lemma_mul_step(x - rx1, n as int);
            lemma_mul_step(x - dl.bounds.x1, n as int);
        }
        k = k + n;
        x = x + 1;
    }
    proof {
        if rx1 < rx2 {
            assert(x == rx2);
        }
    }
}

/// Inverts the render window of the source into the destination, row by
/// row from the bottom. Every twentieth row (rows whose number is a multiple
/// of twenty) first asks `should_abort`; when it answers `true` the filter
/// stops and reports `kOfxStatOK` as an error. A row whose first pixel lies
/// outside the destination is skipped. Where the destination's rows overlap
/// in memory, a later row overwrites what an earlier one wrote there.
pub fn pixel_processing<T: Channel, F: Fn() -> bool>(
    should_abort: &F,
    dst: &mut [T],
    dst_layout: &ElementLayout,
    src: &[T],
    src_layout: &ElementLayout,
    render_window: OfxRectI,
) -> (r: OfxResult<()>)
    requires
        forall|| #[trigger] should_abort.requires(()),
        layout_wf(*dst_layout, old(dst)@.len() as int),
        layout_wf(*src_layout, src@.len() as int),
        dst_layout.n_comps == src_layout.n_comps,
        window_fits(*dst_layout, render_window),
    ensures
        r is Ok ==> rows_inverted(
            final(dst)@,
            old(dst)@,
            src@,
            *dst_layout,
            *src_layout,
            render_window,
            render_window.y2 as int,
        ),
        r is Ok && rows_apart(*dst_layout) ==> forall|x: int, y: int, c: int|
            render_window.y1 <= y < render_window.y2 && row_written(*dst_layout, render_window, y)
                && render_window.x1 <= x < render_window.x2 && 0 <= c < dst_layout.n_comps
                ==> final(dst)@[#[trigger] elem_index(*dst_layout, x, y, c)] == inverted_component(
                src@,
                *src_layout,
                x,
                y,
                c,
            ),
        r is Ok ==> forall|i: int|
            0 <= i < old(dst)@.len() && !covered(*dst_layout, render_window, render_window.y2 as int, i)
                ==> #[trigger] final(dst)@[i] == old(dst)@[i],
        r matches Err(e) ==> e == kOfxStatOK,
        r is Err ==> should_abort.ensures((), true),
        (forall|b: bool| #[trigger] should_abort.ensures((), b) ==> b) && (exists|y: int|
            render_window.y1 <= y < render_window.y2 && #[trigger] (y % 20) == 0) ==> r == Err::<
            (),
            i32,
        >(kOfxStatOK),
        r is Err ==> exists|y0: int|
            #![trigger rows_inverted(final(dst)@, old(dst)@, src@, *dst_layout, *src_layout, render_window, y0)]
            render_window.y1 <= y0 < render_window.y2 && y0 % 20 == 0 && rows_inverted(
                final(dst)@,
                old(dst)@,
                src@,
                *dst_layout,
                *src_layout,
                render_window,
                y0,
            ),
{
    let rw = render_window;
    let dl = dst_layout;
    let sl = src_layout;
    let ghost len = dst@.len() as int;
    let n = dl.n_comps;
    let mut y = rw.y1;
    while y < rw.y2
        invariant
            forall|| #[trigger] should_abort.requires(()),
            len == dst@.len(),
            len == old(dst)@.len(),
            n == dl.n_comps,
            layout_wf(*dl, len),
            layout_wf(*sl, src@.len() as int),
            dl.n_comps == sl.n_comps,
            window_fits(*dl, rw),
            rw == render_window,
            dl == dst_layout,
            sl == src_layout,
            rw.y1 <= y,
            y <= rw.y2 || y == rw.y1,
            rows_inverted(dst@, old(dst)@, src@, *dl, *sl, rw, y as int),
            (forall|b: bool| #[trigger] should_abort.ensures((), b) ==> b) ==> forall|yy: int|
                rw.y1 <= yy < y ==> #[trigger] (yy % 20) != 0,
        decreases rw.y2 - y,
    {
        if y % 20 == 0 && should_abort() {
            assert(y as int % 20 == 0);
            assert(rows_inverted(dst@, old(dst)@, src@, *dl, *sl, rw, y as int));
            return Err(kOfxStatOK);
        }
        let ghost yy = y as int;
        match pixel_index(dl, dst.len(), rw.x1, y) {
            None => {
                assert(!row_written(*dl, rw, yy));
                assert forall|i: int| 0 <= i < len implies #[trigger] dst@[i] == filtered(
                    old(dst)@,
                    src@,
                    *dl,
                    *sl,
                    rw,
                    yy + 1,
                    i,
                ) by {
                    assert(!row_span(*dl, rw, yy, i));
                    assert(dst@[i] == filtered(old(dst)@, src@, *dl, *sl, rw, yy, i));
                }
            },
            Some(start) => {
                assert(row_written(*dl, rw, yy));
                assert(rw.x2 <= dl.bounds.x2);
                let ghost mid = dst@;
                invert_row(dst, dl, src, sl, y, rw.x1, rw.x2, start);
                proof {
                    assert forall|i: int| 0 <= i < len implies #[trigger] dst@[i] == filtered(
                        old(dst)@,
                        src@,
                        *dl,
                        *sl,
                        rw,
                        yy + 1,
                        i,
                    ) by {
                        if row_span(*dl, rw, yy, i) {
                            lemma_span_value(dst@, src@, *dl, *sl, rw, yy, start as int, i);
                        } else {
                            assert(!(start <= i < start + (rw.x2 - rw.x1) * n));
                            assert(dst@[i] == mid[i]);
                            assert(mid[i] == filtered(old(dst)@, src@, *dl, *sl, rw, yy, i));
                        }
                    }
                }
            },
        }
        y = y + 1;
    }
    proof {
        let ye = rw.y2 as int;
        assert(y == rw.y2 || rw.y2 <= rw.y1);
        assert(rows_inverted(dst@, old(dst)@, src@, *dl, *sl, rw, ye)) by {
            if rw.y2 < rw.y1 {
                assert forall|i: int| 0 <= i < len implies #[trigger] dst@[i] == filtered(
                    old(dst)@,
                    src@,
                    *dl,
                    *sl,
                    rw,
                    ye,
                    i,
                ) by {
                    assert(dst@[i] == filtered(old(dst)@, src@, *dl, *sl, rw, y as int, i));
                }
            }
        }
        if rows_apart(*dl) {
            assert forall|x: int, yy: int, c: int|
                rw.y1 <= yy < rw.y2 && row_written(*dl, rw, yy) && rw.x1 <= x < rw.x2 && 0 <= c
                    < n implies dst@[#[trigger] elem_index(*dl, x, yy, c)] == inverted_component(
                src@,
                *sl,
                x,
                yy,
                c,
            ) by {
                lemma_index_in_row(*dl, len, x, yy, c);
                lemma_written_pixel(old(dst)@, src@, *dl, *sl, rw, len, ye, x, yy, c);
            }
        }
        assert forall|i: int|
            0 <= i < len && !covered(*dl, rw, ye, i) implies #[trigger] dst@[i] == old(dst)@[i] by {
            lemma_uncovered_unchanged(old(dst)@, src@, *dl, *sl, rw, ye, i);
        }
    }
    Ok(())
}

} // verus!
