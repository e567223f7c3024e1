//! Where the components of an image lie in a slice of components, and the
//! arithmetic that keeps every in-bounds pixel inside that slice.

use vstd::prelude::*;
use vstd::arithmetic::div_mod::{lemma_fundamental_div_mod, lemma_fundamental_div_mod_converse};
use crate::image::{ImageInfo, OfxRectI, rect_contains, spec_bytes_per_component, spec_raw_offset};

verus! {

/// How the components of an image are laid out in a slice: pixel `(x, y)`
/// of `bounds` starts at `origin + (y - y1) * row_stride + (x - x1) * n_comps`.
#[derive(Clone, Copy, Debug)]
pub struct ElementLayout {
    pub bounds: OfxRectI,
    pub n_comps: usize,
    pub row_stride: i64,
    pub origin: usize,
}

pub open spec fn layout_width(l: ElementLayout) -> int {
    l.bounds.x2 - l.bounds.x1
}

pub open spec fn layout_height(l: ElementLayout) -> int {
    l.bounds.y2 - l.bounds.y1
}

/// The index of the first component of row `y`'s first pixel.
pub open spec fn row_base(l: ElementLayout, y: int) -> int {
    l.origin + (y - l.bounds.y1) * l.row_stride
}

/// The index of component `c` of pixel `(x, y)`.
pub open spec fn elem_index(l: ElementLayout, x: int, y: int, c: int) -> int {
    row_base(l, y) + (x - l.bounds.x1) * l.n_comps + c
}

/// A layout that keeps every component of every in-bounds pixel inside a
/// slice of `len` components. Its rows may overlap, as the rows of an image
/// whose row stride is shorter than a row do.
pub open spec fn layout_wf(l: ElementLayout, len: int) -> bool {
    &&& 1 <= l.n_comps <= 4
    &&& -0x8000_0000 <= l.row_stride < 0x8000_0000
    &&& len <= 0x4000_0000_0000_0000
    &&& l.origin <= len
    &&& (layout_width(l) > 0 && layout_height(l) > 0) ==> {
        &&& row_base(l, l.bounds.y1 as int) >= 0
        &&& row_base(l, l.bounds.y2 - 1) >= 0
        &&& row_base(l, l.bounds.y1 as int) + layout_width(l) * l.n_comps <= len
        &&& row_base(l, l.bounds.y2 - 1) + layout_width(l) * l.n_comps <= len
    }
}

/// Whether the rows of a layout lie apart: each starts at least a row's
/// width from the next.
pub open spec fn rows_apart(l: ElementLayout) -> bool {
    (layout_width(l) > 0 && layout_height(l) > 1) ==> (l.row_stride >= layout_width(l) * l.n_comps
        || -l.row_stride >= layout_width(l) * l.n_comps)
}

/// Every row of the bounds lies in the slice.
pub proof fn lemma_row_in_range(l: ElementLayout, len: int, y: int)
    requires
        layout_wf(l, len),
        layout_width(l) > 0,
        l.bounds.y1 <= y < l.bounds.y2,
    ensures
        0 <= row_base(l, y),
        row_base(l, y) + layout_width(l) * l.n_comps <= len,
{
    let dy = y - l.bounds.y1;
    let h1 = layout_height(l) - 1;
    let s = l.row_stride as int;
    if s >= 0 {
        assert(0 <= dy * s <= h1 * s) by (nonlinear_arith)
            requires
                0 <= dy <= h1,
                s >= 0,
        ;
    } else {
        assert(h1 * s <= dy * s <= 0) by (nonlinear_arith)
            requires
                0 <= dy <= h1,
                s < 0,
        ;
    }
}

/// Every component of every in-bounds pixel lies in its row, and so in the
/// slice.
pub proof fn lemma_index_in_row(l: ElementLayout, len: int, x: int, y: int, c: int)
    requires
        layout_wf(l, len),
        rect_contains(l.bounds, x, y),
        0 <= c < l.n_comps,
    ensures
        row_base(l, y) <= elem_index(l, x, y, c) < row_base(l, y) + layout_width(l) * l.n_comps,
        0 <= elem_index(l, x, y, c) < len,
{
    lemma_row_in_range(l, len, y);
    let dx = x - l.bounds.x1;
    let w = layout_width(l);
    let n = l.n_comps as int;
    assert(0 <= dx * n + c < w * n) by (nonlinear_arith)
        requires
            0 <= dx < w,
            0 <= c < n,
    ;
}

/// Two different rows of a layout whose rows lie apart share no index
/// within a row's width.
pub proof fn lemma_rows_disjoint(l: ElementLayout, len: int, y: int, y_other: int, i: int, j: int)
    requires
        layout_wf(l, len),
        rows_apart(l),
        layout_width(l) > 0,
        l.bounds.y1 <= y < l.bounds.y2,
        l.bounds.y1 <= y_other < l.bounds.y2,
        y != y_other,
        0 <= i < layout_width(l) * l.n_comps,
        0 <= j < layout_width(l) * l.n_comps,
    ensures
        row_base(l, y) + i != row_base(l, y_other) + j,
{
    let d = y - y_other;
    let s = l.row_stride as int;
    let wn = layout_width(l) * l.n_comps;
    assert(row_base(l, y) - row_base(l, y_other) == d * s) by (nonlinear_arith)
        requires
            row_base(l, y) == l.origin + (y - l.bounds.y1) * s,
            row_base(l, y_other) == l.origin + (y_other - l.bounds.y1) * s,
            d == y - y_other,
    ;
    assert(d * s >= wn || d * s <= -wn) by (nonlinear_arith)
        requires
            d != 0,
            s >= wn || -s >= wn,
            wn > 0,
    ;
}

/// Moving along a row by whole pixels moves the index by whole pixels.
pub proof fn lemma_index_shift(l: ElementLayout, x: int, x0: int, y: int, c: int)
    ensures
        elem_index(l, x, y, c) == elem_index(l, x0, y, 0) + (x - x0) * l.n_comps + c,
{
    let n = l.n_comps as int;
    assert((x - l.bounds.x1) * n == (x0 - l.bounds.x1) * n + (x - x0) * n) by (nonlinear_arith);
}

/// The index of the first component of pixel `(x, y)` in a slice laid out as
/// `layout`, or `None` when the pixel is outside the layout's bounds.
pub fn pixel_index(layout: &ElementLayout, len: usize, x: i32, y: i32) -> (r: Option<usize>)
    requires
        layout_wf(*layout, len as int),
    ensures
        r matches Some(i) ==> rect_contains(layout.bounds, x as int, y as int) && i as int
            == elem_index(*layout, x as int, y as int, 0),
        r is None ==> !rect_contains(layout.bounds, x as int, y as int),
{
    let b = layout.bounds;
    if x < b.x1 || x >= b.x2 || y < b.y1 || y >= b.y2 {
        return None;
    }
    proof {
        lemma_index_in_row(*layout, len as int, x as int, y as int, 0);
    }
    let dy = y as i128 - b.y1 as i128;
    let dx = x as i128 - b.x1 as i128;
    assert(-0x8000_0000_0000_0000 <= dy * (layout.row_stride as i128) <= 0x8000_0000_0000_0000)
        by (nonlinear_arith)
        requires
            0 <= dy < 0x1_0000_0000,
            -0x8000_0000 <= layout.row_stride < 0x8000_0000,
    ;
    assert(0 <= dx * (layout.n_comps as i128) <= 0x4_0000_0000) by (nonlinear_arith)
        requires
            0 <= dx < 0x1_0000_0000,
            1 <= layout.n_comps <= 4,
    ;
    let idx = layout.origin as i128 + dy * (layout.row_stride as i128) + dx * (
    layout.n_comps as i128);
    Some(idx as usize)
}

/// The layout of an image whose rows are `row_bytes` apart and whose pixels
/// hold `n_comps` components of `elem_size` bytes each, together with the
/// number of components the slice must hold. The slice starts at the lowest
/// row in memory, which is the last one when `row_bytes` is negative.
///
/// An image of no pixels or of a single row never steps from one row to
/// another, so `row_bytes` does not matter there and the stride is taken as
/// zero. Rows closer than a row's width overlap in the slice as they do in
/// memory. An image of several rows is refused when its rows are not a
/// whole number of components apart: its components would then lie at
/// addresses that are not aligned for the component type, which no slice of
/// components holds and which reading as components is undefined.
pub open spec fn spec_element_layout(
    bounds: OfxRectI,
    row_bytes: int,
    n_comps: int,
    elem_size: int,
) -> Option<(ElementLayout, int)> {
    let w = bounds.x2 - bounds.x1;
    let h = bounds.y2 - bounds.y1;
    let s = row_bytes / elem_size;
    if !(1 <= n_comps <= 4) {
        None
    } else if w <= 0 || h <= 0 {
        Some((ElementLayout { bounds, n_comps: n_comps as usize, row_stride: 0, origin: 0 }, 0))
    } else if h == 1 {
        if w * n_comps > usize::MAX {
            None
        } else {
            Some((ElementLayout { bounds, n_comps: n_comps as usize, row_stride: 0, origin: 0 }, w * n_comps))
        }
    } else if row_bytes % elem_size != 0 {
        None
    } else {
        let last = (h - 1) * s;
        let origin = if last < 0 { -last } else { 0 };
        let len = origin + (if last > 0 { last } else { 0 }) + w * n_comps;
        if len > 0x4000_0000_0000_0000 || len > usize::MAX {
            None
        } else {
            Some((ElementLayout { bounds, n_comps: n_comps as usize, row_stride: s as i64, origin: origin as usize }, len))
        }
    }
}

/// Dividing a signed row length by a positive size, from the division of
/// its magnitude.
proof fn lemma_signed_exact_div(rb: int, e: int, q: int, r: int)
    requires
        e >= 1,
        0 <= r < e,
        (if rb < 0 { -rb } else { rb }) == e * q + r,
    ensures
        r == 0 ==> rb % e == 0 && rb / e == (if rb < 0 { -q } else { q }),
        r != 0 ==> rb % e != 0,
{
    if rb >= 0 {
        assert(rb == q * e + r) by (nonlinear_arith)
            requires
                rb == e * q + r,
        ;
        lemma_fundamental_div_mod_converse(rb, e, q, r);
    } else if r == 0 {
        assert(rb == (-q) * e + 0) by (nonlinear_arith)
            requires
                -rb == e * q + r,
                r == 0,
        ;
        lemma_fundamental_div_mod_converse(rb, e, -q, 0);
    } else {
        assert(rb == (-q - 1) * e + (e - r)) by (nonlinear_arith)
            requires
                -rb == e * q + r,
        ;
        lemma_fundamental_div_mod_converse(rb, e, -q - 1, e - r);
    }
}

/// Lays out an image's components in a slice: `None` when the components
/// count is not between 1 and 4, when the image is too large to address,
/// and, for an image of several rows, when its rows are not a whole number
/// of components apart.
pub fn element_layout(bounds: OfxRectI, row_bytes: i32, n_comps: i32, elem_size: i32) -> (r:
    Option<(ElementLayout, usize)>)
    requires
        1 <= elem_size <= 8,
    ensures
        match r {
            Some((l, len)) => spec_element_layout(bounds, row_bytes as int, n_comps as int, elem_size as int)
                == Some((l, len as int)) && layout_wf(l, len as int),
            None => spec_element_layout(bounds, row_bytes as int, n_comps as int, elem_size as int) is None,
        },
{
    if n_comps < 1 || n_comps > 4 {
        return None;
    }
    let w = bounds.x2 as i64 - bounds.x1 as i64;
    let h = bounds.y2 as i64 - bounds.y1 as i64;
    let n = n_comps as i64;
    if w <= 0 || h <= 0 {
        let l = ElementLayout { bounds, n_comps: n_comps as usize, row_stride: 0, origin: 0 };
        return Some((l, 0));
    }
    assert(0 < w * n <= 0x8_0000_0000) by (nonlinear_arith)
        requires
            0 < w <= 0x1_0000_0000,
            1 <= n <= 4,
    ;
    let wn = w * n;
    if h == 1 {
        if wn as u128 > usize::MAX as u128 {
            return None;
        }
        let l = ElementLayout { bounds, n_comps: n_comps as usize, row_stride: 0, origin: 0 };
        return Some((l, wn as usize));
    }
    let e = elem_size as i64;
    let rb = row_bytes as i64;
    let abs = if rb < 0 { -rb } else { rb };
    let q = abs / e;
    let rem = abs % e;
    proof {
        lemma_fundamental_div_mod(abs as int, e as int);
        lemma_signed_exact_div(row_bytes as int, elem_size as int, q as int, rem as int);
    }
    if rem != 0 {
        return None;
    }
    let s: i64 = if rb < 0 { -q } else { q };
    proof {
        assert(-0x8000_0000 <= s < 0x8000_0000) by (nonlinear_arith)
            requires
                elem_size * q == (if row_bytes < 0 { -row_bytes } else { row_bytes as int }),
                -0x8000_0000 <= row_bytes < 0x8000_0000,
                1 <= elem_size,
                s == (if row_bytes < 0 { -q } else { q as int }),
                q >= 0,
        ;
    }
    assert(-0x8000_0000_0000_0000 <= (h as i128 - 1) * (s as i128) <= 0x8000_0000_0000_0000) by (nonlinear_arith)
        requires
            0 <= h - 1 < 0x1_0000_0000,
            -0x8000_0000 <= s < 0x8000_0000,
    ;
    let last: i128 = (h as i128 - 1) * (s as i128);
    let origin: i128 = if last < 0 { -last } else { 0 };
    let len: i128 = origin + (if last > 0 { last } else { 0 }) + wn as i128;
    if len > 0x4000_0000_0000_0000 || len > usize::MAX as i128 {
        return None;
    }
    let l = ElementLayout {
        bounds,
        n_comps: n_comps as usize,
        row_stride: s,
        origin: origin as usize,
    };
    proof {
        let lw = layout_width(l);
        let lh = layout_height(l);
        assert(lw == w && lh == h);
        assert(row_base(l, l.bounds.y1 as int) == origin) by (nonlinear_arith)
            requires
                row_base(l, l.bounds.y1 as int) == l.origin + (l.bounds.y1 - l.bounds.y1) * l.row_stride,
                l.origin == origin,
        ;
        assert(row_base(l, l.bounds.y2 - 1) == origin + last) by (nonlinear_arith)
            requires
                row_base(l, l.bounds.y2 - 1) == l.origin + (l.bounds.y2 - 1 - l.bounds.y1) * l.row_stride,
                l.origin == origin,
                last == (h - 1) * s,
                h == l.bounds.y2 - l.bounds.y1,
                l.row_stride == s,
        ;
    }
    Some((l, len as usize))
}

/// In a layout built by `element_layout`, the component index of a pixel,
/// counted from the layout's origin and scaled to bytes, is the byte offset
/// that the host's row stride and pixel size give the same pixel.
pub proof fn lemma_layout_matches_bytes(info: ImageInfo, l: ElementLayout, len: int, x: int, y: int)
    requires
        spec_element_layout(
            info.bounds,
            info.row_bytes as int,
            info.n_comps as int,
            spec_bytes_per_component(info.pixel_depth) as int,
        ) == Some((l, len)),
        rect_contains(info.bounds, x, y),
    ensures
        spec_raw_offset(info, x, y) == Some(
            (elem_index(l, x, y, 0) - l.origin) * spec_bytes_per_component(info.pixel_depth),
        ),
{
    let e = spec_bytes_per_component(info.pixel_depth) as int;
    let s = l.row_stride as int;
    let n = info.n_comps as int;
    let dy = y - info.bounds.y1;
    let dx = x - info.bounds.x1;
    if info.bounds.y2 - info.bounds.y1 == 1 {
        assert(dy == 0);
        assert((dy * s + dx * n) * e == dy * info.row_bytes + dx * (e * n)) by (nonlinear_arith)
            requires
                dy == 0,
        ;
    } else {
        assert(s * e == info.row_bytes) by (nonlinear_arith)
            requires
                s == (info.row_bytes as int) / e,
                (info.row_bytes as int) % e == 0,
                e >= 1,
        ;
        assert((dy * s + dx * n) * e == dy * info.row_bytes + dx * (e * n)) by (nonlinear_arith)
            requires
                s * e == info.row_bytes,
        ;
    }
}

} // verus!
