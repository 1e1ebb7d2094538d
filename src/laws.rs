use vstd::prelude::*;
use vstd::arithmetic::div_mod::{
    lemma_fundamental_div_mod, lemma_fundamental_div_mod_converse_div,
    lemma_fundamental_div_mod_converse_mod, lemma_mod_bound,
};
use crate::params::{TileParams, ONE};
use crate::tiling::{
    cell_row, inked, local_x, margin2, row_shift, rot_x, rot_y, sample_at, sample_tiled, scroll_dx, scroll_dy,
    shifted_x, span, stagger_shift, tiling_x, tiling_y, SampleView,
};

verus! {

/// Two samples show the same thing: the same ink decision, texture
/// coordinates and in-cell position (their cells may differ).
pub open spec fn same_pattern(a: SampleView, b: SampleView) -> bool {
    &&& a.inked == b.inked
    &&& a.u == b.u
    &&& a.v == b.v
    &&& a.local_x == b.local_x
    &&& a.local_y == b.local_y
}

proof fn lemma_shift_by_periods(a: int, m: int, n: int)
    requires
        m > 0,
    ensures
        (a + n * m) / m == a / m + n,
        (a + n * m) % m == a % m,
{
    lemma_fundamental_div_mod(a, m);
    lemma_mod_bound(a, m);
    assert(a + n * m == (a / m + n) * m + a % m) by (nonlinear_arith)
        requires
            a == m * (a / m) + a % m,
    ;
    lemma_fundamental_div_mod_converse_div(a + n * m, m, a / m + n, a % m);
    lemma_fundamental_div_mod_converse_mod(a + n * m, m, a / m + n, a % m);
}

/// Shifting a tiling-space point by `n` whole tiles along the columns shows
/// the same pattern, `n` cells further along.
pub proof fn lemma_periodic_along_columns(p: TileParams, tx: int, ty: int, n: int)
    requires
        p.wf(),
    ensures
        same_pattern(sample_tiled(p, tx + n * span(p), ty), sample_tiled(p, tx, ty)),
        sample_tiled(p, tx + n * span(p), ty).cell_x == sample_tiled(p, tx, ty).cell_x + n,
        sample_tiled(p, tx + n * span(p), ty).cell_y == sample_tiled(p, tx, ty).cell_y,
{
    assert(span(p) > 0) by (nonlinear_arith)
        requires
            p.tile_size > 0,
    ;
    let s = shifted_x(p, tx, ty);
    assert(shifted_x(p, tx + n * span(p), ty) == s + n * span(p));
    lemma_shift_by_periods(s, span(p), n);
}

/// Shifting a tiling-space point by `n` whole rows shows the same pattern,
/// `n` rows further along, when `n` is even or the rows are not staggered.
pub proof fn lemma_periodic_along_rows(p: TileParams, tx: int, ty: int, n: int)
    requires
        p.wf(),
        n % 2 == 0 || p.stagger == 0,
    ensures
        same_pattern(sample_tiled(p, tx, ty + n * span(p)), sample_tiled(p, tx, ty)),
        sample_tiled(p, tx, ty + n * span(p)).cell_x == sample_tiled(p, tx, ty).cell_x,
        sample_tiled(p, tx, ty + n * span(p)).cell_y == sample_tiled(p, tx, ty).cell_y + n,
{
    assert(span(p) > 0) by (nonlinear_arith)
        requires
            p.tile_size > 0,
    ;
    let row = cell_row(p, ty);
    lemma_shift_by_periods(ty, span(p), n);
    assert(cell_row(p, ty + n * span(p)) == row + n);
    if n % 2 == 0 {
        lemma_fundamental_div_mod(n, 2);
        lemma_shift_by_periods(row, 2, n / 2);
        assert(row + n == row + (n / 2) * 2);
    }
    assert(row_shift(p, row + n) == row_shift(p, row));
    assert(shifted_x(p, tx, ty + n * span(p)) == shifted_x(p, tx, ty));
}

/// Translating a surface point by a vector that the rotation carries onto
/// the tile lattice, `a` columns and `b` rows (`b` even, or no stagger),
/// shows the same pattern, `a` and `b` cells further along.
pub proof fn lemma_periodic_on_surface(
    p: TileParams,
    x: int,
    y: int,
    dx: int,
    dy: int,
    t: int,
    a: int,
    b: int,
)
    requires
        p.wf(),
        rot_x(p, dx, dy) == a * span(p),
        rot_y(p, dx, dy) == b * span(p),
        b % 2 == 0 || p.stagger == 0,
    ensures
        same_pattern(sample_at(p, x + dx, y + dy, t), sample_at(p, x, y, t)),
        sample_at(p, x + dx, y + dy, t).cell_x == sample_at(p, x, y, t).cell_x + a,
        sample_at(p, x + dx, y + dy, t).cell_y == sample_at(p, x, y, t).cell_y + b,
{
    assert(rot_x(p, x + dx, y + dy) == rot_x(p, x, y) + rot_x(p, dx, dy)) by (nonlinear_arith);
    assert(rot_y(p, x + dx, y + dy) == rot_y(p, x, y) + rot_y(p, dx, dy)) by (nonlinear_arith);
    let tx = tiling_x(p, x, y, t);
    let ty = tiling_y(p, x, y, t);
    lemma_periodic_along_rows(p, tx, ty, b);
    lemma_periodic_along_columns(p, tx, ty + b * span(p), a);
}

/// Reducing the scroll modulo the tiling period changes no pattern: the
/// sample equals, but for its cell, the one at the unreduced scroll.
pub proof fn lemma_scroll_reduction_exact(p: TileParams, x: int, y: int, t: int)
    requires
        p.wf(),
    ensures
        same_pattern(
            sample_at(p, x, y, t),
            sample_tiled(p, rot_x(p, x, y) + scroll_dx(p, t), rot_y(p, x, y) + scroll_dy(p, t)),
        ),
{
    assert(span(p) > 0) by (nonlinear_arith)
        requires
            p.tile_size > 0,
    ;
    let sx = scroll_dx(p, t);
    let sy = scroll_dy(p, t);
    lemma_fundamental_div_mod(sx, span(p));
    lemma_fundamental_div_mod(sy, 2 * span(p));
    let ux = rot_x(p, x, y) + sx;
    let uy = rot_y(p, x, y) + sy;
    let tx = tiling_x(p, x, y, t);
    let ty = tiling_y(p, x, y, t);
    let qx = sx / span(p);
    let qy = sy / (2 * span(p));
    assert(ux == tx + qx * span(p)) by (nonlinear_arith)
        requires
            sx == span(p) * qx + sx % span(p),
            ux == rot_x(p, x, y) + sx,
            tx == rot_x(p, x, y) + sx % span(p),
    ;
    assert(uy == ty + (2 * qy) * span(p)) by (nonlinear_arith)
        requires
            sy == (2 * span(p)) * qy + sy % (2 * span(p)),
            uy == rot_y(p, x, y) + sy,
            ty == rot_y(p, x, y) + sy % (2 * span(p)),
    ;
    assert((2 * qy) % 2 == 0) by (nonlinear_arith);
    lemma_periodic_along_rows(p, tx, ty, 2 * qy);
    lemma_periodic_along_columns(p, tx, ty + (2 * qy) * span(p), qx);
}

/// With half-tile stagger, the in-cell x of a point and of the point one
/// row further differ by exactly half a tile, modulo a tile; without
/// stagger they are equal.
pub proof fn lemma_stagger_parity(p: TileParams, tx: int, ty: int)
    requires
        p.wf(),
    ensures
        p.stagger == ONE / 2 ==> (local_x(p, tx, ty + span(p)) - local_x(p, tx, ty)) % span(p)
            == span(p) / 2,
        p.stagger == 0 ==> local_x(p, tx, ty + span(p)) == local_x(p, tx, ty),
{
    let m = span(p);
    assert(span(p) > 0) by (nonlinear_arith)
        requires
            p.tile_size > 0,
    ;
    let row = cell_row(p, ty);
    lemma_shift_by_periods(ty, m, 1);
    assert(cell_row(p, ty + m) == row + 1);
    lemma_shift_by_periods(row, 2, 1);
    lemma_mod_bound(row, 2);
    let a = shifted_x(p, tx, ty + m);
    let b = shifted_x(p, tx, ty);
    if p.stagger == ONE / 2 {
        assert(stagger_shift(p) == m / 2 && m == 2 * (m / 2)) by (nonlinear_arith)
            requires
                p.stagger == ONE / 2,
                m == p.tile_size * ONE,
        ;
        lemma_fundamental_div_mod(a, m);
        lemma_fundamental_div_mod(b, m);
        lemma_mod_bound(a, m);
        lemma_mod_bound(b, m);
        let k = b / m - a / m;
        if row % 2 == 0 {
            assert(a - b == m / 2);
            assert(a % m - b % m == k * m + m / 2) by (nonlinear_arith)
                requires
                    a == m * (a / m) + a % m,
                    b == m * (b / m) + b % m,
                    a - b == m / 2,
                    k == b / m - a / m,
            ;
            lemma_fundamental_div_mod_converse_mod(a % m - b % m, m, k, m / 2);
        } else {
            assert(b - a == m / 2);
            assert(a % m - b % m == (k - 1) * m + m / 2) by (nonlinear_arith)
                requires
                    a == m * (a / m) + a % m,
                    b == m * (b / m) + b % m,
                    b - a == m / 2,
                    m == 2 * (m / 2),
                    k == b / m - a / m,
            ;
            lemma_fundamental_div_mod_converse_mod(a % m - b % m, m, k - 1, m / 2);
        }
    }
}

/// The inked region only shrinks as the spacing grows: whatever is inked
/// under a larger spacing is inked under a smaller one.
pub proof fn lemma_spacing_nested(p: TileParams, q: TileParams, lx: int, ly: int)
    requires
        p.wf(),
        q.wf(),
        p.tile_size == q.tile_size,
        p.spacing <= q.spacing,
        inked(q, lx, ly),
    ensures
        inked(p, lx, ly),
{
    assert(margin2(p) <= margin2(q)) by (nonlinear_arith)
        requires
            p.tile_size == q.tile_size,
            p.spacing <= q.spacing,
    ;
    assert(span(p) == span(q));
}

/// No spacing inks the whole tile; full spacing inks nothing.
pub proof fn lemma_spacing_extremes(p: TileParams, lx: int, ly: int)
    requires
        p.wf(),
        0 <= lx < span(p),
        0 <= ly < span(p),
    ensures
        p.spacing == 0 ==> inked(p, lx, ly),
        p.spacing == ONE ==> !inked(p, lx, ly),
{
    if p.spacing == ONE {
        assert(margin2(p) == span(p));
    }
}

/// Scrolling for a time `d` that moves the pattern by whole tiles, `a`
/// columns and an even number `b` of rows, gives back the same sample;
/// without stagger any number of rows gives back the same pattern.
pub proof fn lemma_scroll_period(p: TileParams, x: int, y: int, t: int, d: int, a: int, b: int)
    requires
        p.wf(),
        rot_x(p, p.scroll_x as int, p.scroll_y as int) * d == a * span(p),
        rot_y(p, p.scroll_x as int, p.scroll_y as int) * d == b * span(p),
        b % 2 == 0 || p.stagger == 0,
    ensures
        same_pattern(sample_at(p, x, y, t + d), sample_at(p, x, y, t)),
        b % 2 == 0 ==> sample_at(p, x, y, t + d) == sample_at(p, x, y, t),
{
    let m = span(p);
    assert(span(p) > 0) by (nonlinear_arith)
        requires
            p.tile_size > 0,
    ;
    let vx = rot_x(p, p.scroll_x as int, p.scroll_y as int);
    let vy = rot_y(p, p.scroll_x as int, p.scroll_y as int);
    assert(scroll_dx(p, t + d) == scroll_dx(p, t) + a * m) by (nonlinear_arith)
        requires
            scroll_dx(p, t + d) == vx * (t + d),
            scroll_dx(p, t) == vx * t,
            vx * d == a * m,
    ;
    assert(scroll_dy(p, t + d) == scroll_dy(p, t) + b * m) by (nonlinear_arith)
        requires
            scroll_dy(p, t + d) == vy * (t + d),
            scroll_dy(p, t) == vy * t,
            vy * d == b * m,
    ;
    lemma_shift_by_periods(scroll_dx(p, t), m, a);
    let tx = tiling_x(p, x, y, t);
    assert(tiling_x(p, x, y, t + d) == tx);
    if b % 2 == 0 {
        lemma_fundamental_div_mod(b, 2);
        assert(b * m == (b / 2) * (2 * m)) by (nonlinear_arith)
            requires
                b == 2 * (b / 2),
        ;
        lemma_shift_by_periods(scroll_dy(p, t), 2 * m, b / 2);
        assert(tiling_y(p, x, y, t + d) == tiling_y(p, x, y, t));
    } else {
        let ry = rot_y(p, x, y);
        let sy = scroll_dy(p, t);
        lemma_fundamental_div_mod(sy, 2 * m);
        lemma_fundamental_div_mod(sy + b * m, 2 * m);
        let k = (sy + b * m) / (2 * m) - sy / (2 * m);
        assert((sy + b * m) % (2 * m) == sy % (2 * m) + (b - 2 * k) * m) by (nonlinear_arith)
            requires
                sy == (2 * m) * (sy / (2 * m)) + sy % (2 * m),
                sy + b * m == (2 * m) * ((sy + b * m) / (2 * m)) + (sy + b * m) % (2 * m),
                k == (sy + b * m) / (2 * m) - sy / (2 * m),
        ;
        assert(tiling_y(p, x, y, t + d) == tiling_y(p, x, y, t) + (b - 2 * k) * m);
        lemma_periodic_along_rows(p, tx, tiling_y(p, x, y, t), b - 2 * k);
    }
}

/// Tiling is seamless across the origin: just left of zero lies the cell
/// before the one just left of one tile, at the same in-cell position.
pub proof fn lemma_seamless_at_origin(p: TileParams, eps: int, ty: int)
    requires
        p.wf(),
        0 < eps <= span(p),
    ensures
        sample_tiled(p, -eps, ty).cell_x + 1 == sample_tiled(p, span(p) - eps, ty).cell_x,
        sample_tiled(p, -eps, ty).local_x == sample_tiled(p, span(p) - eps, ty).local_x,
        0 <= sample_tiled(p, -eps, ty).local_x < span(p),
{
    lemma_periodic_along_columns(p, -eps, ty, 1);
    assert(span(p) > 0) by (nonlinear_arith)
        requires
            p.tile_size > 0,
    ;
    lemma_mod_bound(shifted_x(p, -eps, ty), span(p));
}

/// A quarter turn is consistent with the unrotated pattern: without scroll,
/// the pattern turned by 90 degrees at `(x, y)` is the unturned pattern at
/// `(y, -x)`.
pub proof fn lemma_quarter_turn(p: TileParams, q: TileParams, x: int, y: int, t: int)
    requires
        p.wf(),
        q.wf(),
        p.cos == ONE && p.sin == 0,
        q.cos == 0 && q.sin == ONE,
        p.scroll_x == 0 && p.scroll_y == 0,
        q.scroll_x == 0 && q.scroll_y == 0,
        p.tile_size == q.tile_size,
        p.stagger == q.stagger,
        p.spacing == q.spacing,
    ensures
        sample_at(q, x, y, t) == sample_at(p, y, -x, t),
{
    assert(rot_x(p, 0, 0) == 0 && rot_y(p, 0, 0) == 0 && rot_x(q, 0, 0) == 0 && rot_y(q, 0, 0)
        == 0);
    assert(scroll_dx(p, t) == 0 && scroll_dy(p, t) == 0 && scroll_dx(q, t) == 0 && scroll_dy(q, t)
        == 0);
    assert(span(p) > 0) by (nonlinear_arith)
        requires
            p.tile_size > 0,
    ;
    assert(span(p) == span(q));
    assert(tiling_x(q, x, y, t) == tiling_x(p, y, -x, t));
    assert(tiling_y(q, x, y, t) == tiling_y(p, y, -x, t));
    assert(rot_x(q, x, y) == rot_x(p, y, -x));
    assert(rot_y(q, x, y) == rot_y(p, y, -x));
}

/// Scrolling is a uniform motion: after `d` more ticks a surface point shows
/// the pattern at its earlier tiling-space point moved by the rotated
/// velocity times `d`.
pub proof fn lemma_scroll_motion(p: TileParams, x: int, y: int, t: int, d: int)
    requires
        p.wf(),
    ensures
        same_pattern(
            sample_at(p, x, y, t + d),
            sample_tiled(
                p,
                tiling_x(p, x, y, t) + rot_x(p, p.scroll_x as int, p.scroll_y as int) * d,
                tiling_y(p, x, y, t) + rot_y(p, p.scroll_x as int, p.scroll_y as int) * d,
            ),
        ),
{
    assert(span(p) > 0) by (nonlinear_arith)
        requires
            p.tile_size > 0,
    ;
    let m = span(p);
    let vx = rot_x(p, p.scroll_x as int, p.scroll_y as int);
    let vy = rot_y(p, p.scroll_x as int, p.scroll_y as int);
    assert(scroll_dx(p, t + d) == scroll_dx(p, t) + vx * d) by (nonlinear_arith)
        requires
            scroll_dx(p, t + d) == vx * (t + d),
            scroll_dx(p, t) == vx * t,
    ;
    assert(scroll_dy(p, t + d) == scroll_dy(p, t) + vy * d) by (nonlinear_arith)
        requires
            scroll_dy(p, t + d) == vy * (t + d),
            scroll_dy(p, t) == vy * t,
    ;
    lemma_scroll_reduction_exact(p, x, y, t + d);
    let sx = scroll_dx(p, t);
    let sy = scroll_dy(p, t);
    lemma_fundamental_div_mod(sx, m);
    lemma_fundamental_div_mod(sy, 2 * m);
    let qx = sx / m;
    let qy = sy / (2 * m);
    let tx = tiling_x(p, x, y, t) + vx * d;
    let ty = tiling_y(p, x, y, t) + vy * d;
    assert(rot_x(p, x, y) + scroll_dx(p, t + d) == tx + qx * m) by (nonlinear_arith)
        requires
            sx == m * qx + sx % m,
            tx == rot_x(p, x, y) + sx % m + vx * d,
            scroll_dx(p, t + d) == sx + vx * d,
    ;
    assert(rot_y(p, x, y) + scroll_dy(p, t + d) == ty + (2 * qy) * m) by (nonlinear_arith)
        requires
            sy == (2 * m) * qy + sy % (2 * m),
            ty == rot_y(p, x, y) + sy % (2 * m) + vy * d,
            scroll_dy(p, t + d) == sy + vy * d,
    ;
    assert((2 * qy) % 2 == 0) by (nonlinear_arith);
    lemma_periodic_along_rows(p, tx, ty, 2 * qy);
    lemma_periodic_along_columns(p, tx, ty + (2 * qy) * m, qx);
}

} // verus!
