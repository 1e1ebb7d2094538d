use vstd::prelude::*;
use vstd::arithmetic::div_mod::{lemma_fundamental_div_mod, lemma_mod_bound};
use crate::arith::floor_div_mod;
use crate::params::{TileParams, ONE};

verus! {

/// Fixed-point unit of texture coordinates: `u` stands for `u / UV_ONE`.
pub const UV_ONE: u32 = 65536;

/// The tile period in tiling space. Tiling space carries a factor `ONE`
/// from the rotation entries, so one tile spans `tile_size * ONE` there.
pub open spec fn span(p: TileParams) -> int {
    p.tile_size * ONE
}

/// First tiling-space coordinate of the surface point `(x, y)`.
pub open spec fn rot_x(p: TileParams, x: int, y: int) -> int {
    p.cos * x + p.sin * y
}

/// Second tiling-space coordinate of the surface point `(x, y)`.
pub open spec fn rot_y(p: TileParams, x: int, y: int) -> int {
    p.cos * y - p.sin * x
}

/// Horizontal scroll displacement in tiling space after `t` ticks.
pub open spec fn scroll_dx(p: TileParams, t: int) -> int {
    rot_x(p, p.scroll_x as int, p.scroll_y as int) * t
}

/// Vertical scroll displacement in tiling space after `t` ticks.
pub open spec fn scroll_dy(p: TileParams, t: int) -> int {
    rot_y(p, p.scroll_x as int, p.scroll_y as int) * t
}

/// Tiling-space x of a surface point at time `t`. The scroll is reduced
/// modulo the horizontal period, one tile.
pub open spec fn tiling_x(p: TileParams, x: int, y: int, t: int) -> int {
    rot_x(p, x, y) + scroll_dx(p, t) % span(p)
}

/// Tiling-space y of a surface point at time `t`. The scroll is reduced
/// modulo the vertical period, two rows (staggered rows alternate).
pub open spec fn tiling_y(p: TileParams, x: int, y: int, t: int) -> int {
    rot_y(p, x, y) + scroll_dy(p, t) % (2 * span(p))
}

/// The horizontal offset of odd rows, in tiling space.
pub open spec fn stagger_shift(p: TileParams) -> int {
    p.stagger * p.tile_size
}

/// The horizontal offset of row `row`.
pub open spec fn row_shift(p: TileParams, row: int) -> int {
    if row % 2 == 1 {
        stagger_shift(p)
    } else {
        0
    }
}

/// Row index of a tiling-space point.
pub open spec fn cell_row(p: TileParams, ty: int) -> int {
    ty / span(p)
}

/// The tiling-space x after the stagger offset of its row.
pub open spec fn shifted_x(p: TileParams, tx: int, ty: int) -> int {
    tx + row_shift(p, cell_row(p, ty))
}

/// Column index of a tiling-space point.
pub open spec fn cell_col(p: TileParams, tx: int, ty: int) -> int {
    shifted_x(p, tx, ty) / span(p)
}

/// In-cell x of a tiling-space point, in `[0, span)`.
pub open spec fn local_x(p: TileParams, tx: int, ty: int) -> int {
    shifted_x(p, tx, ty) % span(p)
}

/// In-cell y of a tiling-space point, in `[0, span)`.
pub open spec fn local_y(p: TileParams, ty: int) -> int {
    ty % span(p)
}

/// Twice the gap on each side of the inked sub-rectangle, in tiling space.
pub open spec fn margin2(p: TileParams) -> int {
    p.spacing * p.tile_size
}

/// Whether the in-cell coordinate `l` lies in the centered inked interval
/// `[margin, span - margin)`, compared at double scale to stay exact.
pub open spec fn inked_axis(p: TileParams, l: int) -> bool {
    margin2(p) <= 2 * l < 2 * span(p) - margin2(p)
}

/// Whether an in-cell position lies in the inked sub-rectangle.
pub open spec fn inked(p: TileParams, lx: int, ly: int) -> bool {
    inked_axis(p, lx) && inked_axis(p, ly)
}

/// Texture coordinate of an inked in-cell coordinate: the inked interval
/// mapped linearly onto `[0, UV_ONE)`, rounded down.
pub open spec fn uv_axis(p: TileParams, l: int) -> int {
    ((2 * l - margin2(p)) * UV_ONE) / (2 * span(p) - 2 * margin2(p))
}

/// Cell and in-cell position of a tiling-space point.
#[derive(Debug, Clone, Copy, PartialEq, Eq, Structural)]
pub struct TileIndex {
    pub cell_x: i64,
    pub cell_y: i64,
    pub local_x: i64,
    pub local_y: i64,
}

/// The inked decision and, when inked, the texture coordinates.
#[derive(Debug, Clone, Copy, PartialEq, Eq, Structural)]
pub struct Mask {
    pub inked: bool,
    pub u: u32,
    pub v: u32,
}

/// Everything one sample determines.
#[derive(Debug, Clone, Copy, PartialEq, Eq, Structural)]
pub struct SampleOutput {
    pub inked: bool,
    /// Texture coordinates over `UV_ONE`; zero when not inked.
    pub u: u32,
    pub v: u32,
    pub cell_x: i64,
    pub cell_y: i64,
    pub local_x: i64,
    pub local_y: i64,
}

/// The mathematical content of a sample.
pub struct SampleView {
    pub inked: bool,
    pub u: int,
    pub v: int,
    pub cell_x: int,
    pub cell_y: int,
    pub local_x: int,
    pub local_y: int,
}

impl SampleOutput {
    pub open spec fn view(&self) -> SampleView {
        SampleView {
            inked: self.inked,
            u: self.u as int,
            v: self.v as int,
            cell_x: self.cell_x as int,
            cell_y: self.cell_y as int,
            local_x: self.local_x as int,
            local_y: self.local_y as int,
        }
    }
}

/// The sample at the tiling-space point `(tx, ty)`.
pub open spec fn sample_tiled(p: TileParams, tx: int, ty: int) -> SampleView {
    let lx = local_x(p, tx, ty);
    let ly = local_y(p, ty);
    let ink = inked(p, lx, ly);
    SampleView {
        inked: ink,
        u: if ink { uv_axis(p, lx) } else { 0 },
        v: if ink { uv_axis(p, ly) } else { 0 },
        cell_x: cell_col(p, tx, ty),
        cell_y: cell_row(p, ty),
        local_x: lx,
        local_y: ly,
    }
}

/// The sample at the surface point `(x, y)` at time `t`.
pub open spec fn sample_at(p: TileParams, x: int, y: int, t: int) -> SampleView {
    sample_tiled(p, tiling_x(p, x, y, t), tiling_y(p, x, y, t))
}

proof fn lemma_div_fits_i64(a: int, m: int)
    requires
        m >= 2,
        -0x1_0000_0000_0000_0000 < a < 0x1_0000_0000_0000_0000,
    ensures
        i64::MIN <= a / m <= i64::MAX,
{
    lemma_fundamental_div_mod(a, m);
    lemma_mod_bound(a, m);
    let q = a / m;
    let r = a % m;
    if q > i64::MAX {
        assert(m * q >= 2 * q) by (nonlinear_arith)
            requires
                m >= 2,
                q > 0,
        ;
    }
    if q < i64::MIN {
        assert(m * q + m <= 2 * (q + 1)) by (nonlinear_arith)
            requires
                m >= 2,
                q + 1 < 0,
        ;
    }
}

/// Maps a surface point at time `t` into tiling space: scroll by the
/// velocity, reduced modulo the tiling period, then rotate inversely.
pub fn transform(p: &TileParams, x: i32, y: i32, t: u64) -> (r: (i64, i64))
    requires
        p.wf(),
    ensures
        r.0 == tiling_x(*p, x as int, y as int, t as int),
        r.1 == tiling_y(*p, x as int, y as int, t as int),
{
    let c = p.cos as i64;
    let s = p.sin as i64;
    let sp = p.tile_size as i64 * ONE;
    assert(-0x8000_0000_0000 <= c * (x as i64) <= 0x8000_0000_0000) by (nonlinear_arith)
        requires
            -ONE <= c <= ONE,
            i32::MIN <= x <= i32::MAX,
    ;
    assert(-0x8000_0000_0000 <= s * (y as i64) <= 0x8000_0000_0000) by (nonlinear_arith)
        requires
            -ONE <= s <= ONE,
            i32::MIN <= y <= i32::MAX,
    ;
    assert(-0x8000_0000_0000 <= s * (x as i64) <= 0x8000_0000_0000) by (nonlinear_arith)
        requires
            -ONE <= s <= ONE,
            i32::MIN <= x <= i32::MAX,
    ;
    assert(-0x8000_0000_0000 <= c * (y as i64) <= 0x8000_0000_0000) by (nonlinear_arith)
        requires
            -ONE <= c <= ONE,
            i32::MIN <= y <= i32::MAX,
    ;
    let vx = p.scroll_x as i64;
    let vy = p.scroll_y as i64;
    assert(-0x8000_0000_0000 <= c * vx <= 0x8000_0000_0000) by (nonlinear_arith)
        requires
            -ONE <= c <= ONE,
            i32::MIN <= vx <= i32::MAX,
    ;
    assert(-0x8000_0000_0000 <= s * vy <= 0x8000_0000_0000) by (nonlinear_arith)
        requires
            -ONE <= s <= ONE,
            i32::MIN <= vy <= i32::MAX,
    ;
    assert(-0x8000_0000_0000 <= s * vx <= 0x8000_0000_0000) by (nonlinear_arith)
        requires
            -ONE <= s <= ONE,
            i32::MIN <= vx <= i32::MAX,
    ;
    assert(-0x8000_0000_0000 <= c * vy <= 0x8000_0000_0000) by (nonlinear_arith)
        requires
            -ONE <= c <= ONE,
            i32::MIN <= vy <= i32::MAX,
    ;
    let rx = c * (x as i64) + s * (y as i64);
    let ry = c * (y as i64) - s * (x as i64);
    let ax = c * vx + s * vy;
    let ay = c * vy - s * vx;
    let tt = t as i128;
    assert(-0x1_0000_0000_0000_0000_0000_0000_0000 <= (ax as i128) * tt
        <= 0x1_0000_0000_0000_0000_0000_0000_0000) by (nonlinear_arith)
        requires
            -0x1_0000_0000_0000 <= ax <= 0x1_0000_0000_0000,
            0 <= tt <= u64::MAX,
    ;
    assert(-0x1_0000_0000_0000_0000_0000_0000_0000 <= (ay as i128) * tt
        <= 0x1_0000_0000_0000_0000_0000_0000_0000) by (nonlinear_arith)
        requires
            -0x1_0000_0000_0000 <= ay <= 0x1_0000_0000_0000,
            0 <= tt <= u64::MAX,
    ;
    let dx = floor_div_mod((ax as i128) * tt, sp as i128).1;
    let dy = floor_div_mod((ay as i128) * tt, 2 * (sp as i128)).1;
    (rx + dx as i64, ry + dy as i64)
}

/// Splits a tiling-space point into its cell and in-cell position. Odd rows
/// are shifted by the stagger before the column is taken; both divisions
/// round down, so negative coordinates wrap like positive ones.
pub fn index(p: &TileParams, tx: i64, ty: i64) -> (r: TileIndex)
    requires
        p.wf(),
    ensures
        r.cell_x == cell_col(*p, tx as int, ty as int),
        r.cell_y == cell_row(*p, ty as int),
        r.local_x == local_x(*p, tx as int, ty as int),
        r.local_y == local_y(*p, ty as int),
        0 <= r.local_x < span(*p),
        0 <= r.local_y < span(*p),
{
    let sp = p.tile_size as i128 * (ONE as i128);
    assert(p.stagger * p.tile_size < sp <= 0x1_0000_0000_0000) by (nonlinear_arith)
        requires
            sp == p.tile_size * ONE,
            0 < p.tile_size <= u32::MAX,
            p.stagger < ONE,
    ;
    let (row, ly) = floor_div_mod(ty as i128, sp);
    proof {
        lemma_div_fits_i64(ty as int, sp as int);
    }
    let parity = floor_div_mod(row, 2).1;
    let shift: i128 = if parity == 1 {
        p.stagger as i128 * (p.tile_size as i128)
    } else {
        0
    };
    assert(0 <= shift < sp) by (nonlinear_arith)
        requires
            shift == 0 || shift == p.stagger * p.tile_size,
            p.stagger < ONE,
            p.tile_size > 0,
            sp == p.tile_size * ONE,
    ;
    let (col, lx) = floor_div_mod(tx as i128 + shift, sp);
    proof {
        lemma_div_fits_i64(tx + shift, sp as int);
    }
    TileIndex { cell_x: col as i64, cell_y: row as i64, local_x: lx as i64, local_y: ly as i64 }
}

proof fn lemma_uv_below_one(n: int, d: int)
    requires
        0 <= n < d,
    ensures
        0 <= (n * UV_ONE) / d < UV_ONE,
{
    lemma_fundamental_div_mod(n * UV_ONE, d);
    lemma_mod_bound(n * UV_ONE, d);
    let q = (n * UV_ONE) / d;
    assert(0 <= q < UV_ONE) by (nonlinear_arith)
        requires
            n * UV_ONE == d * q + (n * UV_ONE) % d,
            0 <= (n * UV_ONE) % d < d,
            0 <= n < d,
    ;
}

fn uv_of(l2: i128, m2: i128, sp: i128) -> (r: u32)
    requires
        0 <= m2 <= l2 < 2 * sp - m2,
        sp <= 0x1_0000_0000_0000,
    ensures
        r == ((l2 - m2) * UV_ONE) / (2 * sp - 2 * m2),
        r < UV_ONE,
{
    assert(0 <= (l2 - m2) * (UV_ONE as i128) <= 0x1_0000_0000_0000_0000_0000) by (nonlinear_arith)
        requires
            0 <= l2 - m2 < 2 * sp,
            sp <= 0x1_0000_0000_0000,
    ;
    let q = ((l2 - m2) * (UV_ONE as i128)) / (2 * sp - 2 * m2);
    proof {
        lemma_uv_below_one(l2 - m2, 2 * sp - 2 * m2);
    }
    q as u32
}

/// Decides whether an in-cell position is inked and, when it is, remaps it
/// from the inked sub-rectangle onto texture coordinates in `[0, UV_ONE)`.
pub fn mask(p: &TileParams, lx: i64, ly: i64) -> (r: Mask)
    requires
        p.wf(),
        0 <= lx < span(*p),
        0 <= ly < span(*p),
    ensures
        r.inked == inked(*p, lx as int, ly as int),
        r.u == (if r.inked { uv_axis(*p, lx as int) } else { 0 }),
        r.v == (if r.inked { uv_axis(*p, ly as int) } else { 0 }),
        r.u < UV_ONE,
        r.v < UV_ONE,
{
    let sp = p.tile_size as i128 * (ONE as i128);
    assert(p.spacing * p.tile_size <= sp <= 0x1_0000_0000_0000) by (nonlinear_arith)
        requires
            p.spacing <= ONE,
            sp == p.tile_size * ONE,
            0 < p.tile_size <= u32::MAX,
    ;
    let m2 = p.spacing as i128 * (p.tile_size as i128);
    let lx2 = 2 * (lx as i128);
    let ly2 = 2 * (ly as i128);
    let ink = m2 <= lx2 && lx2 < 2 * sp - m2 && m2 <= ly2 && ly2 < 2 * sp - m2;
    if ink {
        Mask { inked: true, u: uv_of(lx2, m2, sp), v: uv_of(ly2, m2, sp) }
    } else {
        Mask { inked: false, u: 0, v: 0 }
    }
}

/// Samples the pattern at the surface point `(x, y)` after `t` ticks.
pub fn sample(p: &TileParams, x: i32, y: i32, t: u64) -> (r: SampleOutput)
    requires
        p.wf(),
    ensures
        r@ == sample_at(*p, x as int, y as int, t as int),
{
    let (tx, ty) = transform(p, x, y, t);
    let ix = index(p, tx, ty);
    let m = mask(p, ix.local_x, ix.local_y);
    SampleOutput {
        inked: m.inked,
        u: m.u,
        v: m.v,
        cell_x: ix.cell_x,
        cell_y: ix.cell_y,
        local_x: ix.local_x,
        local_y: ix.local_y,
    }
}

} // verus!
