use tiled_background::color::{composite, Rgba};
use tiled_background::params::{ConfigError, TileParams, ONE};
use tiled_background::tiling::{index, mask, sample, transform, SampleOutput, UV_ONE};

const WHITE: Rgba = Rgba { r: 255, g: 255, b: 255, a: 255 };
const T: i64 = 64;

fn params(cos: i32, sin: i32, stagger: i64, spacing: i64, vx: i32, vy: i32) -> TileParams {
    TileParams::new(T as u32, cos, sin, stagger, spacing, vx, vy, WHITE, 7).unwrap()
}

fn plain() -> TileParams {
    params(ONE as i32, 0, 0, 0, 0, 0)
}

fn same_pattern(a: &SampleOutput, b: &SampleOutput) -> bool {
    a.inked == b.inked && a.u == b.u && a.v == b.v && a.local_x == b.local_x && a.local_y == b.local_y
}

#[test]
fn center_of_tile_samples_texture_center() {
    let p = plain();
    let s = sample(&p, 32, 32, 0);
    assert!(s.inked);
    assert_eq!(s.u, UV_ONE / 2);
    assert_eq!(s.v, UV_ONE / 2);
    assert_eq!((s.cell_x, s.cell_y), (0, 0));
    assert_eq!((s.local_x, s.local_y), (32 * ONE, 32 * ONE));
}

#[test]
fn full_spacing_inks_nothing() {
    let p = params(ONE as i32, 0, 0, ONE, 0, 0);
    for x in [-100, -1, 0, 1, 16, 31, 32, 33, 63, 64, 1000] {
        for y in [-65, -1, 0, 5, 32, 63, 64, 200] {
            assert!(!sample(&p, x, y, 0).inked);
        }
    }
}

#[test]
fn zero_spacing_inks_everything() {
    let p = plain();
    for x in [-100, -1, 0, 1, 63, 64, 1000] {
        for y in [-65, -1, 0, 63, 64] {
            assert!(sample(&p, x, y, 0).inked);
        }
    }
}

#[test]
fn quarter_turn_matches_unrotated() {
    let p = plain();
    let q = params(0, ONE as i32, 0, 0, 0, 0);
    let a = sample(&q, 0, 16, 0);
    assert_eq!((a.local_x, a.local_y), (16 * ONE, 0));
    assert_eq!(a, sample(&p, 16, 0, 0));
    let b = sample(&q, 16, 0, 0);
    assert_eq!(b, sample(&p, 0, -16, 0));
    assert_eq!((b.cell_x, b.cell_y), (0, -1));
    assert_eq!(b.local_y, 48 * ONE);
}

#[test]
fn periodic_along_both_axes() {
    let p = params(ONE as i32, 0, ONE / 2, ONE / 4, 0, 0);
    let base = sample(&p, 10, 20, 0);
    let right = sample(&p, 10 + 3 * T as i32, 20, 0);
    assert!(same_pattern(&base, &right));
    assert_eq!(right.cell_x, base.cell_x + 3);
    let down = sample(&p, 10, 20 + 2 * T as i32, 0);
    assert!(same_pattern(&base, &down));
    assert_eq!(down.cell_y, base.cell_y + 2);
    let up = sample(&p, 10, 20 - 4 * T as i32, 0);
    assert!(same_pattern(&base, &up));
}

#[test]
fn periodic_along_rotated_lattice() {
    // rotation entries 3k and 4k with k = 13107: the surface vector (3n, 4n)
    // maps onto the tiling x axis, 25 * 13107 * n units long
    let p = TileParams::new(25, 39321, 52428, ONE / 2, ONE / 4, 0, 0, WHITE, 1).unwrap();
    let (dx, dy) = (3 * 65536, 4 * 65536);
    for (x, y) in [(3, 4), (-70, 11), (1000, -999)] {
        let base = sample(&p, x, y, 0);
        let moved = sample(&p, x + dx, y + dy, 0);
        assert!(same_pattern(&base, &moved));
        assert_eq!(moved.cell_x, base.cell_x + 13107);
        assert_eq!(moved.cell_y, base.cell_y);
    }
}

#[test]
fn half_stagger_offsets_adjacent_rows_by_half_a_tile() {
    let p = params(ONE as i32, 0, ONE / 2, 0, 0, 0);
    let span = T * ONE;
    for tx in [-3 * span - 5, -1, 0, 7, span / 2, span - 1, 5 * span + 11] {
        for row in [-3i64, -2, -1, 0, 1, 2] {
            let a = index(&p, tx, row * span);
            let b = index(&p, tx, (row + 1) * span);
            assert_eq!((b.local_x - a.local_x).rem_euclid(span), span / 2);
        }
    }
}

#[test]
fn no_stagger_aligns_adjacent_rows() {
    let p = plain();
    let span = T * ONE;
    for tx in [-span - 1, -1, 0, 9, span + 3] {
        let a = index(&p, tx, 0);
        let b = index(&p, tx, span);
        let c = index(&p, tx, -span);
        assert_eq!(a.local_x, b.local_x);
        assert_eq!(a.local_x, c.local_x);
        assert_eq!(a.cell_x, b.cell_x);
    }
}

#[test]
fn spacing_shrinks_the_inked_region() {
    let span = T * ONE;
    let mut last = u64::MAX;
    for spacing in [0, ONE / 8, ONE / 4, ONE / 2, 3 * ONE / 4, ONE] {
        let p = params(ONE as i32, 0, 0, spacing, 0, 0);
        let mut count: u64 = 0;
        for i in 0..64 {
            let l = i * span / 64;
            if mask(&p, l, span / 2).inked {
                count += 1;
            }
        }
        assert!(count <= last);
        last = count;
    }
    assert_eq!(last, 0);
}

#[test]
fn half_spacing_inks_the_middle_half() {
    let p = params(ONE as i32, 0, 0, ONE / 2, 0, 0);
    let mid = 32 * ONE;
    assert!(!mask(&p, 16 * ONE - 1, mid).inked);
    let lo = mask(&p, 16 * ONE, mid);
    assert!(lo.inked);
    assert_eq!(lo.u, 0);
    assert_eq!(lo.v, UV_ONE / 2);
    let hi = mask(&p, 48 * ONE - 1, mid);
    assert!(hi.inked);
    assert_eq!(hi.u, UV_ONE - 1);
    assert!(!mask(&p, 48 * ONE, mid).inked);
    let gap = mask(&p, 2, mid);
    assert_eq!((gap.u, gap.v), (0, 0));
}

#[test]
fn scroll_repeats_after_one_tile_period() {
    let p = params(ONE as i32, 0, 0, ONE / 4, 1, 0);
    for t in [0u64, 5, 1000, 1 << 40] {
        assert_eq!(sample(&p, 20, 30, t), sample(&p, 20, 30, t + 64));
    }
    let large = (1u64 << 62) + 3;
    assert_eq!(sample(&p, 20, 30, large), sample(&p, 20, 30, large - 64 * 1000));
}

#[test]
fn scroll_moves_the_pattern_continuously() {
    let p = params(ONE as i32, 0, 0, 0, 1, 0);
    let a = sample(&p, 10, 5, 3);
    let b = sample(&p, 13, 5, 0);
    assert!(same_pattern(&a, &b));
    assert_eq!(sample(&p, 10, 5, 4).local_x - a.local_x, ONE);
}

#[test]
fn vertical_scroll_with_stagger_repeats_after_two_rows() {
    let p = params(ONE as i32, 0, ONE / 2, 0, 0, 2);
    assert_eq!(sample(&p, 3, 9, 11), sample(&p, 3, 9, 11 + 64));
    let one_row = sample(&p, 3, 9, 11 + 32);
    let base = sample(&p, 3, 9, 11);
    assert_eq!((one_row.local_x - base.local_x).rem_euclid(T * ONE), 32 * ONE);
}

#[test]
fn scroll_offset_is_reduced_modulo_the_period() {
    let p = params(ONE as i32, 0, 0, 0, 10, -3);
    assert_eq!(transform(&p, 0, 0, 10), (36 * ONE, 98 * ONE));
    let (tx, ty) = transform(&p, 0, 0, u64::MAX);
    assert!(0 <= tx && tx < T * ONE);
    assert!(0 <= ty && ty < 2 * T * ONE);
}

#[test]
fn seamless_across_the_origin() {
    let p = plain();
    let span = T * ONE;
    for eps in [1, ONE, span / 2, span] {
        let a = index(&p, -eps, 0);
        let b = index(&p, span - eps, 0);
        assert_eq!(a.cell_x + 1, b.cell_x);
        assert_eq!(a.local_x, b.local_x);
        assert!(0 <= a.local_x && a.local_x < span);
    }
    let left = sample(&p, -1, 0, 0);
    assert_eq!((left.cell_x, left.local_x), (-1, 63 * ONE));
    let zero = sample(&p, 0, 0, 0);
    assert_eq!((zero.cell_x, zero.local_x), (0, 0));
}

#[test]
fn configuration_errors() {
    assert_eq!(
        TileParams::new(0, ONE as i32, 0, 0, 0, 0, 0, WHITE, 0),
        Err(ConfigError::ZeroTileSize)
    );
    assert_eq!(
        TileParams::new(8, ONE as i32 + 1, 0, 0, 0, 0, 0, WHITE, 0),
        Err(ConfigError::BadRotation)
    );
    assert_eq!(TileParams::new(8, 0, -(ONE as i32) - 1, 0, 0, 0, 0, WHITE, 0), Err(ConfigError::BadRotation));
    assert_eq!(TileParams::new(8, 0, 0, 0, 0, 0, 0, WHITE, 0), Err(ConfigError::BadRotation));
}

#[test]
fn stagger_wraps_and_spacing_clamps() {
    let p = TileParams::new(8, ONE as i32, 0, -ONE / 2, -5, 1, 2, WHITE, 3).unwrap();
    assert_eq!(p.stagger, (ONE / 2) as u32);
    assert_eq!(p.spacing, 0);
    let q = TileParams::new(8, ONE as i32, 0, 3 * ONE + 5, 2 * ONE, 0, 0, WHITE, 3).unwrap();
    assert_eq!(q.stagger, 5);
    assert_eq!(q.spacing, ONE as u32);
    assert_eq!((p.scroll_x, p.scroll_y, p.texture, p.tile_size), (1, 2, 3, 8));
}

#[test]
fn composite_tints_inked_samples() {
    let p = plain();
    let s = sample(&p, 1, 1, 0);
    let tint = Rgba { r: 255, g: 255, b: 255, a: 128 };
    let base = Rgba { r: 255, g: 128, b: 0, a: 255 };
    assert_eq!(composite(&s, tint, Some(base)), Rgba { r: 255, g: 128, b: 0, a: 128 });
    let half = Rgba { r: 128, g: 64, b: 10, a: 200 };
    assert_eq!(composite(&s, half, Some(base)), Rgba { r: 128, g: 32, b: 0, a: 200 });
}

#[test]
fn composite_gap_and_missing_texture_are_transparent() {
    let clear = Rgba { r: 0, g: 0, b: 0, a: 0 };
    let gap = sample(&params(ONE as i32, 0, 0, ONE, 0, 0), 1, 1, 0);
    assert_eq!(composite(&gap, WHITE, Some(WHITE)), clear);
    let inked = sample(&plain(), 1, 1, 0);
    assert_eq!(composite(&inked, WHITE, None), clear);
}
