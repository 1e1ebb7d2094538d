use vstd::prelude::*;
use crate::color::Rgba;

verus! {

/// Fixed-point unit of the rotation entries and of the stagger and spacing
/// fractions: a value `f` stands for the real number `f / ONE`.
pub const ONE: i64 = 65536;

/// Why a parameter set was refused.
#[derive(Debug, Clone, Copy, PartialEq, Eq, Structural)]
pub enum ConfigError {
    /// The tile period is zero (a scale of zero or below).
    ZeroTileSize,
    /// A rotation entry lies outside `[-ONE, ONE]`, or both are zero.
    BadRotation,
}

/// Immutable per-frame configuration of the tiled pattern.
///
/// Lengths are in surface units. The inverse rotation applied to surface
/// points is the matrix `[cos, sin; -sin, cos] / ONE`.
#[derive(Debug, Clone, Copy, PartialEq, Eq, Structural)]
pub struct TileParams {
    /// Tile period `T` in surface units.
    pub tile_size: u32,
    /// Cosine of the rotation angle, scaled by `ONE`.
    pub cos: i32,
    /// Sine of the rotation angle, scaled by `ONE`.
    pub sin: i32,
    /// Row offset as a fraction of the tile width, scaled by `ONE`, in `[0, ONE)`.
    pub stagger: u32,
    /// Gap as a fraction of the tile, scaled by `ONE`, in `[0, ONE]`.
    pub spacing: u32,
    /// Horizontal scroll velocity, surface units per time tick.
    pub scroll_x: i32,
    /// Vertical scroll velocity, surface units per time tick.
    pub scroll_y: i32,
    /// Tint multiplied into every inked texel.
    pub tint: Rgba,
    /// Opaque identifier of the source texture.
    pub texture: u64,
}

impl TileParams {
    /// The invariant that every sampling function relies on.
    pub open spec fn wf(&self) -> bool {
        &&& self.tile_size > 0
        &&& -ONE <= self.cos <= ONE
        &&& -ONE <= self.sin <= ONE
        &&& !(self.cos == 0 && self.sin == 0)
        &&& self.stagger < ONE
        &&& self.spacing <= ONE
    }

    /// Builds a parameter set. A zero tile size and a bad rotation are
    /// refused; the stagger is taken modulo `ONE` and the spacing is clamped
    /// to `[0, ONE]`.
    pub fn new(
        tile_size: u32,
        cos: i32,
        sin: i32,
        stagger: i64,
        spacing: i64,
        scroll_x: i32,
        scroll_y: i32,
        tint: Rgba,
        texture: u64,
    ) -> (r: Result<TileParams, ConfigError>)
        ensures
            tile_size == 0 ==> r == Err::<TileParams, ConfigError>(ConfigError::ZeroTileSize),
            tile_size > 0 && !(-ONE <= cos <= ONE && -ONE <= sin <= ONE && !(cos == 0 && sin == 0))
                ==> r == Err::<TileParams, ConfigError>(ConfigError::BadRotation),
            r is Ok <==> (tile_size > 0 && -ONE <= cos <= ONE && -ONE <= sin <= ONE && !(cos == 0
                && sin == 0)),
            r matches Ok(p) ==> {
                &&& p.wf()
                &&& p.tile_size == tile_size
                &&& p.cos == cos
                &&& p.sin == sin
                &&& p.stagger == stagger % ONE
                &&& p.spacing == (if spacing < 0 {
                    0int
                } else if spacing > ONE {
                    ONE as int
                } else {
                    spacing as int
                })
                &&& p.scroll_x == scroll_x
                &&& p.scroll_y == scroll_y
                &&& p.tint == tint
                &&& p.texture == texture
            },
    {
        if tile_size == 0 {
            return Err(ConfigError::ZeroTileSize);
        }
        let (c, sn) = (cos as i64, sin as i64);
        if c < -ONE || c > ONE || sn < -ONE || sn > ONE || (c == 0 && sn == 0) {
            return Err(ConfigError::BadRotation);
        }
        let s = crate::arith::floor_div_mod(stagger as i128, ONE as i128);
        let sp: u32 = if spacing < 0 {
            0
        } else if spacing > ONE {
            ONE as u32
        } else {
            spacing as u32
        };
        Ok(TileParams {
            tile_size,
            cos,
            sin,
            stagger: s.1 as u32,
            spacing: sp,
            scroll_x,
            scroll_y,
            tint,
            texture,
        })
    }
}

} // verus!
