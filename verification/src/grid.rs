//! Grid coordinate model: the affine transform between discrete tile
//! coordinates and continuous world space, and the pointer-to-tile resolver.
//!
//! World space is measured in integer world units; a tile covers
//! `tile_w x tile_h` of them, so every transform here is exact and the
//! world-to-tile direction is a floor division.

use vstd::prelude::*;
use vstd::arithmetic::div_mod::lemma_div_is_ordered;
use vstd::arithmetic::div_mod::lemma_div_multiples_vanish;
use vstd::arithmetic::mul::lemma_mul_is_commutative;

verus! {

/// A discrete grid cell, addressed by its column `x` and row `y`.
#[derive(Clone, Copy, Debug, PartialEq, Eq, Structural)]
pub struct TileCoordinate {
    pub x: u32,
    pub y: u32,
}

/// A continuous world-space position in integer world units.
#[derive(Clone, Copy, Debug, PartialEq, Eq, Structural)]
pub struct WorldPoint {
    pub x: i64,
    pub y: i64,
}

/// A screen-space pointer position in pixels.
#[derive(Clone, Copy, Debug, PartialEq, Eq, Structural)]
pub struct ScreenPoint {
    pub x: i32,
    pub y: i32,
}

/// A pure translation, the only kind of placement transform the grid and the
/// camera use: no rotation, no scaling.
#[derive(Clone, Copy, Debug, PartialEq, Eq, Structural)]
pub struct Translation {
    pub x: i32,
    pub y: i32,
}

/// Static layout of the grid: tile counts and the world-unit size of one tile.
#[derive(Clone, Copy, Debug, PartialEq, Eq, Structural)]
pub struct GridConfig {
    pub width: u32,
    pub height: u32,
    pub tile_w: u32,
    pub tile_h: u32,
}

impl GridConfig {
    /// A usable grid has at least one tile, tiles of positive size, and a
    /// world-space footprint whose far corner fits in an `i64` coordinate.
    pub open spec fn wf(self) -> bool {
        &&& 1 <= self.width
        &&& 1 <= self.height
        &&& 1 <= self.tile_w
        &&& 1 <= self.tile_h
        &&& self.width * self.tile_w <= i64::MAX
        &&& self.height * self.tile_h <= i64::MAX
    }

    /// The tile lies within the grid's bounds.
    pub open spec fn in_bounds(self, t: TileCoordinate) -> bool {
        t.x < self.width && t.y < self.height
    }

    /// The world-space point lies inside the grid's footprint
    /// `[0, width * tile_w) x [0, height * tile_h)`.
    pub open spec fn footprint_contains(self, wx: int, wy: int) -> bool {
        &&& 0 <= wx < self.width * self.tile_w
        &&& 0 <= wy < self.height * self.tile_h
    }
}

/// World-space position of a tile's reference corner: `(x * tile_w, y * tile_h)`.
pub open spec fn tile_to_world_spec(t: TileCoordinate, g: GridConfig) -> (int, int) {
    (t.x * g.tile_w, t.y * g.tile_h)
}

/// The tile containing a world-space point, or `None` outside the grid.
pub open spec fn world_to_tile_spec(wx: int, wy: int, g: GridConfig) -> Option<TileCoordinate> {
    if wx < 0 || wy < 0 {
        None
    } else {
        let tx = wx / (g.tile_w as int);
        let ty = wy / (g.tile_h as int);
        if tx >= g.width || ty >= g.height {
            None
        } else {
            Some(TileCoordinate { x: tx as u32, y: ty as u32 })
        }
    }
}

/// World-space position of a tile's reference corner.
pub fn tile_to_world(t: TileCoordinate, g: &GridConfig) -> (r: WorldPoint)
    requires
        g.wf(),
        g.in_bounds(t),
    ensures
        r.x == tile_to_world_spec(t, *g).0,
        r.y == tile_to_world_spec(t, *g).1,
{
    proof {
        lemma_corner_in_range(t.x as int, g.width as int, g.tile_w as int);
        lemma_corner_in_range(t.y as int, g.height as int, g.tile_h as int);
    }
    WorldPoint { x: (t.x as i64) * (g.tile_w as i64), y: (t.y as i64) * (g.tile_h as i64) }
}

/// A tile coordinate below the grid's extent places its corner inside the
/// footprint, so the product fits the bound that `GridConfig::wf` gives.
proof fn lemma_corner_in_range(c: int, extent: int, tile: int) by (nonlinear_arith)
    requires
        0 <= c < extent,
        1 <= tile,
    ensures
        0 <= c * tile,
        c * tile + tile <= extent * tile,
{
}

/// The tile containing a world-space point, or `None` if the point lies
/// outside the grid's footprint.
pub fn world_to_tile(w: WorldPoint, g: &GridConfig) -> (r: Option<TileCoordinate>)
    requires
        g.wf(),
    ensures
        r == world_to_tile_spec(w.x as int, w.y as int, *g),
{
    if w.x < 0 || w.y < 0 {
        return None;
    }
    let tx: u64 = (w.x as u64) / (g.tile_w as u64);
    let ty: u64 = (w.y as u64) / (g.tile_h as u64);
    if tx >= g.width as u64 || ty >= g.height as u64 {
        None
    } else {
        Some(TileCoordinate { x: tx as u32, y: ty as u32 })
    }
}

/// Law: the world-to-tile transform exactly inverts the tile-to-world
/// transform on every tile within the grid bounds.
pub proof fn lemma_tile_world_round_trip(t: TileCoordinate, g: GridConfig)
    requires
        g.wf(),
        g.in_bounds(t),
    ensures
        world_to_tile_spec(tile_to_world_spec(t, g).0, tile_to_world_spec(t, g).1, g)
            == Some(t),
{
    lemma_corner_in_range(t.x as int, g.width as int, g.tile_w as int);
    lemma_corner_in_range(t.y as int, g.height as int, g.tile_h as int);
    lemma_mul_is_commutative(t.x as int, g.tile_w as int);
    lemma_mul_is_commutative(t.y as int, g.tile_h as int);
    lemma_div_multiples_vanish(t.x as int, g.tile_w as int);
    lemma_div_multiples_vanish(t.y as int, g.tile_h as int);
}

/// Law: a world-space point resolves to a tile exactly when it lies inside
/// the grid's footprint.
pub proof fn lemma_world_to_tile_footprint(wx: int, wy: int, g: GridConfig)
    requires
        g.wf(),
    ensures
        world_to_tile_spec(wx, wy, g) is Some <==> g.footprint_contains(wx, wy),
{
    if 0 <= wx && 0 <= wy {
        lemma_axis_quotient_bound(wx, g.width as int, g.tile_w as int);
        lemma_axis_quotient_bound(wy, g.height as int, g.tile_h as int);
    }
}

/// On one axis, the floor quotient falls below the tile count exactly when
/// the coordinate falls below the footprint's extent.
proof fn lemma_axis_quotient_bound(w: int, extent: int, tile: int)
    requires
        0 <= w,
        1 <= extent,
        1 <= tile,
    ensures
        w / tile < extent <==> w < extent * tile,
{
    lemma_mul_is_commutative(extent, tile);
    lemma_div_multiples_vanish(extent, tile);
    if w < extent * tile {
        assert((extent * tile - 1) / tile == extent - 1) by (nonlinear_arith)
            requires 1 <= extent && 1 <= tile;
        lemma_div_is_ordered(w, extent * tile - 1, tile);
    } else {
        lemma_div_is_ordered(extent * tile, w, tile);
    }
}

} // verus!
