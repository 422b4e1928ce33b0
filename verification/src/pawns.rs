//! Pawn navigation state machine.
//!
//! A pawn owns its current tile, an optional final destination, and an
//! optional in-flight step with accumulated progress. A resolved click sets
//! the destination and discards any in-flight step; planning turns a pending
//! destination into a step aimed straight at it (the single-hop design: the
//! step's target is the destination itself, so the pawn glides along the
//! direct line in one continuous interpolation); per-tick advancement grows
//! the progress and finalizes the step once the full distance is covered.
//!
//! All quantities are fixed-point integers: distances and progress in
//! milli-tiles (`SUBUNITS_PER_TILE` per tile), time in milliseconds, speed in
//! milli-tiles per millisecond — so a speed of 1 is one tile per second.

use vstd::prelude::*;
use vstd::arithmetic::div_mod::lemma_div_is_ordered;
use vstd::arithmetic::div_mod::lemma_div_multiples_vanish;
use vstd::arithmetic::mul::lemma_mul_inequality;
use vstd::arithmetic::mul::lemma_mul_is_commutative;

use crate::arith::isqrt;
use crate::arith::lemma_sqrt_floor_bounds;
use crate::arith::sqrt_floor;
use crate::grid::GridConfig;
use crate::grid::ScreenPoint;
use crate::grid::TileCoordinate;
use crate::grid::Translation;
use crate::grid::WorldPoint;
use crate::grid::tile_to_world;
use crate::grid::tile_to_world_spec;
use crate::resolve::ButtonState;
use crate::resolve::PointerButton;
use crate::resolve::resolve;
use crate::resolve::resolve_spec;

verus! {

/// Fixed-point scale: one tile is this many milli-tiles of distance.
pub const SUBUNITS_PER_TILE: u64 = 1000;

/// Marker for the single player-controlled pawn.
#[derive(Clone, Copy, Debug)]
pub struct PlayerCharacter {}

/// The pawn's authoritative logical tile.
#[derive(Clone, Copy, Debug, Default, PartialEq, Eq, Structural)]
pub struct PawnPos {
    pub x: u32,
    pub y: u32,
}

/// The player-chosen final goal tile.
#[derive(Clone, Copy, Debug, Default, PartialEq, Eq, Structural)]
pub struct PawnDest {
    pub x: u32,
    pub y: u32,
}

/// The in-flight hop: its target tile and the distance already covered
/// toward it, in milli-tiles.
#[derive(Clone, Copy, Debug, Default, PartialEq, Eq, Structural)]
pub struct PawnNextTile {
    pub x: u32,
    pub y: u32,
    pub progress: u64,
}

/// The navigable pawn: logical tile, optional goal, optional in-flight step.
#[derive(Clone, Copy, Debug)]
pub struct Pawn {
    pub position: PawnPos,
    pub destination: Option<PawnDest>,
    pub step: Option<PawnNextTile>,
}

/// Squared Euclidean distance between two tiles, in tiles.
pub open spec fn dist_sq(px: int, py: int, tx: int, ty: int) -> int {
    (px - tx) * (px - tx) + (py - ty) * (py - ty)
}

/// Euclidean distance between two tiles in milli-tiles, rounded down; the
/// factor is `SUBUNITS_PER_TILE` squared, since the radicand is a squared
/// distance.
pub open spec fn dist_milli_spec(px: int, py: int, tx: int, ty: int) -> int {
    sqrt_floor((1000000 * dist_sq(px, py, tx, ty)) as nat) as int
}

/// Euclidean distance between two tiles in milli-tiles, rounded down.
pub fn tile_distance_milli(px: u32, py: u32, tx: u32, ty: u32) -> (r: u64)
    ensures
        r == dist_milli_spec(px as int, py as int, tx as int, ty as int),
{
    let dx: u64 = if px >= tx {
        (px - tx) as u64
    } else {
        (tx - px) as u64
    };
    let dy: u64 = if py >= ty {
        (py - ty) as u64
    } else {
        (ty - py) as u64
    };
    proof {
        assert((dx as int) * (dx as int) + (dy as int) * (dy as int) == dist_sq(
            px as int,
            py as int,
            tx as int,
            ty as int,
        )) by (nonlinear_arith)
            requires
                dx == px - tx || dx == tx - px,
                dy == py - ty || dy == ty - py,
        ;
        assert((dx as int) * (dx as int) + (dy as int) * (dy as int)
            <= 0x20000000000000000) by (nonlinear_arith)
            requires
                dx < 0x100000000,
                dy < 0x100000000,
        ;
    }
    let sq: u128 = (dx as u128) * (dx as u128) + (dy as u128) * (dy as u128);
    let n: u128 = 1000000 * sq;
    isqrt(n)
}

/// The milli-tile distance between two distinct tiles is at least one whole
/// tile; in particular it is never zero.
pub proof fn lemma_dist_milli_positive(px: int, py: int, tx: int, ty: int)
    requires
        px != tx || py != ty,
    ensures
        SUBUNITS_PER_TILE <= dist_milli_spec(px, py, tx, ty),
{
    let sq = dist_sq(px, py, tx, ty);
    assert(1 <= sq) by (nonlinear_arith)
        requires
            sq == (px - tx) * (px - tx) + (py - ty) * (py - ty),
            px != tx || py != ty,
    ;
    let n = (1000000 * sq) as nat;
    lemma_sqrt_floor_bounds(n);
    let r = sqrt_floor(n);
    assert(1000 <= r) by (nonlinear_arith)
        requires
            n < (r + 1) * (r + 1),
            1000000 <= n,
            0 <= r,
    ;
}

/// A milli-tile distance between grid tiles stays far below `2^43`, so sums
/// and products over it fit the machine words the implementation uses.
pub proof fn lemma_dist_milli_bound(px: int, py: int, tx: int, ty: int)
    requires
        0 <= px < 0x100000000,
        0 <= py < 0x100000000,
        0 <= tx < 0x100000000,
        0 <= ty < 0x100000000,
    ensures
        0 <= dist_milli_spec(px, py, tx, ty) < 0x80000000000,
{
    let sq = dist_sq(px, py, tx, ty);
    assert(0 <= sq <= 0x20000000000000000) by (nonlinear_arith)
        requires
            sq == (px - tx) * (px - tx) + (py - ty) * (py - ty),
            0 <= px < 0x100000000,
            0 <= py < 0x100000000,
            0 <= tx < 0x100000000,
            0 <= ty < 0x100000000,
    ;
    let n = (1000000 * sq) as nat;
    lemma_sqrt_floor_bounds(n);
    let r = sqrt_floor(n);
    assert(r < 0x80000000000) by (nonlinear_arith)
        requires
            r * r <= n,
            n < 0x4000000000000000000000,
            0 <= r,
    ;
}

impl Pawn {
    /// The pawn's state invariant against a grid:
    /// the logical tile and any destination lie within bounds; a step exists
    /// only while a destination does, aims exactly at it (single-hop design),
    /// never targets the tile the pawn already occupies, and its progress has
    /// not yet reached the full distance.
    pub open spec fn wf(self, g: GridConfig) -> bool {
        &&& self.position.x < g.width
        &&& self.position.y < g.height
        &&& match self.destination {
            Some(d) => d.x < g.width && d.y < g.height,
            None => true,
        }
        &&& match self.step {
            Some(s) => match self.destination {
                Some(d) => {
                    &&& s.x == d.x
                    &&& s.y == d.y
                    &&& (s.x != self.position.x || s.y != self.position.y)
                    &&& s.progress < dist_milli_spec(
                        self.position.x as int,
                        self.position.y as int,
                        s.x as int,
                        s.y as int,
                    )
                },
                None => false,
            },
            None => true,
        }
    }
}

/// Transition: accept a resolved destination, discarding any in-flight step;
/// the logical position is untouched.
pub open spec fn set_destination_spec(p: Pawn, t: TileCoordinate) -> Pawn {
    Pawn { position: p.position, destination: Some(PawnDest { x: t.x, y: t.y }), step: None }
}

/// Transition: plan the next hop. With a destination pending and no step in
/// flight, arriving (destination equals position) clears the destination
/// (the degenerate step is skipped, never created); otherwise a fresh step
/// aimed at the destination starts at progress zero.
pub open spec fn plan_step_spec(p: Pawn) -> Pawn {
    if p.step is None {
        match p.destination {
            Some(d) => {
                if p.position.x == d.x && p.position.y == d.y {
                    Pawn { position: p.position, destination: None, step: None }
                } else {
                    Pawn {
                        position: p.position,
                        destination: p.destination,
                        step: Some(PawnNextTile { x: d.x, y: d.y, progress: 0 }),
                    }
                }
            },
            None => p,
        }
    } else {
        p
    }
}

/// Transition: advance the in-flight step by `dt` milliseconds at `speed`
/// milli-tiles per millisecond. Reaching (or passing) the full distance
/// snaps the logical position to the step's target and clears the step;
/// otherwise only the progress grows.
pub open spec fn advance_spec(p: Pawn, speed: u32, dt: u32) -> Pawn {
    match p.step {
        None => p,
        Some(s) => {
            let d = dist_milli_spec(p.position.x as int, p.position.y as int, s.x as int, s.y as int);
            let np = s.progress + speed * dt;
            if np >= d {
                Pawn { position: PawnPos { x: s.x, y: s.y }, destination: p.destination, step: None }
            } else {
                Pawn {
                    position: p.position,
                    destination: p.destination,
                    step: Some(PawnNextTile { x: s.x, y: s.y, progress: np as u64 }),
                }
            }
        },
    }
}

/// One axis of the render position: the tile's world coordinate, displaced
/// toward the target by `progress / distance` of the tile offset, rounded
/// toward the starting tile.
pub open spec fn axis_render_spec(pos: int, target: int, tile: int, progress: int, d: int) -> int {
    if target >= pos {
        pos * tile + ((target - pos) * tile * progress) / d
    } else {
        pos * tile - ((pos - target) * tile * progress) / d
    }
}

/// Where the renderer draws the pawn: its tile's world position, interpolated
/// toward the step target by the fraction of the distance already covered.
pub open spec fn render_position_spec(p: Pawn, g: GridConfig) -> (int, int) {
    match p.step {
        None => tile_to_world_spec(TileCoordinate { x: p.position.x, y: p.position.y }, g),
        Some(s) => {
            let d = dist_milli_spec(p.position.x as int, p.position.y as int, s.x as int, s.y as int);
            (
                axis_render_spec(p.position.x as int, s.x as int, g.tile_w as int, s.progress as int, d),
                axis_render_spec(p.position.y as int, s.y as int, g.tile_h as int, s.progress as int, d),
            )
        },
    }
}

/// Create the pawn at the grid's center tile, idle: no destination, no step.
pub fn make_pawn(g: &GridConfig) -> (r: Pawn)
    requires
        g.wf(),
    ensures
        r.position.x == g.width / 2,
        r.position.y == g.height / 2,
        r.destination is None,
        r.step is None,
        r.wf(*g),
{
    Pawn {
        position: PawnPos { x: g.width / 2, y: g.height / 2 },
        destination: None,
        step: None,
    }
}

/// Apply a pointer event to the pawn: resolve it to a tile and, on success,
/// make that tile the new destination, discarding any in-flight step. The
/// resolved tile (if any) is returned; a non-qualifying event or an
/// out-of-grid point leaves the pawn untouched.
pub fn pawn_control(
    p: &mut Pawn,
    button: PointerButton,
    state: ButtonState,
    cursor: Option<ScreenPoint>,
    camera: Translation,
    placement: Translation,
    g: &GridConfig,
) -> (r: Option<TileCoordinate>)
    requires
        g.wf(),
        old(p).wf(*g),
    ensures
        r == resolve_spec(button, state, cursor, camera, placement, *g),
        *final(p) == match r {
            Some(t) => set_destination_spec(*old(p), t),
            None => *old(p),
        },
        final(p).wf(*g),
{
    let r = resolve(button, state, cursor, camera, placement, g);
    match r {
        Some(t) => {
            p.destination = Some(PawnDest { x: t.x, y: t.y });
            p.step = None;
        },
        None => {},
    }
    r
}

/// Plan the pawn's next hop, as `plan_step_spec` says: clear the destination
/// on arrival, otherwise start a step aimed straight at it.
pub fn pawn_motion(p: &mut Pawn, g: &GridConfig)
    requires
        g.wf(),
        old(p).wf(*g),
    ensures
        *final(p) == plan_step_spec(*old(p)),
        final(p).wf(*g),
{
    if p.step.is_none() {
        match p.destination {
            Some(d) => {
                if p.position.x == d.x && p.position.y == d.y {
                    p.destination = None;
                } else {
                    proof {
                        lemma_dist_milli_positive(
                            p.position.x as int,
                            p.position.y as int,
                            d.x as int,
                            d.y as int,
                        );
                    }
                    p.step = Some(PawnNextTile { x: d.x, y: d.y, progress: 0 });
                }
            },
            None => {},
        }
    }
}

/// One axis of the interpolated render position.
fn axis_render(pos: u32, target: u32, tile: u32, progress: u64, d: u64, extent: u32) -> (r: i64)
    requires
        1 <= tile,
        pos < extent,
        target < extent,
        extent * tile <= i64::MAX,
        progress < d,
        d <= 0x80000000000,
    ensures
        r == axis_render_spec(pos as int, target as int, tile as int, progress as int, d as int),
{
    let diff: u64 = if target >= pos {
        (target - pos) as u64
    } else {
        (pos - target) as u64
    };
    proof {
        assert((diff as int) * (tile as int) < 0x1000000000000000000000000int)
            by (nonlinear_arith)
            requires
                diff < 0x100000000,
                tile < 0x100000000,
        ;
        assert(((diff as int) * (tile as int)) * (progress as int)
            < 0x100000000000000000000000000000000int) by (nonlinear_arith)
            requires
                diff < 0x100000000,
                tile < 0x100000000,
                progress < 0x80000000000,
        ;
    }
    let num: u128 = ((diff as u128) * (tile as u128)) * (progress as u128);
    let off: u128 = num / (d as u128);
    proof {
        assert(((diff as int) * (tile as int)) * (progress as int)
            <= ((diff as int) * (tile as int)) * (d as int)) by (nonlinear_arith)
            requires
                0 <= (diff as int) * (tile as int),
                progress <= d,
        ;
        lemma_div_is_ordered(
            ((diff as int) * (tile as int)) * (progress as int),
            ((diff as int) * (tile as int)) * (d as int),
            d as int,
        );
        lemma_mul_is_commutative((diff as int) * (tile as int), d as int);
        lemma_div_multiples_vanish((diff as int) * (tile as int), d as int);
        assert(off <= (diff as int) * (tile as int));
        lemma_mul_inequality(pos as int, extent as int, tile as int);
    }
    let base: u128 = (pos as u128) * (tile as u128);
    if target >= pos {
        proof {
            assert((pos as int) * (tile as int) + (diff as int) * (tile as int)
                == (target as int) * (tile as int)) by (nonlinear_arith)
                requires
                    diff == target - pos,
            ;
            lemma_mul_inequality(target as int, extent as int, tile as int);
        }
        let val: u128 = base + off;
        val as i64
    } else {
        proof {
            assert((diff as int) * (tile as int) <= (pos as int) * (tile as int))
                by (nonlinear_arith)
                requires
                    diff <= pos,
                    0 <= tile,
            ;
        }
        let val: u128 = base - off;
        val as i64
    }
}

/// Where the renderer draws the pawn this tick, as `render_position_spec`
/// says; recomputed every tick, never stored.
pub fn render_position(p: &Pawn, g: &GridConfig) -> (r: WorldPoint)
    requires
        g.wf(),
        p.wf(*g),
    ensures
        r.x == render_position_spec(*p, *g).0,
        r.y == render_position_spec(*p, *g).1,
{
    match p.step {
        None => tile_to_world(TileCoordinate { x: p.position.x, y: p.position.y }, g),
        Some(s) => {
            proof {
                lemma_dist_milli_bound(
                    p.position.x as int,
                    p.position.y as int,
                    s.x as int,
                    s.y as int,
                );
            }
            let d: u64 = tile_distance_milli(p.position.x, p.position.y, s.x, s.y);
            let x: i64 = axis_render(p.position.x, s.x, g.tile_w, s.progress, d, g.width);
            let y: i64 = axis_render(p.position.y, s.y, g.tile_h, s.progress, d, g.height);
            WorldPoint { x, y }
        },
    }
}

/// Advance the in-flight step by `dt` milliseconds at `speed` milli-tiles
/// per millisecond, as `advance_spec` says, and hand back the pawn's fresh
/// render position.
pub fn pawn_transform(p: &mut Pawn, g: &GridConfig, speed: u32, dt: u32) -> (r: WorldPoint)
    requires
        g.wf(),
        old(p).wf(*g),
    ensures
        *final(p) == advance_spec(*old(p), speed, dt),
        final(p).wf(*g),
        r.x == render_position_spec(*final(p), *g).0,
        r.y == render_position_spec(*final(p), *g).1,
{
    match p.step {
        None => {},
        Some(s) => {
            proof {
                lemma_dist_milli_bound(
                    p.position.x as int,
                    p.position.y as int,
                    s.x as int,
                    s.y as int,
                );
                assert((speed as int) * (dt as int) < 0x10000000000000000int)
                    by (nonlinear_arith)
                    requires
                        speed < 0x100000000,
                        dt < 0x100000000,
                ;
            }
            let d: u64 = tile_distance_milli(p.position.x, p.position.y, s.x, s.y);
            let gain: u64 = (speed as u64) * (dt as u64);
            let np: u128 = (s.progress as u128) + (gain as u128);
            if np >= d as u128 {
                p.position = PawnPos { x: s.x, y: s.y };
                p.step = None;
            } else {
                p.step = Some(PawnNextTile { x: s.x, y: s.y, progress: np as u64 });
            }
        },
    }
    render_position(p, g)
}

/// Law: a new destination issued while a step is in flight discards the
/// step but never moves the logical position, and the next planned step
/// targets the new destination (or, when the pawn already stands on it,
/// no step is planned and the destination clears).
pub proof fn lemma_redirect_while_stepping(p: Pawn, g: GridConfig, t: TileCoordinate)
    requires
        g.wf(),
        p.wf(g),
        p.step is Some,
    ensures
        set_destination_spec(p, t).step is None,
        set_destination_spec(p, t).position == p.position,
        plan_step_spec(set_destination_spec(p, t)).position == p.position,
        (p.position.x != t.x || p.position.y != t.y) ==> plan_step_spec(set_destination_spec(p, t)).step
            == Some(PawnNextTile { x: t.x, y: t.y, progress: 0 }),
        (p.position.x == t.x && p.position.y == t.y) ==> plan_step_spec(set_destination_spec(p, t)).step is None,
{
}

/// Law: advancing by zero elapsed time is the identity: position,
/// destination and step all stay exactly as they were.
pub proof fn lemma_advance_null_time(p: Pawn, g: GridConfig, speed: u32)
    requires
        g.wf(),
        p.wf(g),
    ensures
        advance_spec(p, speed, 0) == p,
{
    match p.step {
        None => {},
        Some(s) => {
            assert(s.progress + speed * 0 == s.progress);
        },
    }
}

} // verus!
