//! Pointer-to-tile resolver: turns a screen-space pointer event into the
//! grid tile under the pointer, or nothing.
//!
//! Only a right-button release qualifies; the point is carried through the
//! inverse camera transform (a pan, so a translation) and the inverse grid
//! placement transform (also a translation), then floor-divided into tile
//! space. A point outside the grid's footprint resolves to nothing: that is
//! the expected out-of-bounds outcome, not an error.

use vstd::prelude::*;

use crate::grid::GridConfig;
use crate::grid::ScreenPoint;
use crate::grid::TileCoordinate;
use crate::grid::Translation;
use crate::grid::WorldPoint;
use crate::grid::lemma_world_to_tile_footprint;
use crate::grid::world_to_tile;
use crate::grid::world_to_tile_spec;

verus! {

/// Pointer buttons the input feed can report.
#[derive(Clone, Copy, Debug, PartialEq, Eq, Structural)]
pub enum PointerButton {
    Left,
    Middle,
    Right,
    Other,
}

/// Whether a pointer button went down or came up.
#[derive(Clone, Copy, Debug, PartialEq, Eq, Structural)]
pub enum ButtonState {
    Pressed,
    Released,
}

/// Only a right-button release asks for navigation; reacting to the release
/// rather than the press keeps camera drags from issuing destinations.
pub open spec fn qualifying_event(button: PointerButton, state: ButtonState) -> bool {
    button is Right && state is Released
}

/// World-space image of a screen point under the inverse camera transform:
/// the camera only pans, so the inverse adds the camera's world offset.
pub open spec fn screen_to_world_spec(s: ScreenPoint, camera: Translation) -> (int, int) {
    (s.x + camera.x, s.y + camera.y)
}

/// Grid-local image of a world point under the inverse grid placement
/// transform.
pub open spec fn world_to_local_spec(wx: int, wy: int, placement: Translation) -> (int, int) {
    (wx - placement.x, wy - placement.y)
}

/// What resolving produces: on a qualifying event with a pointer position,
/// the tile whose footprint contains the transformed point; otherwise
/// nothing.
pub open spec fn resolve_spec(
    button: PointerButton,
    state: ButtonState,
    cursor: Option<ScreenPoint>,
    camera: Translation,
    placement: Translation,
    g: GridConfig,
) -> Option<TileCoordinate> {
    if !qualifying_event(button, state) {
        None
    } else {
        match cursor {
            None => None,
            Some(s) => {
                let w = screen_to_world_spec(s, camera);
                let l = world_to_local_spec(w.0, w.1, placement);
                world_to_tile_spec(l.0, l.1, g)
            },
        }
    }
}

/// Resolve a pointer event to the tile under the pointer. `cursor` is absent
/// when the pointer is outside the window.
pub fn resolve(
    button: PointerButton,
    state: ButtonState,
    cursor: Option<ScreenPoint>,
    camera: Translation,
    placement: Translation,
    g: &GridConfig,
) -> (r: Option<TileCoordinate>)
    requires
        g.wf(),
    ensures
        r == resolve_spec(button, state, cursor, camera, placement, *g),
        match r {
            Some(t) => g.in_bounds(t),
            None => true,
        },
{
    if !(button == PointerButton::Right && state == ButtonState::Released) {
        return None;
    }
    match cursor {
        None => None,
        Some(s) => {
            let wx: i64 = (s.x as i64) + (camera.x as i64);
            let wy: i64 = (s.y as i64) + (camera.y as i64);
            let lx: i64 = wx - (placement.x as i64);
            let ly: i64 = wy - (placement.y as i64);
            world_to_tile(WorldPoint { x: lx, y: ly }, g)
        },
    }
}

/// Law: a pointer position whose world-space image lies outside the grid's
/// footprint never resolves to a tile, whatever the event.
pub proof fn lemma_resolve_outside_footprint(
    button: PointerButton,
    state: ButtonState,
    s: ScreenPoint,
    camera: Translation,
    placement: Translation,
    g: GridConfig,
)
    requires
        g.wf(),
        !g.footprint_contains(
            world_to_local_spec(
                screen_to_world_spec(s, camera).0,
                screen_to_world_spec(s, camera).1,
                placement,
            ).0,
            world_to_local_spec(
                screen_to_world_spec(s, camera).0,
                screen_to_world_spec(s, camera).1,
                placement,
            ).1,
        ),
    ensures
        resolve_spec(button, state, Some(s), camera, placement, g) is None,
{
    let w = screen_to_world_spec(s, camera);
    let l = world_to_local_spec(w.0, w.1, placement);
    lemma_world_to_tile_footprint(l.0, l.1, g);
}

} // verus!
