use monstrous::grid::GridConfig;
use monstrous::grid::ScreenPoint;
use monstrous::grid::TileCoordinate;
use monstrous::grid::Translation;
use monstrous::grid::tile_to_world;
use monstrous::pawns::Pawn;
use monstrous::pawns::PawnDest;
use monstrous::pawns::PawnNextTile;
use monstrous::pawns::PawnPos;
use monstrous::pawns::make_pawn;
use monstrous::pawns::pawn_control;
use monstrous::pawns::pawn_motion;
use monstrous::pawns::pawn_transform;
use monstrous::pawns::render_position;
use monstrous::pawns::tile_distance_milli;
use monstrous::resolve::ButtonState;
use monstrous::resolve::PointerButton;

fn grid() -> GridConfig {
    GridConfig { width: 320, height: 320, tile_w: 32, tile_h: 32 }
}

const SPEED: u32 = 1;  // 1 milli-tile per millisecond: one tile per second

fn pawn_at(x: u32, y: u32) -> Pawn {
    Pawn { position: PawnPos { x, y }, destination: None, step: None }
}

#[test]
fn pawn_starts_at_the_grid_center_idle() {
    let p = make_pawn(&grid());
    assert_eq!(p.position, PawnPos { x: 160, y: 160 });
    assert!(p.destination.is_none());
    assert!(p.step.is_none());
}

#[test]
fn distances_are_euclidean_in_milli_tiles() {
    assert_eq!(tile_distance_milli(0, 0, 0, 3), 3000);
    assert_eq!(tile_distance_milli(0, 0, 3, 4), 5000);
    assert_eq!(tile_distance_milli(3, 4, 0, 0), 5000);
    assert_eq!(tile_distance_milli(0, 0, 1, 1), 1414);
    assert_eq!(tile_distance_milli(7, 7, 7, 7), 0);
}

#[test]
fn destination_on_own_tile_goes_idle_without_a_step() {
    let g = grid();
    let mut p = pawn_at(5, 5);
    p.destination = Some(PawnDest { x: 5, y: 5 });
    pawn_motion(&mut p, &g);
    assert!(p.destination.is_none());
    assert!(p.step.is_none());
    assert_eq!(p.position, PawnPos { x: 5, y: 5 });
    let r = render_position(&p, &g);
    let w = tile_to_world(TileCoordinate { x: 5, y: 5 }, &g);
    assert_eq!(r, w);
}

#[test]
fn straight_journey_covers_one_tile_per_second_and_arrives() {
    let g = grid();
    let mut p = pawn_at(0, 0);
    p.destination = Some(PawnDest { x: 0, y: 3 });
    pawn_motion(&mut p, &g);
    assert_eq!(p.step, Some(PawnNextTile { x: 0, y: 3, progress: 0 }));

    // 1.0 s in ten 100 ms ticks: a third of the way, one tile up on screen
    for _ in 0..10 {
        pawn_transform(&mut p, &g, SPEED, 100);
        pawn_motion(&mut p, &g);
    }
    assert_eq!(p.position, PawnPos { x: 0, y: 0 });
    assert_eq!(p.step, Some(PawnNextTile { x: 0, y: 3, progress: 1000 }));
    let r = render_position(&p, &g);
    assert_eq!(r.x, 0);
    assert_eq!(r.y, 32);

    // two more seconds: arrived, destination cleared
    for _ in 0..20 {
        pawn_transform(&mut p, &g, SPEED, 100);
        pawn_motion(&mut p, &g);
    }
    assert_eq!(p.position, PawnPos { x: 0, y: 3 });
    assert!(p.step.is_none());
    assert!(p.destination.is_none());
    let r = render_position(&p, &g);
    assert_eq!(r.x, 0);
    assert_eq!(r.y, 96);
}

#[test]
fn diagonal_interpolation_follows_the_direct_line() {
    let g = grid();
    let mut p = pawn_at(0, 0);
    p.destination = Some(PawnDest { x: 3, y: 4 });
    pawn_motion(&mut p, &g);
    // distance 5000; half way after 2.5 s
    pawn_transform(&mut p, &g, SPEED, 2500);
    let r = render_position(&p, &g);
    assert_eq!(r.x, 48);
    assert_eq!(r.y, 64);
}

#[test]
fn interpolation_toward_lower_coordinates_rounds_toward_the_pawn() {
    let g = grid();
    let mut p = pawn_at(5, 5);
    p.destination = Some(PawnDest { x: 2, y: 1 });
    pawn_motion(&mut p, &g);
    // distance 5000; after 1 s: offsets floor(3*32*1000/5000) = 19
    // and floor(4*32*1000/5000) = 25, taken off the start tile's corner
    let r = pawn_transform(&mut p, &g, SPEED, 1000);
    assert_eq!(r.x, 5 * 32 - 19);
    assert_eq!(r.y, 5 * 32 - 25);
}

#[test]
fn new_destination_while_stepping_discards_the_step_not_the_position() {
    let g = grid();
    let mut p = pawn_at(2, 2);
    p.destination = Some(PawnDest { x: 10, y: 2 });
    pawn_motion(&mut p, &g);
    pawn_transform(&mut p, &g, SPEED, 500);
    assert_eq!(p.step, Some(PawnNextTile { x: 10, y: 2, progress: 500 }));

    let r = pawn_control(
        &mut p,
        PointerButton::Right,
        ButtonState::Released,
        Some(ScreenPoint { x: 4 * 32, y: 7 * 32 }),
        Translation { x: 0, y: 0 },
        Translation { x: 0, y: 0 },
        &g,
    );
    assert_eq!(r, Some(TileCoordinate { x: 4, y: 7 }));
    assert_eq!(p.position, PawnPos { x: 2, y: 2 });
    assert_eq!(p.destination, Some(PawnDest { x: 4, y: 7 }));
    assert!(p.step.is_none());

    pawn_motion(&mut p, &g);
    assert_eq!(p.step, Some(PawnNextTile { x: 4, y: 7, progress: 0 }));
    assert_eq!(p.position, PawnPos { x: 2, y: 2 });
}

#[test]
fn non_qualifying_events_leave_the_pawn_alone() {
    let g = grid();
    let mut p = pawn_at(2, 2);
    p.destination = Some(PawnDest { x: 10, y: 2 });
    pawn_motion(&mut p, &g);
    let r = pawn_control(
        &mut p,
        PointerButton::Right,
        ButtonState::Pressed,
        Some(ScreenPoint { x: 4 * 32, y: 7 * 32 }),
        Translation { x: 0, y: 0 },
        Translation { x: 0, y: 0 },
        &g,
    );
    assert_eq!(r, None);
    assert_eq!(p.destination, Some(PawnDest { x: 10, y: 2 }));
    assert_eq!(p.step, Some(PawnNextTile { x: 10, y: 2, progress: 0 }));
}

#[test]
fn zero_delta_time_ticks_change_nothing() {
    let g = grid();
    let mut p = pawn_at(1, 1);
    p.destination = Some(PawnDest { x: 8, y: 9 });
    pawn_motion(&mut p, &g);
    pawn_transform(&mut p, &g, SPEED, 250);
    let before = p;
    for _ in 0..5 {
        let r = pawn_transform(&mut p, &g, SPEED, 0);
        assert_eq!(p.position, before.position);
        assert_eq!(p.destination, before.destination);
        assert_eq!(p.step, before.step);
        assert_eq!(r, render_position(&before, &g));
    }
}

#[test]
fn overshooting_a_tick_clamps_to_the_target() {
    let g = grid();
    let mut p = pawn_at(0, 0);
    p.destination = Some(PawnDest { x: 0, y: 1 });
    pawn_motion(&mut p, &g);
    // one huge tick: far past the 1000 milli-tile distance
    let r = pawn_transform(&mut p, &g, SPEED, 60_000);
    assert_eq!(p.position, PawnPos { x: 0, y: 1 });
    assert!(p.step.is_none());
    assert_eq!(r.x, 0);
    assert_eq!(r.y, 32);
    pawn_motion(&mut p, &g);
    assert!(p.destination.is_none());
}
