use nora::physics::update_physics_entity;
use nora::tilemap::Tilemap;
use nora::utils::Vec2;

fn empty() -> Vec<usize> {
    vec![0; 1296]
}

/// A map whose collision layer is solid in the given cells.
fn map_with(solid: &[(usize, usize)]) -> Tilemap {
    let mut collision = empty();
    for (x, y) in solid {
        collision[x + y * 48] = 1;
    }
    Tilemap::from_layers(empty(), empty(), collision, empty(), empty(), empty()).unwrap()
}

/// A map with a floor over the whole width in row `row`.
fn map_with_floor(row: usize) -> Tilemap {
    let cells: Vec<(usize, usize)> = (0..48).map(|x| (x, row)).collect();
    map_with(&cells)
}

#[test]
fn an_actor_at_rest_on_a_floor_stays_grounded() {
    let map = map_with_floor(21);
    let mut pos = Vec2::new(80_000, 160_000);
    let mut forces = Vec2::zero();
    let mut velocity = Vec2::zero();
    let (grounded, head_covered) =
        update_physics_entity(&mut pos, &mut forces, &mut velocity, false, &map);
    assert!(grounded);
    assert!(!head_covered);
    assert_eq!(velocity, Vec2::zero());
    assert_eq!(pos, Vec2::new(80_000, 160_000));
    assert_eq!(forces, Vec2::new(0, 900));
}

#[test]
fn rest_is_the_same_between_the_columns() {
    let map = map_with(&[(10, 21)]);
    let mut pos = Vec2::new(83_500, 160_000);
    let mut forces = Vec2::zero();
    let mut velocity = Vec2::zero();
    let (grounded, _) = update_physics_entity(&mut pos, &mut forces, &mut velocity, true, &map);
    assert!(grounded);
    assert_eq!(velocity, Vec2::zero());
    assert_eq!(pos, Vec2::new(83_500, 160_000));
}

#[test]
fn a_second_tick_at_rest_changes_nothing() {
    let map = map_with_floor(21);
    let mut pos = Vec2::new(80_000, 160_000);
    let mut velocity = Vec2::zero();
    let mut forces = Vec2::zero();
    let first = update_physics_entity(&mut pos, &mut forces, &mut velocity, true, &map);
    let (pos_once, velocity_once) = (pos, velocity);
    let mut forces = Vec2::zero();
    let second = update_physics_entity(&mut pos, &mut forces, &mut velocity, true, &map);
    assert_eq!(first, (true, false));
    assert_eq!(second, first);
    assert_eq!(pos, pos_once);
    assert_eq!(velocity, velocity_once);
    assert_eq!(velocity, Vec2::zero());
}

#[test]
fn slow_horizontal_motion_is_snapped_to_rest() {
    let map = map_with_floor(21);
    let mut pos = Vec2::new(80_000, 160_000);
    let mut forces = Vec2::zero();
    let mut velocity = Vec2::new(250, 0);
    update_physics_entity(&mut pos, &mut forces, &mut velocity, false, &map);
    assert_eq!(velocity.x, 0);
    assert_eq!(pos.x, 80_250);

    let mut velocity = Vec2::new(-300, 0);
    let mut forces = Vec2::zero();
    update_physics_entity(&mut pos, &mut forces, &mut velocity, false, &map);
    assert_eq!(velocity.x, 0);
    assert_eq!(pos.x, 79_950);
}

#[test]
fn motion_above_the_dead_zone_is_kept() {
    let map = map_with_floor(21);
    let mut pos = Vec2::new(80_000, 160_000);
    let mut forces = Vec2::new(1, 0);
    let mut velocity = Vec2::new(300, 0);
    update_physics_entity(&mut pos, &mut forces, &mut velocity, false, &map);
    assert_eq!(velocity.x, 301);
    assert_eq!(pos.x, 80_301);
}

#[test]
fn a_fall_gains_gravity_every_tick_until_it_lands() {
    // The floor is row 21, so feet rest at 160 units; the fall starts 100
    // units higher.
    let map = map_with_floor(21);
    let mut pos = Vec2::new(80_000, 60_000);
    let mut velocity = Vec2::zero();
    let mut ticks: i64 = 0;
    loop {
        let mut forces = Vec2::zero();
        let before = pos;
        let (grounded, _) =
            update_physics_entity(&mut pos, &mut forces, &mut velocity, false, &map);
        ticks += 1;
        if grounded {
            assert_eq!(velocity.y, 0);
            assert_eq!(pos.y, (before.y + 7999) / 8000 * 8000);
            break;
        }
        assert_eq!(velocity.y, 900 * ticks);
        assert_eq!(pos.y, 60_000 + 900 * ticks * (ticks + 1) / 2);
        assert!(ticks < 100);
    }
    // 900 * n * (n + 1) / 2 first passes 100 units less one cell at n = 14.
    assert_eq!(ticks, 15);
    assert_eq!(velocity, Vec2::zero());
}

#[test]
fn a_rising_actor_that_hits_a_ceiling_is_put_on_the_boundary_below_it() {
    let map = map_with(&[(10, 5)]);
    let mut pos = Vec2::new(80_000, 50_000);
    let mut forces = Vec2::zero();
    let mut velocity = Vec2::new(0, -3900);
    let (grounded, head_covered) =
        update_physics_entity(&mut pos, &mut forces, &mut velocity, false, &map);
    // the move would end at 47, in row 5; it ends on the boundary of row 6
    assert!(!grounded);
    assert_eq!(pos.y, 48_000);
    assert_eq!(velocity.y, 0);
    assert!(head_covered);
}

#[test]
fn a_wall_stops_horizontal_motion_on_the_boundary_behind() {
    let map = map_with(&[(12, 20), (0, 21), (10, 21), (11, 21)]);
    let mut pos = Vec2::new(85_000, 160_000);
    let mut forces = Vec2::zero();
    let mut velocity = Vec2::new(4000, 0);
    let (grounded, _) = update_physics_entity(&mut pos, &mut forces, &mut velocity, false, &map);
    assert!(grounded);
    // 89 would straddle columns 11 and 12; the move ends on the boundary
    // after 85, which is 88
    assert_eq!(pos, Vec2::new(88_000, 160_000));
    assert_eq!(velocity, Vec2::zero());

    let mut pos = Vec2::new(107_000, 160_000);
    let mut forces = Vec2::zero();
    let mut velocity = Vec2::new(-4000, 0);
    let map = map_with(&[(12, 20), (13, 21), (14, 21)]);
    update_physics_entity(&mut pos, &mut forces, &mut velocity, false, &map);
    assert_eq!(pos, Vec2::new(104_000, 160_000));
    assert_eq!(velocity, Vec2::zero());
}

#[test]
fn a_tall_actor_is_probed_one_row_higher() {
    let map = map_with(&[(12, 19), (10, 21), (11, 21)]);
    let mut pos = Vec2::new(85_000, 160_000);
    let mut forces = Vec2::zero();
    let mut velocity = Vec2::new(4000, 0);
    update_physics_entity(&mut pos, &mut forces, &mut velocity, false, &map);
    assert_eq!(pos.x, 89_000);
    assert_eq!(velocity.x, 4000);

    let mut pos = Vec2::new(85_000, 160_000);
    let mut forces = Vec2::zero();
    let mut velocity = Vec2::new(4000, 0);
    update_physics_entity(&mut pos, &mut forces, &mut velocity, true, &map);
    assert_eq!(pos.x, 88_000);
    assert_eq!(velocity.x, 0);
}

#[test]
fn the_head_is_covered_one_row_up_when_short_and_two_when_tall() {
    let map = map_with(&[(10, 18), (10, 21)]);
    let mut pos = Vec2::new(80_000, 160_000);
    let mut forces = Vec2::zero();
    let mut velocity = Vec2::zero();
    let short = update_physics_entity(&mut pos, &mut forces, &mut velocity, false, &map);
    assert_eq!(short, (true, false));
    let mut forces = Vec2::zero();
    let tall = update_physics_entity(&mut pos, &mut forces, &mut velocity, true, &map);
    assert_eq!(tall, (true, true));

    let map = map_with(&[(10, 19), (10, 21)]);
    let mut forces = Vec2::zero();
    let short = update_physics_entity(&mut pos, &mut forces, &mut velocity, false, &map);
    assert_eq!(short, (true, true));
}

#[test]
fn nothing_leaves_the_map() {
    let map = map_with(&[]);
    // to the left
    let mut pos = Vec2::new(2_000, 80_000);
    let mut forces = Vec2::zero();
    let mut velocity = Vec2::new(-5000, -900);
    update_physics_entity(&mut pos, &mut forces, &mut velocity, false, &map);
    assert_eq!(pos, Vec2::new(0, 80_000));
    assert_eq!(velocity, Vec2::zero());
    // to the right: column 47 is the last
    let mut pos = Vec2::new(375_000, 80_000);
    let mut forces = Vec2::zero();
    let mut velocity = Vec2::new(5000, -900);
    update_physics_entity(&mut pos, &mut forces, &mut velocity, false, &map);
    assert_eq!(pos, Vec2::new(376_000, 80_000));
    // through the bottom: row 26 is the last
    let mut pos = Vec2::new(80_000, 207_000);
    let mut forces = Vec2::zero();
    let mut velocity = Vec2::new(0, 5000);
    let (grounded, _) = update_physics_entity(&mut pos, &mut forces, &mut velocity, false, &map);
    assert!(grounded);
    assert_eq!(pos, Vec2::new(80_000, 208_000));
    // through the top
    let mut pos = Vec2::new(80_000, 3_000);
    let mut forces = Vec2::zero();
    let mut velocity = Vec2::new(0, -5000);
    let (grounded, _) = update_physics_entity(&mut pos, &mut forces, &mut velocity, false, &map);
    assert!(!grounded);
    assert_eq!(pos, Vec2::new(80_000, 0));
    assert_eq!(velocity, Vec2::zero());
}

#[test]
fn gravity_is_added_to_the_force() {
    let map = map_with(&[]);
    let mut pos = Vec2::new(80_000, 80_000);
    let mut forces = Vec2::new(700, -3500);
    let mut velocity = Vec2::new(100, 200);
    let flags = update_physics_entity(&mut pos, &mut forces, &mut velocity, false, &map);
    assert_eq!(flags, (false, false));
    assert_eq!(forces, Vec2::new(700, -2600));
    assert_eq!(velocity, Vec2::new(800, -2400));
    assert_eq!(pos, Vec2::new(80_800, 77_600));
}
