use nora::utils::{
    ceil_g, scale, tile_ceil, tile_floor, tile_round, tile_trunc, unit_floor, Vec2, GRAVITY,
    TILE_SIZE, UNIT,
};

#[test]
fn a_cell_is_eight_units() {
    assert_eq!(TILE_SIZE, 8 * UNIT);
    assert_eq!(GRAVITY, 900);
}

#[test]
fn floor_goes_down_on_both_sides_of_zero() {
    assert_eq!(tile_floor(0), 0);
    assert_eq!(tile_floor(7999), 0);
    assert_eq!(tile_floor(8000), 1);
    assert_eq!(tile_floor(-1), -1);
    assert_eq!(tile_floor(-8000), -1);
    assert_eq!(tile_floor(-8001), -2);
}

#[test]
fn ceil_goes_up_on_both_sides_of_zero() {
    assert_eq!(tile_ceil(0), 0);
    assert_eq!(tile_ceil(1), 1);
    assert_eq!(tile_ceil(8000), 1);
    assert_eq!(tile_ceil(8001), 2);
    assert_eq!(tile_ceil(-1), 0);
    assert_eq!(tile_ceil(-8000), -1);
    assert_eq!(tile_ceil(-8001), -1);
}

#[test]
fn trunc_goes_toward_zero() {
    assert_eq!(tile_trunc(7999), 0);
    assert_eq!(tile_trunc(-7999), 0);
    assert_eq!(tile_trunc(16001), 2);
    assert_eq!(tile_trunc(-16001), -2);
}

#[test]
fn ceil_g_goes_away_from_zero() {
    assert_eq!(ceil_g(0), 0);
    assert_eq!(ceil_g(1), 1);
    assert_eq!(ceil_g(-1), -1);
    assert_eq!(ceil_g(8000), 1);
    assert_eq!(ceil_g(-8000), -1);
    assert_eq!(ceil_g(8001), 2);
    assert_eq!(ceil_g(-8001), -2);
}

#[test]
fn round_takes_halves_away_from_zero() {
    assert_eq!(tile_round(3999), 0);
    assert_eq!(tile_round(4000), 1);
    assert_eq!(tile_round(-3999), 0);
    assert_eq!(tile_round(-4000), -1);
    assert_eq!(tile_round(24000), 3);
    assert_eq!(tile_round(11999), 1);
    assert_eq!(tile_round(12000), 2);
}

#[test]
fn unit_floor_drops_the_fraction_downward() {
    assert_eq!(unit_floor(1999), 1000);
    assert_eq!(unit_floor(2000), 2000);
    assert_eq!(unit_floor(-1), -1000);
    assert_eq!(unit_floor(-1000), -1000);
    assert_eq!(unit_floor(-1001), -2000);
    assert_eq!(unit_floor(0), 0);
}

#[test]
fn scale_rounds_toward_zero() {
    assert_eq!(scale(2200, 210), 462);
    assert_eq!(scale(-2200, 210), -462);
    assert_eq!(scale(301, 210), 63);
    assert_eq!(scale(-301, 210), -63);
    assert_eq!(scale(1000, 400), 400);
    assert_eq!(scale(49, 20), 0);
    assert_eq!(scale(-49, 20), 0);
}

#[test]
fn vectors_keep_their_coordinates() {
    let v = Vec2::new(3, -4);
    assert_eq!(v.x, 3);
    assert_eq!(v.y, -4);
    assert_eq!(Vec2::zero(), Vec2::new(0, 0));
}
