use vampire_ripoff::tools::fixed::{
    axis_distance, clamp_to_plane, direction_toward, isqrt, COORD_LIMIT, UNITS_PER_PIXEL,
};
use vampire_ripoff::tools::helpers::{Dimensions, Point};

#[test]
fn a_pixel_is_a_billion_units() {
    assert_eq!(UNITS_PER_PIXEL, 1_000_000_000);
    let p = Point::new(3, -2);
    assert_eq!(p.x(), 3_000_000_000);
    assert_eq!(p.y(), -2_000_000_000);
}

#[test]
fn the_largest_pixel_position_is_on_the_plane() {
    let p = Point::new(i32::MAX, i32::MIN);
    assert_eq!(p.x(), 2_147_483_647_000_000_000);
    assert_eq!(p.y(), -2_147_483_648_000_000_000);
    assert!(p.x() <= COORD_LIMIT && p.y() >= -COORD_LIMIT);
}

#[test]
fn points_given_in_units_keep_them() {
    let p = Point::from_units(1_500_000_000, -7);
    assert_eq!(p.x(), 1_500_000_000);
    assert_eq!(p.y(), -7);
}

#[test]
fn points_beyond_the_plane_land_on_its_edge() {
    let p = Point::from_units(i64::MAX, i64::MIN);
    assert_eq!(p.x(), COORD_LIMIT);
    assert_eq!(p.y(), -COORD_LIMIT);
    let q = Point::from_units(COORD_LIMIT, -COORD_LIMIT);
    assert_eq!(q.x(), COORD_LIMIT);
    assert_eq!(q.y(), -COORD_LIMIT);
}

#[test]
fn sizes_scale_like_points() {
    let d = Dimensions::new(26, 32);
    assert_eq!(d.width(), 26_000_000_000);
    assert_eq!(d.height(), 32_000_000_000);
    let e = Dimensions::from_units(5, u64::MAX);
    assert_eq!(e.width(), 5);
    assert_eq!(e.height(), COORD_LIMIT as u64);
}

#[test]
fn the_largest_pixel_size_fits() {
    let d = Dimensions::new(u32::MAX, 0);
    assert_eq!(d.width(), 4_294_967_295_000_000_000);
    assert_eq!(d.height(), 0);
}

#[test]
fn wide_values_are_clamped_to_the_plane() {
    assert_eq!(clamp_to_plane(0), 0);
    assert_eq!(clamp_to_plane(-12), -12);
    assert_eq!(clamp_to_plane(COORD_LIMIT as i128), COORD_LIMIT);
    assert_eq!(clamp_to_plane(COORD_LIMIT as i128 + 1), COORD_LIMIT);
    assert_eq!(clamp_to_plane(-(COORD_LIMIT as i128) - 1), -COORD_LIMIT);
    assert_eq!(clamp_to_plane(i128::MAX), COORD_LIMIT);
    assert_eq!(clamp_to_plane(i128::MIN), -COORD_LIMIT);
}

#[test]
fn distance_along_an_axis_has_no_sign() {
    assert_eq!(axis_distance(3, 10), 7);
    assert_eq!(axis_distance(10, 3), 7);
    assert_eq!(axis_distance(-4, -4), 0);
    assert_eq!(axis_distance(-COORD_LIMIT, COORD_LIMIT), 9_223_372_036_854_775_808);
}

#[test]
fn direction_points_at_the_target() {
    assert_eq!(direction_toward(5, 2), -1);
    assert_eq!(direction_toward(2, 5), 1);
    assert_eq!(direction_toward(5, 5), 0);
    assert_eq!(direction_toward(i64::MIN, i64::MAX), 1);
    assert_eq!(direction_toward(i64::MAX, i64::MIN), -1);
}

#[test]
fn square_roots_round_down() {
    assert_eq!(isqrt(0), 0);
    assert_eq!(isqrt(1), 1);
    assert_eq!(isqrt(2), 1);
    assert_eq!(isqrt(3), 1);
    assert_eq!(isqrt(4), 2);
    assert_eq!(isqrt(24), 4);
    assert_eq!(isqrt(25), 5);
    assert_eq!(isqrt(26), 5);
    assert_eq!(isqrt(2_000_000_000_000_000_000), 1_414_213_562);
    assert_eq!(isqrt(1_250_023_975), 35_355);
}

#[test]
fn square_roots_of_the_largest_numbers() {
    assert_eq!(isqrt(u128::MAX), u64::MAX);
    assert_eq!(isqrt((u64::MAX as u128) * (u64::MAX as u128)), u64::MAX);
    assert_eq!(isqrt((u64::MAX as u128) * (u64::MAX as u128) - 1), u64::MAX - 1);
    assert_eq!(isqrt(1u128 << 126), 1u64 << 63);
}

#[test]
fn square_roots_bracket_their_argument() {
    let mut n: u128 = 0;
    while n < 5000 {
        let r = isqrt(n) as u128;
        assert!(r * r <= n && n < (r + 1) * (r + 1));
        n += 1;
    }
}
