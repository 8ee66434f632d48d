use crimsonland::fixed::{isqrt, mul_div, saturate_i32, scale, signed_mul_div};
use crimsonland::geometry::{advance, blend, direction_to, dist_sq, normalize_or_zero, Vector};

fn v(x: i32, y: i32) -> Vector {
    Vector { x, y }
}

#[test]
fn distance_calculation() {
    let d = dist_sq(v(0, 0), v(3000, 4000));
    assert_eq!(d, 25_000_000);
    assert_eq!(isqrt(d), 5000);
}

#[test]
fn dist_sq_at_the_corners_of_the_plane() {
    let d = dist_sq(v(i32::MIN, i32::MIN), v(i32::MAX, i32::MAX));
    assert_eq!(d, 2 * (u32::MAX as u128) * (u32::MAX as u128));
    assert_eq!(dist_sq(v(7, -7), v(7, -7)), 0);
    assert_eq!(dist_sq(v(-3, 0), v(0, 4)), 25);
}

#[test]
fn isqrt_rounds_down() {
    assert_eq!(isqrt(0), 0);
    assert_eq!(isqrt(1), 1);
    assert_eq!(isqrt(3), 1);
    assert_eq!(isqrt(4), 2);
    assert_eq!(isqrt(24), 4);
    assert_eq!(isqrt(25), 5);
    assert_eq!(isqrt(26), 5);
    assert_eq!(isqrt(580_000_000_000), 761_577);
    assert_eq!(isqrt(u128::MAX), u64::MAX);
    assert_eq!(isqrt((u64::MAX as u128) * (u64::MAX as u128)), u64::MAX);
    assert_eq!(isqrt((u64::MAX as u128) * (u64::MAX as u128) - 1), u64::MAX - 1);
}

#[test]
fn mul_div_rounds_down_and_saturates() {
    assert_eq!(mul_div(15_000, 1000, 1000), 15_000);
    assert_eq!(mul_div(7, 3, 2), 10);
    assert_eq!(mul_div(u32::MAX, u32::MAX, 1), u32::MAX);
    assert_eq!(mul_div(u32::MAX, u32::MAX, u32::MAX), u32::MAX);
    assert_eq!(mul_div(0, u32::MAX, 1), 0);
    assert_eq!(scale(15_000, 2000), 30_000);
    assert_eq!(scale(1, 999), 0);
    assert_eq!(scale(u32::MAX, 1001), u32::MAX);
}

#[test]
fn signed_mul_div_rounds_toward_zero() {
    assert_eq!(signed_mul_div(7, 3, 2), 10);
    assert_eq!(signed_mul_div(-7, 3, 2), -10);
    assert_eq!(signed_mul_div(-1, 1, 2), 0);
    assert_eq!(signed_mul_div(i64::MIN, 1, 1), i64::MIN as i128);
    assert_eq!(signed_mul_div(i64::MIN, u64::MAX, 1), (i64::MIN as i128) * (u64::MAX as i128));
}

#[test]
fn saturate_i32_cuts_off() {
    assert_eq!(saturate_i32(5), 5);
    assert_eq!(saturate_i32(i32::MAX as i128 + 1), i32::MAX);
    assert_eq!(saturate_i32(i32::MIN as i128 - 1), i32::MIN);
    assert_eq!(saturate_i32(i128::MAX), i32::MAX);
    assert_eq!(saturate_i32(i128::MIN), i32::MIN);
}

#[test]
fn normalize_scales_to_one_thousand() {
    assert_eq!(normalize_or_zero(3000, 4000), v(600, 800));
    assert_eq!(normalize_or_zero(-3000, 4000), v(-600, 800));
    assert_eq!(normalize_or_zero(1, 0), v(1000, 0));
    assert_eq!(normalize_or_zero(0, -5), v(0, -1000));
    assert_eq!(normalize_or_zero(1, 1), v(707, 707));
    assert_eq!(normalize_or_zero(-1, 2), v(-447, 894));
    assert_eq!(normalize_or_zero(0x7FFF_FFFF, 0x7FFF_FFFF), v(707, 707));
    assert_eq!(normalize_or_zero(0x8000_0000, 0x8000_0000), v(707, 707));
    assert_eq!(normalize_or_zero(1000, 1000), v(707, 707));
    assert_eq!(normalize_or_zero(700_000, 300_000), v(919, 393));
}

#[test]
fn normalize_of_zero_is_zero() {
    assert_eq!(normalize_or_zero(0, 0), v(0, 0));
}

#[test]
fn normalize_takes_the_whole_range() {
    assert_eq!(normalize_or_zero(i64::MIN, 0), v(-1000, 0));
    assert_eq!(normalize_or_zero(i64::MAX, i64::MIN), v(707, -707));
}

#[test]
fn direction_to_points_at_the_target() {
    assert_eq!(direction_to(v(0, 0), v(0, 50_000)), v(0, 1000));
    assert_eq!(direction_to(v(10, 10), v(10, 10)), v(0, 0));
    assert_eq!(direction_to(v(i32::MAX, 0), v(i32::MIN, 0)), v(-1000, 0));
}

#[test]
fn blend_turns_part_of_the_way() {
    assert_eq!(blend(v(1000, 0), v(0, 1000), 0), v(1000, 0));
    assert_eq!(blend(v(1000, 0), v(0, 1000), 1000), v(0, 1000));
    assert_eq!(blend(v(1000, 0), v(0, 1000), 300), v(919, 393));
    assert_eq!(blend(v(1000, 0), v(0, 1000), 500), v(707, 707));
}

#[test]
fn blend_of_opposite_directions_can_vanish() {
    assert_eq!(blend(v(1000, 0), v(-1000, 0), 500), v(0, 0));
}

#[test]
fn advance_moves_along_the_direction() {
    assert_eq!(advance(v(0, 0), v(1000, 0), 800_000, 16), v(12_800, 0));
    assert_eq!(advance(v(100, -100), v(600, 800), 500_000, 1000), v(300_100, 399_900));
    assert_eq!(advance(v(0, 0), v(-600, -800), 500_000, 1000), v(-300_000, -400_000));
    assert_eq!(advance(v(5, 5), v(0, 0), 500_000, 1000), v(5, 5));
    assert_eq!(advance(v(5, 5), v(1000, 0), 0, 1000), v(5, 5));
    assert_eq!(advance(v(5, 5), v(1000, 0), 500_000, 0), v(5, 5));
}

#[test]
fn advance_rounds_toward_zero() {
    assert_eq!(advance(v(0, 0), v(1, -1), 1500, 1), v(0, 0));
    assert_eq!(advance(v(0, 0), v(1000, -1000), 1999, 1), v(1, -1));
}

#[test]
fn advance_stops_at_the_edge_of_the_plane() {
    assert_eq!(advance(v(i32::MAX - 5, 0), v(1000, 0), 800_000, 16), v(i32::MAX, 0));
    assert_eq!(advance(v(0, i32::MIN + 5), v(0, -1000), 800_000, 16), v(0, i32::MIN));
    assert_eq!(
        advance(v(0, 0), v(i32::MAX, i32::MIN), u32::MAX, u32::MAX),
        v(i32::MAX, i32::MIN)
    );
}

#[test]
fn normalized_vectors_are_headings() {
    let coordinates: [i64; 13] = [
        0,
        1,
        -1,
        2,
        3,
        -7,
        999,
        1000,
        -123_456,
        2_147_483_647,
        -2_147_483_648,
        4_000_000_000_000,
        i64::MAX,
    ];
    for x in coordinates {
        for y in coordinates {
            let r = normalize_or_zero(x, y);
            let length_sq = (r.x as i64) * (r.x as i64) + (r.y as i64) * (r.y as i64);
            if x == 0 && y == 0 {
                assert_eq!(r, Vector { x: 0, y: 0 });
            } else {
                assert!((998 * 998..=1_000_002).contains(&length_sq), "{x} {y} {r:?}");
                assert_eq!(r.x.signum() as i64, if r.x == 0 { 0 } else { x.signum() });
                assert_eq!(r.y.signum() as i64, if r.y == 0 { 0 } else { y.signum() });
            }
        }
    }
    assert_eq!(normalize_or_zero(2000, 0), Vector { x: 1000, y: 0 });
    assert_eq!(normalize_or_zero(3, 4), Vector { x: 600, y: 800 });
}
