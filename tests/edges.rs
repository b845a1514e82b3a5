use edge_tracker::edge::{edge_crossing, find_points, EdgePoints};

const TR: i64 = 36_869_898;
const TL: i64 = 143_130_102;

#[test]
fn crossing_of_a_diagonal_ray() {
    // top edge of an 800 by 600 screen, ray (1, 1)
    assert_eq!(edge_crossing(800, 600, 1, 1), Some(700));
    assert_eq!(edge_crossing(800, 600, -1, 1), Some(100));
    assert_eq!(edge_crossing(800, 600, -1, 3), Some(300));
}

#[test]
fn crossing_parallel_ray_has_none() {
    assert_eq!(edge_crossing(800, 600, 5, 0), None);
}

#[test]
fn crossing_rounds_down() {
    assert_eq!(edge_crossing(10, 10, -7, 1), Some(-30));
    assert_eq!(edge_crossing(3, 3, -2, 1), Some(-2));
    assert_eq!(edge_crossing(3, 3, 2, -1), Some(-2));
    assert_eq!(edge_crossing(3, 3, 0, 1), Some(1));
}

#[test]
fn rays_on_one_edge_meet_when_first_is_higher() {
    let p = find_points(135_000_000, 45_000_000, Some(100), Some(700), TR, TL, 800, 0);
    assert_eq!(p, EdgePoints { v1_p1: 100, v1_p2: 700, v2_p1: 700, v2_p2: 100 });
    assert_eq!(p.v1_p2, p.v2_p1);
}

#[test]
fn rays_on_one_edge_part_when_first_is_lower() {
    let p = find_points(45_000_000, 135_000_000, Some(700), Some(100), TR, TL, 800, 0);
    assert_eq!(p, EdgePoints { v1_p1: 700, v1_p2: 800, v2_p1: 100, v2_p2: 0 });
}

#[test]
fn ray_off_the_edge_collapses() {
    // top edge; ray one points down-right, the next target below it is ray two
    let p = find_points(300_000_000, 250_000_000, Some(-900), Some(-100), TR, TL, 800, 0);
    assert_eq!(p.v1_p1, 0);
    assert_eq!(p.v1_p2, 0);
    assert_eq!(p.v2_p1, 0);
    assert_eq!(p.v2_p2, 0);
}

#[test]
fn ray_without_crossing_is_not_in_range() {
    // ray one is inside the angle range but has no crossing
    let p = find_points(90_000_000, 45_000_000, None, Some(700), TR, TL, 800, 0);
    assert_eq!(p, EdgePoints { v1_p1: 0, v1_p2: 700, v2_p1: 700, v2_p2: 0 });
}
