use edge_tracker::angle::{
    closest_angle_clockwise, closest_angle_counter_clockwise, normalize_positive_angle,
    rotate_half_turn, FULL_TURN, HALF_TURN, QUARTER_TURN,
};

#[test]
fn normalize_keeps_positive_angles() {
    assert_eq!(normalize_positive_angle(0), 0);
    assert_eq!(normalize_positive_angle(45_000_000), 45_000_000);
    assert_eq!(normalize_positive_angle(HALF_TURN), HALF_TURN);
}

#[test]
fn normalize_adds_a_turn_to_negative_angles() {
    assert_eq!(normalize_positive_angle(-QUARTER_TURN), 270_000_000);
    assert_eq!(normalize_positive_angle(-1), FULL_TURN - 1);
    assert_eq!(normalize_positive_angle(-FULL_TURN), 0);
}

#[test]
fn normalize_lands_in_one_turn() {
    for a in [-FULL_TURN, -HALF_TURN + 1, -7, 0, 7, HALF_TURN, FULL_TURN - 1] {
        let r = normalize_positive_angle(a);
        assert!(0 <= r && r < FULL_TURN);
    }
}

#[test]
fn clockwise_picks_nearest_below() {
    // from 50: lower 40 is 10 away, higher 140 is 270 away, other 30 is 20 away
    assert_eq!(closest_angle_clockwise(50, 40, 140, 30), 40);
    // other 45 is nearer than lower 40
    assert_eq!(closest_angle_clockwise(50, 40, 140, 45), 45);
    // below zero the distance wraps: higher 350_000_000 is nearer than lower
    assert_eq!(closest_angle_clockwise(10, 100, 350_000_000, 200), 350_000_000);
}

#[test]
fn clockwise_coincident_lower_is_a_turn_away() {
    let v = 36_869_898;
    let higher = 143_130_102;
    // lower == v sits a whole turn away and loses; higher and other decide
    assert_eq!(closest_angle_clockwise(v, v, higher, 100_000_000), higher);
    assert_eq!(closest_angle_clockwise(v, v, higher, 200_000_000), 200_000_000);
    assert_eq!(closest_angle_clockwise(v, v, higher, 10_000_000), 10_000_000);
}

#[test]
fn clockwise_ties_go_to_other() {
    // lower and other coincide: the tie goes to other, the same value
    assert_eq!(closest_angle_clockwise(50, 40, 140, 40), 40);
    // higher and other tie
    assert_eq!(closest_angle_clockwise(50, 10, 40, 40), 40);
}

#[test]
fn counter_clockwise_picks_nearest_above() {
    // from 50: lower 40 is 10 below (farthest going up), higher 140 is 90 above
    assert_eq!(closest_angle_counter_clockwise(50, 40, 140, 30), 140);
    assert_eq!(closest_angle_counter_clockwise(50, 40, 140, 100), 100);
    assert_eq!(closest_angle_counter_clockwise(50, 100, 140, 30), 100);
}

#[test]
fn directions_part_for_equal_angles_inside_a_range() {
    let lower = 36_869_898;
    let higher = 143_130_102;
    let x = 90_000_000;
    assert_eq!(closest_angle_clockwise(x, lower, higher, x), lower);
    assert_eq!(closest_angle_counter_clockwise(x, lower, higher, x), higher);
}

#[test]
fn directions_agree_for_equal_angles_on_a_corner() {
    let lower = 36_869_898;
    let higher = 143_130_102;
    assert_eq!(closest_angle_clockwise(lower, lower, higher, lower), higher);
    assert_eq!(closest_angle_counter_clockwise(lower, lower, higher, lower), higher);
}

#[test]
fn half_turn_rotation() {
    assert_eq!(rotate_half_turn(0), HALF_TURN);
    assert_eq!(rotate_half_turn(HALF_TURN), 0);
    assert_eq!(rotate_half_turn(FULL_TURN - 1), HALF_TURN - 1);
}

#[test]
fn half_turn_keeps_the_clockwise_choice() {
    let (a, l, h, o) = (10, 100, 350_000_000, 200);
    let r = closest_angle_clockwise(a, l, h, o);
    let turned = closest_angle_clockwise(
        rotate_half_turn(a),
        rotate_half_turn(l),
        rotate_half_turn(h),
        rotate_half_turn(o),
    );
    assert_eq!(turned, rotate_half_turn(r));
    let r = closest_angle_counter_clockwise(a, l, h, o);
    let turned = closest_angle_counter_clockwise(
        rotate_half_turn(a),
        rotate_half_turn(l),
        rotate_half_turn(h),
        rotate_half_turn(o),
    );
    assert_eq!(turned, rotate_half_turn(r));
}
