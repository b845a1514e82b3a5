//! Angle arithmetic on a circle of `FULL_TURN` units.

use vstd::prelude::*;

verus! {

/// One full turn, in millionths of a degree.
pub const FULL_TURN: i64 = 360_000_000;

/// Half a turn.
pub const HALF_TURN: i64 = 180_000_000;

/// A quarter turn.
pub const QUARTER_TURN: i64 = 90_000_000;

/// A normalized angle: in `[0, FULL_TURN)`.
pub open spec fn valid_angle(a: int) -> bool {
    0 <= a < FULL_TURN
}

/// Distance from `from` down to `to`, wrapped into `(0, FULL_TURN]`:
/// a target equal to `from` is a whole turn away.
pub open spec fn cw_distance(from: int, to: int) -> int {
    if from - to <= 0 {
        from - to + FULL_TURN
    } else {
        from - to
    }
}

/// Distance from `from` down to `to`, wrapped into `[0, FULL_TURN)`:
/// a target equal to `from` is no distance away.
pub open spec fn ccw_distance(from: int, to: int) -> int {
    if from - to < 0 {
        from - to + FULL_TURN
    } else {
        from - to
    }
}

/// The target among `lower`, `higher`, `other` that is nearest to `a` by
/// `cw_distance`; on a tie `lower` loses to `higher`, and both lose to `other`.
pub open spec fn closest_cw(a: int, lower: int, higher: int, other: int) -> int {
    let d1 = cw_distance(a, lower);
    let d2 = cw_distance(a, higher);
    let d3 = cw_distance(a, other);
    if d1 < d2 && d1 < d3 {
        lower
    } else if d2 < d3 {
        higher
    } else {
        other
    }
}

/// The target among `lower`, `higher`, `other` that is farthest from `a` by
/// `ccw_distance`, that is nearest going the other way round; on a tie
/// `lower` loses to `higher`, and both lose to `other`.
pub open spec fn closest_ccw(a: int, lower: int, higher: int, other: int) -> int {
    let e1 = ccw_distance(a, lower);
    let e2 = ccw_distance(a, higher);
    let e3 = ccw_distance(a, other);
    if e1 > e2 && e1 > e3 {
        lower
    } else if e2 > e3 {
        higher
    } else {
        other
    }
}

/// Half a turn further round the circle.
pub open spec fn rotated_half(a: int) -> int {
    if a < HALF_TURN {
        a + HALF_TURN
    } else {
        a - HALF_TURN
    }
}

/// Turns a signed angle, as an `atan2` gives it, into one in `[0, FULL_TURN)`
/// by adding a full turn to a negative angle.
pub fn normalize_positive_angle(signed: i64) -> (r: i64)
    requires
        -FULL_TURN <= signed < FULL_TURN,
    ensures
        valid_angle(r as int),
        r == if signed < 0 { signed + FULL_TURN } else { signed as int },
{
    if signed < 0 {
        signed + FULL_TURN
    } else {
        signed
    }
}

/// Which of `lower`, `higher`, `other` is nearest to `a` going down the
/// circle; a target that coincides with `a` counts as a whole turn away.
pub fn closest_angle_clockwise(a: i64, lower: i64, higher: i64, other: i64) -> (r: i64)
    requires
        valid_angle(a as int),
        valid_angle(lower as int),
        valid_angle(higher as int),
        valid_angle(other as int),
    ensures
        r == closest_cw(a as int, lower as int, higher as int, other as int),
        r == lower || r == higher || r == other,
        cw_distance(a as int, r as int) <= cw_distance(a as int, lower as int),
        cw_distance(a as int, r as int) <= cw_distance(a as int, higher as int),
        cw_distance(a as int, r as int) <= cw_distance(a as int, other as int),
{
    let mut d1 = a - lower;
    if d1 <= 0 {
        d1 += FULL_TURN;
    }
    let mut d2 = a - higher;
    if d2 <= 0 {
        d2 += FULL_TURN;
    }
    let mut d3 = a - other;
    if d3 <= 0 {
        d3 += FULL_TURN;
    }
    if d1 < d2 && d1 < d3 {
        lower
    } else if d2 < d3 {
        higher
    } else {
        other
    }
}

/// Which of `lower`, `higher`, `other` is nearest to `a` going up the
/// circle; a target that coincides with `a` counts as a whole turn away.
pub fn closest_angle_counter_clockwise(a: i64, lower: i64, higher: i64, other: i64) -> (r: i64)
    requires
        valid_angle(a as int),
        valid_angle(lower as int),
        valid_angle(higher as int),
        valid_angle(other as int),
    ensures
        r == closest_ccw(a as int, lower as int, higher as int, other as int),
        r == lower || r == higher || r == other,
        ccw_distance(a as int, r as int) >= ccw_distance(a as int, lower as int),
        ccw_distance(a as int, r as int) >= ccw_distance(a as int, higher as int),
        ccw_distance(a as int, r as int) >= ccw_distance(a as int, other as int),
{
    let mut e1 = a - lower;
    if e1 < 0 {
        e1 += FULL_TURN;
    }
    let mut e2 = a - higher;
    if e2 < 0 {
        e2 += FULL_TURN;
    }
    let mut e3 = a - other;
    if e3 < 0 {
        e3 += FULL_TURN;
    }
    if e1 > e2 && e1 > e3 {
        lower
    } else if e2 > e3 {
        higher
    } else {
        other
    }
}

/// Turns an angle half a turn round the circle.
pub fn rotate_half_turn(a: i64) -> (r: i64)
    requires
        valid_angle(a as int),
    ensures
        r == rotated_half(a as int),
        valid_angle(r as int),
{
    if a < HALF_TURN {
        a + HALF_TURN
    } else {
        a - HALF_TURN
    }
}

/// Clockwise, an angle sitting exactly on a target sees it a whole turn
/// away, so a lower bound equal to the angle never wins: the choice falls
/// between the higher bound and the other angle alone.
pub proof fn lemma_coincident_target_is_farthest(v: int, higher: int, other: int)
    requires
        valid_angle(v),
        valid_angle(higher),
        valid_angle(other),
    ensures
        cw_distance(v, v) == FULL_TURN,
        closest_cw(v, v, higher, other) == if cw_distance(v, higher) < cw_distance(v, other) {
            higher
        } else {
            other
        },
{
}

/// The two directions part at a coincidence: for two rays at the same angle
/// strictly inside an edge's range, the clockwise choice is the lower bound
/// and the counter-clockwise choice the higher bound, because a coincident
/// target counts as a whole turn away clockwise and as no distance the other
/// way.
pub proof fn lemma_directions_part_on_coincidence(x: int, lower: int, higher: int)
    requires
        valid_angle(lower),
        valid_angle(higher),
        lower < x < higher,
    ensures
        cw_distance(x, x) == FULL_TURN,
        ccw_distance(x, x) == 0,
        closest_cw(x, lower, higher, x) == lower,
        closest_ccw(x, lower, higher, x) == higher,
        closest_cw(x, lower, higher, x) != closest_ccw(x, lower, higher, x),
{
}

/// Turning every angle half a turn round the circle turns the choice of
/// either direction with them: both choices depend only on the differences
/// of the angles round the circle.
pub proof fn lemma_half_turn_keeps_closest(a: int, lower: int, higher: int, other: int)
    requires
        valid_angle(a),
        valid_angle(lower),
        valid_angle(higher),
        valid_angle(other),
    ensures
        closest_cw(rotated_half(a), rotated_half(lower), rotated_half(higher), rotated_half(other))
            == rotated_half(closest_cw(a, lower, higher, other)),
        closest_ccw(rotated_half(a), rotated_half(lower), rotated_half(higher), rotated_half(other))
            == rotated_half(closest_ccw(a, lower, higher, other)),
{
}

} // verus!
