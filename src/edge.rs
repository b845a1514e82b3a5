//! One screen edge: where a ray crosses its line, and which stretch of the
//! edge each of two rays claims.

use vstd::prelude::*;
use vstd::arithmetic::div_mod::{
    lemma_fundamental_div_mod, lemma_fundamental_div_mod_converse, lemma_mod_bound,
};
use crate::angle::{
    closest_angle_clockwise, closest_angle_counter_clockwise, closest_ccw, closest_cw,
    valid_angle,
};

verus! {

/// The two end coordinates, along one edge, of the segment drawn for each
/// of two rays.
#[derive(Clone, Copy, Debug, PartialEq, Eq, Structural)]
pub struct EdgePoints {
    pub v1_p1: i64,
    pub v1_p2: i64,
    pub v2_p1: i64,
    pub v2_p2: i64,
}

/// The largest integer not above `n / d`.
pub open spec fn floor_div(n: int, d: int) -> int {
    if d > 0 {
        n / d
    } else {
        (-n) / (-d)
    }
}

/// The coordinate along an edge, rounded down, at which a ray from the
/// screen centre crosses that edge's line. `extent_along` is the screen's
/// size along the edge and `extent_normal` its size across it; `along` and
/// `normal` are the ray's components in those directions, `normal` pointing
/// out through the edge. A ray parallel to the edge has no crossing.
pub open spec fn crossing(extent_along: int, extent_normal: int, along: int, normal: int) -> Option<int> {
    if normal == 0 {
        None
    } else {
        Some(floor_div(extent_along * normal + extent_normal * along, 2 * normal))
    }
}

/// Whether a ray with angle `a` and edge crossing `at` leaves the screen
/// strictly inside the edge whose angles run from `lower` to `higher`.
pub open spec fn in_range(a: int, at: Option<i64>, lower: int, higher: int) -> bool {
    at is Some && lower < a < higher
}

/// The segments on one edge for rays at `a1` and `a2` crossing the edge's
/// line at `at1` and `at2`. The edge runs over angles `lower` to `higher`,
/// whose ends lie at coordinates `low_point` and `high_point`.
///
/// Ray one's near point is the far end of the edge where its nearest target
/// going down is `higher`, its own crossing where it is in range, and 0
/// otherwise; ray two mirrors this going up, towards `lower`. Ray one's far
/// point starts at `low_point`, ray two's at `high_point`; each moves to the
/// other ray's crossing where the rays meet on this edge, and drops to 0
/// where the ray is off the edge and its nearest target is the other ray.
pub open spec fn edge_points(
    a1: int,
    a2: int,
    at1: Option<i64>,
    at2: Option<i64>,
    lower: int,
    higher: int,
    low_point: i64,
    high_point: i64,
) -> EdgePoints {
    let in1 = in_range(a1, at1, lower, higher);
    let in2 = in_range(a2, at2, lower, higher);
    let c1 = closest_cw(a1, lower, higher, a2);
    let c2 = closest_ccw(a2, lower, higher, a1);
    let p1 = if c1 == higher { high_point } else if in1 { at1->0 } else { 0 };
    let q1 = if c2 == lower { low_point } else if in2 { at2->0 } else { 0 };
    EdgePoints {
        v1_p1: p1,
        v1_p2: if c2 != lower && in2 && c1 != lower {
            q1
        } else if c1 != higher && !in1 && c1 == a2 {
            0
        } else {
            low_point
        },
        v2_p1: q1,
        v2_p2: if c2 != lower && !in2 && c2 == a1 {
            0
        } else if c1 != higher && in1 && c2 != higher {
            p1
        } else {
            high_point
        },
    }
}

proof fn lemma_floor_of_negative(n: int, d: int)
    requires
        n < 0,
        d > 0,
    ensures
        -((-n + d - 1) / d) == n / d,
{
    let m = -n + d - 1;
    let q = m / d;
    let r = m % d;
    lemma_fundamental_div_mod(m, d);
    lemma_mod_bound(m, d);
    assert(n == (-q) * d + (d - 1 - r)) by (nonlinear_arith)
        requires
            m == d * q + r,
            m == -n + d - 1,
    ;
    lemma_fundamental_div_mod_converse(n, d, -q, d - 1 - r);
}

/// Where a ray crosses an edge's line (see `crossing`); `None` for a ray
/// parallel to the edge.
pub fn edge_crossing(extent_along: u16, extent_normal: u16, along: i64, normal: i64) -> (r: Option<i64>)
    requires
        -0x8000_0000 <= along <= 0x8000_0000,
        -0x8000_0000 <= normal <= 0x8000_0000,
    ensures
        r matches Some(x) ==> crossing(extent_along as int, extent_normal as int, along as int, normal as int) == Some(x as int),
        r is None <==> normal == 0,
{
    if normal == 0 {
        return None;
    }
    let ea = extent_along as i64;
    let en = extent_normal as i64;
    assert(-0x8000_0000 * 0x10000 <= ea * normal <= 0x8000_0000 * 0x10000) by (nonlinear_arith)
        requires
            0 <= ea <= 0xffff,
            -0x8000_0000 <= normal <= 0x8000_0000,
    ;
    assert(-0x8000_0000 * 0x10000 <= en * along <= 0x8000_0000 * 0x10000) by (nonlinear_arith)
        requires
            0 <= en <= 0xffff,
            -0x8000_0000 <= along <= 0x8000_0000,
    ;
    let mut n = ea * normal + en * along;
    let mut d = 2 * normal;
    if d < 0 {
        n = -n;
        d = -d;
    }
    let q = if n >= 0 {
        n / d
    } else {
        proof {
            lemma_floor_of_negative(n as int, d as int);
        }
        -((-n + d - 1) / d)
    };
    Some(q)
}

/// The segments that two rays claim on one edge (see `edge_points`).
pub fn find_points(
    angle1: i64,
    angle2: i64,
    intersection1: Option<i64>,
    intersection2: Option<i64>,
    lower_angle: i64,
    higher_angle: i64,
    low_point: i64,
    high_point: i64,
) -> (r: EdgePoints)
    requires
        valid_angle(angle1 as int),
        valid_angle(angle2 as int),
        valid_angle(lower_angle as int),
        valid_angle(higher_angle as int),
    ensures
        r == edge_points(
            angle1 as int,
            angle2 as int,
            intersection1,
            intersection2,
            lower_angle as int,
            higher_angle as int,
            low_point,
            high_point,
        ),
{
    let v1_in_range = intersection1.is_some() && angle1 > lower_angle && angle1 < higher_angle;
    let v2_in_range = intersection2.is_some() && angle2 > lower_angle && angle2 < higher_angle;

    let mut v1_p2 = low_point;
    let mut v2_p2 = high_point;

    let v1_closest = closest_angle_clockwise(angle1, lower_angle, higher_angle, angle2);
    let v2_closest = closest_angle_counter_clockwise(angle2, lower_angle, higher_angle, angle1);

    let v1_p1;
    if v1_closest == higher_angle {
        v1_p1 = high_point;
    } else if v1_in_range {
        v1_p1 = match intersection1 {
            Some(x) => x,
            None => 0,
        };
        if v2_closest != higher_angle {
            v2_p2 = v1_p1;
        }
    } else {
        v1_p1 = 0;
        if v1_closest == angle2 {
            v1_p2 = 0;
        }
    }

    let v2_p1;
    if v2_closest == lower_angle {
        v2_p1 = low_point;
    } else if v2_in_range {
        v2_p1 = match intersection2 {
            Some(x) => x,
            None => 0,
        };
        if v1_closest != lower_angle {
            v1_p2 = v2_p1;
        }
    } else {
        v2_p1 = 0;
        if v2_closest == angle1 {
            v2_p2 = 0;
        }
    }

    EdgePoints { v1_p1, v1_p2, v2_p1, v2_p2 }
}

/// Where two rays leave through the same edge, the first at a higher angle
/// than the second, their segments meet: the first ends where the second
/// crosses, and the second ends where the first crosses.
pub proof fn lemma_rays_on_one_edge_meet(
    a1: int,
    a2: int,
    at1: Option<i64>,
    at2: Option<i64>,
    lower: int,
    higher: int,
    low_point: i64,
    high_point: i64,
)
    requires
        valid_angle(lower),
        valid_angle(higher),
        lower < a2 < a1 < higher,
        at1 is Some,
        at2 is Some,
    ensures
        ({
            let p = edge_points(a1, a2, at1, at2, lower, higher, low_point, high_point);
            &&& p.v1_p1 == at1->0
            &&& p.v1_p2 == at2->0
            &&& p.v2_p1 == at2->0
            &&& p.v2_p2 == at1->0
            &&& p.v1_p2 == p.v2_p1
        }),
{
}

/// Where two rays leave through the same edge, the first at an angle not
/// above the second's, each runs from its own crossing to the end of the
/// edge on its side: the first to `low_point`, the second to `high_point`.
pub proof fn lemma_rays_on_one_edge_part(
    a1: int,
    a2: int,
    at1: Option<i64>,
    at2: Option<i64>,
    lower: int,
    higher: int,
    low_point: i64,
    high_point: i64,
)
    requires
        valid_angle(lower),
        valid_angle(higher),
        lower < a1 <= a2 < higher,
        at1 is Some,
        at2 is Some,
    ensures
        edge_points(a1, a2, at1, at2, lower, higher, low_point, high_point) == (EdgePoints {
            v1_p1: at1->0,
            v1_p2: low_point,
            v2_p1: at2->0,
            v2_p2: high_point,
        }),
{
}

/// A ray whose angle lies outside an edge's closed range, and whose chosen
/// target is neither end of the range, draws nothing on that edge: both its
/// end points are 0.
pub proof fn lemma_off_edge_ray_collapses(
    a1: int,
    a2: int,
    at1: Option<i64>,
    at2: Option<i64>,
    lower: int,
    higher: int,
    low_point: i64,
    high_point: i64,
)
    requires
        valid_angle(a1),
        valid_angle(a2),
        valid_angle(lower),
        valid_angle(higher),
        lower < higher,
    ensures
        ({
            let p = edge_points(a1, a2, at1, at2, lower, higher, low_point, high_point);
            let c1 = closest_cw(a1, lower, higher, a2);
            let c2 = closest_ccw(a2, lower, higher, a1);
            &&& (a1 < lower || a1 > higher) && c1 != lower && c1 != higher ==> p.v1_p1 == 0
                && p.v1_p2 == 0
            &&& (a2 < lower || a2 > higher) && c2 != lower && c2 != higher ==> p.v2_p1 == 0
                && p.v2_p2 == 0
        }),
{
}

} // verus!
