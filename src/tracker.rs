//! The tracker: screen configuration, and the border segments it lays out
//! for two direction rays.

use vstd::prelude::*;
use crate::angle::{
    normalize_positive_angle, rotate_half_turn, rotated_half, valid_angle, FULL_TURN, HALF_TURN,
    QUARTER_TURN,
};
use crate::edge::{crossing, edge_crossing, edge_points, find_points, EdgePoints};

verus! {

/// Thickness of a border segment on a new tracker, in pixels.
pub const DEFAULT_LINE_WIDTH: u16 = 10;

/// Screen size, segment thickness, and the angle of the top-right corner
/// seen from the screen centre.
#[derive(Clone, Copy, Debug, PartialEq, Eq, Structural)]
pub struct Tracker {
    pub width: u16,
    pub height: u16,
    pub line_width: u16,
    pub corner_angle: i64,
}

/// A direction from the screen centre, with its signed angle from the +X
/// axis, in `(-HALF_TURN, HALF_TURN]`.
#[derive(Clone, Copy, Debug, PartialEq, Eq, Structural)]
pub struct ScreenVector {
    pub x: i32,
    pub y: i32,
    pub angle: i64,
}

/// A filled rectangle given by two opposite corners, in pixels from the
/// bottom-left corner of the screen.
#[derive(Clone, Copy, Debug, PartialEq, Eq, Structural)]
pub struct Rect {
    pub x1: i64,
    pub y1: i64,
    pub x2: i64,
    pub y2: i64,
}

/// The four edges of the screen.
#[derive(Clone, Copy, Debug, PartialEq, Eq, Structural)]
pub enum Edge {
    Top,
    Bottom,
    Left,
    Right,
}

/// Where and how one edge is resolved: the rays' angles are turned by half a
/// turn first where `rotated` holds, so that the edge's range of angles does
/// not wrap past zero.
#[derive(Clone, Copy, Debug, PartialEq, Eq, Structural)]
pub struct EdgeSetup {
    pub lower_angle: i64,
    pub higher_angle: i64,
    pub low_point: i64,
    pub high_point: i64,
    pub rotated: bool,
}

impl Tracker {
    pub open spec fn wf(self) -> bool {
        &&& self.width > 0
        &&& self.height > 0
        &&& 0 < self.corner_angle < QUARTER_TURN
    }

    pub open spec fn top_right_angle(self) -> int {
        self.corner_angle as int
    }

    pub open spec fn top_left_angle(self) -> int {
        HALF_TURN - self.corner_angle
    }

    pub open spec fn bot_left_angle(self) -> int {
        HALF_TURN + self.corner_angle
    }

    pub open spec fn bot_right_angle(self) -> int {
        FULL_TURN - self.corner_angle
    }

    /// The angle range, end coordinates and rotation of each edge. The top
    /// runs from the top-right corner (x = width) to the top-left (x = 0),
    /// the bottom from bottom-left (x = 0) to bottom-right (x = width), the
    /// left from top-left (y = height) to bottom-left (y = 0), and the right,
    /// half a turn round, from bottom-right (y = 0) to top-right (y = height).
    pub open spec fn setup_spec(self, edge: Edge) -> EdgeSetup {
        match edge {
            Edge::Top => EdgeSetup {
                lower_angle: self.top_right_angle() as i64,
                higher_angle: self.top_left_angle() as i64,
                low_point: self.width as i64,
                high_point: 0,
                rotated: false,
            },
            Edge::Bottom => EdgeSetup {
                lower_angle: self.bot_left_angle() as i64,
                higher_angle: self.bot_right_angle() as i64,
                low_point: 0,
                high_point: self.width as i64,
                rotated: false,
            },
            Edge::Left => EdgeSetup {
                lower_angle: self.top_left_angle() as i64,
                higher_angle: self.bot_left_angle() as i64,
                low_point: self.height as i64,
                high_point: 0,
                rotated: false,
            },
            Edge::Right => EdgeSetup {
                lower_angle: rotated_half(self.bot_right_angle()) as i64,
                higher_angle: rotated_half(self.top_right_angle()) as i64,
                low_point: 0,
                high_point: self.height as i64,
                rotated: true,
            },
        }
    }

    /// Where a ray crosses the line of an edge, rounded down.
    pub open spec fn crossing_spec(self, edge: Edge, v: ScreenVector) -> Option<int> {
        match edge {
            Edge::Top => crossing(self.width as int, self.height as int, v.x as int, v.y as int),
            Edge::Bottom => crossing(self.width as int, self.height as int, v.x as int, -v.y),
            Edge::Left => crossing(self.height as int, self.width as int, v.y as int, -v.x),
            Edge::Right => crossing(self.height as int, self.width as int, v.y as int, v.x as int),
        }
    }

    /// The segments that the rays claim on one edge, for rays at normalized
    /// angles `a1` and `a2`.
    #[verifier::opaque]
    pub open spec fn resolve_spec(self, edge: Edge, v1: ScreenVector, v2: ScreenVector, a1: int, a2: int) -> EdgePoints {
        let s = self.setup_spec(edge);
        let c1 = self.crossing_spec(edge, v1);
        let c2 = self.crossing_spec(edge, v2);
        let at1: Option<i64> = if c1 is Some { Some(c1->0 as i64) } else { None };
        let at2: Option<i64> = if c2 is Some { Some(c2->0 as i64) } else { None };
        let b1 = if s.rotated { rotated_half(a1) } else { a1 };
        let b2 = if s.rotated { rotated_half(a2) } else { a2 };
        edge_points(b1, b2, at1, at2, s.lower_angle as int, s.higher_angle as int, s.low_point, s.high_point)
    }

    /// The two rectangles drawn on an edge from its segment end points, each
    /// `line_width` thick and lying against the edge inside the screen.
    pub open spec fn rects_spec(self, edge: Edge, p: EdgePoints) -> (Rect, Rect) {
        let w = self.width as i64;
        let h = self.height as i64;
        let t = self.line_width as i64;
        match edge {
            Edge::Top => (
                Rect { x1: p.v1_p1, y1: h, x2: p.v1_p2, y2: (h - t) as i64 },
                Rect { x1: p.v2_p2, y1: h, x2: p.v2_p1, y2: (h - t) as i64 },
            ),
            Edge::Bottom => (
                Rect { x1: p.v1_p2, y1: t, x2: p.v1_p1, y2: 0 },
                Rect { x1: p.v2_p1, y1: t, x2: p.v2_p2, y2: 0 },
            ),
            Edge::Left => (
                Rect { x1: 0, y1: p.v1_p2, x2: t, y2: p.v1_p1 },
                Rect { x1: 0, y1: p.v2_p1, x2: t, y2: p.v2_p2 },
            ),
            Edge::Right => (
                Rect { x1: (w - t) as i64, y1: p.v1_p1, x2: w, y2: p.v1_p2 },
                Rect { x1: (w - t) as i64, y1: p.v2_p2, x2: w, y2: p.v2_p1 },
            ),
        }
    }

    /// The eight rectangles for two rays: top, bottom, left, right, and on
    /// each edge ray one's before ray two's.
    pub open spec fn border_rects(self, v1: ScreenVector, v2: ScreenVector) -> Seq<Rect> {
        let a1 = if v1.angle < 0 { v1.angle + FULL_TURN } else { v1.angle as int };
        let a2 = if v2.angle < 0 { v2.angle + FULL_TURN } else { v2.angle as int };
        let top = self.rects_spec(Edge::Top, self.resolve_spec(Edge::Top, v1, v2, a1, a2));
        let bot = self.rects_spec(Edge::Bottom, self.resolve_spec(Edge::Bottom, v1, v2, a1, a2));
        let left = self.rects_spec(Edge::Left, self.resolve_spec(Edge::Left, v1, v2, a1, a2));
        let right = self.rects_spec(Edge::Right, self.resolve_spec(Edge::Right, v1, v2, a1, a2));
        seq![top.0, top.1, bot.0, bot.1, left.0, left.1, right.0, right.1]
    }

    /// A tracker for a `width` by `height` screen whose top-right corner lies
    /// at `corner_angle` from the centre, drawing segments
    /// `DEFAULT_LINE_WIDTH` thick.
    pub fn new(width: u16, height: u16, corner_angle: i64) -> (r: Tracker)
        requires
            width > 0,
            height > 0,
            0 < corner_angle < QUARTER_TURN,
        ensures
            r.wf(),
            r.width == width,
            r.height == height,
            r.corner_angle == corner_angle,
            r.line_width == DEFAULT_LINE_WIDTH,
    {
        Tracker { width, height, line_width: DEFAULT_LINE_WIDTH, corner_angle }
    }

    /// Sets the thickness of the segments.
    pub fn set_line_width(&mut self, width: u16)
        ensures
            *final(self) == (Tracker { line_width: width, ..*old(self) }),
    {
        self.line_width = width;
    }

    /// The angle range, end coordinates and rotation of an edge.
    pub fn setup(&self, edge: Edge) -> (r: EdgeSetup)
        requires
            self.wf(),
        ensures
            r == self.setup_spec(edge),
    {
        let c = self.corner_angle;
        match edge {
            Edge::Top => EdgeSetup {
                lower_angle: c,
                higher_angle: HALF_TURN - c,
                low_point: self.width as i64,
                high_point: 0,
                rotated: false,
            },
            Edge::Bottom => EdgeSetup {
                lower_angle: HALF_TURN + c,
                higher_angle: FULL_TURN - c,
                low_point: 0,
                high_point: self.width as i64,
                rotated: false,
            },
            Edge::Left => EdgeSetup {
                lower_angle: HALF_TURN - c,
                higher_angle: HALF_TURN + c,
                low_point: self.height as i64,
                high_point: 0,
                rotated: false,
            },
            Edge::Right => EdgeSetup {
                lower_angle: rotate_half_turn(FULL_TURN - c),
                higher_angle: rotate_half_turn(c),
                low_point: 0,
                high_point: self.height as i64,
                rotated: true,
            },
        }
    }

    /// Where a ray crosses the line of an edge; `None` where it runs
    /// parallel to the edge.
    pub fn edge_intersection(&self, edge: Edge, v: &ScreenVector) -> (r: Option<i64>)
        ensures
            self.crossing_spec(edge, *v) is None <==> r is None,
            r matches Some(x) ==> self.crossing_spec(edge, *v) == Some(x as int),
    {
        let x = v.x as i64;
        let y = v.y as i64;
        match edge {
            Edge::Top => edge_crossing(self.width, self.height, x, y),
            Edge::Bottom => edge_crossing(self.width, self.height, x, -y),
            Edge::Left => edge_crossing(self.height, self.width, y, -x),
            Edge::Right => edge_crossing(self.height, self.width, y, x),
        }
    }

    /// The segments that two rays, at normalized angles `a1` and `a2`, claim
    /// on one edge.
    pub fn resolve_edge(&self, edge: Edge, v1: &ScreenVector, v2: &ScreenVector, a1: i64, a2: i64) -> (r: EdgePoints)
        requires
            self.wf(),
            valid_angle(a1 as int),
            valid_angle(a2 as int),
        ensures
            r == self.resolve_spec(edge, *v1, *v2, a1 as int, a2 as int),
    {
        reveal(Tracker::resolve_spec);
        let s = self.setup(edge);
        let at1 = self.edge_intersection(edge, v1);
        let at2 = self.edge_intersection(edge, v2);
        let (b1, b2) = if s.rotated {
            (rotate_half_turn(a1), rotate_half_turn(a2))
        } else {
            (a1, a2)
        };
        find_points(b1, b2, at1, at2, s.lower_angle, s.higher_angle, s.low_point, s.high_point)
    }

    /// The two rectangles for an edge's segment end points.
    pub fn edge_rects(&self, edge: Edge, p: EdgePoints) -> (r: (Rect, Rect))
        ensures
            r == self.rects_spec(edge, p),
    {
        let w = self.width as i64;
        let h = self.height as i64;
        let t = self.line_width as i64;
        match edge {
            Edge::Top => (
                Rect { x1: p.v1_p1, y1: h, x2: p.v1_p2, y2: h - t },
                Rect { x1: p.v2_p2, y1: h, x2: p.v2_p1, y2: h - t },
            ),
            Edge::Bottom => (
                Rect { x1: p.v1_p2, y1: t, x2: p.v1_p1, y2: 0 },
                Rect { x1: p.v2_p1, y1: t, x2: p.v2_p2, y2: 0 },
            ),
            Edge::Left => (
                Rect { x1: 0, y1: p.v1_p2, x2: t, y2: p.v1_p1 },
                Rect { x1: 0, y1: p.v2_p1, x2: t, y2: p.v2_p2 },
            ),
            Edge::Right => (
                Rect { x1: w - t, y1: p.v1_p1, x2: w, y2: p.v1_p2 },
                Rect { x1: w - t, y1: p.v2_p2, x2: w, y2: p.v2_p1 },
            ),
        }
    }

    /// The rectangles that mark, along the screen border, the rays `v1` and
    /// `v2`: `None` where either ray is the zero vector and has no direction.
    pub fn draw_from_vectors(&self, v1: ScreenVector, v2: ScreenVector) -> (r: Option<Vec<Rect>>)
        requires
            self.wf(),
            -HALF_TURN < v1.angle <= HALF_TURN,
            -HALF_TURN < v2.angle <= HALF_TURN,
        ensures
            r is None <==> (v1.x == 0 && v1.y == 0) || (v2.x == 0 && v2.y == 0),
            r matches Some(rects) ==> rects@ == self.border_rects(v1, v2),
    {
        if (v1.x == 0 && v1.y == 0) || (v2.x == 0 && v2.y == 0) {
            return None;
        }
        let a1 = normalize_positive_angle(v1.angle);
        let a2 = normalize_positive_angle(v2.angle);
        let mut rects: Vec<Rect> = Vec::new();
        let top = self.edge_rects(Edge::Top, self.resolve_edge(Edge::Top, &v1, &v2, a1, a2));
        rects.push(top.0);
        rects.push(top.1);
        let bot = self.edge_rects(Edge::Bottom, self.resolve_edge(Edge::Bottom, &v1, &v2, a1, a2));
        rects.push(bot.0);
        rects.push(bot.1);
        let left = self.edge_rects(Edge::Left, self.resolve_edge(Edge::Left, &v1, &v2, a1, a2));
        rects.push(left.0);
        rects.push(left.1);
        let right = self.edge_rects(Edge::Right, self.resolve_edge(Edge::Right, &v1, &v2, a1, a2));
        rects.push(right.0);
        rects.push(right.1);
        assert(rects@ =~= self.border_rects(v1, v2));
        Some(rects)
    }
}

/// The right edge's range wraps past zero; turned half a turn it no longer
/// does. A ray leaves through the right edge, above the bottom-right corner
/// or below the top-right one, exactly when its angle turned half a turn lies
/// strictly inside the right edge's turned range.
pub proof fn lemma_right_edge_turned_range(t: Tracker, a: int)
    requires
        t.wf(),
        valid_angle(a),
    ensures
        ({
            let s = t.setup_spec(Edge::Right);
            (s.lower_angle < rotated_half(a) < s.higher_angle) <==> (a > t.bot_right_angle() || a
                < t.top_right_angle())
        }),
{
}

/// The left edge's range does not wrap past zero, and neither does the
/// range of the right edge once turned half a turn: each is a plain
/// interval between its corner angles.
pub proof fn lemma_edge_ranges_do_not_wrap(t: Tracker, edge: Edge)
    requires
        t.wf(),
    ensures
        ({
            let s = t.setup_spec(edge);
            &&& valid_angle(s.lower_angle as int)
            &&& valid_angle(s.higher_angle as int)
            &&& s.lower_angle < s.higher_angle
        }),
{
}

} // verus!
