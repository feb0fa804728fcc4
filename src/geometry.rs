use vstd::prelude::*;

verus! {

/// Largest half-extent a rectangle may have.
pub const MAX_HALF: i64 = 0x4000_0000;

/// A 2D vector of integer units.
#[derive(Clone, Copy, Debug, PartialEq, Eq, Structural)]
pub struct Vec2 {
    pub x: i64,
    pub y: i64,
}

/// An axis-aligned rectangle given by its center and half-extents.
#[derive(Clone, Copy, Debug, PartialEq, Eq, Structural)]
pub struct Rect {
    pub center: Vec2,
    pub half: Vec2,
}

/// Penetration depths of two overlapping rectangles, both positive.
#[derive(Clone, Copy, Debug, PartialEq, Eq, Structural)]
pub struct Overlap {
    pub depth_x: i64,
    pub depth_y: i64,
}

pub open spec fn abs(a: int) -> int {
    if a < 0 { -a } else { a }
}

impl Rect {
    pub open spec fn wf(&self) -> bool {
        0 <= self.half.x <= MAX_HALF && 0 <= self.half.y <= MAX_HALF
    }
}

/// Penetration depth on one axis: summed half-extents minus center distance.
pub open spec fn depth(ca: int, ha: int, cb: int, hb: int) -> int {
    (ha + hb) - abs(ca - cb)
}

pub open spec fn overlap_spec(a: Rect, b: Rect) -> Option<(int, int)> {
    let dx = depth(a.center.x as int, a.half.x as int, b.center.x as int, b.half.x as int);
    let dy = depth(a.center.y as int, a.half.y as int, b.center.y as int, b.half.y as int);
    if dx > 0 && dy > 0 { Some((dx, dy)) } else { None }
}

fn axis_depth(ca: i64, ha: i64, cb: i64, hb: i64) -> (r: i128)
    requires
        0 <= ha <= MAX_HALF,
        0 <= hb <= MAX_HALF,
    ensures
        r == depth(ca as int, ha as int, cb as int, hb as int),
{
    let d: i128 = ca as i128 - cb as i128;
    let ad: i128 = if d < 0 { -d } else { d };
    (ha as i128 + hb as i128) - ad
}

/// Tests two rectangles for overlap; a depth of zero on either axis is no overlap.
pub fn overlap(a: &Rect, b: &Rect) -> (r: Option<Overlap>)
    requires
        a.wf(),
        b.wf(),
    ensures
        match overlap_spec(*a, *b) {
            Some((dx, dy)) => r == Some(Overlap { depth_x: dx as i64, depth_y: dy as i64 })
                && r->0.depth_x == dx && r->0.depth_y == dy,
            None => r is None,
        },
{
    let dx = axis_depth(a.center.x, a.half.x, b.center.x, b.half.x);
    let dy = axis_depth(a.center.y, a.half.y, b.center.y, b.half.y);
    if dx > 0 && dy > 0 {
        Some(Overlap { depth_x: dx as i64, depth_y: dy as i64 })
    } else {
        None
    }
}

/// Overlap is symmetric: swapping the rectangles gives the same depths.
pub proof fn lemma_overlap_symmetric(a: Rect, b: Rect)
    ensures
        overlap_spec(a, b) == overlap_spec(b, a),
{
    assert(abs(a.center.x - b.center.x) == abs(b.center.x - a.center.x));
    assert(abs(a.center.y - b.center.y) == abs(b.center.y - a.center.y));
}

pub open spec fn integrate_axis(p: int, v: int, dt: int) -> int {
    if dt > 0 { p + v * dt } else { p }
}

pub open spec fn fits(a: int) -> bool {
    i64::MIN <= a <= i64::MAX
}

pub open spec fn integrate_fits(p: Vec2, v: Vec2, dt: int) -> bool {
    fits(integrate_axis(p.x as int, v.x as int, dt)) && fits(integrate_axis(p.y as int, v.y as int, dt))
}

/// Advances a position by a velocity over `dt`; a non-positive `dt` leaves it unchanged.
pub fn integrate(p: Vec2, v: Vec2, dt: i64) -> (r: Vec2)
    requires
        integrate_fits(p, v, dt as int),
    ensures
        r.x == integrate_axis(p.x as int, v.x as int, dt as int),
        r.y == integrate_axis(p.y as int, v.y as int, dt as int),
        dt <= 0 ==> r == p,
{
    if dt <= 0 {
        return p;
    }
    let x: i128 = p.x as i128 + v.x as i128 * dt as i128;
    let y: i128 = p.y as i128 + v.y as i128 * dt as i128;
    proof {
        assert(v.x as i128 * dt as i128 == v.x * dt);
    }
    Vec2 { x: x as i64, y: y as i64 }
}

} // verus!
