//! Points and directions of the canvas.

use vstd::prelude::*;

verus! {

/// A position on the canvas, in whole pixels.
#[derive(Clone, Copy, Debug, PartialEq, Eq, Structural)]
pub struct P2 {
    pub x: i32,
    pub y: i32,
}

/// A direction in the plane, held exactly as an integer vector.
///
/// Where a `V2` is stored as the side normal of a ribbon vertex, the unit
/// normal that the renderer receives is this vector scaled to length one.
/// Equal directions therefore always yield equal unit normals.
#[derive(Clone, Copy, Debug, PartialEq, Eq, Structural)]
pub struct V2 {
    pub x: i64,
    pub y: i64,
}

impl P2 {
    pub fn new(x: i32, y: i32) -> (p: P2)
        ensures
            p == (P2 { x, y }),
    {
        P2 { x, y }
    }

    /// The vector that leads from `self` to `other`.
    pub open spec fn spec_towards(self, other: P2) -> V2 {
        V2 { x: (other.x - self.x) as i64, y: (other.y - self.y) as i64 }
    }

    /// The vector that leads from `self` to `other`. It is the zero vector
    /// exactly when the two points coincide.
    pub fn towards(self, other: P2) -> (d: V2)
        ensures
            d == self.spec_towards(other),
            d.x == other.x - self.x,
            d.y == other.y - self.y,
            d.turnable(),
            d.is_zero() <==> self == other,
    {
        let dx: i64 = other.x as i64 - self.x as i64;
        let dy: i64 = other.y as i64 - self.y as i64;
        V2 { x: dx, y: dy }
    }
}

impl V2 {
    pub fn new(x: i64, y: i64) -> (v: V2)
        ensures
            v == (V2 { x, y }),
    {
        V2 { x, y }
    }

    pub open spec fn is_zero(self) -> bool {
        self.x == 0 && self.y == 0
    }

    /// Both components can be negated without leaving `i64`.
    pub open spec fn turnable(self) -> bool {
        self.x > i64::MIN && self.y > i64::MIN
    }

    /// `self` turned by a quarter turn towards the top of the screen:
    /// `(x, y)` becomes `(y, -x)`. On a screen whose y axis points down, a
    /// stroke that runs to the right gets a normal that points up.
    pub open spec fn spec_rotate_up(self) -> V2 {
        V2 { x: self.y, y: (-self.x) as i64 }
    }

    /// `self` turned by a quarter turn the other way: `(x, y)` becomes
    /// `(-y, x)`.
    pub open spec fn spec_rotate_down(self) -> V2 {
        V2 { x: (-self.y) as i64, y: self.x }
    }

    pub fn rotate_up(self) -> (r: V2)
        requires
            self.turnable(),
        ensures
            r == self.spec_rotate_up(),
            r.x == self.y,
            r.y == -self.x,
    {
        V2 { x: self.y, y: -self.x }
    }

    pub fn rotate_down(self) -> (r: V2)
        requires
            self.turnable(),
        ensures
            r == self.spec_rotate_down(),
            r.x == -self.y,
            r.y == self.x,
    {
        V2 { x: -self.y, y: self.x }
    }
}

/// The side normal of the segment from `last` to `new` that points up for a
/// stroke running to the right.
pub open spec fn up_normal(last: P2, new: P2) -> V2 {
    last.spec_towards(new).spec_rotate_up()
}

/// The side normal opposite to [`up_normal`].
pub open spec fn down_normal(last: P2, new: P2) -> V2 {
    last.spec_towards(new).spec_rotate_down()
}

/// The two side normals of a segment are opposite: their components sum to
/// zero.
pub proof fn lemma_normals_opposite(last: P2, new: P2)
    ensures
        up_normal(last, new).x + down_normal(last, new).x == 0,
        up_normal(last, new).y + down_normal(last, new).y == 0,
{
}

/// A side normal is perpendicular to its segment.
pub proof fn lemma_normal_perpendicular(last: P2, new: P2)
    ensures
        up_normal(last, new).x * last.spec_towards(new).x + up_normal(last, new).y
            * last.spec_towards(new).y == 0,
{
    let d = last.spec_towards(new);
    assert(d.y * d.x + (-d.x) * d.y == 0) by (nonlinear_arith);
}

} // verus!
