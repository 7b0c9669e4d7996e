use vstd::prelude::*;

verus! {

/// Greatest magnitude a stored coordinate, rotation count, projection scale
/// or queued input delta may have. Keeping every quantity inside this range
/// keeps all of the frame arithmetic free of overflow.
pub const COORD_LIMIT: i64 = 1_000_000_000;

/// A two-dimensional integer vector: a position, a pointer delta or a sprite
/// scale, in device units.
#[derive(Clone, Copy, PartialEq, Eq, Structural, Debug)]
pub struct Vec2I {
    pub x: i64,
    pub y: i64,
}

/// Mathematical view of `Vec2I`.
pub ghost struct Vec2View {
    pub x: int,
    pub y: int,
}

impl View for Vec2I {
    type V = Vec2View;

    open spec fn view(&self) -> Vec2View {
        Vec2View { x: self.x as int, y: self.y as int }
    }
}

impl Vec2I {
    pub fn new(x: i64, y: i64) -> (v: Vec2I)
        ensures
            v@ == (Vec2View { x: x as int, y: y as int }),
    {
        Vec2I { x, y }
    }
}

/// Whether a coordinate lies inside the representable range.
pub open spec fn in_range(x: int) -> bool {
    -(COORD_LIMIT as int) <= x <= COORD_LIMIT as int
}

/// Whether both components of a vector lie inside the representable range.
pub open spec fn vec2_ok(v: Vec2View) -> bool {
    in_range(v.x) && in_range(v.y)
}

/// Clamp a coordinate into the representable range.
pub open spec fn clamp_i(x: int) -> int {
    if x < -(COORD_LIMIT as int) {
        -(COORD_LIMIT as int)
    } else if x > COORD_LIMIT as int {
        COORD_LIMIT as int
    } else {
        x
    }
}

/// Division that rounds toward zero, defined for positive divisors.
pub open spec fn tdiv(a: int, b: int) -> int {
    if a >= 0 {
        a / b
    } else {
        -((-a) / b)
    }
}

/// Executable clamp into the representable coordinate range.
pub fn clamp_coord(x: i64) -> (r: i64)
    ensures
        r as int == clamp_i(x as int),
        in_range(r as int),
{
    if x < -COORD_LIMIT {
        -COORD_LIMIT
    } else if x > COORD_LIMIT {
        COORD_LIMIT
    } else {
        x
    }
}

/// Executable division rounding toward zero, for positive divisors.
pub fn trunc_div(a: i64, b: i64) -> (r: i64)
    requires
        b > 0,
        i64::MIN < a,
    ensures
        r as int == tdiv(a as int, b as int),
{
    if a >= 0 {
        a / b
    } else {
        -((-a) / b)
    }
}

} // verus!
