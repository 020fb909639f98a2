use vstd::prelude::*;

verus! {

/// A point whose two coordinates are borrowed, each for its own lifetime.
pub struct Point<'a, 'b> {
    pub x: &'a i32,
    pub y: &'b i32,
}

/// The squared distance of `(x, y)` from the origin.
pub open spec fn norm_sq(x: int, y: int) -> int {
    x * x + y * y
}

/// What `scale` computes: the factor times the squared distance from the origin.
pub open spec fn scaled_norm(r: int, x: int, y: int) -> int {
    r * norm_sq(x, y)
}

/// True when every step of `r * (x * x + y * y)` stays within `i32`.
pub open spec fn scale_fits(r: int, x: int, y: int) -> bool {
    norm_sq(x, y) <= i32::MAX && i32::MIN <= scaled_norm(r, x, y) <= i32::MAX
}

/// Multiplies the squared distance of `p` from the origin by `r`.
///
/// The result borrows from none of its arguments, so the three references
/// may live for unrelated lifetimes.
pub fn scale<'a, 'b, 'c>(r: &'c i32, p: Point<'a, 'b>) -> (s: i32)
    requires
        scale_fits(*r as int, *p.x as int, *p.y as int),
    ensures
        s == scaled_norm(*r as int, *p.x as int, *p.y as int),
{
    let x: i32 = *p.x;
    let y: i32 = *p.y;
    proof {
        assert(0 <= x * x) by (nonlinear_arith);
        assert(0 <= y * y) by (nonlinear_arith);
    }
    let n: i32 = x * x + y * y;
    *r * n
}

} // verus!
