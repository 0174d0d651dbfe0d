use vstd::prelude::*;

use crate::direction::Direction;

verus! {

/// `sqrt2_lt(p, q)` says that `p * sqrt(2) < q`, stated exactly over the
/// integers by comparing signs first and squares second. Since `sqrt(2)` is
/// irrational, `p * sqrt(2) == q` can only happen when `p == q == 0`, so the
/// two squares are equal only in that one case.
pub open spec fn sqrt2_lt(p: int, q: int) -> bool {
    if p >= 0 {
        q > 0 && 2 * (p * p) < q * q
    } else {
        q >= 0 || 2 * (p * p) > q * q
    }
}

/// `tan_pi8_lt(a, b)` says that `a < tan(pi/8) * b`. Because
/// `tan(pi/8) == sqrt(2) - 1`, multiplying both sides by `sqrt(2) + 1` turns
/// this into `a * (sqrt(2) + 1) < b`, that is `a * sqrt(2) < b - a`, which
/// `sqrt2_lt` states exactly. Every sector boundary of the classifier is an
/// odd multiple of pi/8, so every boundary comparison reduces to this test.
pub open spec fn tan_pi8_lt(a: int, b: int) -> bool {
    sqrt2_lt(a, b - a)
}

/// The sector that the heading angle `theta = atan2(y, x)` falls in, with
/// `theta` ranging over `(-pi, pi]`.
///
/// The circle is split into eight 45-degree arcs whose boundaries lie at the
/// odd multiples of pi/8; each boundary is closed on its lower side and open
/// on its upper side, tested in increasing order from -7pi/8 upward, and any
/// angle at or beyond 7pi/8, or below -7pi/8, maps to `North`, which
/// straddles the wrap-around at plus-or-minus pi. Each comparison
/// `theta < k * pi/8` is decided exactly through `tan_pi8_lt`; a boundary
/// angle itself is never attained at integer coordinates, since `tan(pi/8)`
/// is irrational. By the usual convention `atan2(0, 0) == 0`, so the origin
/// falls in the `South` arc.
pub open spec fn sector_spec(x: int, y: int) -> Direction {
    if y == 0 {
        // theta is 0 (South) or pi (North)
        if x >= 0 {
            Direction::South
        } else {
            Direction::North
        }
    } else if y > 0 {
        if x > 0 {
            // theta in (0, pi/2)
            if tan_pi8_lt(y, x) {
                Direction::South // theta < pi/8
            } else if !tan_pi8_lt(x, y) {
                Direction::Southeast // theta < 3pi/8
            } else {
                Direction::East // theta in [3pi/8, pi/2)
            }
        } else if x == 0 {
            Direction::East // theta == pi/2
        } else {
            // theta in (pi/2, pi)
            if tan_pi8_lt(-x, y) {
                Direction::East // theta < 5pi/8
            } else if !tan_pi8_lt(y, -x) {
                Direction::Northeast // theta < 7pi/8
            } else {
                Direction::North // theta in [7pi/8, pi)
            }
        }
    } else {
        if x < 0 {
            // theta in (-pi, -pi/2)
            if tan_pi8_lt(-y, -x) {
                Direction::North // theta < -7pi/8
            } else if !tan_pi8_lt(-x, -y) {
                Direction::Northwest // theta < -5pi/8
            } else {
                Direction::West // theta in [-5pi/8, -pi/2)
            }
        } else if x == 0 {
            Direction::West // theta == -pi/2
        } else {
            // theta in (-pi/2, 0)
            if tan_pi8_lt(x, -y) {
                Direction::West // theta < -3pi/8
            } else if !tan_pi8_lt(-y, x) {
                Direction::Southwest // theta < -pi/8
            } else {
                Direction::South // theta in [-pi/8, 0)
            }
        }
    }
}

/// The 45-degree arc of the compass circle that belongs to a sector, stated
/// on its own, independently of the order in which `sector_spec` tests the
/// boundaries. `theta` is `atan2(y, x)`; the four cardinal arcs each hold the
/// points within pi/8 of an axis direction, on the half-open side fixed by
/// `sector_spec`, and the four diagonal arcs hold the points of their
/// quadrant dominated by neither axis.
pub open spec fn in_arc(d: Direction, x: int, y: int) -> bool {
    match d {
        // theta in [7pi/8, pi] or (-pi, -7pi/8)
        Direction::North => x < 0 && tan_pi8_lt(y, -x) && tan_pi8_lt(-y, -x),
        // theta in [5pi/8, 7pi/8)
        Direction::Northeast => x < 0 && y > 0 && !tan_pi8_lt(-x, y) && !tan_pi8_lt(y, -x),
        // theta in [3pi/8, 5pi/8)
        Direction::East => y > 0 && tan_pi8_lt(x, y) && tan_pi8_lt(-x, y),
        // theta in [pi/8, 3pi/8)
        Direction::Southeast => x > 0 && y > 0 && !tan_pi8_lt(y, x) && !tan_pi8_lt(x, y),
        // theta in [-pi/8, pi/8)
        Direction::South => x > 0 && tan_pi8_lt(y, x) && tan_pi8_lt(-y, x),
        // theta in [-3pi/8, -pi/8)
        Direction::Southwest => x > 0 && y < 0 && !tan_pi8_lt(x, -y) && !tan_pi8_lt(-y, x),
        // theta in [-5pi/8, -3pi/8)
        Direction::West => y < 0 && tan_pi8_lt(-x, -y) && tan_pi8_lt(x, -y),
        // theta in [-7pi/8, -5pi/8)
        Direction::Northwest => x < 0 && y < 0 && !tan_pi8_lt(-y, -x) && !tan_pi8_lt(-x, -y),
    }
}

/// The eight arcs partition the punctured plane: away from the origin, a
/// point lies in the arc of a sector exactly when `sector_spec` classifies it
/// there. Totality, exhaustiveness and mutual exclusivity of the
/// classification all follow, since `sector_spec` is a function.
pub proof fn lemma_sector_partition(x: int, y: int)
    requires
        x != 0 || y != 0,
    ensures
        forall|d: Direction| in_arc(d, x, y) <==> sector_spec(x, y) == d,
{
    assert(forall|a: int| #[trigger] (a * a) >= 0) by (nonlinear_arith);
    assert(forall|a: int| a != 0 ==> #[trigger] (a * a) > 0) by (nonlinear_arith);
    assert forall|d: Direction| in_arc(d, x, y) <==> sector_spec(x, y) == d by {
        assert(in_arc(d, x, y) <==> sector_spec(x, y) == d);
    }
}

/// No point lies in two arcs: the partition does not overlap. The origin
/// needs no exclusion, since every arc carries a strict sign condition that
/// the origin fails.
pub proof fn lemma_arcs_disjoint(x: int, y: int, d1: Direction, d2: Direction)
    requires
        in_arc(d1, x, y),
        in_arc(d2, x, y),
    ensures
        d1 == d2,
{
    lemma_sector_partition(x, y);
}

/// Every point away from the origin lies in some arc: the partition is
/// exhaustive, and it is the arc of the sector that `sector_spec` picks.
pub proof fn lemma_arcs_exhaustive(x: int, y: int)
    requires
        x != 0 || y != 0,
    ensures
        in_arc(sector_spec(x, y), x, y),
{
    lemma_sector_partition(x, y);
}

/// The sector a quarter turn clockwise around the compass ring: the sector
/// of `theta - pi/2`.
pub open spec fn quarter_turn(d: Direction) -> Direction {
    match d {
        Direction::North => Direction::East,
        Direction::Northeast => Direction::Southeast,
        Direction::East => Direction::South,
        Direction::Southeast => Direction::Southwest,
        Direction::South => Direction::West,
        Direction::Southwest => Direction::Northwest,
        Direction::West => Direction::North,
        Direction::Northwest => Direction::Northeast,
    }
}

/// The sector mirrored across the North-South axis: the sector of `-theta`.
pub open spec fn mirror(d: Direction) -> Direction {
    match d {
        Direction::North => Direction::North,
        Direction::Northeast => Direction::Northwest,
        Direction::East => Direction::West,
        Direction::Southeast => Direction::Southwest,
        Direction::South => Direction::South,
        Direction::Southwest => Direction::Southeast,
        Direction::West => Direction::East,
        Direction::Northwest => Direction::Northeast,
    }
}

/// Rotating the field vector a quarter turn, `(x, y)` to `(y, -x)`, shifts
/// the heading by exactly `-pi/2` and so carries every sector to the sector
/// a quarter turn around the ring. With the mirror symmetry below this makes
/// all eight arcs congruent: each spans exactly 45 degrees. The origin is
/// left out, since its conventional heading 0 is not rotation-invariant.
pub proof fn lemma_sector_quarter_turn(x: int, y: int)
    requires
        x != 0 || y != 0,
    ensures
        sector_spec(y, -x) == quarter_turn(sector_spec(x, y)),
{
    assert(forall|a: int| #[trigger] (a * a) >= 0) by (nonlinear_arith);
    assert(forall|a: int| a != 0 ==> #[trigger] (a * a) > 0) by (nonlinear_arith);
}

/// Negating `y` mirrors the field vector across the North-South axis, sends
/// the heading `theta` to `-theta`, and so carries every sector to its
/// mirror image. The origin is left out as in the quarter-turn law.
pub proof fn lemma_sector_mirror(x: int, y: int)
    requires
        x != 0 || y != 0,
    ensures
        sector_spec(x, -y) == mirror(sector_spec(x, y)),
{
    assert(forall|a: int| #[trigger] (a * a) >= 0) by (nonlinear_arith);
    assert(forall|a: int| a != 0 ==> #[trigger] (a * a) > 0) by (nonlinear_arith);
}

/// Scaling both sides of a boundary test by a positive factor does not
/// change it: `k*a < tan(pi/8) * (k*b)` exactly when `a < tan(pi/8) * b`.
proof fn lemma_tan_pi8_lt_scale(a: int, b: int, k: int)
    requires
        k > 0,
    ensures
        tan_pi8_lt(k * a, k * b) == tan_pi8_lt(a, b),
{
    let c = b - a;
    assert(k * b - k * a == k * c) by (nonlinear_arith)
        requires c == b - a;
    assert((k * a >= 0) == (a >= 0)) by (nonlinear_arith)
        requires k > 0;
    assert((k * c > 0) == (c > 0)) by (nonlinear_arith)
        requires k > 0;
    assert((k * c >= 0) == (c >= 0)) by (nonlinear_arith)
        requires k > 0;
    assert((2 * ((k * a) * (k * a)) < (k * c) * (k * c)) == (2 * (a * a) < c * c))
        by (nonlinear_arith)
        requires k > 0;
    assert((2 * ((k * a) * (k * a)) > (k * c) * (k * c)) == (2 * (a * a) > c * c))
        by (nonlinear_arith)
        requires k > 0;
}

/// The heading depends on the field's direction alone: scaling the field
/// vector by any positive factor leaves the sector unchanged, so neither the
/// field's strength nor the sensor's gain can move the display.
pub proof fn lemma_sector_scale_invariant(x: int, y: int, k: int)
    requires
        k > 0,
    ensures
        sector_spec(k * x, k * y) == sector_spec(x, y),
{
    assert((k * x > 0) == (x > 0)) by (nonlinear_arith)
        requires k > 0;
    assert((k * x == 0) == (x == 0)) by (nonlinear_arith)
        requires k > 0;
    assert((k * x < 0) == (x < 0)) by (nonlinear_arith)
        requires k > 0;
    assert((k * y > 0) == (y > 0)) by (nonlinear_arith)
        requires k > 0;
    assert((k * y == 0) == (y == 0)) by (nonlinear_arith)
        requires k > 0;
    assert((k * y >= 0) == (y >= 0)) by (nonlinear_arith)
        requires k > 0;
    lemma_tan_pi8_lt_scale(y, x, k);
    lemma_tan_pi8_lt_scale(x, y, k);
    lemma_tan_pi8_lt_scale(-x, y, k);
    lemma_tan_pi8_lt_scale(y, -x, k);
    lemma_tan_pi8_lt_scale(-y, -x, k);
    lemma_tan_pi8_lt_scale(-x, -y, k);
    lemma_tan_pi8_lt_scale(x, -y, k);
    lemma_tan_pi8_lt_scale(-y, x, k);
    assert(k * -x == -(k * x)) by (nonlinear_arith);
    assert(k * -y == -(k * y)) by (nonlinear_arith);
}

/// Exact evaluation of `sqrt2_lt` on machine integers. The casts to `i128`
/// keep the squares of values up to `2^33` in magnitude far from overflow.
fn sqrt2_lt_exec(p: i64, q: i64) -> (r: bool)
    requires
        -0x2_0000_0000 <= p <= 0x2_0000_0000,
        -0x2_0000_0000 <= q <= 0x2_0000_0000,
    ensures
        r == sqrt2_lt(p as int, q as int),
{
    proof {
        assert(0 <= p * p <= 0x10_0000_0000_0000_0000int) by (nonlinear_arith)
            requires -0x2_0000_0000 <= p <= 0x2_0000_0000;
        assert(0 <= q * q <= 0x10_0000_0000_0000_0000int) by (nonlinear_arith)
            requires -0x2_0000_0000 <= q <= 0x2_0000_0000;
    }
    let p2: i128 = (p as i128) * (p as i128);
    let q2: i128 = (q as i128) * (q as i128);
    if p >= 0 {
        q > 0 && 2 * p2 < q2
    } else {
        q >= 0 || 2 * p2 > q2
    }
}

/// Exact evaluation of `tan_pi8_lt` on machine integers.
fn tan_pi8_lt_exec(a: i64, b: i64) -> (r: bool)
    requires
        -0x1_0000_0000 <= a <= 0x1_0000_0000,
        -0x1_0000_0000 <= b <= 0x1_0000_0000,
    ensures
        r == tan_pi8_lt(a as int, b as int),
{
    sqrt2_lt_exec(a, b - a)
}

/// Heading classifier: the sector of the heading angle `atan2(y, x)` of the
/// horizontal magnetic-field vector `(x, y)`. Pure, total and deterministic;
/// the boundary comparisons are carried out exactly in integer arithmetic.
pub fn classify(x: i32, y: i32) -> (d: Direction)
    ensures
        d == sector_spec(x as int, y as int),
{
    let xl: i64 = x as i64;
    let yl: i64 = y as i64;
    if y == 0 {
        if x >= 0 {
            Direction::South
        } else {
            Direction::North
        }
    } else if y > 0 {
        if x > 0 {
            if tan_pi8_lt_exec(yl, xl) {
                Direction::South
            } else if !tan_pi8_lt_exec(xl, yl) {
                Direction::Southeast
            } else {
                Direction::East
            }
        } else if x == 0 {
            Direction::East
        } else {
            if tan_pi8_lt_exec(-xl, yl) {
                Direction::East
            } else if !tan_pi8_lt_exec(yl, -xl) {
                Direction::Northeast
            } else {
                Direction::North
            }
        }
    } else {
        if x < 0 {
            if tan_pi8_lt_exec(-yl, -xl) {
                Direction::North
            } else if !tan_pi8_lt_exec(-xl, -yl) {
                Direction::Northwest
            } else {
                Direction::West
            }
        } else if x == 0 {
            Direction::West
        } else {
            if tan_pi8_lt_exec(xl, -yl) {
                Direction::West
            } else if !tan_pi8_lt_exec(-yl, xl) {
                Direction::Southwest
            } else {
                Direction::South
            }
        }
    }
}

} // verus!
