//! The geometry kernel: vector normalization, normal and miter-join
//! computation, and extrusion of a path into the paired rail vertices of a
//! thick line.

use vstd::prelude::*;
use crate::picture::{Point, Points, point};
use crate::scalar::{
    ONE_BITS, TWO_BITS, add_bits, div_bits, is_zero_bits, mul_bits, neg_bits, scalar_add,
    scalar_div, scalar_mul, scalar_sqrt, scalar_sub, spec_neg_bits, sqrt_bits, sub_bits,
};

verus! {

/// Holds exactly when both coordinates compare equal to `0.0`.
pub open spec fn is_zero_point(v: Point) -> bool {
    is_zero_bits(v.x) && is_zero_bits(v.y)
}

/// The componentwise scaling of a vector by a scalar.
pub open spec fn pt_mul_spec(v: Point, s: u32) -> Point {
    Point { x: mul_bits(v.x, s), y: mul_bits(v.y, s) }
}

/// The componentwise sum of two vectors.
pub open spec fn pt_add_spec(a: Point, b: Point) -> Point {
    Point { x: add_bits(a.x, b.x), y: add_bits(a.y, b.y) }
}

/// The componentwise difference of two vectors.
pub open spec fn pt_sub_spec(a: Point, b: Point) -> Point {
    Point { x: sub_bits(a.x, b.x), y: sub_bits(a.y, b.y) }
}

/// The vector a zero test followed by a true reciprocal square root yields:
/// the zero vector is returned unchanged (no division by zero); any other
/// vector is scaled by `1 / sqrt(x*x + y*y)`.
pub open spec fn normalize_spec(v: Point) -> Point {
    if is_zero_point(v) {
        v
    } else {
        pt_mul_spec(
            v,
            div_bits(
                ONE_BITS,
                sqrt_bits(add_bits(mul_bits(v.x, v.x), mul_bits(v.y, v.y))),
            ),
        )
    }
}

/// The left-hand perpendicular of the unit tangent from `cur` to `prev`,
/// used at path endpoints that have no neighbor on one side.
pub open spec fn get_normal_spec(prev: Point, cur: Point) -> Point {
    let tangent = normalize_spec(pt_sub_spec(prev, cur));
    Point { x: spec_neg_bits(tangent.y), y: tangent.x }
}

/// The miter-join vector at an interior vertex: the sum of the two unit
/// tangents, scaled by the reciprocal of their cross product.
pub open spec fn get_miter_spec(prev: Point, cur: Point, next: Point) -> Point {
    let tangent1 = normalize_spec(pt_sub_spec(prev, cur));
    let tangent2 = normalize_spec(pt_sub_spec(next, cur));
    let cross = sub_bits(mul_bits(tangent1.x, tangent2.y), mul_bits(tangent1.y, tangent2.x));
    pt_mul_spec(pt_add_spec(tangent1, tangent2), div_bits(ONE_BITS, cross))
}

/// The extrusion vector of vertex `i` of a path: endpoints use the normal
/// rule, interior vertices the miter rule, and the result is scaled by half
/// the thickness.
pub open spec fn extrusion_spec(line: Seq<Point>, i: int, half: u32) -> Point {
    let normal = if i == 0 {
        get_normal_spec(line[i], line[i + 1])
    } else if i == line.len() - 1 {
        get_normal_spec(line[i - 1], line[i])
    } else {
        get_miter_spec(line[i - 1], line[i], line[i + 1])
    };
    pt_mul_spec(normal, half)
}

/// Scale a vector componentwise.
pub fn pt_mul(v: Point, s: u32) -> (r: Point)
    ensures
        r == pt_mul_spec(v, s),
{
    point(scalar_mul(v.x, s), scalar_mul(v.y, s))
}

/// Add two vectors componentwise.
pub fn pt_add(a: Point, b: Point) -> (r: Point)
    ensures
        r == pt_add_spec(a, b),
{
    point(scalar_add(a.x, b.x), scalar_add(a.y, b.y))
}

/// Subtract two vectors componentwise.
pub fn pt_sub(a: Point, b: Point) -> (r: Point)
    ensures
        r == pt_sub_spec(a, b),
{
    point(scalar_sub(a.x, b.x), scalar_sub(a.y, b.y))
}

/// Normalize a vector to unit length; the exact zero vector is returned
/// unchanged, avoiding a division by zero.
pub fn normalize(vector: Point) -> (r: Point)
    ensures
        r == normalize_spec(vector),
{
    let x_zero: bool = vector.x == 0 || vector.x == 0x8000_0000;
    let y_zero: bool = vector.y == 0 || vector.y == 0x8000_0000;
    if x_zero && y_zero {
        vector
    } else {
        let dot: u32 = scalar_add(scalar_mul(vector.x, vector.x), scalar_mul(vector.y, vector.y));
        pt_mul(vector, scalar_div(ONE_BITS, scalar_sqrt(dot)))
    }
}

/// The zero vector is normalized to itself: no division by zero occurs and
/// no coordinate changes.
pub proof fn lemma_normalize_zero(v: Point)
    requires
        is_zero_point(v),
    ensures
        normalize_spec(v) == v,
{
}

/// The left-hand perpendicular of the unit tangent from `cur` to `prev`.
pub fn get_normal(prev: Point, cur: Point) -> (r: Point)
    ensures
        r == get_normal_spec(prev, cur),
{
    let tangent = normalize(pt_sub(prev, cur));
    point(neg_bits(tangent.y), tangent.x)
}

/// The miter-join vector at the interior vertex `cur`.
pub fn get_miter(prev: Point, cur: Point, next: Point) -> (r: Point)
    ensures
        r == get_miter_spec(prev, cur, next),
{
    let tangent1 = normalize(pt_sub(prev, cur));
    let tangent2 = normalize(pt_sub(next, cur));
    let cross: u32 = scalar_sub(
        scalar_mul(tangent1.x, tangent2.y),
        scalar_mul(tangent1.y, tangent2.x),
    );
    pt_mul(pt_add(tangent1, tangent2), scalar_div(ONE_BITS, cross))
}

/// Holds when positions `2 * i` and `2 * i + 1` of `pts` are the two rail
/// vertices extruded from vertex `i` of `line`: the vertex plus its
/// extrusion vector, then the vertex minus it.
pub open spec fn extruded_pair(line: Seq<Point>, pts: Seq<Point>, i: int, half: u32) -> bool {
    pts[2 * i] == pt_add_spec(line[i], extrusion_spec(line, i, half)) && pts[2 * i + 1]
        == pt_sub_spec(line[i], extrusion_spec(line, i, half))
}

/// Extrude a path into the rail vertices of a thick line: for each vertex,
/// its extrusion vector is added and subtracted in turn, so vertex `i`
/// yields the pair at positions `2 * i` and `2 * i + 1`. The result has
/// exactly twice as many points as the path.
pub fn extrude_thickline(line: &Points, thickness: u32) -> (pts: Points)
    requires
        line.len() >= 2,
    ensures
        pts.len() == 2 * line.len(),
        forall|i: int|
            0 <= i < line@.len() ==> #[trigger] extruded_pair(
                line@,
                pts@,
                i,
                div_bits(thickness, TWO_BITS),
            ),
{
    let len: usize = line.len();
    let half: u32 = scalar_div(thickness, TWO_BITS);
    let mut pts: Points = Vec::new();

    for i in 0..len
        invariant
            len == line@.len(),
            len >= 2,
            half == div_bits(thickness, TWO_BITS),
            pts.len() == 2 * i,
            forall|j: int| 0 <= j < i ==> #[trigger] extruded_pair(line@, pts@, j, half),
    {
        let normal = if i == 0 {
            get_normal(line[i], line[i + 1])
        } else if i == len - 1 {
            get_normal(line[i - 1], line[i])
        } else {
            get_miter(line[i - 1], line[i], line[i + 1])
        };

        let extrusion = pt_mul(normal, half);
        let ghost pts0: Seq<Point> = pts@;
        pts.push(pt_add(line[i], extrusion));
        pts.push(pt_sub(line[i], extrusion));

        proof {
            let k: int = i as int;
            assert forall|j: int| 0 <= j <= k implies #[trigger] extruded_pair(
                line@,
                pts@,
                j,
                half,
            ) by {
                if j < k {
                    assert(extruded_pair(line@, pts0, j, half));
                    assert(pts@[2 * j] == pts0[2 * j]);
                    assert(pts@[2 * j + 1] == pts0[2 * j + 1]);
                } else {
                    assert(pts@[2 * k] == pt_add_spec(line@[k], extrusion_spec(line@, k, half)));
                    assert(pts@[2 * k + 1] == pt_sub_spec(
                        line@[k],
                        extrusion_spec(line@, k, half),
                    ));
                }
            }
        }
    }

    pts
}

} // verus!
