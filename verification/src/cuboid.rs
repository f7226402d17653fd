//! The body as a cuboid: the numbering of its corners and the order in which
//! they are emitted as triangles or as edges.

use crate::geometry::{
    add_vert, lemma_vertex_data_len, lemma_vertex_data_push, vertex_data, Axis, Vec3,
};
use vstd::prelude::*;

verus! {

/// Whether corner `corner` of the cuboid lies on the positive side of the body's
/// centre along `axis`. The eight corners are numbered from 0 by their three
/// signs, read as binary digits with x first: 0 is the corner on the negative side
/// along all three axes, 1 differs from it along z, and 7 is the corner on the
/// positive side along all three.
pub open spec fn corner_positive(corner: int, axis: Axis) -> bool {
    match axis {
        Axis::X => (corner / 4) % 2 == 1,
        Axis::Y => (corner / 2) % 2 == 1,
        Axis::Z => corner % 2 == 1,
    }
}

/// Tells on which side of the body's centre a corner lies along an axis.
pub fn corner_is_positive(corner: usize, axis: Axis) -> (positive: bool)
    ensures
        positive == corner_positive(corner as int, axis),
{
    match axis {
        Axis::X => (corner / 4) % 2 == 1,
        Axis::Y => (corner / 2) % 2 == 1,
        Axis::Z => corner % 2 == 1,
    }
}

/// The corners of the twelve edges, two per edge, in the order in which the
/// wireframe is emitted.
pub open spec fn wireframe_order() -> Seq<int> {
    seq![0, 1, 0, 2, 2, 3, 1, 3, 4, 5, 4, 6, 6, 7, 5, 7, 0, 4, 2, 6, 3, 7, 1, 5]
}

/// The corners of the twelve triangles, three per triangle, in the order in
/// which the solid body is emitted.
pub open spec fn solid_order() -> Seq<int> {
    seq![
        0, 1, 2, 1, 2, 3, 0, 2, 6, 0, 4, 6, 0, 1, 5, 0, 4, 5,
        4, 5, 6, 5, 6, 7, 1, 3, 7, 1, 5, 7, 2, 3, 7, 2, 6, 7,
    ]
}

/// The corners that the body's vertices are taken from, in emission order.
pub open spec fn cuboid_order(wireframe: bool) -> Seq<int> {
    if wireframe {
        wireframe_order()
    } else {
        solid_order()
    }
}

/// The points at the given positions of `corners`, in the given order.
pub open spec fn pick<T>(corners: Seq<Vec3<T>>, order: Seq<int>) -> Seq<Vec3<T>> {
    order.map_values(|c: int| corners[c])
}

/// Appends the vertices of the corners listed in `order`, without colour.
pub fn add_corners<T: Copy>(vertices: &mut Vec<T>, corners: &[Vec3<T>; 8], order: &[usize])
    requires
        forall|i: int| 0 <= i < order@.len() ==> order@[i] < 8,
    ensures
        final(vertices)@ == old(vertices)@ + vertex_data(
            pick(corners@, order@.map_values(|c: usize| c as int)),
            None,
        ),
{
    let ghost points = pick(corners@, order@.map_values(|c: usize| c as int));
    let mut k: usize = 0;
    while k < order.len()
        invariant
            k <= order@.len(),
            forall|i: int| 0 <= i < order@.len() ==> order@[i] < 8,
            points == pick(corners@, order@.map_values(|c: usize| c as int)),
            vertices@ == old(vertices)@ + vertex_data(points.take(k as int), None),
        decreases order@.len() - k,
    {
        let c: usize = order[k];
        add_vert(vertices, &corners[c], None);
        proof {
            assert(points.take(k + 1) =~= points.take(k as int).push(corners@[c as int]));
            lemma_vertex_data_push(points.take(k as int), corners@[c as int], None);
        }
        k = k + 1;
    }
    assert(points.take(k as int) =~= points);
}

/// Appends the body's vertices, coordinates only: twelve triangles for the solid
/// body, twelve line segments for the wireframe. `corners` holds the eight
/// corners of the body in world space, numbered as `corner_positive` describes.
pub fn cuboid_to_vertices<T: Copy>(vertices: &mut Vec<T>, corners: &[Vec3<T>; 8], wireframe: bool)
    ensures
        final(vertices)@ == old(vertices)@ + vertex_data(
            pick(corners@, cuboid_order(wireframe)),
            None,
        ),
        final(vertices)@.len() == old(vertices)@.len() + (if wireframe {
            3 * 24
        } else {
            3 * 36
        }),
{
    proof {
        lemma_vertex_data_len(pick(corners@, cuboid_order(wireframe)), None);
    }
    if wireframe {
        let order: [usize; 24] = [
            0, 1, 0, 2, 2, 3, 1, 3, 4, 5, 4, 6, 6, 7, 5, 7, 0, 4, 2, 6, 3, 7, 1, 5,
        ];
        assert(order@.map_values(|c: usize| c as int) =~= wireframe_order());
        add_corners(vertices, corners, &order);
    } else {
        let order: [usize; 36] = [
            0, 1, 2, 1, 2, 3, 0, 2, 6, 0, 4, 6, 0, 1, 5, 0, 4, 5,
            4, 5, 6, 5, 6, 7, 1, 3, 7, 1, 5, 7, 2, 3, 7, 2, 6, 7,
        ];
        assert(order@.map_values(|c: usize| c as int) =~= solid_order());
        add_corners(vertices, corners, &order);
    }
}

/// The number of axes along which two corners lie on different sides of the
/// body's centre.
pub open spec fn sides_apart(a: int, b: int) -> int {
    (if corner_positive(a, Axis::X) != corner_positive(b, Axis::X) {
        1int
    } else {
        0int
    }) + (if corner_positive(a, Axis::Y) != corner_positive(b, Axis::Y) {
        1int
    } else {
        0int
    }) + (if corner_positive(a, Axis::Z) != corner_positive(b, Axis::Z) {
        1int
    } else {
        0int
    })
}

/// Whether `corner` lies on the face of the body that is on the given side
/// along `axis`.
pub open spec fn on_face(corner: int, axis: Axis, positive: bool) -> bool {
    corner_positive(corner, axis) == positive
}

/// The two corners of segment `e` of the wireframe.
pub open spec fn edge(e: int) -> (int, int) {
    (wireframe_order()[2 * e], wireframe_order()[2 * e + 1])
}

/// Whether segment `e` of the wireframe joins corners `a` and `b`.
pub open spec fn joins(e: int, a: int, b: int) -> bool {
    edge(e) == (a, b) || edge(e) == (b, a)
}

/// The three corners of triangle `t` of the solid body.
pub open spec fn triangle(t: int) -> (int, int, int) {
    (solid_order()[3 * t], solid_order()[3 * t + 1], solid_order()[3 * t + 2])
}

/// Whether `corner` is one of the corners of triangle `t`.
pub open spec fn has_corner(t: int, corner: int) -> bool {
    triangle(t).0 == corner || triangle(t).1 == corner || triangle(t).2 == corner
}

/// Whether triangle `t` lies in the given face.
pub open spec fn lies_on(t: int, axis: Axis, positive: bool) -> bool {
    &&& on_face(triangle(t).0, axis, positive)
    &&& on_face(triangle(t).1, axis, positive)
    &&& on_face(triangle(t).2, axis, positive)
}

/// Whether triangles `t` and `u` are the two halves of the given face, cut along
/// a diagonal: both lie in the face, each has three corners, every corner of the
/// face belongs to one of them, and the corners that they share lie across the
/// face from each other.
pub open spec fn halve_face(t: int, u: int, axis: Axis, positive: bool) -> bool {
    &&& lies_on(t, axis, positive)
    &&& lies_on(u, axis, positive)
    &&& triangle(t).0 != triangle(t).1 && triangle(t).0 != triangle(t).2 && triangle(t).1
        != triangle(t).2
    &&& triangle(u).0 != triangle(u).1 && triangle(u).0 != triangle(u).2 && triangle(u).1
        != triangle(u).2
    &&& forall|c: int|
        0 <= c < 8 && on_face(c, axis, positive) ==> #[trigger] has_corner(t, c) || has_corner(u, c)
    &&& forall|c: int, d: int|
        #![trigger has_corner(t, c), has_corner(u, d)]
        c != d && has_corner(t, c) && has_corner(u, c) && has_corner(t, d) && has_corner(u, d)
            ==> sides_apart(c, d) == 2
}

/// The numbering covers the corners: any three signs belong to exactly one of
/// the corners 0 to 7.
pub proof fn lemma_corner_numbering(x: bool, y: bool, z: bool)
    ensures
        exists|c: int|
            0 <= c < 8 && #[trigger] corner_positive(c, Axis::X) == x && corner_positive(c, Axis::Y)
                == y && corner_positive(c, Axis::Z) == z,
        forall|c: int, d: int|
            #![trigger corner_positive(c, Axis::X), corner_positive(d, Axis::X)]
            0 <= c < 8 && 0 <= d < 8 && sides_apart(c, d) == 0 ==> c == d,
{
    let c = (if x {
        4int
    } else {
        0int
    }) + (if y {
        2int
    } else {
        0int
    }) + (if z {
        1int
    } else {
        0int
    });
    assert(corner_positive(c, Axis::X) == x && corner_positive(c, Axis::Y) == y && corner_positive(
        c,
        Axis::Z,
    ) == z);
}

/// Both emission orders name corners only.
pub proof fn lemma_orders_name_corners(wireframe: bool, i: int)
    requires
        0 <= i < cuboid_order(wireframe).len(),
    ensures
        0 <= cuboid_order(wireframe)[i] < 8,
{
}

/// Every vertex of the body is one of its eight corners.
pub proof fn lemma_body_vertices_are_corners<T>(corners: Seq<Vec3<T>>, wireframe: bool, i: int)
    requires
        corners.len() == 8,
        0 <= i < cuboid_order(wireframe).len(),
    ensures
        corners.contains(pick(corners, cuboid_order(wireframe))[i]),
{
    lemma_orders_name_corners(wireframe, i);
    assert(corners[cuboid_order(wireframe)[i]] == pick(corners, cuboid_order(wireframe))[i]);
}

/// The wireframe is the twelve edges of the cuboid, each drawn once: two corners
/// are joined by a segment exactly when they differ along one axis only, and
/// then by one segment only.
pub proof fn lemma_wireframe_is_edges(a: int, b: int)
    requires
        0 <= a < 8,
        0 <= b < 8,
    ensures
        sides_apart(a, b) == 1 <==> exists|e: int| 0 <= e < 12 && joins(e, a, b),
        forall|e: int, f: int|
            0 <= e < 12 && 0 <= f < 12 && joins(e, a, b) && joins(f, a, b) ==> e == f,
{
    assert(edge(0) == (0int, 1int) && edge(1) == (0int, 2int) && edge(2) == (2int, 3int));
    assert(edge(3) == (1int, 3int) && edge(4) == (4int, 5int) && edge(5) == (4int, 6int));
    assert(edge(6) == (6int, 7int) && edge(7) == (5int, 7int) && edge(8) == (0int, 4int));
    assert(edge(9) == (2int, 6int) && edge(10) == (3int, 7int) && edge(11) == (1int, 5int));
    if sides_apart(a, b) == 1 {
        let low = if a < b {
            a
        } else {
            b
        };
        let high = if a < b {
            b
        } else {
            a
        };
        let e: int = if high - low == 4 {
            if low == 0 {
                8
            } else if low == 2 {
                9
            } else if low == 3 {
                10
            } else {
                11
            }
        } else if high - low == 2 {
            if low == 0 {
                1
            } else if low == 1 {
                3
            } else if low == 4 {
                5
            } else {
                7
            }
        } else {
            low
        };
        assert(joins(e, a, b));
    }
    assert forall|e: int| 0 <= e < 12 && joins(e, a, b) implies sides_apart(a, b) == 1 by {}
}

/// The triangle that comes first of the two that make up a face.
pub open spec fn face_triangle(axis: Axis, positive: bool) -> int {
    match (axis, positive) {
        (Axis::X, false) => 0,
        (Axis::Z, false) => 2,
        (Axis::Y, false) => 4,
        (Axis::X, true) => 6,
        (Axis::Z, true) => 8,
        (Axis::Y, true) => 10,
    }
}

/// The solid body is the six faces of the cuboid, each cut into two triangles
/// along a diagonal: a face's two triangles come one after the other, and no
/// other triangle lies in that face.
pub proof fn lemma_solid_is_faces(axis: Axis, positive: bool)
    ensures
        0 <= face_triangle(axis, positive) < 11,
        halve_face(
            face_triangle(axis, positive),
            face_triangle(axis, positive) + 1,
            axis,
            positive,
        ),
        forall|t: int|
            0 <= t < 12 && #[trigger] lies_on(t, axis, positive) ==> t == face_triangle(
                axis,
                positive,
            ) || t == face_triangle(axis, positive) + 1,
{
    let t = face_triangle(axis, positive);
    let u = t + 1;
    assert(triangle(0) == (0int, 1int, 2int) && triangle(1) == (1int, 2int, 3int));
    assert(triangle(2) == (0int, 2int, 6int) && triangle(3) == (0int, 4int, 6int));
    assert(triangle(4) == (0int, 1int, 5int) && triangle(5) == (0int, 4int, 5int));
    assert(triangle(6) == (4int, 5int, 6int) && triangle(7) == (5int, 6int, 7int));
    assert(triangle(8) == (1int, 3int, 7int) && triangle(9) == (1int, 5int, 7int));
    assert(triangle(10) == (2int, 3int, 7int) && triangle(11) == (2int, 6int, 7int));
}

} // verus!
