//! Arrows: a shaft with a six-legged head, drawn as line segments.

use crate::geometry::{
    add_vert, lemma_vertex_data_len, lemma_vertex_data_push, vertex_data, vertex_width, Axis, Rgb,
    Vec3,
};
use vstd::prelude::*;

verus! {

/// The points of an arrow drawn as seven line segments: the shaft from `pos` to
/// `head`, then six legs that start at `head` and run along one axis each, first
/// to the coordinate of `high` and then to that of `low`, for x, y and z in turn.
pub open spec fn arrow_points<T>(
    pos: Vec3<T>,
    head: Vec3<T>,
    low: Vec3<T>,
    high: Vec3<T>,
) -> Seq<Vec3<T>> {
    seq![
        pos,
        head,
        head,
        head.moved_to(Axis::X, high),
        head,
        head.moved_to(Axis::X, low),
        head,
        head.moved_to(Axis::Y, high),
        head,
        head.moved_to(Axis::Y, low),
        head,
        head.moved_to(Axis::Z, high),
        head,
        head.moved_to(Axis::Z, low),
    ]
}

/// Appends an arrow as line segments: its shaft and a six-legged head. `head` is
/// the arrow's far end; `low` and `high` hold, for each axis, the coordinates at
/// which the legs along that axis end, on the negative and on the positive side
/// of `head`. With a colour every vertex carries it; without one the vertices
/// are coordinates only.
pub fn vector_to_vertices<T: Copy>(
    vertices: &mut Vec<T>,
    pos: &Vec3<T>,
    head: &Vec3<T>,
    low: &Vec3<T>,
    high: &Vec3<T>,
    color: Rgb<T>,
)
    ensures
        final(vertices)@ == old(vertices)@ + vertex_data(
            arrow_points(*pos, *head, *low, *high),
            color,
        ),
        final(vertices)@.len() == old(vertices)@.len() + 14 * vertex_width(color),
{
    let ghost points = arrow_points(*pos, *head, *low, *high);
    proof {
        lemma_vertex_data_len(points, color);
    }
    let ends: [Vec3<T>; 6] = [
        Vec3 { x: high.x, y: head.y, z: head.z },
        Vec3 { x: low.x, y: head.y, z: head.z },
        Vec3 { x: head.x, y: high.y, z: head.z },
        Vec3 { x: head.x, y: low.y, z: head.z },
        Vec3 { x: head.x, y: head.y, z: high.z },
        Vec3 { x: head.x, y: head.y, z: low.z },
    ];
    add_vert(vertices, pos, color);
    add_vert(vertices, head, color);
    proof {
        lemma_vertex_data_push(Seq::empty(), *pos, color);
        lemma_vertex_data_push(seq![*pos], *head, color);
        assert(points.take(2) =~= seq![*pos].push(*head));
        assert(seq![*pos] =~= Seq::empty().push(*pos));
    }
    let mut leg: usize = 0;
    while leg < 6
        invariant
            leg <= 6,
            points == arrow_points(*pos, *head, *low, *high),
            forall|i: int| 0 <= i < 6 ==> ends@[i] == points[3 + 2 * i],
            vertices@ == old(vertices)@ + vertex_data(points.take(2 + 2 * leg), color),
        decreases 6 - leg,
    {
        add_vert(vertices, head, color);
        add_vert(vertices, &ends[leg], color);
        proof {
            let done = points.take(2 + 2 * leg);
            lemma_vertex_data_push(done, *head, color);
            lemma_vertex_data_push(done.push(*head), ends@[leg as int], color);
            assert(points.take(2 + 2 * (leg + 1)) =~= done.push(*head).push(ends@[leg as int]));
        }
        leg = leg + 1;
    }
    assert(points.take(14) =~= points);
}

} // verus!
