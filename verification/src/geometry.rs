//! Vertex data for the body and for arrows, for any copyable scalar type.

use vstd::prelude::*;

verus! {

/// One of the three coordinate axes.
#[derive(Clone, Copy, Debug, PartialEq, Eq, Structural)]
pub enum Axis {
    X,
    Y,
    Z,
}

/// A point or vector with three coordinates of an opaque scalar type.
#[derive(Debug, PartialEq)]
pub struct Vec3<T> {
    pub x: T,
    pub y: T,
    pub z: T,
}

impl<T: Copy> Clone for Vec3<T> {
    fn clone(&self) -> (copy: Self)
        ensures
            copy == *self,
    {
        Vec3 { x: self.x, y: self.y, z: self.z }
    }
}

impl<T: Copy> Copy for Vec3<T> {

}

/// An optional colour, as its red, green and blue parts.
pub type Rgb<T> = Option<(T, T, T)>;

impl<T> Vec3<T> {
    /// The three coordinates in the order x, y, z.
    pub open spec fn coords(self) -> Seq<T> {
        seq![self.x, self.y, self.z]
    }

    /// This point moved along `axis` to the coordinate that `other` has there.
    pub open spec fn moved_to(self, axis: Axis, other: Vec3<T>) -> Vec3<T> {
        match axis {
            Axis::X => Vec3 { x: other.x, y: self.y, z: self.z },
            Axis::Y => Vec3 { x: self.x, y: other.y, z: self.z },
            Axis::Z => Vec3 { x: self.x, y: self.y, z: other.z },
        }
    }
}

/// The number of scalars that one vertex takes: three coordinates, and three
/// colour parts where there is a colour.
pub open spec fn vertex_width<T>(color: Rgb<T>) -> nat {
    if color is Some {
        6
    } else {
        3
    }
}

/// The scalars of one vertex: its coordinates, followed by its colour if any.
pub open spec fn vertex<T>(point: Vec3<T>, color: Rgb<T>) -> Seq<T> {
    match color {
        Some(c) => point.coords() + seq![c.0, c.1, c.2],
        None => point.coords(),
    }
}

/// The scalars of a run of vertices that share one colour, vertex after vertex.
pub open spec fn vertex_data<T>(points: Seq<Vec3<T>>, color: Rgb<T>) -> Seq<T>
    decreases points.len(),
{
    if points.len() == 0 {
        Seq::empty()
    } else {
        vertex_data(points.drop_last(), color) + vertex(points.last(), color)
    }
}

/// Vertex data has one vertex width of scalars per point.
pub proof fn lemma_vertex_data_len<T>(points: Seq<Vec3<T>>, color: Rgb<T>)
    ensures
        vertex_data(points, color).len() == points.len() * vertex_width(color),
    decreases points.len(),
{
    if points.len() > 0 {
        lemma_vertex_data_len(points.drop_last(), color);
        assert(points.len() * vertex_width(color) == (points.len() - 1) * vertex_width(color)
            + vertex_width(color)) by (nonlinear_arith);
    }
}

/// Scalar `k` of vertex `j` of the data is scalar `k` of the vertex of point `j`.
pub proof fn lemma_vertex_data_index<T>(points: Seq<Vec3<T>>, color: Rgb<T>, j: int, k: int)
    requires
        0 <= j < points.len(),
        0 <= k < vertex_width(color),
    ensures
        0 <= j * vertex_width(color) + k < vertex_data(points, color).len(),
        vertex_data(points, color)[j * vertex_width(color) + k] == vertex(points[j], color)[k],
    decreases points.len(),
{
    let w = vertex_width(color) as int;
    let front = points.drop_last();
    lemma_vertex_data_len(points, color);
    lemma_vertex_data_len(front, color);
    assert(j * w + k < points.len() * w) by (nonlinear_arith)
        requires
            0 <= j < points.len(),
            0 <= k < w,
    ;
    assert(0 <= j * w + k) by (nonlinear_arith)
        requires
            0 <= j,
            0 <= k,
            0 <= w,
    ;
    if j < points.len() - 1 {
        lemma_vertex_data_index(front, color, j, k);
    } else {
        assert(j * w == front.len() * w);
    }
}

/// Adding a point to a run adds its vertex to the data.
pub proof fn lemma_vertex_data_push<T>(points: Seq<Vec3<T>>, point: Vec3<T>, color: Rgb<T>)
    ensures
        vertex_data(points.push(point), color) == vertex_data(points, color) + vertex(point, color),
{
    assert(points.push(point).drop_last() =~= points);
}

/// Appends one vertex to the buffer.
pub fn add_vert<T: Copy>(vertices: &mut Vec<T>, point: &Vec3<T>, color: Rgb<T>)
    ensures
        final(vertices)@ == old(vertices)@ + vertex(*point, color),
{
    vertices.push(point.x);
    vertices.push(point.y);
    vertices.push(point.z);
    if let Some(c) = color {
        vertices.push(c.0);
        vertices.push(c.1);
        vertices.push(c.2);
    }
}

} // verus!
