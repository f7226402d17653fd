//! What a frame is made of: the two vertex formats, the primitive that the body
//! is drawn with, and the arrows that are drawn around it.

use crate::arrow::arrow_points;
use crate::cuboid::{cuboid_order, pick};
use crate::geometry::{lemma_vertex_data_len, vertex_data, vertex_width, Axis, Rgb, Vec3};
use vstd::prelude::*;

verus! {

/// Bytes that one scalar takes in a vertex buffer.
pub const SCALAR_BYTES: i32 = 4;

/// Length of the three arrows that show the world axes.
pub const AXIS_LENGTH: i32 = 5;

/// How the vertices of a buffer are joined up when drawn.
#[derive(Clone, Copy, Debug, PartialEq, Eq, Structural)]
pub enum Primitive {
    /// Every three vertices make a triangle.
    Triangles,
    /// Every two vertices make a line segment.
    Lines,
}

impl Primitive {
    /// The number of vertices that make one primitive.
    pub open spec fn arity(self) -> int {
        match self {
            Primitive::Triangles => 3,
            Primitive::Lines => 2,
        }
    }
}

/// The primitive that the body is drawn with: lines for the wireframe, triangles
/// for the solid body.
pub open spec fn body_primitive_for(wireframe: bool) -> Primitive {
    if wireframe {
        Primitive::Lines
    } else {
        Primitive::Triangles
    }
}

/// Chooses the primitive that the body is drawn with.
pub fn body_primitive(wireframe: bool) -> (primitive: Primitive)
    ensures
        primitive == body_primitive_for(wireframe),
{
    if wireframe {
        Primitive::Lines
    } else {
        Primitive::Triangles
    }
}

/// One input of a vertex program, as it lies in the buffer.
#[derive(Clone, Copy, Debug, PartialEq, Eq, Structural)]
pub struct Attribute {
    /// Scalars that the input takes.
    pub components: i32,
    /// Bytes from one vertex to the next.
    pub stride: i32,
    /// Bytes from the start of a vertex to the input.
    pub offset: i32,
}

/// The two layouts of a vertex.
#[derive(Clone, Copy, Debug, PartialEq, Eq, Structural)]
pub enum VertexFormat {
    /// A position only; drawn white.
    Plain,
    /// A position followed by a colour.
    Colored,
}

impl VertexFormat {
    /// Scalars per vertex.
    pub open spec fn width(self) -> int {
        match self {
            VertexFormat::Plain => 3,
            VertexFormat::Colored => 6,
        }
    }

    /// Where the position lies: at the start of the vertex.
    pub open spec fn position_spec(self) -> Attribute {
        Attribute { components: 3, stride: (self.width() * SCALAR_BYTES) as i32, offset: 0 }
    }

    /// Where the colour lies, in the format that has one: right behind the position.
    pub open spec fn color_spec(self) -> Option<Attribute> {
        match self {
            VertexFormat::Plain => None,
            VertexFormat::Colored => Some(
                Attribute {
                    components: 3,
                    stride: (self.width() * SCALAR_BYTES) as i32,
                    offset: (3 * SCALAR_BYTES) as i32,
                },
            ),
        }
    }

    /// The format of vertices emitted with this colour.
    pub open spec fn of_color<T>(color: Rgb<T>) -> VertexFormat {
        if color is Some {
            VertexFormat::Colored
        } else {
            VertexFormat::Plain
        }
    }

    /// Gives the number of scalars per vertex.
    pub fn scalars_per_vertex(self) -> (n: usize)
        ensures
            n == self.width(),
    {
        match self {
            VertexFormat::Plain => 3,
            VertexFormat::Colored => 6,
        }
    }

    /// Gives the layout of the position input.
    pub fn position(self) -> (attribute: Attribute)
        ensures
            attribute == self.position_spec(),
    {
        match self {
            VertexFormat::Plain => Attribute { components: 3, stride: 3 * SCALAR_BYTES, offset: 0 },
            VertexFormat::Colored => Attribute {
                components: 3,
                stride: 6 * SCALAR_BYTES,
                offset: 0,
            },
        }
    }

    /// Gives the layout of the colour input, if the format has one.
    pub fn color(self) -> (attribute: Option<Attribute>)
        ensures
            attribute == self.color_spec(),
    {
        match self {
            VertexFormat::Plain => None,
            VertexFormat::Colored => Some(
                Attribute { components: 3, stride: 6 * SCALAR_BYTES, offset: 3 * SCALAR_BYTES },
            ),
        }
    }

    /// Counts the whole vertices in a buffer of `scalars` scalars.
    pub fn vertex_count(self, scalars: usize) -> (count: usize)
        ensures
            count == scalars as int / self.width(),
    {
        scalars / self.scalars_per_vertex()
    }
}

/// The inputs of a format fill the vertex from its first byte to its last
/// without overlapping: the position takes the first three scalars, the colour,
/// where there is one, the next three.
pub proof fn lemma_attributes_tile_vertex(format: VertexFormat)
    ensures
        format.position_spec().stride == format.width() * SCALAR_BYTES,
        format.position_spec().offset == 0,
        format.color_spec() is Some <==> format == VertexFormat::Colored,
        format.color_spec() matches Some(color) ==> {
            &&& color.stride == format.position_spec().stride
            &&& color.offset == format.position_spec().components * SCALAR_BYTES
            &&& color.offset + color.components * SCALAR_BYTES == color.stride
        },
        format.color_spec() is None ==> format.position_spec().components * SCALAR_BYTES
            == format.position_spec().stride,
{
}

/// A run of vertices emitted with or without a colour holds a whole number of
/// vertices of the matching format: as many as there are points.
pub proof fn lemma_vertex_data_count<T>(points: Seq<Vec3<T>>, color: Rgb<T>)
    ensures
        VertexFormat::of_color(color).width() == vertex_width(color),
        vertex_data(points, color).len() as int / VertexFormat::of_color(color).width()
            == points.len(),
        vertex_data(points, color).len() as int % VertexFormat::of_color(color).width() == 0,
{
    lemma_vertex_data_len(points, color);
    let w = vertex_width(color) as int;
    let n = points.len() as int;
    assert((n * w) / w == n && (n * w) % w == 0) by (nonlinear_arith)
        requires
            w == 3 || w == 6,
            n >= 0,
    ;
}

/// The body's vertices make whole primitives of the kind that the body is drawn
/// with: 36 vertices for twelve triangles, or 24 vertices for twelve lines.
pub proof fn lemma_body_vertex_count<T>(corners: Seq<Vec3<T>>, wireframe: bool)
    ensures
        vertex_data(pick(corners, cuboid_order(wireframe)), None).len() as int
            / VertexFormat::Plain.width() == 12 * body_primitive_for(wireframe).arity(),
{
    lemma_vertex_data_count(pick(corners, cuboid_order(wireframe)), None);
}

/// An arrow takes fourteen vertices, which make seven lines.
pub proof fn lemma_arrow_vertex_count<T>(
    pos: Vec3<T>,
    head: Vec3<T>,
    low: Vec3<T>,
    high: Vec3<T>,
    color: Rgb<T>,
)
    ensures
        vertex_data(arrow_points(pos, head, low, high), color).len() as int / VertexFormat::of_color(
            color,
        ).width() == 7 * Primitive::Lines.arity(),
        color is Some ==> vertex_data(arrow_points(pos, head, low, high), color).len() == 7 * 2 * 6,
{
    lemma_vertex_data_count(arrow_points(pos, head, low, high), color);
    lemma_vertex_data_len(arrow_points(pos, head, low, high), color);
}

/// A colour whose parts are each either absent or at full strength.
#[derive(Clone, Copy, Debug, PartialEq, Eq, Structural)]
pub struct Color {
    pub red: bool,
    pub green: bool,
    pub blue: bool,
}

/// The arrows of a frame.
#[derive(Clone, Copy, Debug, PartialEq, Eq, Structural)]
pub enum Arrow {
    /// A world axis, drawn from the origin with length `AXIS_LENGTH`.
    WorldAxis(Axis),
    /// The body's linear velocity, drawn from the body's position.
    LinearVelocity,
    /// The body's angular momentum, drawn from the body's position.
    AngularMomentum,
}

impl Arrow {
    /// Red, green and blue for the x, y and z axis, yellow for the linear
    /// velocity, cyan for the angular momentum.
    pub open spec fn color_spec(self) -> Color {
        match self {
            Arrow::WorldAxis(Axis::X) => Color { red: true, green: false, blue: false },
            Arrow::WorldAxis(Axis::Y) => Color { red: false, green: true, blue: false },
            Arrow::WorldAxis(Axis::Z) => Color { red: false, green: false, blue: true },
            Arrow::LinearVelocity => Color { red: true, green: true, blue: false },
            Arrow::AngularMomentum => Color { red: false, green: true, blue: true },
        }
    }

    /// The reach of the head's legs in tenths of a unit: five for a world axis,
    /// one for an arrow at the body.
    pub open spec fn tip_tenths_spec(self) -> int {
        match self {
            Arrow::WorldAxis(_) => 5,
            _ => 1,
        }
    }

    /// Whether the arrow starts at the body's position rather than the origin.
    pub open spec fn at_body_spec(self) -> bool {
        !(self is WorldAxis)
    }

    /// Gives the arrow's colour.
    pub fn color(self) -> (color: Color)
        ensures
            color == self.color_spec(),
    {
        match self {
            Arrow::WorldAxis(Axis::X) => Color { red: true, green: false, blue: false },
            Arrow::WorldAxis(Axis::Y) => Color { red: false, green: true, blue: false },
            Arrow::WorldAxis(Axis::Z) => Color { red: false, green: false, blue: true },
            Arrow::LinearVelocity => Color { red: true, green: true, blue: false },
            Arrow::AngularMomentum => Color { red: false, green: true, blue: true },
        }
    }

    /// Gives the reach of the head's legs in tenths of a unit.
    pub fn tip_tenths(self) -> (tenths: i32)
        ensures
            tenths == self.tip_tenths_spec(),
    {
        match self {
            Arrow::WorldAxis(_) => 5,
            _ => 1,
        }
    }

    /// Tells whether the arrow starts at the body's position.
    pub fn at_body(self) -> (at_body: bool)
        ensures
            at_body == self.at_body_spec(),
    {
        match self {
            Arrow::WorldAxis(_) => false,
            _ => true,
        }
    }
}

/// The arrows of a frame in the order in which they are emitted.
pub open spec fn frame_arrows_spec() -> Seq<Arrow> {
    seq![
        Arrow::WorldAxis(Axis::X),
        Arrow::WorldAxis(Axis::Y),
        Arrow::WorldAxis(Axis::Z),
        Arrow::LinearVelocity,
        Arrow::AngularMomentum,
    ]
}

/// Lists the arrows of a frame in emission order.
pub fn frame_arrows() -> (arrows: [Arrow; 5])
    ensures
        arrows@ == frame_arrows_spec(),
{
    let arrows = [
        Arrow::WorldAxis(Axis::X),
        Arrow::WorldAxis(Axis::Y),
        Arrow::WorldAxis(Axis::Z),
        Arrow::LinearVelocity,
        Arrow::AngularMomentum,
    ];
    assert(arrows@ =~= frame_arrows_spec());
    arrows
}

/// Every arrow is drawn once per frame, and no two arrows share a colour.
pub proof fn lemma_arrows_told_apart(a: Arrow, b: Arrow)
    ensures
        frame_arrows_spec().contains(a),
        frame_arrows_spec().no_duplicates(),
        a.color_spec() == b.color_spec() ==> a == b,
{
    let arrows = frame_arrows_spec();
    match a {
        Arrow::WorldAxis(Axis::X) => assert(arrows[0] == a),
        Arrow::WorldAxis(Axis::Y) => assert(arrows[1] == a),
        Arrow::WorldAxis(Axis::Z) => assert(arrows[2] == a),
        Arrow::LinearVelocity => assert(arrows[3] == a),
        Arrow::AngularMomentum => assert(arrows[4] == a),
    }
}

} // verus!
