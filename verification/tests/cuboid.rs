use nalgebra::{Matrix3, Rotation3, Vector3};
use physsim_viz::cuboid::{add_corners, corner_is_positive, cuboid_to_vertices};
use physsim_viz::geometry::{Axis, Vec3};

fn half(positive: bool) -> f32 {
    if positive {
        0.5
    } else {
        -0.5
    }
}

fn corners_of(rot: &Matrix3<f32>, pos: &Vector3<f32>) -> [Vec3<f32>; 8] {
    let mut corners = [Vec3 { x: 0.0, y: 0.0, z: 0.0 }; 8];
    for (n, corner) in corners.iter_mut().enumerate() {
        let local = Vector3::new(
            half(corner_is_positive(n, Axis::X)),
            half(corner_is_positive(n, Axis::Y)),
            half(corner_is_positive(n, Axis::Z)),
        );
        let world = rot * local + pos;
        *corner = Vec3 { x: world.x, y: world.y, z: world.z };
    }
    corners
}

fn flat(points: &[Vector3<f32>]) -> Vec<f32> {
    let mut out = Vec::new();
    for p in points {
        out.push(p.x);
        out.push(p.y);
        out.push(p.z);
    }
    out
}

fn labelled(rot: &Matrix3<f32>, pos: &Vector3<f32>) -> [Vector3<f32>; 8] {
    [
        rot * Vector3::new(-0.5, -0.5, -0.5) + pos,
        rot * Vector3::new(-0.5, -0.5, 0.5) + pos,
        rot * Vector3::new(-0.5, 0.5, -0.5) + pos,
        rot * Vector3::new(-0.5, 0.5, 0.5) + pos,
        rot * Vector3::new(0.5, -0.5, -0.5) + pos,
        rot * Vector3::new(0.5, -0.5, 0.5) + pos,
        rot * Vector3::new(0.5, 0.5, -0.5) + pos,
        rot * Vector3::new(0.5, 0.5, 0.5) + pos,
    ]
}

#[test]
fn corners_are_numbered_by_their_signs() {
    let signs = [
        (false, false, false),
        (false, false, true),
        (false, true, false),
        (false, true, true),
        (true, false, false),
        (true, false, true),
        (true, true, false),
        (true, true, true),
    ];
    for (n, (x, y, z)) in signs.iter().enumerate() {
        assert_eq!(corner_is_positive(n, Axis::X), *x);
        assert_eq!(corner_is_positive(n, Axis::Y), *y);
        assert_eq!(corner_is_positive(n, Axis::Z), *z);
    }
}

#[test]
fn corners_match_the_sign_patterns() {
    let rot = Rotation3::new(Vector3::new(0.3f32, -1.1, 0.7)).into_inner();
    let pos = Vector3::new(1.5f32, -2.0, 0.25);
    let corners = corners_of(&rot, &pos);
    let expected = labelled(&rot, &pos);
    for n in 0..8 {
        assert_eq!(corners[n], Vec3 { x: expected[n].x, y: expected[n].y, z: expected[n].z });
    }
}

#[test]
fn identity_pose_vertex_counts() {
    let corners = corners_of(&Matrix3::identity(), &Vector3::zeros());
    let mut solid: Vec<f32> = Vec::new();
    cuboid_to_vertices(&mut solid, &corners, false);
    assert_eq!(solid.len(), 36 * 3);
    let mut wire: Vec<f32> = Vec::new();
    cuboid_to_vertices(&mut wire, &corners, true);
    assert_eq!(wire.len(), 24 * 3);
}

#[test]
fn identity_pose_vertices_are_half_a_unit_away() {
    let pos = Vector3::new(1.0f32, -2.0, 3.0);
    let corners = corners_of(&Matrix3::identity(), &pos);
    for wireframe in [false, true] {
        let mut vertices: Vec<f32> = Vec::new();
        cuboid_to_vertices(&mut vertices, &corners, wireframe);
        assert_eq!(vertices.len() % 3, 0);
        for v in vertices.chunks(3) {
            let dx = (v[0] - pos.x).abs();
            let dy = (v[1] - pos.y).abs();
            let dz = (v[2] - pos.z).abs();
            assert_eq!(dx.max(dy).max(dz), 0.5);
            assert_eq!((dx, dy, dz), (0.5, 0.5, 0.5));
        }
    }
}

#[test]
fn solid_body_is_twelve_triangles_in_order() {
    let rot = Rotation3::new(Vector3::new(0.4f32, 0.2, -0.9)).into_inner();
    let pos = Vector3::new(-3.0f32, 0.5, 7.0);
    let v = labelled(&rot, &pos);
    let (v1, v2, v3, v4, v5, v6, v7, v8) = (v[0], v[1], v[2], v[3], v[4], v[5], v[6], v[7]);
    let expected = flat(&[
        v1, v2, v3, v2, v3, v4, v1, v3, v7, v1, v5, v7, v1, v2, v6, v1, v5, v6, v5, v6, v7, v6, v7,
        v8, v2, v4, v8, v2, v6, v8, v3, v4, v8, v3, v7, v8,
    ]);
    let mut vertices: Vec<f32> = Vec::new();
    cuboid_to_vertices(&mut vertices, &corners_of(&rot, &pos), false);
    assert_eq!(vertices, expected);
}

#[test]
fn wireframe_is_twelve_edges_in_order() {
    let rot = Rotation3::new(Vector3::new(-1.2f32, 0.1, 0.3)).into_inner();
    let pos = Vector3::new(0.125f32, 4.0, -1.0);
    let v = labelled(&rot, &pos);
    let (v1, v2, v3, v4, v5, v6, v7, v8) = (v[0], v[1], v[2], v[3], v[4], v[5], v[6], v[7]);
    let expected = flat(&[
        v1, v2, v1, v3, v3, v4, v2, v4, v5, v6, v5, v7, v7, v8, v6, v8, v1, v5, v3, v7, v4, v8, v2,
        v6,
    ]);
    let mut vertices: Vec<f32> = Vec::new();
    cuboid_to_vertices(&mut vertices, &corners_of(&rot, &pos), true);
    assert_eq!(vertices, expected);
}

#[test]
fn body_vertices_are_appended() {
    let corners = corners_of(&Matrix3::identity(), &Vector3::zeros());
    let mut vertices: Vec<f32> = vec![9.0, 8.0, 7.0];
    cuboid_to_vertices(&mut vertices, &corners, true);
    assert_eq!(vertices.len(), 3 + 72);
    assert_eq!(&vertices[..3], &[9.0, 8.0, 7.0]);
    assert_eq!(&vertices[3..9], &[-0.5, -0.5, -0.5, -0.5, -0.5, 0.5]);
    cuboid_to_vertices(&mut vertices, &corners, false);
    assert_eq!(vertices.len(), 3 + 72 + 108);
    assert_eq!(&vertices[75..84], &[-0.5, -0.5, -0.5, -0.5, -0.5, 0.5, -0.5, 0.5, -0.5]);
}

#[test]
fn corners_are_emitted_as_listed() {
    let mut corners = [Vec3 { x: 0u32, y: 0, z: 0 }; 8];
    for (n, corner) in corners.iter_mut().enumerate() {
        let n = n as u32;
        *corner = Vec3 { x: 10 * n, y: 10 * n + 1, z: 10 * n + 2 };
    }
    let mut vertices: Vec<u32> = vec![5];
    add_corners(&mut vertices, &corners, &[7, 0, 3, 3]);
    assert_eq!(vertices, vec![5, 70, 71, 72, 0, 1, 2, 30, 31, 32, 30, 31, 32]);
    add_corners(&mut vertices, &corners, &[]);
    assert_eq!(vertices.len(), 13);
}

#[test]
fn every_edge_is_drawn_once() {
    let mut corners = [Vec3 { x: 0i32, y: 0, z: 0 }; 8];
    for (n, corner) in corners.iter_mut().enumerate() {
        let sign = |axis| if corner_is_positive(n, axis) { 1 } else { -1 };
        *corner = Vec3 { x: sign(Axis::X), y: sign(Axis::Y), z: sign(Axis::Z) };
    }
    let mut vertices: Vec<i32> = Vec::new();
    cuboid_to_vertices(&mut vertices, &corners, true);
    let mut edges: Vec<([i32; 3], [i32; 3])> = Vec::new();
    for segment in vertices.chunks(6) {
        let a = [segment[0], segment[1], segment[2]];
        let b = [segment[3], segment[4], segment[5]];
        let differing = (0..3).filter(|k| a[*k] != b[*k]).count();
        assert_eq!(differing, 1);
        let edge = if a < b { (a, b) } else { (b, a) };
        assert!(!edges.contains(&edge));
        edges.push(edge);
    }
    assert_eq!(edges.len(), 12);
}

#[test]
fn every_face_is_two_triangles() {
    let mut corners = [Vec3 { x: 0i32, y: 0, z: 0 }; 8];
    for (n, corner) in corners.iter_mut().enumerate() {
        let sign = |axis| if corner_is_positive(n, axis) { 1 } else { -1 };
        *corner = Vec3 { x: sign(Axis::X), y: sign(Axis::Y), z: sign(Axis::Z) };
    }
    let mut vertices: Vec<i32> = Vec::new();
    cuboid_to_vertices(&mut vertices, &corners, false);
    let mut per_face = [0usize; 6];
    for t in vertices.chunks(9) {
        let mut faces = 0;
        for k in 0..3 {
            if t[k] == t[3 + k] && t[k] == t[6 + k] {
                let face = 2 * k + if t[k] > 0 { 1 } else { 0 };
                per_face[face] += 1;
                faces += 1;
            }
        }
        assert_eq!(faces, 1);
    }
    assert_eq!(per_face, [2, 2, 2, 2, 2, 2]);
}
