use nalgebra::{Matrix4, Perspective3, Rotation3, Translation3, Vector3, Vector4};
use physsim_viz::arrow::vector_to_vertices;
use physsim_viz::camera::CameraMove;
use physsim_viz::cuboid::{corner_is_positive, cuboid_to_vertices};
use physsim_viz::geometry::{Axis, Vec3};
use physsim_viz::render::{body_primitive, frame_arrows, Arrow, Primitive, VertexFormat, AXIS_LENGTH};
use physsim_viz::state::{RunnerState, TickAction, PHYSICS_INTERVAL};

struct Camera {
    pos: Vector3<f32>,
    rot: Rotation3<f32>,
}

fn unit(axis: Axis, length: f32) -> Vector3<f32> {
    match axis {
        Axis::X => Vector3::new(length, 0.0, 0.0),
        Axis::Y => Vector3::new(0.0, length, 0.0),
        Axis::Z => Vector3::new(0.0, 0.0, length),
    }
}

fn perform(camera: &mut Camera, step: CameraMove) {
    let linear_speed: f32 = 0.001 * PHYSICS_INTERVAL as f32;
    let angular_speed: f32 = 0.001 * PHYSICS_INTERVAL as f32;
    match step {
        CameraMove::Translate { axis, positive } => {
            let d = unit(axis, if positive { linear_speed } else { -linear_speed });
            let moved = camera.rot.to_homogeneous() * Vector4::new(d.x, d.y, d.z, 1.0);
            camera.pos += Vector3::new(moved.x, moved.y, moved.z);
        }
        CameraMove::Rotate { axis, positive } => {
            let turn = unit(axis, if positive { angular_speed } else { -angular_speed });
            camera.rot = camera.rot * Rotation3::new(turn);
        }
    }
}

fn run(state: &mut RunnerState, camera: &mut Camera, ticks: usize) -> usize {
    let mut integrations = 0;
    for _ in 0..ticks {
        for action in state.physics_step() {
            match action {
                TickAction::Camera(step) => perform(camera, step),
                TickAction::Integrate => integrations += 1,
            }
        }
    }
    integrations
}

fn default_camera() -> Camera {
    Camera { pos: Vector3::zeros(), rot: Rotation3::identity() }
}

#[test]
fn camera_strafe() {
    let mut state = RunnerState::new();
    let mut camera = default_camera();
    state.on_key("KeyD", true);
    let integrations = run(&mut state, &mut camera, 100);
    assert_eq!(integrations, 100);
    assert_eq!(state.counter, 100);
    assert!((camera.pos.x - 1.0).abs() < 1e-6, "{}", camera.pos.x);
    assert_eq!(camera.pos.y, 0.0);
    assert_eq!(camera.pos.z, 0.0);
    assert_eq!(camera.rot, Rotation3::identity());
}

#[test]
fn camera_stays_after_release() {
    let mut state = RunnerState::new();
    let mut camera = default_camera();
    state.on_key("KeyE", true);
    run(&mut state, &mut camera, 10);
    state.on_key("KeyE", false);
    let reached = camera.pos;
    run(&mut state, &mut camera, 50);
    assert_eq!(camera.pos, reached);
    assert!((reached.y - 0.1).abs() < 1e-6);
    assert_eq!(state.counter, 60);
}

#[test]
fn camera_yaw_then_forward() {
    let mut state = RunnerState::new();
    let mut camera = default_camera();
    state.on_key("KeyL", true);
    run(&mut state, &mut camera, 157);
    state.on_key("KeyL", false);
    assert_eq!(camera.pos, Vector3::zeros());
    let facing = camera.rot * Vector3::new(0.0, 0.0, -1.0);
    state.on_key("KeyW", true);
    run(&mut state, &mut camera, 100);
    // Forward is the camera's own negative z. A yaw to the right by a quarter
    // turn brings that direction from the world's negative z to its positive x.
    assert!((camera.pos - facing).norm() < 1e-4);
    assert!(camera.pos.x.abs() > 0.999, "{}", camera.pos.x);
    assert!(camera.pos.x > 0.0);
    assert_eq!(camera.pos.y, 0.0);
    assert!(camera.pos.z.abs() < 1e-2, "{}", camera.pos.z);
}

#[test]
fn camera_yaw_left_then_forward() {
    let mut state = RunnerState::new();
    let mut camera = default_camera();
    state.on_key("KeyJ", true);
    run(&mut state, &mut camera, 157);
    state.on_key("KeyJ", false);
    state.on_key("KeyW", true);
    run(&mut state, &mut camera, 100);
    assert!(camera.pos.x < -0.999, "{}", camera.pos.x);
    assert_eq!(camera.pos.y, 0.0);
    assert!(camera.pos.z.abs() < 1e-2);
}

#[test]
fn shifts_use_the_orientation_from_before_the_tick() {
    let mut state = RunnerState::new();
    let mut camera = default_camera();
    state.on_key("KeyW", true);
    state.on_key("KeyJ", true);
    run(&mut state, &mut camera, 1);
    assert_eq!(camera.pos, Vector3::new(0.0, 0.0, -(0.001 * 10.0f32)));
    assert_ne!(camera.rot, Rotation3::identity());
}

#[test]
fn whole_frame_has_the_expected_size() {
    let pos = Vector3::new(0.5f32, 0.0, 0.0);
    let lin_vel = Vector3::new(0.1f32, 0.0, 0.0);
    let ang_mom = Vector3::new(0.5f32, 0.0, 0.0);
    let rot = Rotation3::new(Vector3::new(0.25f32, 0.0, 0.0));
    for wireframe in [false, true] {
        let mut corners = [Vec3 { x: 0.0f32, y: 0.0, z: 0.0 }; 8];
        for (n, corner) in corners.iter_mut().enumerate() {
            let half = |axis| if corner_is_positive(n, axis) { 0.5f32 } else { -0.5 };
            let world = rot * Vector3::new(half(Axis::X), half(Axis::Y), half(Axis::Z)) + pos;
            *corner = Vec3 { x: world.x, y: world.y, z: world.z };
        }
        let mut plain: Vec<f32> = Vec::new();
        cuboid_to_vertices(&mut plain, &corners, wireframe);
        let count = VertexFormat::Plain.vertex_count(plain.len());
        match body_primitive(wireframe) {
            Primitive::Triangles => assert_eq!(count, 36),
            Primitive::Lines => assert_eq!(count, 24),
        }

        let mut colored: Vec<f32> = Vec::new();
        for arrow in frame_arrows() {
            let origin = if arrow.at_body() { pos } else { Vector3::zeros() };
            let v = match arrow {
                Arrow::WorldAxis(axis) => unit(axis, AXIS_LENGTH as f32),
                Arrow::LinearVelocity => lin_vel,
                Arrow::AngularMomentum => ang_mom,
            };
            let tip = arrow.tip_tenths() as f32 / 10.0;
            let c = arrow.color();
            let part = |on: bool| if on { 1.0f32 } else { 0.0 };
            let head = origin + v;
            let low = head + Vector3::new(-tip, -tip, -tip);
            let high = head + Vector3::new(tip, tip, tip);
            let as_vec3 = |p: Vector3<f32>| Vec3 { x: p.x, y: p.y, z: p.z };
            vector_to_vertices(
                &mut colored,
                &as_vec3(origin),
                &as_vec3(head),
                &as_vec3(low),
                &as_vec3(high),
                Some((part(c.red), part(c.green), part(c.blue))),
            );
        }
        assert_eq!(colored.len(), 5 * 84);
        assert_eq!(VertexFormat::Colored.vertex_count(colored.len()), 70);
        assert_eq!(&colored[..6], &[0.0, 0.0, 0.0, 1.0, 0.0, 0.0]);
        assert_eq!(&colored[6..12], &[5.0, 0.0, 0.0, 1.0, 0.0, 0.0]);
        assert_eq!(&colored[3 * 84..3 * 84 + 6], &[0.5, 0.0, 0.0, 1.0, 1.0, 0.0]);
        assert_eq!(&colored[3 * 84 + 6..3 * 84 + 12], &[0.6, 0.0, 0.0, 1.0, 1.0, 0.0]);
        assert_eq!(&colored[4 * 84 + 6..4 * 84 + 12], &[1.0, 0.0, 0.0, 0.0, 1.0, 1.0]);
    }
}

#[test]
fn view_matrix_undoes_the_camera_pose() {
    let mut state = RunnerState::new();
    let mut camera = default_camera();
    state.on_key("KeyD", true);
    state.on_key("KeyU", true);
    run(&mut state, &mut camera, 30);
    let pose: Matrix4<f32> =
        Translation3::from(camera.pos).to_homogeneous() * camera.rot.to_homogeneous();
    let view = pose.try_inverse().unwrap();
    let eye = view * Vector4::new(camera.pos.x, camera.pos.y, camera.pos.z, 1.0);
    assert!(eye.x.abs() < 1e-5 && eye.y.abs() < 1e-5 && eye.z.abs() < 1e-5);
    let persp = Perspective3::new(1.333f32, 75.0 * std::f32::consts::PI / 180.0, 0.01, 1000.0);
    let clip = persp.as_matrix() * view * Vector4::new(camera.pos.x, camera.pos.y, camera.pos.z, 1.0);
    assert!(clip.x.abs() < 1e-4 && clip.y.abs() < 1e-4);
}
