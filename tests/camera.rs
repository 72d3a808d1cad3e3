use voxel_raytracer::camera::{Camera, CameraSnapshot, FieldOfView, Position};

fn origin() -> Camera {
    Camera::new(
        Position { x: 0, y: 0, z: 0 },
        0,
        0,
        0,
        FieldOfView { horizontal: 90, vertical: 90 },
    )
}

#[test]
fn default_camera_is_at_origin() {
    let c = Camera::default();
    let s = c.snapshot();
    assert_eq!(s.pos, Position { x: 0, y: 0, z: 0 });
    assert_eq!((s.yaw, s.pitch, s.roll), (0, 0, 0));
    assert_eq!(s.fov, FieldOfView { horizontal: 90, vertical: 90 });
}

#[test]
fn new_keeps_its_arguments() {
    let c = Camera::new(
        Position { x: 1, y: -2, z: 3 },
        4,
        5,
        6,
        FieldOfView { horizontal: 70, vertical: 50 },
    );
    let s = c.snapshot();
    assert_eq!(s.pos, Position { x: 1, y: -2, z: 3 });
    assert_eq!(s.pitch, 4);
    assert_eq!(s.yaw, 5);
    assert_eq!(s.roll, 6);
    assert_eq!(s.fov, FieldOfView { horizontal: 70, vertical: 50 });
}

#[test]
fn moves_add_up_to_their_vector_sum() {
    let moves = [(1, 0, 0), (0, 0, 1), (-3, 2, 5), (0, -7, 0), (4, 4, -4)];
    let mut forward = origin();
    for (dx, dy, dz) in moves {
        forward.move_rel(dx, dy, dz);
    }
    let mut backward = origin();
    for (dx, dy, dz) in moves.iter().rev() {
        backward.move_rel(*dx, *dy, *dz);
    }
    assert_eq!(forward.snapshot().pos, Position { x: 2, y: -1, z: 2 });
    assert_eq!(backward.snapshot().pos, forward.snapshot().pos);
    assert_eq!((forward.snapshot().yaw, forward.snapshot().pitch, forward.snapshot().roll), (0, 0, 0));
}

#[test]
fn intermediate_snapshots_follow_the_order_of_moves() {
    let mut c = origin();
    c.move_rel(0, 0, 1);
    assert_eq!(c.snapshot().pos, Position { x: 0, y: 0, z: 1 });
    c.move_rel(-1, 0, 0);
    assert_eq!(c.snapshot().pos, Position { x: -1, y: 0, z: 1 });
}

#[test]
fn looks_accumulate_without_wraparound() {
    let mut c = origin();
    for _ in 0..30 {
        c.look_rel(15, -20, 0);
    }
    c.look_rel(0, 0, 400);
    c.look_rel(0, 0, -1000);
    let s = c.snapshot();
    assert_eq!(s.yaw, 450);
    assert_eq!(s.pitch, -600);
    assert_eq!(s.roll, -600);
    assert_eq!(s.pos, Position { x: 0, y: 0, z: 0 });
}

#[test]
fn snapshot_twice_is_identical() {
    let mut c = origin();
    c.move_rel(3, 1, 4);
    c.look_rel(1, 5, 9);
    let first: CameraSnapshot = c.snapshot();
    let second: CameraSnapshot = c.snapshot();
    assert_eq!(first, second);
}

#[test]
fn move_then_yaw_scenario() {
    let mut c = origin();
    c.move_rel(0, 0, 1);
    c.look_rel(10, 0, 0);
    let s = c.snapshot();
    assert_eq!(s.pos, Position { x: 0, y: 0, z: 1 });
    assert_eq!((s.yaw, s.pitch, s.roll), (10, 0, 0));
}

#[test]
fn overflow_probes() {
    let c = Camera::new(
        Position { x: i64::MAX, y: 0, z: i64::MIN },
        0,
        i64::MAX - 1,
        0,
        FieldOfView { horizontal: 90, vertical: 90 },
    );
    assert!(!c.can_move(1, 0, 0));
    assert!(c.can_move(-1, 0, 0));
    assert!(!c.can_move(0, 0, -1));
    assert!(c.can_look(1, 0, 0));
    assert!(!c.can_look(2, 0, 0));
}
