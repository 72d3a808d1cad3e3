use std::collections::HashMap;

use voxel_raytracer::camera::{Camera, Position};
use voxel_raytracer::gpu::{GpuCommand, RenderTarget};
use voxel_raytracer::ray_tracer::RayTracer;
use voxel_raytracer::scheduler::{FrameOutcome, FrameScheduler, InputEvent, Key};
use voxel_raytracer::texture_drawer::{TextureDrawer, VertexBuffers};
use voxel_raytracer::world::World;

const COMPUTE: u32 = 7;
const PRESENT: u32 = 8;
const TEXTURE: u32 = 3;

fn scheduler() -> FrameScheduler {
    let ray_tracer = RayTracer::new(Camera::default(), World { chunks: HashMap::new() }, COMPUTE);
    let drawer = TextureDrawer::new(PRESENT, VertexBuffers { vbo: 1, vao: 2, ebo: 4 }, 900, 600);
    FrameScheduler::new(ray_tracer, drawer, RenderTarget::new(TEXTURE, 900, 600))
}

fn frame(s: &mut FrameScheduler, events: Vec<InputEvent>) -> (Vec<GpuCommand>, Vec<GpuCommand>) {
    assert!(s.input_fits(&events));
    match s.step(&events) {
        FrameOutcome::Frame { render, present } => (render, present),
        FrameOutcome::Quit => panic!("the loop stopped"),
    }
}

fn key(k: Key) -> InputEvent {
    InputEvent::KeyDown { key: k }
}

#[test]
fn frame_renders_then_presents_after_input() {
    let mut s = scheduler();
    let (render, present) = frame(&mut s, vec![key(Key::W)]);
    let mut expected_camera = Camera::default();
    expected_camera.move_rel(0, 0, 1);
    assert_eq!(
        render,
        vec![
            GpuCommand::UseProgram { program: COMPUTE },
            GpuCommand::BindImage { unit: 0, texture: TEXTURE },
            GpuCommand::UploadCamera { snapshot: expected_camera.snapshot() },
            GpuCommand::DispatchCompute { x: 900, y: 600, z: 1 },
            GpuCommand::ImageAccessBarrier,
        ]
    );
    assert_eq!(
        present,
        vec![
            GpuCommand::UseProgram { program: PRESENT },
            GpuCommand::BindImage { unit: 0, texture: TEXTURE },
            GpuCommand::Clear,
            GpuCommand::DrawIndexed { vertex_array: 2, element_buffer: 4, index_count: 6 },
            GpuCommand::SwapWindow,
        ]
    );
}

#[test]
fn movement_keys_step_one_unit() {
    let mut s = scheduler();
    frame(&mut s, vec![key(Key::D), key(Key::D), key(Key::W), key(Key::A)]);
    assert_eq!(s.camera().snapshot().pos, Position { x: 1, y: 0, z: 1 });
    frame(&mut s, vec![key(Key::S), key(Key::S)]);
    assert_eq!(s.camera().snapshot().pos, Position { x: 1, y: 0, z: -1 });
}

#[test]
fn other_key_rolls_fifteen_degrees() {
    let mut s = scheduler();
    frame(&mut s, vec![key(Key::Other), key(Key::Other)]);
    let snap = s.camera().snapshot();
    assert_eq!((snap.yaw, snap.pitch, snap.roll), (0, 0, 30));
}

#[test]
fn mouse_motion_turns_only_while_a_button_is_held() {
    let mut s = scheduler();
    frame(&mut s, vec![InputEvent::MouseMotion { xrel: 5, yrel: -3 }]);
    assert_eq!(s.camera().snapshot().yaw, 0);
    assert!(!s.look_enabled());
    frame(
        &mut s,
        vec![
            InputEvent::MouseButtonDown,
            InputEvent::MouseMotion { xrel: 5, yrel: -3 },
            InputEvent::MouseMotion { xrel: 2, yrel: 1 },
            InputEvent::MouseButtonUp,
            InputEvent::MouseMotion { xrel: 100, yrel: 100 },
        ],
    );
    let snap = s.camera().snapshot();
    assert_eq!((snap.yaw, snap.pitch, snap.roll), (7, -2, 0));
    assert!(!s.look_enabled());
}

#[test]
fn unrecognised_events_are_ignored() {
    let mut s = scheduler();
    frame(&mut s, vec![InputEvent::Other, InputEvent::Other]);
    assert_eq!(s.camera().snapshot(), Camera::default().snapshot());
    assert!(s.is_running());
}

#[test]
fn quit_stops_the_loop_in_the_same_iteration() {
    let mut s = scheduler();
    frame(&mut s, vec![key(Key::W)]);
    let events = vec![key(Key::D), InputEvent::Quit, key(Key::W), key(Key::W)];
    assert!(s.input_fits(&events));
    assert!(matches!(s.step(&events), FrameOutcome::Quit));
    assert!(!s.is_running());
    assert_eq!(s.camera().snapshot().pos, Position { x: 1, y: 0, z: 1 });
    assert!(matches!(s.step(&vec![key(Key::W)]), FrameOutcome::Quit));
    assert!(matches!(s.step(&vec![]), FrameOutcome::Quit));
    assert_eq!(s.camera().snapshot().pos, Position { x: 1, y: 0, z: 1 });
}

#[test]
fn every_dispatch_is_fenced_over_many_frames() {
    let mut s = scheduler();
    let mut trace: Vec<GpuCommand> = Vec::new();
    for i in 0..50 {
        let events = if i % 3 == 0 { vec![key(Key::W)] } else { vec![] };
        let (render, present) = frame(&mut s, events);
        trace.extend(render);
        trace.extend(present);
    }
    let mut dispatches = 0;
    let mut draws = 0;
    for (i, c) in trace.iter().enumerate() {
        match c {
            GpuCommand::DispatchCompute { .. } => {
                dispatches += 1;
                assert_eq!(trace[i + 1], GpuCommand::ImageAccessBarrier);
                assert_eq!(draws, dispatches - 1);
            }
            GpuCommand::DrawIndexed { .. } => {
                draws += 1;
                assert_eq!(draws, dispatches);
            }
            _ => {}
        }
    }
    assert_eq!((dispatches, draws), (50, 50));
}

#[test]
fn handle_event_one_at_a_time() {
    let mut s = scheduler();
    assert!(s.event_fits(InputEvent::MouseButtonDown));
    s.handle_event(InputEvent::MouseButtonDown);
    assert!(s.look_enabled());
    s.handle_event(InputEvent::MouseMotion { xrel: -4, yrel: 9 });
    assert_eq!(s.camera().snapshot().yaw, -4);
    assert_eq!(s.camera().snapshot().pitch, 9);
    s.handle_event(InputEvent::Quit);
    assert!(!s.is_running());
}

#[test]
fn input_that_would_overflow_is_detected() {
    let start = Camera::new(
        Position { x: 0, y: 0, z: i64::MAX - 1 },
        0,
        0,
        0,
        voxel_raytracer::camera::FieldOfView { horizontal: 90, vertical: 90 },
    );
    let ray_tracer = RayTracer::new(start, World { chunks: HashMap::new() }, COMPUTE);
    let drawer = TextureDrawer::new(PRESENT, VertexBuffers { vbo: 1, vao: 2, ebo: 4 }, 4, 4);
    let s = FrameScheduler::new(ray_tracer, drawer, RenderTarget::new(TEXTURE, 4, 4));
    assert!(s.input_fits(&vec![key(Key::W)]));
    assert!(!s.input_fits(&vec![key(Key::W), key(Key::W)]));
    assert!(s.input_fits(&vec![key(Key::W), InputEvent::Quit, key(Key::W)]));
    assert!(s.event_fits(key(Key::W)));
}
