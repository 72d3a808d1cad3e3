use voxel_raytracer::timing::{FrameReport, FrameTimers};

#[test]
fn report_averages_and_resets() {
    let mut t = FrameTimers::new();
    t.record(10, 100, 1000);
    t.record(20, 201, 3000);
    t.record(31, 300, 5002);
    let r = t.take_report();
    assert_eq!(
        r,
        FrameReport { frames: 3, avg_event_us: 20, avg_render_us: 200, avg_draw_us: 3000 }
    );
    assert_eq!(t, FrameTimers::new());
}

#[test]
fn report_is_due_after_two_seconds() {
    assert!(!FrameTimers::report_due(0));
    assert!(!FrameTimers::report_due(1));
    assert!(FrameTimers::report_due(2));
    assert!(FrameTimers::report_due(7));
}

#[test]
fn record_refuses_overflow() {
    let t = FrameTimers { frames: 1, event_us: u64::MAX - 5, render_us: 0, draw_us: 0 };
    assert!(t.can_record(5, 1, 1));
    assert!(!t.can_record(6, 1, 1));
    let full = FrameTimers { frames: u64::MAX, event_us: 0, render_us: 0, draw_us: 0 };
    assert!(!full.can_record(0, 0, 0));
}
