use vstd::prelude::*;

use crate::camera::{Camera, CameraModel};
use crate::gpu::{barrier_follows_dispatch, only_at, GpuCommand, RenderTarget};
use crate::ray_tracer::{render_commands, RayTracer};
use crate::texture_drawer::{present_commands, TextureDrawer, VertexBuffers};

verus! {

/// Roll, in degrees, applied by a key press that is not a movement key.
pub const ROLL_STEP: i64 = 15;

/// The keys that the loop tells apart.
#[derive(Debug, Clone, Copy, PartialEq, Eq, Structural)]
pub enum Key {
    W,
    A,
    S,
    D,
    Other,
}

/// An input event, as polled from the window.
#[derive(Debug, Clone, Copy, PartialEq, Eq, Structural)]
pub enum InputEvent {
    Quit,
    KeyDown { key: Key },
    MouseButtonDown,
    MouseButtonUp,
    MouseMotion { xrel: i32, yrel: i32 },
    /// Anything the loop does not react to.
    Other,
}

/// What the loop decides from, as mathematical values.
pub struct LoopModel {
    pub camera: CameraModel,
    /// Set while a mouse button is held: mouse motion then turns the camera.
    pub look_enabled: bool,
    /// Cleared for good by a quit event.
    pub running: bool,
}

/// The objects a frame is drawn with; fixed for the life of the loop.
pub struct FrameSetup {
    pub compute_program: u32,
    pub present_program: u32,
    pub buffers: VertexBuffers,
    pub texture: u32,
    pub width: u32,
    pub height: u32,
}

/// The scheduler as a whole: its changing state and its fixed setup.
pub struct SchedulerModel {
    pub state: LoopModel,
    pub setup: FrameSetup,
}

/// The camera after a key press: W, A, S, D step one unit forward (+Z), left
/// (-X), back (-Z) and right (+X); any other key rolls by `ROLL_STEP`.
pub open spec fn after_key(c: CameraModel, key: Key) -> CameraModel {
    match key {
        Key::W => c.moved(0, 0, 1),
        Key::A => c.moved(-1, 0, 0),
        Key::S => c.moved(0, 0, -1),
        Key::D => c.moved(1, 0, 0),
        Key::Other => c.turned(0, 0, ROLL_STEP as int),
    }
}

/// The loop's state after one event. Once stopped, nothing changes it.
pub open spec fn after_event(m: LoopModel, e: InputEvent) -> LoopModel {
    if !m.running {
        m
    } else {
        match e {
            InputEvent::Quit => LoopModel { running: false, ..m },
            InputEvent::MouseButtonDown => LoopModel { look_enabled: true, ..m },
            InputEvent::MouseButtonUp => LoopModel { look_enabled: false, ..m },
            InputEvent::KeyDown { key } => LoopModel { camera: after_key(m.camera, key), ..m },
            InputEvent::MouseMotion { xrel, yrel } => {
                if m.look_enabled {
                    LoopModel { camera: m.camera.turned(xrel as int, yrel as int, 0), ..m }
                } else {
                    m
                }
            },
            InputEvent::Other => m,
        }
    }
}

/// The loop's state after the events of `events`, in arrival order.
pub open spec fn after_events(m: LoopModel, events: Seq<InputEvent>) -> LoopModel
    decreases events.len(),
{
    if events.len() == 0 {
        m
    } else {
        after_event(after_events(m, events.drop_last()), events.last())
    }
}

/// Every state the events pass through keeps a representable camera.
pub open spec fn events_representable(m: LoopModel, events: Seq<InputEvent>) -> bool {
    forall|k: int| 0 <= k <= events.len() ==> (#[trigger] after_events(m, events.take(k))).camera.representable()
}

/// The commands of one frame: the compute pass, then the presentation pass.
pub open spec fn frame_commands(setup: FrameSetup, camera: CameraModel) -> Seq<GpuCommand> {
    render_commands(setup.compute_program, setup.texture, setup.width, setup.height, camera.snapshot())
        + present_commands(setup.present_program, setup.buffers, setup.texture)
}

/// What a run of the loop sends to the GPU, when iteration `i` finds the
/// events of `batches[i]`: the loop stops in the first iteration that sees a
/// quit event, before it renders.
pub open spec fn loop_trace(setup: FrameSetup, m: LoopModel, batches: Seq<Seq<InputEvent>>) -> Seq<GpuCommand>
    decreases batches.len(),
{
    if batches.len() == 0 {
        seq![]
    } else {
        let next = after_events(m, batches[0]);
        if !next.running {
            seq![]
        } else {
            frame_commands(setup, next.camera) + loop_trace(setup, next, batches.drop_first())
        }
    }
}

/// The result of one iteration of the loop.
#[derive(Debug)]
pub enum FrameOutcome {
    /// A quit event arrived: the loop ends now, with nothing rendered.
    Quit,
    /// Run `render`, then `present`.
    Frame { render: Vec<GpuCommand>, present: Vec<GpuCommand> },
}

/// Whether `event` keeps the camera representable, from the given state.
fn event_fits(camera: &Camera, look_enabled: bool, running: bool, event: InputEvent) -> (r: bool)
    ensures
        r == after_event(
            LoopModel { camera: camera@, look_enabled, running },
            event,
        ).camera.representable(),
{
    proof {
        camera.lemma_representable();
    }
    if !running {
        return true;
    }
    match event {
        InputEvent::KeyDown { key } => match key {
            Key::W => camera.can_move(0, 0, 1),
            Key::A => camera.can_move(-1, 0, 0),
            Key::S => camera.can_move(0, 0, -1),
            Key::D => camera.can_move(1, 0, 0),
            Key::Other => camera.can_look(0, 0, ROLL_STEP),
        },
        InputEvent::MouseMotion { xrel, yrel } => {
            if look_enabled {
                camera.can_look(xrel as i64, yrel as i64, 0)
            } else {
                true
            }
        },
        _ => true,
    }
}

/// Applies one event to the camera and the two flags.
fn apply_event(camera: &mut Camera, look_enabled: &mut bool, running: &mut bool, event: InputEvent)
    requires
        after_event(
            LoopModel { camera: old(camera)@, look_enabled: *old(look_enabled), running: *old(running) },
            event,
        ).camera.representable(),
    ensures
        (LoopModel { camera: final(camera)@, look_enabled: *final(look_enabled), running: *final(running) })
            == after_event(
            LoopModel { camera: old(camera)@, look_enabled: *old(look_enabled), running: *old(running) },
            event,
        ),
{
    if !*running {
        return;
    }
    match event {
        InputEvent::Quit => {
            *running = false;
        },
        InputEvent::MouseButtonDown => {
            *look_enabled = true;
        },
        InputEvent::MouseButtonUp => {
            *look_enabled = false;
        },
        InputEvent::KeyDown { key } => match key {
            Key::W => camera.move_rel(0, 0, 1),
            Key::A => camera.move_rel(-1, 0, 0),
            Key::S => camera.move_rel(0, 0, -1),
            Key::D => camera.move_rel(1, 0, 0),
            Key::Other => camera.look_rel(0, 0, ROLL_STEP),
        },
        InputEvent::MouseMotion { xrel, yrel } => {
            if *look_enabled {
                camera.look_rel(xrel as i64, yrel as i64, 0);
            }
        },
        InputEvent::Other => {},
    }
}

/// The frame loop's decisions: it applies input to the camera, knows when to
/// stop, and lists the GPU work of each frame.
pub struct FrameScheduler {
    ray_tracer: RayTracer,
    texture_drawer: TextureDrawer,
    target: RenderTarget,
    look_enabled: bool,
    running: bool,
}

impl View for FrameScheduler {
    type V = SchedulerModel;

    closed spec fn view(&self) -> SchedulerModel {
        SchedulerModel {
            state: LoopModel {
                camera: self.ray_tracer.camera@,
                look_enabled: self.look_enabled,
                running: self.running,
            },
            setup: FrameSetup {
                compute_program: self.ray_tracer.program,
                present_program: self.texture_drawer.program,
                buffers: self.texture_drawer.vertex_buffers,
                texture: self.target.spec_texture(),
                width: self.target.spec_width(),
                height: self.target.spec_height(),
            },
        }
    }
}

impl FrameScheduler {
    /// A running loop, with mouse look off, that renders with `ray_tracer`
    /// into `target` and shows it with `texture_drawer`.
    pub fn new(ray_tracer: RayTracer, texture_drawer: TextureDrawer, target: RenderTarget) -> (r: FrameScheduler)
        ensures
            r@.state == (LoopModel { camera: ray_tracer.camera@, look_enabled: false, running: true }),
            r@.setup == (FrameSetup {
                compute_program: ray_tracer.program,
                present_program: texture_drawer.program,
                buffers: texture_drawer.vertex_buffers,
                texture: target.spec_texture(),
                width: target.spec_width(),
                height: target.spec_height(),
            }),
    {
        FrameScheduler { ray_tracer, texture_drawer, target, look_enabled: false, running: true }
    }

    pub fn camera(&self) -> (r: &Camera)
        ensures
            r@ == self@.state.camera,
    {
        &self.ray_tracer.camera
    }

    pub fn is_running(&self) -> (r: bool)
        ensures
            r == self@.state.running,
    {
        self.running
    }

    pub fn look_enabled(&self) -> (r: bool)
        ensures
            r == self@.state.look_enabled,
    {
        self.look_enabled
    }

    /// Whether `handle_event(event)` keeps the camera representable.
    pub fn event_fits(&self, event: InputEvent) -> (r: bool)
        ensures
            r == after_event(self@.state, event).camera.representable(),
    {
        event_fits(&self.ray_tracer.camera, self.look_enabled, self.running, event)
    }

    /// Applies one input event.
    pub fn handle_event(&mut self, event: InputEvent)
        requires
            after_event(old(self)@.state, event).camera.representable(),
        ensures
            final(self)@.state == after_event(old(self)@.state, event),
            final(self)@.setup == old(self)@.setup,
    {
        apply_event(&mut self.ray_tracer.camera, &mut self.look_enabled, &mut self.running, event);
    }

    /// Whether `step(events)` keeps the camera representable throughout.
    pub fn input_fits(&self, events: &Vec<InputEvent>) -> (r: bool)
        ensures
            r == events_representable(self@.state, events@),
    {
        let ghost m0 = self@.state;
        let mut camera: Camera = self.ray_tracer.camera;
        let mut look_enabled = self.look_enabled;
        let mut running = self.running;
        proof {
            assert(events@.take(0) =~= Seq::<InputEvent>::empty());
            camera.lemma_representable();
        }
        let mut i: usize = 0;
        while i < events.len()
            invariant
                m0 == self@.state,
                i <= events.len(),
                (LoopModel { camera: camera@, look_enabled, running }) == after_events(m0, events@.take(i as int)),
                forall|k: int| 0 <= k <= i ==> (#[trigger] after_events(m0, events@.take(k))).camera.representable(),
            decreases events.len() - i,
        {
            let event = events[i];
            proof {
                assert(events@.take(i + 1).drop_last() =~= events@.take(i as int));
            }
            if !event_fits(&camera, look_enabled, running, event) {
                proof {
                    assert(!after_events(m0, events@.take(i + 1)).camera.representable());
                }
                return false;
            }
            apply_event(&mut camera, &mut look_enabled, &mut running, event);
            i = i + 1;
        }
        proof {
            assert(events@.take(events.len() as int) =~= events@);
        }
        true
    }

    /// Applies `events` in arrival order; stops applying at a quit event.
    pub fn drain_input(&mut self, events: &Vec<InputEvent>)
        requires
            events_representable(old(self)@.state, events@),
        ensures
            final(self)@.state == after_events(old(self)@.state, events@),
            final(self)@.setup == old(self)@.setup,
    {
        let ghost m0 = self@.state;
        proof {
            assert(events@.take(0) =~= Seq::<InputEvent>::empty());
        }
        let mut i: usize = 0;
        while i < events.len()
            invariant
                i <= events.len(),
                events_representable(m0, events@),
                self@.state == after_events(m0, events@.take(i as int)),
                self@.setup == old(self)@.setup,
            decreases events.len() - i,
        {
            proof {
                assert(events@.take(i + 1).drop_last() =~= events@.take(i as int));
                assert(after_events(m0, events@.take(i + 1)).camera.representable());
            }
            self.handle_event(events[i]);
            i = i + 1;
        }
        proof {
            assert(events@.take(events.len() as int) =~= events@);
        }
    }

    /// One iteration of the loop: apply the events that arrived since the last
    /// one, then either stop, or list the frame's compute pass, which renders
    /// the camera as those events left it, and its presentation pass.
    pub fn step(&mut self, events: &Vec<InputEvent>) -> (r: FrameOutcome)
        requires
            events_representable(old(self)@.state, events@),
        ensures
            final(self)@.state == after_events(old(self)@.state, events@),
            final(self)@.setup == old(self)@.setup,
            match r {
                FrameOutcome::Quit => !final(self)@.state.running,
                FrameOutcome::Frame { render, present } => {
                    &&& final(self)@.state.running
                    &&& render@ + present@ == frame_commands(final(self)@.setup, final(self)@.state.camera)
                    &&& render@ == render_commands(
                        final(self)@.setup.compute_program,
                        final(self)@.setup.texture,
                        final(self)@.setup.width,
                        final(self)@.setup.height,
                        final(self)@.state.camera.snapshot(),
                    )
                },
            },
    {
        self.drain_input(events);
        if !self.running {
            return FrameOutcome::Quit;
        }
        let texture = self.target.texture();
        let render = self.ray_tracer.render_to(texture, self.target.width(), self.target.height());
        let present = self.texture_drawer.draw(texture);
        FrameOutcome::Frame { render, present }
    }
}

/// Once the loop has stopped, no event changes its state.
pub proof fn lemma_stopped_stays(m: LoopModel, events: Seq<InputEvent>)
    requires
        !m.running,
    ensures
        after_events(m, events) == m,
    decreases events.len(),
{
    if events.len() > 0 {
        lemma_stopped_stays(m, events.drop_last());
    }
}

/// A batch of events that holds a quit event stops the loop, whatever else it
/// holds before or after it.
pub proof fn lemma_quit_stops(m: LoopModel, events: Seq<InputEvent>)
    requires
        events.contains(InputEvent::Quit),
    ensures
        !after_events(m, events).running,
    decreases events.len(),
{
    let prev = events.drop_last();
    if events.last() != InputEvent::Quit {
        let i = choose|i: int| 0 <= i < events.len() && events[i] == InputEvent::Quit;
        assert(prev[i] == InputEvent::Quit);
        lemma_quit_stops(m, prev);
    }
}

/// Each iteration that draws renders exactly once and then presents exactly
/// once, after it has drained its input: the frame's one camera upload holds
/// the camera as that iteration's events left it, its one compute dispatch
/// comes before its one draw, and the compute pass precedes the presentation
/// pass as a whole.
pub proof fn lemma_frame_order(setup: FrameSetup, m: LoopModel, events: Seq<InputEvent>)
    requires
        after_events(m, events).running,
    ensures
        ({
            let camera = after_events(m, events).camera;
            let t = frame_commands(setup, camera);
            &&& t.len() == 10
            &&& t.subrange(0, 5) == render_commands(
                setup.compute_program,
                setup.texture,
                setup.width,
                setup.height,
                camera.snapshot(),
            )
            &&& t.subrange(5, 10) == present_commands(setup.present_program, setup.buffers, setup.texture)
            &&& only_at(t, 2, |c: GpuCommand| c is UploadCamera)
            &&& t[2] == (GpuCommand::UploadCamera { snapshot: camera.snapshot() })
            &&& only_at(t, 3, |c: GpuCommand| c.is_dispatch())
            &&& only_at(t, 8, |c: GpuCommand| c.is_draw())
        }),
{
    let camera = after_events(m, events).camera;
    let r = render_commands(setup.compute_program, setup.texture, setup.width, setup.height, camera.snapshot());
    let p = present_commands(setup.present_program, setup.buffers, setup.texture);
    let t = frame_commands(setup, camera);
    assert(t.subrange(0, 5) =~= r);
    assert(t.subrange(5, 10) =~= p);
}

/// Concatenating two command lists keeps every dispatch fenced.
proof fn lemma_barrier_concat(a: Seq<GpuCommand>, b: Seq<GpuCommand>)
    requires
        barrier_follows_dispatch(a),
        barrier_follows_dispatch(b),
    ensures
        barrier_follows_dispatch(a + b),
{
    assert forall|i: int| 0 <= i < (a + b).len() && (#[trigger] (a + b)[i]).is_dispatch() implies i + 1 < (a + b).len()
        && (a + b)[i + 1].is_barrier() by {
        if i >= a.len() {
            assert((a + b)[i] == b[i - a.len()]);
            assert((a + b)[i + 1] == b[i + 1 - a.len()]);
        } else {
            assert((a + b)[i] == a[i]);
        }
    }
}

/// However many frames the loop runs, and whatever input they see, every
/// compute dispatch is immediately followed by an image barrier, so no draw
/// ever samples the target before the barrier that follows its last write.
pub proof fn lemma_barrier_discipline(setup: FrameSetup, m: LoopModel, batches: Seq<Seq<InputEvent>>)
    ensures
        barrier_follows_dispatch(loop_trace(setup, m, batches)),
    decreases batches.len(),
{
    if batches.len() > 0 {
        let next = after_events(m, batches[0]);
        if next.running {
            let f = frame_commands(setup, next.camera);
            assert forall|i: int| 0 <= i < f.len() && (#[trigger] f[i]).is_dispatch() implies i + 1 < f.len()
                && f[i + 1].is_barrier() by {
                assert(i == 3);
            }
            lemma_barrier_discipline(setup, next, batches.drop_first());
            lemma_barrier_concat(f, loop_trace(setup, next, batches.drop_first()));
        }
    }
}

/// A quit event in the events of iteration `k` ends the loop in that
/// iteration: the run sends the GPU no command after those of the `k`
/// iterations before it.
pub proof fn lemma_quit_ends_loop(setup: FrameSetup, m: LoopModel, batches: Seq<Seq<InputEvent>>, k: int)
    requires
        0 <= k < batches.len(),
        batches[k].contains(InputEvent::Quit),
    ensures
        loop_trace(setup, m, batches) == loop_trace(setup, m, batches.take(k)),
    decreases k,
{
    let next = after_events(m, batches[0]);
    if k == 0 {
        lemma_quit_stops(m, batches[0]);
        assert(batches.take(0) =~= Seq::<Seq<InputEvent>>::empty());
    } else {
        let rest = batches.drop_first();
        assert(batches.take(k)[0] == batches[0]);
        assert(batches.take(k).drop_first() =~= rest.take(k - 1));
        assert(rest[k - 1] == batches[k]);
        if next.running {
            lemma_quit_ends_loop(setup, next, rest, k - 1);
        }
    }
}

} // verus!
