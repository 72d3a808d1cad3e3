use vstd::prelude::*;

use crate::camera::{Camera, CameraSnapshot};
use crate::gpu::GpuCommand;
use crate::world::World;

verus! {

/// The image unit (and texture unit) that both passes bind the render target to.
pub const TARGET_UNIT: u32 = 0;

/// The commands of one compute pass: activate the program, bind the target for
/// writing, push the camera, cover every pixel with one invocation group, and
/// fence the image writes before anything may sample them.
pub open spec fn render_commands(
    program: u32,
    texture: u32,
    width: u32,
    height: u32,
    snapshot: CameraSnapshot,
) -> Seq<GpuCommand> {
    seq![
        GpuCommand::UseProgram { program },
        GpuCommand::BindImage { unit: TARGET_UNIT, texture },
        GpuCommand::UploadCamera { snapshot },
        GpuCommand::DispatchCompute { x: width, y: height, z: 1 },
        GpuCommand::ImageAccessBarrier,
    ]
}

/// The compute pass: renders the scene as seen by `camera` into an image.
#[derive(Debug)]
pub struct RayTracer {
    pub camera: Camera,
    /// The scene; not yet read by the compute program.
    pub world: World,
    /// The linked compute program.
    pub program: u32,
}

impl RayTracer {
    /// A ray tracer that runs the linked compute program `program`.
    pub fn new(camera: Camera, world: World, program: u32) -> (r: RayTracer)
        ensures
            r.camera@ == camera@,
            r.program == program,
    {
        RayTracer { camera, world, program }
    }

    /// The commands that render the current camera view into `texture`, one
    /// invocation group per pixel of a `width` by `height` image.
    pub fn render_to(&self, texture: u32, width: u32, height: u32) -> (r: Vec<GpuCommand>)
        ensures
            r@ == render_commands(self.program, texture, width, height, self.camera@.snapshot()),
    {
        let mut cmds: Vec<GpuCommand> = Vec::new();
        cmds.push(GpuCommand::UseProgram { program: self.program });
        cmds.push(GpuCommand::BindImage { unit: TARGET_UNIT, texture });
        cmds.push(self.camera.update());
        cmds.push(GpuCommand::DispatchCompute { x: width, y: height, z: 1 });
        cmds.push(GpuCommand::ImageAccessBarrier);
        assert(cmds@ =~= render_commands(self.program, texture, width, height, self.camera@.snapshot()));
        cmds
    }
}

} // verus!
