use vstd::prelude::*;

use crate::gpu::GpuCommand;
use crate::ray_tracer::TARGET_UNIT;

verus! {

/// Number of indices of the screen quad: two triangles.
pub const QUAD_INDEX_COUNT: u32 = 6;

/// The GPU objects holding the screen quad: a vertex buffer, the vertex array
/// that describes its layout, and an element buffer of indices.
#[derive(Debug, Clone, Copy, PartialEq, Eq, Structural)]
pub struct VertexBuffers {
    pub vbo: u32,
    pub vao: u32,
    pub ebo: u32,
}

/// Indices of the four quad corners (top right, bottom right, bottom left,
/// top left) that make up its two triangles.
pub fn quad_indices() -> (r: Vec<u32>)
    ensures
        r@ == seq![0u32, 1, 2, 2, 3, 0],
        r.len() == QUAD_INDEX_COUNT,
{
    let r: Vec<u32> = vec![0, 1, 2, 2, 3, 0];
    assert(r@ =~= seq![0u32, 1, 2, 2, 3, 0]);
    r
}

/// Component counts of the quad's vertex attributes: a 2-D position, then a
/// 2-D texture coordinate.
pub fn quad_layout() -> (r: Vec<i32>)
    ensures
        r@ == seq![2i32, 2],
{
    let r: Vec<i32> = vec![2, 2];
    assert(r@ =~= seq![2i32, 2]);
    r
}

/// The commands of one presentation pass: activate the program, bind the
/// target for sampling, clear, draw the full-screen quad, and show the frame.
pub open spec fn present_commands(program: u32, buffers: VertexBuffers, texture: u32) -> Seq<GpuCommand> {
    seq![
        GpuCommand::UseProgram { program },
        GpuCommand::BindImage { unit: TARGET_UNIT, texture },
        GpuCommand::Clear,
        GpuCommand::DrawIndexed {
            vertex_array: buffers.vao,
            element_buffer: buffers.ebo,
            index_count: QUAD_INDEX_COUNT,
        },
        GpuCommand::SwapWindow,
    ]
}

/// The presentation pass: copies a texture to the window by drawing a
/// textured full-screen quad.
#[derive(Debug)]
pub struct TextureDrawer {
    /// The linked vertex and fragment program.
    pub program: u32,
    pub vertex_buffers: VertexBuffers,
    pub width: u32,
    pub height: u32,
}

impl TextureDrawer {
    /// A drawer for a `width` by `height` window, drawing with `program` and
    /// the quad held in `vertex_buffers`.
    pub fn new(program: u32, vertex_buffers: VertexBuffers, width: u32, height: u32) -> (r: TextureDrawer)
        ensures
            r.program == program,
            r.vertex_buffers == vertex_buffers,
            r.width == width,
            r.height == height,
    {
        TextureDrawer { program, vertex_buffers, width, height }
    }

    /// The commands that draw `texture` over the whole window and show it.
    pub fn draw(&self, texture: u32) -> (r: Vec<GpuCommand>)
        ensures
            r@ == present_commands(self.program, self.vertex_buffers, texture),
    {
        let mut cmds: Vec<GpuCommand> = Vec::new();
        cmds.push(GpuCommand::UseProgram { program: self.program });
        cmds.push(GpuCommand::BindImage { unit: TARGET_UNIT, texture });
        cmds.push(GpuCommand::Clear);
        cmds.push(
            GpuCommand::DrawIndexed {
                vertex_array: self.vertex_buffers.vao,
                element_buffer: self.vertex_buffers.ebo,
                index_count: QUAD_INDEX_COUNT,
            },
        );
        cmds.push(GpuCommand::SwapWindow);
        assert(cmds@ =~= present_commands(self.program, self.vertex_buffers, texture));
        cmds
    }

    /// The window's size in pixels.
    pub fn get_size(&self) -> (r: (u32, u32))
        ensures
            r == (self.width, self.height),
    {
        (self.width, self.height)
    }
}

} // verus!
