use vstd::prelude::*;

use crate::camera::CameraSnapshot;

verus! {

/// One operation on the GPU command stream. The renderer and the presenter
/// describe their work as a list of these; the host executes them in order.
#[derive(Debug, Clone, Copy, PartialEq, Eq, Structural)]
pub enum GpuCommand {
    /// Make `program` the active shader program.
    UseProgram { program: u32 },
    /// Bind `texture` to texture unit `unit`, both as a sampled texture and as
    /// a read-write RGBA32F image.
    BindImage { unit: u32, texture: u32 },
    /// Overwrite the camera's uniform buffer with `snapshot`.
    UploadCamera { snapshot: CameraSnapshot },
    /// Run the active compute program over an `x` by `y` by `z` grid of groups.
    DispatchCompute { x: u32, y: u32, z: u32 },
    /// Make image writes of earlier dispatches visible to later reads.
    ImageAccessBarrier,
    /// Clear the colour buffer.
    Clear,
    /// Draw `index_count` indices of `element_buffer` as triangles, with the
    /// vertex layout of `vertex_array`.
    DrawIndexed { vertex_array: u32, element_buffer: u32, index_count: u32 },
    /// Show the finished frame.
    SwapWindow,
}

impl GpuCommand {
    pub open spec fn is_dispatch(self) -> bool {
        self is DispatchCompute
    }

    pub open spec fn is_barrier(self) -> bool {
        self is ImageAccessBarrier
    }

    pub open spec fn is_draw(self) -> bool {
        self is DrawIndexed
    }
}

/// Every compute dispatch in `t` is immediately followed by an image barrier,
/// so no later command (a draw that samples the image among them) can see
/// pixels that the dispatch has not finished writing.
pub open spec fn barrier_follows_dispatch(t: Seq<GpuCommand>) -> bool {
    forall|i: int|
        0 <= i < t.len() && (#[trigger] t[i]).is_dispatch() ==> i + 1 < t.len()
            && t[i + 1].is_barrier()
}

/// `t` holds exactly one command matching `p`, at index `i`.
pub open spec fn only_at(t: Seq<GpuCommand>, i: int, p: spec_fn(GpuCommand) -> bool) -> bool {
    &&& 0 <= i < t.len()
    &&& p(t[i])
    &&& forall|j: int| 0 <= j < t.len() && p(#[trigger] t[j]) ==> j == i
}

/// The image that the compute pass writes and the presentation pass samples.
/// Its size is fixed when it is made: nothing resizes or replaces it.
#[derive(Debug)]
pub struct RenderTarget {
    texture: u32,
    width: u32,
    height: u32,
}

impl RenderTarget {
    pub closed spec fn spec_texture(&self) -> u32 {
        self.texture
    }

    pub closed spec fn spec_width(&self) -> u32 {
        self.width
    }

    pub closed spec fn spec_height(&self) -> u32 {
        self.height
    }

    /// Wraps the texture object `texture`, allocated as `width` by `height`
    /// RGBA32F pixels.
    pub fn new(texture: u32, width: u32, height: u32) -> (r: RenderTarget)
        ensures
            r.spec_texture() == texture,
            r.spec_width() == width,
            r.spec_height() == height,
    {
        RenderTarget { texture, width, height }
    }

    pub fn texture(&self) -> (r: u32)
        ensures
            r == self.spec_texture(),
    {
        self.texture
    }

    pub fn width(&self) -> (r: u32)
        ensures
            r == self.spec_width(),
    {
        self.width
    }

    pub fn height(&self) -> (r: u32)
        ensures
            r == self.spec_height(),
    {
        self.height
    }
}

} // verus!
