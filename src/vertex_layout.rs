use vstd::prelude::*;

verus! {

/// Size in bytes of one `f32` vertex component.
pub const COMPONENT_BYTES: usize = 4;

/// Sum of the first `n` entries of `sizes`.
pub open spec fn prefix_sum(sizes: Seq<i32>, n: int) -> int
    decreases n,
{
    if n <= 0 {
        0
    } else {
        prefix_sum(sizes, n - 1) + sizes[n - 1] as int
    }
}

/// Where one vertex attribute sits in an interleaved `f32` vertex buffer.
#[derive(Debug, Clone, Copy, PartialEq, Eq, Structural)]
pub struct VertexAttribute {
    /// The attribute's location in the vertex shader.
    pub index: u32,
    /// Number of `f32` components.
    pub components: i32,
    /// Bytes from one vertex to the next.
    pub stride_bytes: i32,
    /// Bytes from the start of a vertex to this attribute.
    pub offset_bytes: usize,
}

/// The attribute pointers for vertices made of consecutive attributes of
/// `layout_sizes[0]`, `layout_sizes[1]`, ... `f32` components.
pub fn attribute_layout(layout_sizes: &Vec<i32>) -> (r: Vec<VertexAttribute>)
    requires
        layout_sizes.len() <= u32::MAX,
        forall|i: int| 0 <= i < layout_sizes.len() ==> 0 <= #[trigger] layout_sizes[i],
        COMPONENT_BYTES * prefix_sum(layout_sizes@, layout_sizes.len() as int) <= i32::MAX,
    ensures
        r.len() == layout_sizes.len(),
        forall|n: int|
            0 <= n < r.len() ==> (#[trigger] r[n]) == (VertexAttribute {
                index: n as u32,
                components: layout_sizes[n],
                stride_bytes: (COMPONENT_BYTES * prefix_sum(layout_sizes@, layout_sizes.len() as int)) as i32,
                offset_bytes: (COMPONENT_BYTES * prefix_sum(layout_sizes@, n)) as usize,
            }),
{
    let len = layout_sizes.len();
    let ghost sizes = layout_sizes@;
    proof {
        lemma_prefix_sum_monotone(sizes, len as int);
    }
    let mut vertex_size: i32 = 0;
    let mut k: usize = 0;
    while k < len
        invariant
            len == sizes.len(),
            sizes == layout_sizes@,
            k <= len,
            forall|i: int| 0 <= i < len ==> 0 <= #[trigger] sizes[i],
            forall|m: int| 0 <= m <= len ==> #[trigger] prefix_sum(sizes, m) <= prefix_sum(sizes, len as int),
            COMPONENT_BYTES * prefix_sum(sizes, len as int) <= i32::MAX,
            vertex_size == prefix_sum(sizes, k as int),
        decreases len - k,
    {
        assert(prefix_sum(sizes, k + 1) <= prefix_sum(sizes, len as int));
        vertex_size = vertex_size + layout_sizes[k];
        k = k + 1;
    }
    let stride_bytes: i32 = vertex_size * (COMPONENT_BYTES as i32);
    let mut r: Vec<VertexAttribute> = Vec::new();
    let mut offset: i32 = 0;
    let mut n: usize = 0;
    while n < len
        invariant
            len == sizes.len(),
            sizes == layout_sizes@,
            len <= u32::MAX,
            n <= len,
            forall|i: int| 0 <= i < len ==> 0 <= #[trigger] sizes[i],
            forall|m: int| 0 <= m <= len ==> #[trigger] prefix_sum(sizes, m) <= prefix_sum(sizes, len as int),
            forall|m: int| 0 <= m <= len ==> 0 <= #[trigger] prefix_sum(sizes, m),
            COMPONENT_BYTES * prefix_sum(sizes, len as int) <= i32::MAX,
            stride_bytes == COMPONENT_BYTES * prefix_sum(sizes, len as int),
            offset == prefix_sum(sizes, n as int),
            r.len() == n,
            forall|j: int|
                0 <= j < n ==> (#[trigger] r[j]) == (VertexAttribute {
                    index: j as u32,
                    components: sizes[j],
                    stride_bytes: (COMPONENT_BYTES * prefix_sum(sizes, len as int)) as i32,
                    offset_bytes: (COMPONENT_BYTES * prefix_sum(sizes, j)) as usize,
                }),
        decreases len - n,
    {
        assert(prefix_sum(sizes, n + 1) <= prefix_sum(sizes, len as int));
        r.push(VertexAttribute {
            index: n as u32,
            components: layout_sizes[n],
            stride_bytes,
            offset_bytes: (offset as usize) * COMPONENT_BYTES,
        });
        offset = offset + layout_sizes[n];
        n = n + 1;
    }
    r
}

/// With no negative entry, prefix sums grow with their length and stay
/// at least zero.
proof fn lemma_prefix_sum_monotone(sizes: Seq<i32>, len: int)
    requires
        0 <= len <= sizes.len(),
        forall|i: int| 0 <= i < len ==> 0 <= #[trigger] sizes[i],
    ensures
        forall|m: int| 0 <= m <= len ==> 0 <= #[trigger] prefix_sum(sizes, m) <= prefix_sum(sizes, len),
    decreases len,
{
    if len > 0 {
        lemma_prefix_sum_monotone(sizes, len - 1);
        assert(prefix_sum(sizes, len) == prefix_sum(sizes, len - 1) + sizes[len - 1] as int);
        assert forall|m: int| 0 <= m <= len implies 0 <= #[trigger] prefix_sum(sizes, m) <= prefix_sum(sizes, len) by {
            if m < len {
                assert(prefix_sum(sizes, m) <= prefix_sum(sizes, len - 1));
            }
        }
    }
}

} // verus!
