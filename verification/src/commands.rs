//! The command vocabulary of the graphics context, the allocator that hands
//! out fresh GPU object handles, and the shapes' command plans.
//!
//! Every interaction a shape resource has with the graphics driver is planned
//! as a sequence of [`GlCommand`] values; an unverified interpreter executes
//! each command against the real context.  The plan predicates below pin the
//! sequences down exactly: what a shape's construction uploads, what a
//! re-upload rebinds, what a draw call issues, and which handles a teardown
//! releases.

use vstd::prelude::*;

use crate::uniforms::{ColorUniforms, Uniforms};

verus! {

/// The two buffer binding targets a shape resource uses: the array buffer
/// holds interleaved vertex positions, the element buffer holds triangle
/// indices.
#[derive(Clone, Copy, Debug, PartialEq, Eq, Structural)]
pub enum BufferTarget {
    Array,
    Element,
}

/// The usage hint handed to the driver when buffer contents are uploaded.
#[derive(Clone, Copy, Debug, PartialEq, Eq, Structural)]
pub enum BufferUsage {
    StaticDraw,
    DynamicDraw,
}

/// One command against the graphics context.
///
/// Object handles are names chosen by a [`HandleAllocator`]; the interpreter
/// maps each name to the native object the driver created for it.  Vertex
/// attribute layout is fixed: attribute data is tightly packed pairs of
/// single-precision scalars, not normalized.  `DrawElements` draws
/// `count` 16-bit indices as triangles.
#[derive(Clone, Debug)]
pub enum GlCommand {
    CreateVertexArray { handle: u32 },
    CreateBuffer { handle: u32 },
    BindVertexArray { handle: u32 },
    BindBuffer { target: BufferTarget, handle: u32 },
    EnableVertexAttribArray { index: u32 },
    VertexAttribPointer { index: u32, components: u32 },
    BufferData { target: BufferTarget, bytes: Vec<u8>, usage: BufferUsage },
    UseProgram { program: u32 },
    SetUniform { uniform: Uniforms },
    DrawElements { count: usize },
    ClearColor { color: ColorUniforms },
    DeleteVertexArray { handle: u32 },
    DeleteBuffer { handle: u32 },
}

/// Hands out GPU object handles that are pairwise distinct.
///
/// The library chooses the handle names; the interpreter that executes a
/// command plan maps each name to the native object the driver created for
/// it.  Freshness of the names is what makes "each handle released exactly
/// once" a provable statement.
pub struct HandleAllocator {
    next: u32,
}

impl HandleAllocator {
    /// The next handle this allocator would hand out; every handle it has
    /// already handed out is smaller.
    pub closed spec fn next_handle(&self) -> u32 {
        self.next
    }

    pub fn new() -> (r: HandleAllocator)
        ensures
            r.next_handle() == 0,
    {
        HandleAllocator { next: 0 }
    }

    /// The next handle that would be handed out; callers use it to check
    /// that the handle space is not exhausted before building a resource.
    pub fn peek(&self) -> (h: u32)
        ensures
            h == self.next_handle(),
    {
        self.next
    }

    /// Hands out the next unused handle.
    pub fn fresh(&mut self) -> (h: u32)
        requires
            old(self).next_handle() < u32::MAX,
        ensures
            h == old(self).next_handle(),
            final(self).next_handle() == old(self).next_handle() + 1,
    {
        let h = self.next;
        self.next = self.next + 1;
        h
    }
}

/// The command uploads `bytes` to `target` with hint `usage`.
pub open spec fn is_buffer_data(
    c: GlCommand,
    target: BufferTarget,
    bytes: Seq<u8>,
    usage: BufferUsage,
) -> bool {
    &&& c matches GlCommand::BufferData { target: t, bytes: b, usage: u }
    &&& t == target
    &&& b@ == bytes
    &&& u == usage
}

/// The four commands starting at `i` declare the vertex layout (attribute 0:
/// tightly packed 2-component positions) and upload the vertex and index
/// bytes.
pub open spec fn is_attrib_upload(
    cmds: Seq<GlCommand>,
    i: int,
    vbytes: Seq<u8>,
    ibytes: Seq<u8>,
    usage: BufferUsage,
) -> bool {
    &&& 0 <= i && i + 4 <= cmds.len()
    &&& cmds[i] == (GlCommand::EnableVertexAttribArray { index: 0 })
    &&& cmds[i + 1] == (GlCommand::VertexAttribPointer { index: 0, components: 2 })
    &&& is_buffer_data(cmds[i + 2], BufferTarget::Array, vbytes, usage)
    &&& is_buffer_data(cmds[i + 3], BufferTarget::Element, ibytes, usage)
}

/// The plan that builds a shape resource: create and bind the vertex array,
/// the vertex buffer and the index buffer, in that order, then declare the
/// vertex layout and upload both buffers.
pub open spec fn is_setup_plan(
    cmds: Seq<GlCommand>,
    va: u32,
    vb: u32,
    ib: u32,
    vbytes: Seq<u8>,
    ibytes: Seq<u8>,
    usage: BufferUsage,
) -> bool {
    &&& cmds.len() == 10
    &&& cmds[0] == (GlCommand::CreateVertexArray { handle: va })
    &&& cmds[1] == (GlCommand::BindVertexArray { handle: va })
    &&& cmds[2] == (GlCommand::CreateBuffer { handle: vb })
    &&& cmds[3] == (GlCommand::BindBuffer { target: BufferTarget::Array, handle: vb })
    &&& cmds[4] == (GlCommand::CreateBuffer { handle: ib })
    &&& cmds[5] == (GlCommand::BindBuffer { target: BufferTarget::Element, handle: ib })
    &&& is_attrib_upload(cmds, 6, vbytes, ibytes, usage)
}

/// The plan that re-uploads a shape's geometry in place: re-bind the three
/// existing objects — creating nothing — then declare the layout and upload
/// both buffers again.
pub open spec fn is_refill_plan(
    cmds: Seq<GlCommand>,
    va: u32,
    vb: u32,
    ib: u32,
    vbytes: Seq<u8>,
    ibytes: Seq<u8>,
    usage: BufferUsage,
) -> bool {
    &&& cmds.len() == 7
    &&& cmds[0] == (GlCommand::BindVertexArray { handle: va })
    &&& cmds[1] == (GlCommand::BindBuffer { target: BufferTarget::Array, handle: vb })
    &&& cmds[2] == (GlCommand::BindBuffer { target: BufferTarget::Element, handle: ib })
    &&& is_attrib_upload(cmds, 3, vbytes, ibytes, usage)
}

/// The plan that draws a shape: bind the program and the shape's three
/// objects, apply each uniform in order, then issue one indexed triangle
/// draw over `count` indices.
pub open spec fn is_render_plan(
    cmds: Seq<GlCommand>,
    program: u32,
    va: u32,
    vb: u32,
    ib: u32,
    uniforms: Seq<Uniforms>,
    count: usize,
) -> bool {
    &&& cmds.len() == 5 + uniforms.len()
    &&& cmds[0] == (GlCommand::UseProgram { program })
    &&& cmds[1] == (GlCommand::BindVertexArray { handle: va })
    &&& cmds[2] == (GlCommand::BindBuffer { target: BufferTarget::Array, handle: vb })
    &&& cmds[3] == (GlCommand::BindBuffer { target: BufferTarget::Element, handle: ib })
    &&& forall|k: int|
        0 <= k < uniforms.len() ==> cmds[4 + k] == (GlCommand::SetUniform {
            uniform: uniforms[k],
        })
    &&& cmds[4 + uniforms.len() as int] == (GlCommand::DrawElements { count })
}

/// The plan that releases a shape's GPU objects: delete the vertex array,
/// then both buffers.
pub open spec fn is_teardown_plan(cmds: Seq<GlCommand>, va: u32, vb: u32, ib: u32) -> bool {
    &&& cmds.len() == 3
    &&& cmds[0] == (GlCommand::DeleteVertexArray { handle: va })
    &&& cmds[1] == (GlCommand::DeleteBuffer { handle: vb })
    &&& cmds[2] == (GlCommand::DeleteBuffer { handle: ib })
}

/// The command creates an object under handle `h`.
pub open spec fn is_create_of(c: GlCommand, h: u32) -> bool {
    c == (GlCommand::CreateVertexArray { handle: h }) || c == (GlCommand::CreateBuffer {
        handle: h,
    })
}

/// The command deletes the object under handle `h`.
pub open spec fn is_delete_of(c: GlCommand, h: u32) -> bool {
    c == (GlCommand::DeleteVertexArray { handle: h }) || c == (GlCommand::DeleteBuffer {
        handle: h,
    })
}

/// How many commands of `cmds` create an object under handle `h`.
pub open spec fn count_creates(cmds: Seq<GlCommand>, h: u32) -> nat
    decreases cmds.len(),
{
    if cmds.len() == 0 {
        0
    } else {
        count_creates(cmds.drop_last(), h) + (if is_create_of(cmds.last(), h) {
            1nat
        } else {
            0nat
        })
    }
}

/// How many commands of `cmds` delete the object under handle `h`.
pub open spec fn count_deletes(cmds: Seq<GlCommand>, h: u32) -> nat
    decreases cmds.len(),
{
    if cmds.len() == 0 {
        0
    } else {
        count_deletes(cmds.drop_last(), h) + (if is_delete_of(cmds.last(), h) {
            1nat
        } else {
            0nat
        })
    }
}

/// Both counts distribute over concatenation.
pub proof fn lemma_counts_add(a: Seq<GlCommand>, b: Seq<GlCommand>, h: u32)
    ensures
        count_creates(a + b, h) == count_creates(a, h) + count_creates(b, h),
        count_deletes(a + b, h) == count_deletes(a, h) + count_deletes(b, h),
    decreases b.len(),
{
    if b.len() == 0 {
        assert(a + b =~= a);
    } else {
        lemma_counts_add(a, b.drop_last(), h);
        assert((a + b).drop_last() =~= a + b.drop_last());
        assert((a + b).last() == b.last());
    }
}

/// A sequence none of whose commands creates under `h` has create count
/// zero, and likewise for deletes.
pub proof fn lemma_counts_zero(cmds: Seq<GlCommand>, h: u32)
    ensures
        (forall|k: int| 0 <= k < cmds.len() ==> !is_create_of(cmds[k], h)) ==> count_creates(
            cmds,
            h,
        ) == 0,
        (forall|k: int| 0 <= k < cmds.len() ==> !is_delete_of(cmds[k], h)) ==> count_deletes(
            cmds,
            h,
        ) == 0,
    decreases cmds.len(),
{
    if cmds.len() > 0 {
        lemma_counts_zero(cmds.drop_last(), h);
    }
}

/// A sequence exactly one of whose commands creates under `h` has create
/// count one.
pub proof fn lemma_count_creates_single(cmds: Seq<GlCommand>, h: u32, i: int)
    requires
        0 <= i < cmds.len(),
        is_create_of(cmds[i], h),
        forall|k: int| 0 <= k < cmds.len() && k != i ==> !is_create_of(cmds[k], h),
    ensures
        count_creates(cmds, h) == 1,
    decreases cmds.len(),
{
    if i == cmds.len() - 1 {
        lemma_counts_zero(cmds.drop_last(), h);
    } else {
        lemma_count_creates_single(cmds.drop_last(), h, i);
    }
}

/// A sequence exactly one of whose commands deletes under `h` has delete
/// count one.
pub proof fn lemma_count_deletes_single(cmds: Seq<GlCommand>, h: u32, i: int)
    requires
        0 <= i < cmds.len(),
        is_delete_of(cmds[i], h),
        forall|k: int| 0 <= k < cmds.len() && k != i ==> !is_delete_of(cmds[k], h),
    ensures
        count_deletes(cmds, h) == 1,
    decreases cmds.len(),
{
    if i == cmds.len() - 1 {
        lemma_counts_zero(cmds.drop_last(), h);
    } else {
        lemma_count_deletes_single(cmds.drop_last(), h, i);
    }
}

/// The command that sets the frame clear color to `color`, with alpha zero.
pub fn set_clear_color(color: ColorUniforms) -> (c: GlCommand)
    ensures
        c == (GlCommand::ClearColor { color }),
{
    GlCommand::ClearColor { color }
}

} // verus!
