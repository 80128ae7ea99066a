//! Shape resources: each owns a vertex array, a vertex buffer and an index
//! buffer on the GPU, built from a tessellated outline.
//!
//! A resource is built once from a mesh ([`Circle::new`], [`Rectangle::new`],
//! [`RadialGradient::new`]), optionally rebuilt in place
//! ([`Rectangle::update`]), drawn any number of times (`draw_with`), and
//! finally destroyed, which releases its three GPU handles exactly once
//! ([`lemma_lifecycle_releases_handles_once`]).  Every step is planned as an
//! exact command sequence for the interpreter to execute.

use vstd::prelude::*;
use vstd::string::StringExecFns;

use crate::commands::{
    count_creates, count_deletes, is_render_plan, is_setup_plan, is_refill_plan,
    is_teardown_plan, is_create_of, is_delete_of, lemma_counts_add, lemma_counts_zero,
    lemma_count_creates_single, lemma_count_deletes_single, BufferTarget, BufferUsage,
    GlCommand, HandleAllocator,
};
use crate::mesh::{index_bytes_spec, vertex_bytes_spec, Mesh, TessellationError};
use crate::uniforms::{
    uniform_name, ColorUniforms, GenericFloatUniform, GenericVec2Uniform, ProjectionUniforms,
    TransformOp, TransformUniforms, Uniforms,
};
use crate::ScalarBits;

verus! {

/// The GPU objects a shape resource owns: a vertex array, a vertex buffer
/// and an index buffer, created together and destroyed together, plus the
/// number of indices uploaded into the index buffer.
pub struct ResourceHandles {
    vertex_array: u32,
    vertex_buffer: u32,
    index_buffer: u32,
    indices: usize,
}

impl ResourceHandles {
    pub closed spec fn va(&self) -> u32 {
        self.vertex_array
    }

    pub closed spec fn vb(&self) -> u32 {
        self.vertex_buffer
    }

    pub closed spec fn ib(&self) -> u32 {
        self.index_buffer
    }

    pub closed spec fn count(&self) -> usize {
        self.indices
    }

    /// The three handles are pairwise distinct, so releasing each of them
    /// once releases no handle twice.
    pub open spec fn wf(&self) -> bool {
        self.va() != self.vb() && self.va() != self.ib() && self.vb() != self.ib()
    }

    /// The owned handles: vertex array, vertex buffer, index buffer.
    pub fn handles(&self) -> (r: (u32, u32, u32))
        ensures
            r.0 == self.va(),
            r.1 == self.vb(),
            r.2 == self.ib(),
    {
        (self.vertex_array, self.vertex_buffer, self.index_buffer)
    }

    /// Plans the release of the three handles; consuming the value makes the
    /// release final.
    fn teardown(self) -> (cmds: Vec<GlCommand>)
        ensures
            is_teardown_plan(cmds@, self.va(), self.vb(), self.ib()),
    {
        let mut cmds: Vec<GlCommand> = Vec::new();
        cmds.push(GlCommand::DeleteVertexArray { handle: self.vertex_array });
        cmds.push(GlCommand::DeleteBuffer { handle: self.vertex_buffer });
        cmds.push(GlCommand::DeleteBuffer { handle: self.index_buffer });
        cmds
    }
}

/// Creates the three GPU objects for a mesh and plans the upload of its
/// vertex and index bytes.
fn build_resource(alloc: &mut HandleAllocator, mesh: &Mesh, usage: BufferUsage) -> (r: (
    ResourceHandles,
    Vec<GlCommand>,
))
    requires
        old(alloc).next_handle() + 3 <= u32::MAX,
    ensures
        final(alloc).next_handle() == old(alloc).next_handle() + 3,
        r.0.va() == old(alloc).next_handle(),
        r.0.vb() == old(alloc).next_handle() + 1,
        r.0.ib() == old(alloc).next_handle() + 2,
        r.0.wf(),
        r.0.count() == mesh.indices@.len(),
        is_setup_plan(
            r.1@,
            r.0.va(),
            r.0.vb(),
            r.0.ib(),
            vertex_bytes_spec(mesh.vertices@),
            index_bytes_spec(mesh.indices@),
            usage,
        ),
{
    let va = alloc.fresh();
    let vb = alloc.fresh();
    let ib = alloc.fresh();
    let mut cmds: Vec<GlCommand> = Vec::new();
    cmds.push(GlCommand::CreateVertexArray { handle: va });
    cmds.push(GlCommand::BindVertexArray { handle: va });
    cmds.push(GlCommand::CreateBuffer { handle: vb });
    cmds.push(GlCommand::BindBuffer { target: BufferTarget::Array, handle: vb });
    cmds.push(GlCommand::CreateBuffer { handle: ib });
    cmds.push(GlCommand::BindBuffer { target: BufferTarget::Element, handle: ib });
    cmds.push(GlCommand::EnableVertexAttribArray { index: 0 });
    cmds.push(GlCommand::VertexAttribPointer { index: 0, components: 2 });
    cmds.push(GlCommand::BufferData {
        target: BufferTarget::Array,
        bytes: mesh.vertex_bytes(),
        usage,
    });
    cmds.push(GlCommand::BufferData {
        target: BufferTarget::Element,
        bytes: mesh.index_bytes(),
        usage,
    });
    let res = ResourceHandles {
        vertex_array: va,
        vertex_buffer: vb,
        index_buffer: ib,
        indices: mesh.indices.len(),
    };
    (res, cmds)
}

/// Plans an in-place re-upload of a mesh into existing GPU objects: rebinds
/// them, creating nothing, and uploads the new bytes.
fn refill_resource(res: &mut ResourceHandles, mesh: &Mesh, usage: BufferUsage) -> (cmds: Vec<
    GlCommand,
>)
    ensures
        final(res).va() == old(res).va(),
        final(res).vb() == old(res).vb(),
        final(res).ib() == old(res).ib(),
        final(res).wf() == old(res).wf(),
        final(res).count() == mesh.indices@.len(),
        is_refill_plan(
            cmds@,
            old(res).va(),
            old(res).vb(),
            old(res).ib(),
            vertex_bytes_spec(mesh.vertices@),
            index_bytes_spec(mesh.indices@),
            usage,
        ),
{
    let mut cmds: Vec<GlCommand> = Vec::new();
    cmds.push(GlCommand::BindVertexArray { handle: res.vertex_array });
    cmds.push(GlCommand::BindBuffer { target: BufferTarget::Array, handle: res.vertex_buffer });
    cmds.push(GlCommand::BindBuffer { target: BufferTarget::Element, handle: res.index_buffer });
    cmds.push(GlCommand::EnableVertexAttribArray { index: 0 });
    cmds.push(GlCommand::VertexAttribPointer { index: 0, components: 2 });
    cmds.push(GlCommand::BufferData {
        target: BufferTarget::Array,
        bytes: mesh.vertex_bytes(),
        usage,
    });
    cmds.push(GlCommand::BufferData {
        target: BufferTarget::Element,
        bytes: mesh.index_bytes(),
        usage,
    });
    res.indices = mesh.indices.len();
    cmds
}

/// Plans one draw: bind the program and the three objects, apply each
/// uniform in order, then issue one indexed triangle draw.
fn emit_render(res: &ResourceHandles, program: u32, uniforms: Vec<Uniforms>) -> (cmds: Vec<
    GlCommand,
>)
    ensures
        is_render_plan(cmds@, program, res.va(), res.vb(), res.ib(), uniforms@, res.count()),
{
    let ghost us = uniforms@;
    let mut cmds: Vec<GlCommand> = Vec::new();
    cmds.push(GlCommand::UseProgram { program });
    cmds.push(GlCommand::BindVertexArray { handle: res.vertex_array });
    cmds.push(GlCommand::BindBuffer { target: BufferTarget::Array, handle: res.vertex_buffer });
    cmds.push(GlCommand::BindBuffer { target: BufferTarget::Element, handle: res.index_buffer });
    let mut rest = uniforms;
    let ghost j: int = 0;
    while rest.len() > 0
        invariant
            0 <= j,
            j + rest@.len() == us.len(),
            rest@ == us.skip(j),
            cmds@.len() == 4 + j,
            cmds@[0] == (GlCommand::UseProgram { program }),
            cmds@[1] == (GlCommand::BindVertexArray { handle: res.va() }),
            cmds@[2] == (GlCommand::BindBuffer { target: BufferTarget::Array, handle: res.vb() }),
            cmds@[3] == (GlCommand::BindBuffer {
                target: BufferTarget::Element,
                handle: res.ib(),
            }),
            forall|k: int|
                0 <= k < j ==> cmds@[4 + k] == (GlCommand::SetUniform { uniform: us[k] }),
        decreases rest@.len(),
    {
        let u = rest.remove(0);
        proof {
            assert(u == us[j]);
            assert(us.skip(j).remove(0) =~= us.skip(j + 1));
        }
        cmds.push(GlCommand::SetUniform { uniform: u });
        proof {
            j = j + 1;
        }
    }
    cmds.push(GlCommand::DrawElements { count: res.indices });
    cmds
}

/// A value that owns GPU buffers and can plan a draw of itself with a shader
/// program and a list of uniforms.
pub trait GLObject {
    /// The GPU vertex-array handle this resource owns.
    spec fn va(&self) -> u32;

    /// The GPU vertex-buffer handle this resource owns.
    spec fn vb(&self) -> u32;

    /// The GPU index-buffer handle this resource owns.
    spec fn ib(&self) -> u32;

    /// How many 16-bit indices a draw of this resource covers.
    spec fn index_count(&self) -> usize;

    /// Plans one draw of this resource with `program`, applying `uniforms`
    /// in order.
    fn render(&self, program: u32, uniforms: Vec<Uniforms>) -> (cmds: Vec<GlCommand>)
        ensures
            is_render_plan(
                cmds@,
                program,
                self.va(),
                self.vb(),
                self.ib(),
                uniforms@,
                self.index_count(),
            ),
    ;
}

/// The binding is the projection uniform for viewport `resolution`.
pub open spec fn is_projection_binding(u: Uniforms, resolution: (u32, u32)) -> bool {
    u matches Uniforms::Projection(p) && p.width == resolution.0 && p.height == resolution.1
}

/// The binding is the transform uniform for a pure translation to
/// `position`.
pub open spec fn is_translation_binding(u: Uniforms, position: (ScalarBits, ScalarBits)) -> bool {
    u matches Uniforms::Transform(t) && t@ == seq![
        TransformOp::Translate { x: position.0, y: position.1 },
    ]
}

/// The binding is a 2D-vector uniform under `name` with value `value`.
pub open spec fn is_vec2_binding(
    u: Uniforms,
    name: Seq<char>,
    value: (ScalarBits, ScalarBits),
) -> bool {
    u matches Uniforms::Vec2(v) && v.name@ == name && v.x == value.0 && v.y == value.1
}

/// The binding is a scalar uniform under `name` with value `value`.
pub open spec fn is_float_binding(u: Uniforms, name: Seq<char>, value: ScalarBits) -> bool {
    u matches Uniforms::Float(f) && f.name@ == name && f.value == value
}

/// The draw plan every shape issues: program and object binds, then the
/// projection for the viewport, a translation-only transform to the shape's
/// position, and the shape's color, then one indexed triangle draw.
pub open spec fn is_standard_draw_plan(
    cmds: Seq<GlCommand>,
    program: u32,
    va: u32,
    vb: u32,
    ib: u32,
    resolution: (u32, u32),
    position: (ScalarBits, ScalarBits),
    color: ColorUniforms,
    count: usize,
) -> bool {
    &&& cmds.len() == 8
    &&& cmds[0] == (GlCommand::UseProgram { program })
    &&& cmds[1] == (GlCommand::BindVertexArray { handle: va })
    &&& cmds[2] == (GlCommand::BindBuffer { target: BufferTarget::Array, handle: vb })
    &&& cmds[3] == (GlCommand::BindBuffer { target: BufferTarget::Element, handle: ib })
    &&& cmds[4] matches GlCommand::SetUniform { uniform: pu } && is_projection_binding(
        pu,
        resolution,
    )
    &&& cmds[5] matches GlCommand::SetUniform { uniform: tu } && is_translation_binding(
        tu,
        position,
    )
    &&& cmds[6] == (GlCommand::SetUniform { uniform: Uniforms::Color(color) })
    &&& cmds[7] == (GlCommand::DrawElements { count })
}

/// The radial gradient's draw plan: the standard plan extended, before the
/// draw, with the gradient's `center` (the shape's position) and `range`
/// (its radius) uniforms, consumed by the gradient fragment shader.
pub open spec fn is_gradient_draw_plan(
    cmds: Seq<GlCommand>,
    program: u32,
    va: u32,
    vb: u32,
    ib: u32,
    resolution: (u32, u32),
    position: (ScalarBits, ScalarBits),
    color: ColorUniforms,
    radius: ScalarBits,
    count: usize,
) -> bool {
    &&& cmds.len() == 10
    &&& cmds[0] == (GlCommand::UseProgram { program })
    &&& cmds[1] == (GlCommand::BindVertexArray { handle: va })
    &&& cmds[2] == (GlCommand::BindBuffer { target: BufferTarget::Array, handle: vb })
    &&& cmds[3] == (GlCommand::BindBuffer { target: BufferTarget::Element, handle: ib })
    &&& cmds[4] matches GlCommand::SetUniform { uniform: pu } && is_projection_binding(
        pu,
        resolution,
    )
    &&& cmds[5] matches GlCommand::SetUniform { uniform: tu } && is_translation_binding(
        tu,
        position,
    )
    &&& cmds[6] == (GlCommand::SetUniform { uniform: Uniforms::Color(color) })
    &&& cmds[7] matches GlCommand::SetUniform { uniform: cu } && is_vec2_binding(
        cu,
        "center"@,
        position,
    )
    &&& cmds[8] matches GlCommand::SetUniform { uniform: ru } && is_float_binding(
        ru,
        "range"@,
        radius,
    )
    &&& cmds[9] == (GlCommand::DrawElements { count })
}

/// Builds the standard uniform list: projection, translation, color.
fn standard_uniforms(
    position: (ScalarBits, ScalarBits),
    color: ColorUniforms,
    resolution: (u32, u32),
) -> (us: Vec<Uniforms>)
    ensures
        us@.len() == 3,
        is_projection_binding(us@[0], resolution),
        is_translation_binding(us@[1], position),
        us@[2] == Uniforms::Color(color),
{
    let mut us: Vec<Uniforms> = Vec::new();
    us.push(Uniforms::Projection(ProjectionUniforms::new(resolution)));
    let mut t = TransformUniforms::new();
    t.translate(position.0, position.1);
    us.push(Uniforms::Transform(t));
    us.push(Uniforms::Color(color));
    us
}

/// A filled circle of a given radius, tessellated about the origin.
pub struct Circle {
    /// The GPU objects the circle owns.
    pub res: ResourceHandles,
    /// The radius the circle was tessellated with.
    pub radius: ScalarBits,
}

impl GLObject for Circle {
    closed spec fn va(&self) -> u32 {
        self.res.va()
    }

    closed spec fn vb(&self) -> u32 {
        self.res.vb()
    }

    closed spec fn ib(&self) -> u32 {
        self.res.ib()
    }

    closed spec fn index_count(&self) -> usize {
        self.res.count()
    }

    fn render(&self, program: u32, uniforms: Vec<Uniforms>) -> (cmds: Vec<GlCommand>)
        ensures
            is_render_plan(
                cmds@,
                program,
                self.va(),
                self.vb(),
                self.ib(),
                uniforms@,
                self.index_count(),
            ),
    {
        emit_render(&self.res, program, uniforms)
    }
}

impl Circle {
    /// The circle's three handles are pairwise distinct.
    pub open spec fn wf(&self) -> bool {
        self.va() != self.vb() && self.va() != self.ib() && self.vb() != self.ib()
    }

    /// Builds a circle resource from the outcome of tessellating a circle of
    /// `radius` about the origin.  On a tessellation error nothing is
    /// created and the error is returned; otherwise three fresh handles are
    /// taken and the mesh's upload is planned with the dynamic usage hint.
    pub fn new(
        alloc: &mut HandleAllocator,
        radius: ScalarBits,
        tessellation: Result<Mesh, TessellationError>,
    ) -> (r: Result<(Circle, Vec<GlCommand>), TessellationError>)
        requires
            old(alloc).next_handle() + 3 <= u32::MAX,
        ensures
            tessellation matches Err(e) ==> r matches Err(e2) && e2 == e && final(alloc).next_handle()
                == old(alloc).next_handle(),
            tessellation matches Ok(mesh) ==> r matches Ok((c, cmds)) && {
                &&& c.radius == radius
                &&& c.wf()
                &&& c.va() == old(alloc).next_handle()
                &&& c.vb() == old(alloc).next_handle() + 1
                &&& c.ib() == old(alloc).next_handle() + 2
                &&& c.index_count() == mesh.indices@.len()
                &&& final(alloc).next_handle() == old(alloc).next_handle() + 3
                &&& is_setup_plan(
                    cmds@,
                    c.va(),
                    c.vb(),
                    c.ib(),
                    vertex_bytes_spec(mesh.vertices@),
                    index_bytes_spec(mesh.indices@),
                    BufferUsage::DynamicDraw,
                )
            },
    {
        match tessellation {
            Err(e) => Err(e),
            Ok(mesh) => {
                let (res, cmds) = build_resource(alloc, &mesh, BufferUsage::DynamicDraw);
                Ok((Circle { res, radius }, cmds))
            },
        }
    }

    /// The three handles this circle owns.
    pub fn handles(&self) -> (r: (u32, u32, u32))
        ensures
            r.0 == self.va(),
            r.1 == self.vb(),
            r.2 == self.ib(),
    {
        self.res.handles()
    }

    /// Plans one draw of the circle at `position` with `color` on a viewport
    /// of `resolution`.
    pub fn draw_with(
        &self,
        program: u32,
        position: (ScalarBits, ScalarBits),
        color: ColorUniforms,
        resolution: (u32, u32),
    ) -> (cmds: Vec<GlCommand>)
        ensures
            is_standard_draw_plan(
                cmds@,
                program,
                self.va(),
                self.vb(),
                self.ib(),
                resolution,
                position,
                color,
                self.index_count(),
            ),
    {
        let uniforms = standard_uniforms(position, color, resolution);
        self.render(program, uniforms)
    }

    /// Plans the release of the circle's three handles; consuming the value
    /// makes the release final.
    pub fn destroy(self) -> (cmds: Vec<GlCommand>)
        ensures
            is_teardown_plan(cmds@, self.va(), self.vb(), self.ib()),
    {
        self.res.teardown()
    }
}

/// A filled rectangle with its top-left corner at the origin; the only shape
/// whose geometry can be re-uploaded in place.
pub struct Rectangle {
    /// The GPU objects the rectangle owns.
    pub res: ResourceHandles,
    /// The width the rectangle was last tessellated with.
    pub width: ScalarBits,
    /// The height the rectangle was last tessellated with.
    pub height: ScalarBits,
}

impl GLObject for Rectangle {
    closed spec fn va(&self) -> u32 {
        self.res.va()
    }

    closed spec fn vb(&self) -> u32 {
        self.res.vb()
    }

    closed spec fn ib(&self) -> u32 {
        self.res.ib()
    }

    closed spec fn index_count(&self) -> usize {
        self.res.count()
    }

    fn render(&self, program: u32, uniforms: Vec<Uniforms>) -> (cmds: Vec<GlCommand>)
        ensures
            is_render_plan(
                cmds@,
                program,
                self.va(),
                self.vb(),
                self.ib(),
                uniforms@,
                self.index_count(),
            ),
    {
        emit_render(&self.res, program, uniforms)
    }
}

impl Rectangle {
    /// The rectangle's three handles are pairwise distinct.
    pub open spec fn wf(&self) -> bool {
        self.va() != self.vb() && self.va() != self.ib() && self.vb() != self.ib()
    }

    /// Builds a rectangle resource from the mesh of a tessellated rectangle
    /// outline of `width` by `height` (with round or hard corners; a failed
    /// tessellation is unrecoverable and never reaches this constructor).
    /// Three fresh handles are taken and the mesh's upload is planned with
    /// the static usage hint.
    pub fn new(alloc: &mut HandleAllocator, width: ScalarBits, height: ScalarBits, mesh: Mesh) -> (r: (
        Rectangle,
        Vec<GlCommand>,
    ))
        requires
            old(alloc).next_handle() + 3 <= u32::MAX,
        ensures
            ({
                let (rect, cmds) = r;
                &&& rect.width == width
                &&& rect.height == height
                &&& rect.wf()
                &&& rect.va() == old(alloc).next_handle()
                &&& rect.vb() == old(alloc).next_handle() + 1
                &&& rect.ib() == old(alloc).next_handle() + 2
                &&& rect.index_count() == mesh.indices@.len()
                &&& final(alloc).next_handle() == old(alloc).next_handle() + 3
                &&& is_setup_plan(
                    cmds@,
                    rect.va(),
                    rect.vb(),
                    rect.ib(),
                    vertex_bytes_spec(mesh.vertices@),
                    index_bytes_spec(mesh.indices@),
                    BufferUsage::StaticDraw,
                )
            }),
    {
        let (res, cmds) = build_resource(alloc, &mesh, BufferUsage::StaticDraw);
        (Rectangle { res, width, height }, cmds)
    }

    /// Re-tessellated geometry for new dimensions is uploaded into the
    /// existing GPU objects: the reported width and height change, no handle
    /// is created or replaced, and the buffers are refilled in place.
    pub fn update(&mut self, width: ScalarBits, height: ScalarBits, mesh: Mesh) -> (cmds: Vec<
        GlCommand,
    >)
        ensures
            final(self).va() == old(self).va(),
            final(self).vb() == old(self).vb(),
            final(self).ib() == old(self).ib(),
            final(self).width == width,
            final(self).height == height,
            final(self).index_count() == mesh.indices@.len(),
            is_refill_plan(
                cmds@,
                old(self).va(),
                old(self).vb(),
                old(self).ib(),
                vertex_bytes_spec(mesh.vertices@),
                index_bytes_spec(mesh.indices@),
                BufferUsage::StaticDraw,
            ),
    {
        let cmds = refill_resource(&mut self.res, &mesh, BufferUsage::StaticDraw);
        self.width = width;
        self.height = height;
        cmds
    }

    /// The three handles this rectangle owns.
    pub fn handles(&self) -> (r: (u32, u32, u32))
        ensures
            r.0 == self.va(),
            r.1 == self.vb(),
            r.2 == self.ib(),
    {
        self.res.handles()
    }

    /// Plans one draw of the rectangle at `position` with `color` on a
    /// viewport of `resolution`.
    pub fn draw_with(
        &self,
        program: u32,
        position: (ScalarBits, ScalarBits),
        color: ColorUniforms,
        resolution: (u32, u32),
    ) -> (cmds: Vec<GlCommand>)
        ensures
            is_standard_draw_plan(
                cmds@,
                program,
                self.va(),
                self.vb(),
                self.ib(),
                resolution,
                position,
                color,
                self.index_count(),
            ),
    {
        let uniforms = standard_uniforms(position, color, resolution);
        self.render(program, uniforms)
    }

    /// Plans the release of the rectangle's three handles; consuming the
    /// value makes the release final.
    pub fn destroy(self) -> (cmds: Vec<GlCommand>)
        ensures
            is_teardown_plan(cmds@, self.va(), self.vb(), self.ib()),
    {
        self.res.teardown()
    }
}

/// A filled circle drawn by a radial-gradient fragment shader, which reads
/// the gradient's center and range from two extra uniforms.
pub struct RadialGradient {
    /// The GPU objects the gradient circle owns.
    pub res: ResourceHandles,
    /// The radius the circle was tessellated with; also the gradient's
    /// range.
    pub radius: ScalarBits,
}

impl GLObject for RadialGradient {
    closed spec fn va(&self) -> u32 {
        self.res.va()
    }

    closed spec fn vb(&self) -> u32 {
        self.res.vb()
    }

    closed spec fn ib(&self) -> u32 {
        self.res.ib()
    }

    closed spec fn index_count(&self) -> usize {
        self.res.count()
    }

    fn render(&self, program: u32, uniforms: Vec<Uniforms>) -> (cmds: Vec<GlCommand>)
        ensures
            is_render_plan(
                cmds@,
                program,
                self.va(),
                self.vb(),
                self.ib(),
                uniforms@,
                self.index_count(),
            ),
    {
        emit_render(&self.res, program, uniforms)
    }
}

impl RadialGradient {
    /// The gradient's three handles are pairwise distinct.
    pub open spec fn wf(&self) -> bool {
        self.va() != self.vb() && self.va() != self.ib() && self.vb() != self.ib()
    }

    /// Builds a gradient-circle resource from the outcome of tessellating a
    /// circle of `radius` about the origin, exactly as [`Circle::new`] does.
    pub fn new(
        alloc: &mut HandleAllocator,
        radius: ScalarBits,
        tessellation: Result<Mesh, TessellationError>,
    ) -> (r: Result<(RadialGradient, Vec<GlCommand>), TessellationError>)
        requires
            old(alloc).next_handle() + 3 <= u32::MAX,
        ensures
            tessellation matches Err(e) ==> r matches Err(e2) && e2 == e && final(alloc).next_handle()
                == old(alloc).next_handle(),
            tessellation matches Ok(mesh) ==> r matches Ok((g, cmds)) && {
                &&& g.radius == radius
                &&& g.wf()
                &&& g.va() == old(alloc).next_handle()
                &&& g.vb() == old(alloc).next_handle() + 1
                &&& g.ib() == old(alloc).next_handle() + 2
                &&& g.index_count() == mesh.indices@.len()
                &&& final(alloc).next_handle() == old(alloc).next_handle() + 3
                &&& is_setup_plan(
                    cmds@,
                    g.va(),
                    g.vb(),
                    g.ib(),
                    vertex_bytes_spec(mesh.vertices@),
                    index_bytes_spec(mesh.indices@),
                    BufferUsage::DynamicDraw,
                )
            },
    {
        match tessellation {
            Err(e) => Err(e),
            Ok(mesh) => {
                let (res, cmds) = build_resource(alloc, &mesh, BufferUsage::DynamicDraw);
                Ok((RadialGradient { res, radius }, cmds))
            },
        }
    }

    /// The three handles this gradient circle owns.
    pub fn handles(&self) -> (r: (u32, u32, u32))
        ensures
            r.0 == self.va(),
            r.1 == self.vb(),
            r.2 == self.ib(),
    {
        self.res.handles()
    }

    /// Plans one draw of the gradient at `position` with `color` on a
    /// viewport of `resolution`: the standard uniforms plus the gradient's
    /// `center` (the position) and `range` (the radius).
    pub fn draw_with(
        &self,
        program: u32,
        position: (ScalarBits, ScalarBits),
        color: ColorUniforms,
        resolution: (u32, u32),
    ) -> (cmds: Vec<GlCommand>)
        ensures
            is_gradient_draw_plan(
                cmds@,
                program,
                self.va(),
                self.vb(),
                self.ib(),
                resolution,
                position,
                color,
                self.radius,
                self.index_count(),
            ),
    {
        let mut uniforms = standard_uniforms(position, color, resolution);
        let ghost base = uniforms@;
        uniforms.push(
            Uniforms::Vec2(GenericVec2Uniform::new(String::from_str("center"), position)),
        );
        uniforms.push(
            Uniforms::Float(GenericFloatUniform::new(String::from_str("range"), self.radius)),
        );
        proof {
            assert(uniforms@.len() == 5);
            assert(uniforms@[0] == base[0]);
            assert(uniforms@[1] == base[1]);
            assert(uniforms@[2] == base[2]);
            assert(is_vec2_binding(uniforms@[3], "center"@, position));
            assert(is_float_binding(uniforms@[4], "range"@, self.radius));
        }
        self.render(program, uniforms)
    }

    /// Plans the release of the gradient's three handles; consuming the
    /// value makes the release final.
    pub fn destroy(self) -> (cmds: Vec<GlCommand>)
        ensures
            is_teardown_plan(cmds@, self.va(), self.vb(), self.ib()),
    {
        self.res.teardown()
    }
}

/// A circle drawn as an outline: a slightly larger circle in an outline
/// color behind an inner circle in the fill color.
pub struct OutlinedCircle {
    pub outline: Circle,
    pub inner: Circle,
}

/// Law: a standard draw plan binds each shader uniform name at most once,
/// so it never matters that a later binding of the same name would
/// overwrite an earlier one.
pub proof fn lemma_standard_draw_names_distinct(
    cmds: Seq<GlCommand>,
    program: u32,
    va: u32,
    vb: u32,
    ib: u32,
    resolution: (u32, u32),
    position: (ScalarBits, ScalarBits),
    color: ColorUniforms,
    count: usize,
)
    requires
        is_standard_draw_plan(cmds, program, va, vb, ib, resolution, position, color, count),
    ensures
        forall|i: int, j: int|
            4 <= i < j < 7 ==> uniform_name(cmds[i]->uniform) != uniform_name(cmds[j]->uniform),
{
    reveal_strlit("projection");
    reveal_strlit("transform");
    reveal_strlit("ucolor");
    assert("projection"@.len() == 10);
    assert("transform"@.len() == 9);
    assert("ucolor"@.len() == 6);
}

/// Law: a radial-gradient draw plan binds each shader uniform name at most
/// once as well, its two extra names included.
pub proof fn lemma_gradient_draw_names_distinct(
    cmds: Seq<GlCommand>,
    program: u32,
    va: u32,
    vb: u32,
    ib: u32,
    resolution: (u32, u32),
    position: (ScalarBits, ScalarBits),
    color: ColorUniforms,
    radius: ScalarBits,
    count: usize,
)
    requires
        is_gradient_draw_plan(
            cmds,
            program,
            va,
            vb,
            ib,
            resolution,
            position,
            color,
            radius,
            count,
        ),
    ensures
        forall|i: int, j: int|
            4 <= i < j < 9 ==> uniform_name(cmds[i]->uniform) != uniform_name(cmds[j]->uniform),
{
    reveal_strlit("projection");
    reveal_strlit("transform");
    reveal_strlit("ucolor");
    reveal_strlit("center");
    reveal_strlit("range");
    assert("projection"@.len() == 10);
    assert("transform"@.len() == 9);
    assert("ucolor"@.len() == 6);
    assert("center"@.len() == 6);
    assert("range"@.len() == 5);
    assert("ucolor"@[0] == 'u');
    assert("center"@[0] == 'c');
}

/// A command that neither creates nor deletes a GPU object; every command
/// of a draw plan is one.
pub open spec fn is_lifecycle_neutral(c: GlCommand) -> bool {
    &&& !(c is CreateVertexArray)
    &&& !(c is CreateBuffer)
    &&& !(c is DeleteVertexArray)
    &&& !(c is DeleteBuffer)
}

/// A draw plan touches no object lifetime: it creates and deletes nothing.
pub proof fn lemma_render_plan_is_lifecycle_neutral(
    cmds: Seq<GlCommand>,
    program: u32,
    va: u32,
    vb: u32,
    ib: u32,
    uniforms: Seq<Uniforms>,
    count: usize,
)
    requires
        is_render_plan(cmds, program, va, vb, ib, uniforms, count),
    ensures
        forall|k: int| 0 <= k < cmds.len() ==> is_lifecycle_neutral(#[trigger] cmds[k]),
{
    assert forall|k: int| 0 <= k < cmds.len() implies is_lifecycle_neutral(#[trigger] cmds[k]) by {
        if 4 <= k < 4 + uniforms.len() {
            assert(cmds[k] == (GlCommand::SetUniform { uniform: uniforms[k - 4] }));
        }
    }
}

/// Law: over a shape resource's whole life — one setup, any number of
/// lifecycle-neutral draws, one teardown — each of its three pairwise
/// distinct handles is created exactly once and deleted exactly once, and
/// no other handle is created or deleted at all.
pub proof fn lemma_lifecycle_releases_handles_once(
    setup: Seq<GlCommand>,
    draws: Seq<GlCommand>,
    teardown: Seq<GlCommand>,
    va: u32,
    vb: u32,
    ib: u32,
    vbytes: Seq<u8>,
    ibytes: Seq<u8>,
    usage: BufferUsage,
)
    requires
        is_setup_plan(setup, va, vb, ib, vbytes, ibytes, usage),
        forall|k: int| 0 <= k < draws.len() ==> is_lifecycle_neutral(#[trigger] draws[k]),
        is_teardown_plan(teardown, va, vb, ib),
        va != vb,
        va != ib,
        vb != ib,
    ensures
        count_creates(setup + draws + teardown, va) == 1,
        count_creates(setup + draws + teardown, vb) == 1,
        count_creates(setup + draws + teardown, ib) == 1,
        count_deletes(setup + draws + teardown, va) == 1,
        count_deletes(setup + draws + teardown, vb) == 1,
        count_deletes(setup + draws + teardown, ib) == 1,
        forall|h: u32| count_creates(setup + draws + teardown, h) == count_deletes(setup + draws + teardown, h),
{
    assert forall|h: u32|
        count_creates(setup + draws + teardown, h) == count_deletes(setup + draws + teardown, h)
        && (h == va || h == vb || h == ib ==> count_creates(setup + draws + teardown, h) == 1)
    by {
        lemma_counts_add(setup, draws, h);
        lemma_counts_add(setup + draws, teardown, h);
        lemma_counts_zero(draws, h);
        assert(forall|k: int| 0 <= k < draws.len() ==> !is_create_of(#[trigger] draws[k], h));
        assert(forall|k: int| 0 <= k < draws.len() ==> !is_delete_of(#[trigger] draws[k], h));
        assert(forall|k: int| 0 <= k < setup.len() ==> !is_delete_of(#[trigger] setup[k], h));
        assert(forall|k: int| 0 <= k < teardown.len() ==> !is_create_of(#[trigger] teardown[k], h));
        lemma_counts_zero(setup, h);
        lemma_counts_zero(teardown, h);
        if h == va {
            lemma_count_creates_single(setup, h, 0);
            lemma_count_deletes_single(teardown, h, 0);
        } else if h == vb {
            lemma_count_creates_single(setup, h, 2);
            lemma_count_deletes_single(teardown, h, 1);
        } else if h == ib {
            lemma_count_creates_single(setup, h, 4);
            lemma_count_deletes_single(teardown, h, 2);
        } else {
            assert(forall|k: int| 0 <= k < setup.len() ==> !is_create_of(#[trigger] setup[k], h));
            assert(forall|k: int|
                0 <= k < teardown.len() ==> !is_delete_of(#[trigger] teardown[k], h));
        }
    }
}

} // verus!
