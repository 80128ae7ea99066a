use lyon::math::{point, Box2D, Point};
use lyon::path::Winding;
use lyon::tessellation::geometry_builder::simple_builder;
use lyon::tessellation::{FillOptions, FillTessellator, VertexBuffers};
use shape_render::commands::{BufferTarget, BufferUsage, GlCommand, HandleAllocator};
use shape_render::mesh::{Mesh, TessellationError, Vertex};
use shape_render::shapes::{Circle, GLObject, OutlinedCircle, RadialGradient, Rectangle};
use shape_render::uniforms::{GenericVec2Uniform, ProjectionUniforms};
use shape_render::uniforms::{ColorUniforms, TransformOp, Uniforms};
use shape_render::ScalarBits;

fn to_mesh(geometry: &VertexBuffers<Point, u16>) -> Mesh {
    let vertices = geometry
        .vertices
        .iter()
        .map(|p| Vertex { x: p.x.to_bits(), y: p.y.to_bits() })
        .collect();
    Mesh { vertices, indices: geometry.indices.clone() }
}

fn circle_mesh(radius: f32) -> Mesh {
    let mut geometry: VertexBuffers<Point, u16> = VertexBuffers::new();
    let mut tessellator = FillTessellator::new();
    let options = FillOptions::tolerance(0.1);
    let mut output = simple_builder(&mut geometry);
    let mut builder = tessellator.builder(&options, &mut output);
    builder.add_circle(point(0.0, 0.0), radius, Winding::Positive);
    builder.build().expect("circle tessellation failed");
    drop(output);
    to_mesh(&geometry)
}

fn rectangle_mesh(width: f32, height: f32) -> Mesh {
    let mut geometry: VertexBuffers<Point, u16> = VertexBuffers::new();
    let mut tessellator = FillTessellator::new();
    let options = FillOptions::tolerance(0.1);
    let mut output = simple_builder(&mut geometry);
    let mut builder = tessellator.builder(&options, &mut output);
    builder.add_rectangle(&Box2D::new(point(0.0, 0.0), point(width, height)), Winding::Positive);
    builder.build().expect("rectangle tessellation failed");
    drop(output);
    to_mesh(&geometry)
}

/// A fake graphics context: it only counts object creations and deletions.
fn record_lifecycle(cmds: &[GlCommand], created: &mut Vec<u32>, deleted: &mut Vec<u32>) {
    for c in cmds {
        match c {
            GlCommand::CreateVertexArray { handle } => created.push(*handle),
            GlCommand::CreateBuffer { handle } => created.push(*handle),
            GlCommand::DeleteVertexArray { handle } => deleted.push(*handle),
            GlCommand::DeleteBuffer { handle } => deleted.push(*handle),
            _ => {}
        }
    }
}

fn bits(v: f32) -> ScalarBits {
    ScalarBits(v.to_bits())
}

#[test]
fn circle_new_uploads_mesh() {
    let mesh = circle_mesh(5.0);
    let vertex_count = mesh.vertices.len();
    let index_count = mesh.indices.len();
    let mut alloc = HandleAllocator::new();
    let (circle, cmds) =
        Circle::new(&mut alloc, bits(5.0), Ok(mesh)).expect("construction failed");
    assert_eq!(circle.radius, bits(5.0));
    let (va, vb, ib) = circle.handles();
    assert!(va != vb && va != ib && vb != ib);
    assert_eq!(cmds.len(), 10);
    assert!(matches!(cmds[0], GlCommand::CreateVertexArray { handle } if handle == va));
    assert!(matches!(cmds[1], GlCommand::BindVertexArray { handle } if handle == va));
    assert!(matches!(cmds[2], GlCommand::CreateBuffer { handle } if handle == vb));
    assert!(matches!(
        cmds[3],
        GlCommand::BindBuffer { target: BufferTarget::Array, handle } if handle == vb
    ));
    assert!(matches!(cmds[4], GlCommand::CreateBuffer { handle } if handle == ib));
    assert!(matches!(
        cmds[5],
        GlCommand::BindBuffer { target: BufferTarget::Element, handle } if handle == ib
    ));
    assert!(matches!(cmds[6], GlCommand::EnableVertexAttribArray { index: 0 }));
    assert!(matches!(cmds[7], GlCommand::VertexAttribPointer { index: 0, components: 2 }));
    match &cmds[8] {
        GlCommand::BufferData { target: BufferTarget::Array, bytes, usage } => {
            assert_eq!(bytes.len(), 8 * vertex_count);
            assert_eq!(*usage, BufferUsage::DynamicDraw);
        }
        other => panic!("expected the vertex upload, got {:?}", other),
    }
    match &cmds[9] {
        GlCommand::BufferData { target: BufferTarget::Element, bytes, usage } => {
            assert_eq!(bytes.len(), 2 * index_count);
            assert_eq!(*usage, BufferUsage::DynamicDraw);
        }
        other => panic!("expected the index upload, got {:?}", other),
    }
}

#[test]
fn circle_new_passes_through_tessellation_errors() {
    for error in [
        TessellationError::UnsupportedParameter,
        TessellationError::TooManyVertices,
        TessellationError::Internal,
    ] {
        let mut alloc = HandleAllocator::new();
        let result = Circle::new(&mut alloc, bits(1.0), Err(error));
        match result {
            Err(e) => assert_eq!(e, error),
            Ok(_) => panic!("a tessellation error must be passed through"),
        }
        // Nothing was created: the next resource still gets the first handles.
        let (circle, _) =
            Circle::new(&mut alloc, bits(1.0), Ok(circle_mesh(1.0))).expect("construction failed");
        assert_eq!(circle.handles().0, 0);
    }
}

#[test]
fn rectangle_update_keeps_handles() {
    let mut alloc = HandleAllocator::new();
    let (mut rect, setup) = Rectangle::new(&mut alloc, bits(10.0), bits(20.0), rectangle_mesh(10.0, 20.0));
    assert_eq!(setup.len(), 10);
    assert_eq!(rect.width, bits(10.0));
    assert_eq!(rect.height, bits(20.0));
    let before = rect.handles();

    let new_mesh = rectangle_mesh(30.0, 40.0);
    let new_index_count = new_mesh.indices.len();
    let expected_vertex_bytes = new_mesh.vertex_bytes();
    let expected_index_bytes = new_mesh.index_bytes();
    let update = rect.update(bits(30.0), bits(40.0), new_mesh);

    assert_eq!(rect.width, bits(30.0));
    assert_eq!(rect.height, bits(40.0));
    assert_eq!(rect.handles(), before, "update must not recreate the GPU objects");
    assert_eq!(update.len(), 7);
    for c in &update {
        assert!(
            !matches!(
                c,
                GlCommand::CreateVertexArray { .. }
                    | GlCommand::CreateBuffer { .. }
                    | GlCommand::DeleteVertexArray { .. }
                    | GlCommand::DeleteBuffer { .. }
            ),
            "update re-uploads in place, it must not touch object lifetimes"
        );
    }
    assert!(matches!(update[0], GlCommand::BindVertexArray { handle } if handle == before.0));
    match &update[5] {
        GlCommand::BufferData { target: BufferTarget::Array, bytes, usage } => {
            assert_eq!(*bytes, expected_vertex_bytes, "the new vertices are re-uploaded");
            assert_eq!(*usage, BufferUsage::StaticDraw);
        }
        other => panic!("expected the vertex upload, got {:?}", other),
    }
    match &update[6] {
        GlCommand::BufferData { target: BufferTarget::Element, bytes, .. } => {
            assert_eq!(*bytes, expected_index_bytes, "the new indices are re-uploaded");
            assert_eq!(bytes.len(), 2 * new_index_count);
        }
        other => panic!("expected the index upload, got {:?}", other),
    }
}

#[test]
fn shape_lifecycle_releases_each_handle_once() {
    let mut alloc = HandleAllocator::new();
    let (circle, setup) =
        Circle::new(&mut alloc, bits(3.0), Ok(circle_mesh(3.0))).expect("construction failed");
    let (va, vb, ib) = circle.handles();
    let draw = circle.draw_with(1, (bits(40.0), bits(50.0)), ColorUniforms::new_from_8(9, 9, 9), (640, 480));
    let teardown = circle.destroy();

    let mut created: Vec<u32> = Vec::new();
    let mut deleted: Vec<u32> = Vec::new();
    record_lifecycle(&setup, &mut created, &mut deleted);
    record_lifecycle(&draw, &mut created, &mut deleted);
    record_lifecycle(&teardown, &mut created, &mut deleted);

    let mut expected = vec![va, vb, ib];
    expected.sort();
    created.sort();
    deleted.sort();
    assert_eq!(created, expected, "each handle is created exactly once");
    assert_eq!(deleted, expected, "each handle is deleted exactly once");
}

#[test]
fn standard_draw_plan_structure() {
    let mut alloc = HandleAllocator::new();
    let mesh = rectangle_mesh(10.0, 20.0);
    let index_count = mesh.indices.len();
    let (rect, _) = Rectangle::new(&mut alloc, bits(10.0), bits(20.0), mesh);
    let (va, vb, ib) = rect.handles();
    let color = ColorUniforms::new_from_8(100, 150, 200);
    let cmds = rect.draw_with(42, (bits(7.0), bits(8.0)), color, (640, 480));

    assert_eq!(cmds.len(), 8);
    assert!(matches!(cmds[0], GlCommand::UseProgram { program: 42 }));
    assert!(matches!(cmds[1], GlCommand::BindVertexArray { handle } if handle == va));
    assert!(matches!(
        cmds[2],
        GlCommand::BindBuffer { target: BufferTarget::Array, handle } if handle == vb
    ));
    assert!(matches!(
        cmds[3],
        GlCommand::BindBuffer { target: BufferTarget::Element, handle } if handle == ib
    ));
    match &cmds[4] {
        GlCommand::SetUniform { uniform: Uniforms::Projection(p) } => {
            assert_eq!(p.width, 640);
            assert_eq!(p.height, 480);
        }
        other => panic!("expected the projection uniform, got {:?}", other),
    }
    match &cmds[5] {
        GlCommand::SetUniform { uniform: Uniforms::Transform(t) } => {
            assert_eq!(t.ops().len(), 1);
            assert_eq!(t.ops()[0], TransformOp::Translate { x: bits(7.0), y: bits(8.0) });
        }
        other => panic!("expected the transform uniform, got {:?}", other),
    }
    match &cmds[6] {
        GlCommand::SetUniform { uniform: Uniforms::Color(c) } => {
            assert_eq!(*c, color);
        }
        other => panic!("expected the color uniform, got {:?}", other),
    }
    assert!(matches!(cmds[7], GlCommand::DrawElements { count } if count == index_count));
}

#[test]
fn gradient_draw_binds_center_and_range() {
    let mut alloc = HandleAllocator::new();
    let (gradient, _) = RadialGradient::new(&mut alloc, bits(12.0), Ok(circle_mesh(12.0)))
        .expect("construction failed");
    let cmds = gradient.draw_with(
        5,
        (bits(100.0), bits(200.0)),
        ColorUniforms::new_from_8(1, 2, 3),
        (800, 600),
    );
    assert_eq!(cmds.len(), 10);
    match &cmds[7] {
        GlCommand::SetUniform { uniform: Uniforms::Vec2(v) } => {
            assert_eq!(v.name, "center");
            assert_eq!(v.x, bits(100.0));
            assert_eq!(v.y, bits(200.0));
        }
        other => panic!("expected the gradient center, got {:?}", other),
    }
    match &cmds[8] {
        GlCommand::SetUniform { uniform: Uniforms::Float(f) } => {
            assert_eq!(f.name, "range");
            assert_eq!(f.value, bits(12.0));
        }
        other => panic!("expected the gradient range, got {:?}", other),
    }
    assert!(matches!(cmds[9], GlCommand::DrawElements { .. }));
}

#[test]
fn render_applies_uniforms_in_order() {
    let mut alloc = HandleAllocator::new();
    let (circle, _) =
        Circle::new(&mut alloc, bits(2.0), Ok(circle_mesh(2.0))).expect("construction failed");
    let uniforms = vec![
        Uniforms::Projection(ProjectionUniforms::new((320, 240))),
        Uniforms::Vec2(GenericVec2Uniform::new(String::from("center"), (bits(1.0), bits(2.0)))),
    ];
    let cmds = circle.render(9, uniforms);
    assert_eq!(cmds.len(), 7);
    assert!(matches!(cmds[0], GlCommand::UseProgram { program: 9 }));
    match &cmds[4] {
        GlCommand::SetUniform { uniform: Uniforms::Projection(p) } => {
            assert_eq!((p.width, p.height), (320, 240));
        }
        other => panic!("expected the projection uniform first, got {:?}", other),
    }
    match &cmds[5] {
        GlCommand::SetUniform { uniform: Uniforms::Vec2(v) } => {
            assert_eq!(v.name, "center");
        }
        other => panic!("expected the vector uniform second, got {:?}", other),
    }
    assert!(matches!(cmds[6], GlCommand::DrawElements { .. }));
}

#[test]
fn outlined_circle_holds_two_circles() {
    let mut alloc = HandleAllocator::new();
    let (outline, _) =
        Circle::new(&mut alloc, bits(11.0), Ok(circle_mesh(11.0))).expect("construction failed");
    let (inner, _) =
        Circle::new(&mut alloc, bits(10.0), Ok(circle_mesh(10.0))).expect("construction failed");
    let outlined = OutlinedCircle { outline, inner };
    assert_eq!(outlined.outline.radius, bits(11.0));
    assert_eq!(outlined.inner.radius, bits(10.0));
    let all = [outlined.outline.handles(), outlined.inner.handles()];
    assert!(all[0] != all[1], "the two circles own disjoint GPU objects");
}
