use lyon::math::{point, Box2D, Point};
use lyon::path::builder::BorderRadii;
use lyon::path::Winding;
use lyon::tessellation::geometry_builder::simple_builder;
use lyon::tessellation::{FillOptions, FillTessellator, VertexBuffers};
use shape_render::mesh::{Mesh, TessellationError, Vertex};
use shape_render::CornerType;

fn to_mesh(geometry: &VertexBuffers<Point, u16>) -> Mesh {
    let vertices = geometry
        .vertices
        .iter()
        .map(|p| Vertex { x: p.x.to_bits(), y: p.y.to_bits() })
        .collect();
    Mesh { vertices, indices: geometry.indices.clone() }
}

fn map_error(e: lyon::tessellation::TessellationError) -> TessellationError {
    match e {
        lyon::tessellation::TessellationError::UnsupportedParamater(_) => {
            TessellationError::UnsupportedParameter
        }
        lyon::tessellation::TessellationError::GeometryBuilder(_) => {
            TessellationError::TooManyVertices
        }
        lyon::tessellation::TessellationError::Internal(_) => TessellationError::Internal,
    }
}

fn tessellate_circle(radius: f32) -> Result<Mesh, TessellationError> {
    let mut geometry: VertexBuffers<Point, u16> = VertexBuffers::new();
    let mut tessellator = FillTessellator::new();
    let options = FillOptions::tolerance(0.1);
    let result = {
        let mut output = simple_builder(&mut geometry);
        let mut builder = tessellator.builder(&options, &mut output);
        builder.add_circle(point(0.0, 0.0), radius, Winding::Positive);
        builder.build()
    };
    match result {
        Ok(_) => Ok(to_mesh(&geometry)),
        Err(e) => Err(map_error(e)),
    }
}

fn tessellate_rectangle(
    width: f32,
    height: f32,
    kind: CornerType,
) -> Result<Mesh, TessellationError> {
    let mut geometry: VertexBuffers<Point, u16> = VertexBuffers::new();
    let mut tessellator = FillTessellator::new();
    let options = FillOptions::tolerance(0.1);
    let result = {
        let mut output = simple_builder(&mut geometry);
        let mut builder = tessellator.builder(&options, &mut output);
        let bounds = Box2D::new(point(0.0, 0.0), point(width, height));
        match kind {
            CornerType::Hard => builder.add_rectangle(&bounds, Winding::Positive),
            CornerType::Round => builder.add_rounded_rectangle(
                &bounds,
                &BorderRadii {
                    top_left: 4.5,
                    top_right: 4.5,
                    bottom_left: 4.5,
                    bottom_right: 4.5,
                },
                Winding::Positive,
            ),
        }
        builder.build()
    };
    match result {
        Ok(_) => Ok(to_mesh(&geometry)),
        Err(e) => Err(map_error(e)),
    }
}

#[test]
fn circle_tessellation_succeeds_for_positive_radii() {
    for radius in [0.5f32, 1.0, 4.5, 10.0, 250.0] {
        let mesh = tessellate_circle(radius).expect("circle tessellation failed");
        assert!(!mesh.vertices.is_empty(), "no vertices for radius {}", radius);
        assert!(!mesh.indices.is_empty(), "no indices for radius {}", radius);
        assert_eq!(mesh.indices.len() % 3, 0, "index count not triangles for {}", radius);
        for i in &mesh.indices {
            assert!((*i as usize) < mesh.vertices.len(), "index out of range");
        }
    }
}

#[test]
fn rectangle_tessellation_both_corner_kinds() {
    let hard = tessellate_rectangle(10.0, 20.0, CornerType::Hard).expect("hard corners failed");
    assert!(!hard.vertices.is_empty());
    assert_eq!(hard.indices.len() % 3, 0);
    let mut unique: Vec<(u32, u32)> = hard.vertices.iter().map(|v| (v.x, v.y)).collect();
    unique.sort();
    unique.dedup();
    assert_eq!(unique.len(), 4, "a hard-cornered rectangle has 4 boundary vertices");

    let round = tessellate_rectangle(10.0, 20.0, CornerType::Round).expect("round corners failed");
    assert!(!round.vertices.is_empty());
    assert!(!round.indices.is_empty());
    assert_eq!(round.indices.len() % 3, 0);
    assert!(round.vertices.len() > 4, "rounded corners add vertices");
}

#[test]
fn mesh_vertex_bytes_layout() {
    let mesh = Mesh {
        vertices: vec![
            Vertex { x: (1.5f32).to_bits(), y: (-2.0f32).to_bits() },
            Vertex { x: (0.0f32).to_bits(), y: (8.25f32).to_bits() },
        ],
        indices: vec![0, 1, 2],
    };
    let mut expected: Vec<u8> = Vec::new();
    expected.extend_from_slice(&(1.5f32).to_le_bytes());
    expected.extend_from_slice(&(-2.0f32).to_le_bytes());
    expected.extend_from_slice(&(0.0f32).to_le_bytes());
    expected.extend_from_slice(&(8.25f32).to_le_bytes());
    assert_eq!(mesh.vertex_bytes(), expected);

    let mut expected_idx: Vec<u8> = Vec::new();
    expected_idx.extend_from_slice(&0u16.to_le_bytes());
    expected_idx.extend_from_slice(&1u16.to_le_bytes());
    expected_idx.extend_from_slice(&2u16.to_le_bytes());
    assert_eq!(mesh.index_bytes(), expected_idx);
}
