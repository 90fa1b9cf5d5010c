use lyon::tessellation as t;
use scene2d::drawing::build_mesh;
use scene2d::mesh::{Geometry, MeshBuilder, Vertex};
use scene2d::units::{Color, Point};

struct Corners;

fn fixed(value: f32) -> i64 {
    (value * 1000.0).round() as i64
}

impl t::VertexConstructor<t::FillVertex, Vertex> for Corners {
    fn new_vertex(&mut self, vertex: t::FillVertex) -> Vertex {
        let at = Point::new(fixed(vertex.position.x), fixed(vertex.position.y));
        Vertex { pos: at, uv: at, color: Color::white() }
    }
}

impl t::VertexConstructor<t::StrokeVertex, Vertex> for Corners {
    fn new_vertex(&mut self, vertex: t::StrokeVertex) -> Vertex {
        let at = Point::new(fixed(vertex.position.x), fixed(vertex.position.y));
        Vertex { pos: at, uv: Point::new(0, 0), color: Color::white() }
    }
}

fn circle(radius: f32, tolerance: f32) -> Geometry {
    let mut buffers: t::VertexBuffers<Vertex, u32> = t::VertexBuffers::new();
    {
        let builder = &mut t::BuffersBuilder::new(&mut buffers, Corners);
        let options = t::FillOptions::tolerance(tolerance);
        t::basic_shapes::fill_circle(t::math::point(600.0, 380.0), radius, &options, builder)
            .unwrap();
    }
    Geometry { vertices: buffers.vertices, indices: buffers.indices }
}

fn ellipse(tolerance: f32) -> Geometry {
    let mut buffers: t::VertexBuffers<Vertex, u32> = t::VertexBuffers::new();
    {
        let builder = &mut t::BuffersBuilder::new(&mut buffers, Corners);
        let options = t::FillOptions::tolerance(tolerance);
        t::basic_shapes::fill_ellipse(
            t::math::point(600.0, 200.0),
            t::math::vector(50.0, 120.0),
            t::math::Angle { radians: 0.0 },
            &options,
            builder,
        )
        .unwrap();
    }
    Geometry { vertices: buffers.vertices, indices: buffers.indices }
}

fn line(width: f32) -> Geometry {
    let points = vec![
        t::math::point(200.0, 200.0),
        t::math::point(400.0, 200.0),
        t::math::point(400.0, 400.0),
        t::math::point(200.0, 400.0),
        t::math::point(200.0, 300.0),
    ];
    let mut buffers: t::VertexBuffers<Vertex, u32> = t::VertexBuffers::new();
    {
        let builder = &mut t::BuffersBuilder::new(&mut buffers, Corners);
        let options = t::StrokeOptions::default().with_line_width(width);
        t::basic_shapes::stroke_polyline(points.into_iter(), false, &options, builder).unwrap();
    }
    Geometry { vertices: buffers.vertices, indices: buffers.indices }
}

#[test]
fn tessellated_circle_is_accepted_and_keeps_the_mesh_invariant() {
    let piece = circle(40.0, 1.0);
    assert!(piece.vertices.len() >= 3);
    let mut builder = MeshBuilder::new();
    assert_eq!(builder.append(&piece), Ok(()));
    assert_eq!(builder.append(&piece), Ok(()));
    let mesh = builder.build().unwrap();
    assert_eq!(mesh.vertex_count(), 2 * piece.vertices.len());
    assert_eq!(mesh.index_count(), 2 * piece.indices.len());
    assert_eq!(mesh.index_count() % 3, 0);
    assert!(mesh.indices().iter().all(|i| (*i as usize) < mesh.vertex_count()));
    let shifted: Vec<u32> =
        piece.indices.iter().map(|i| *i + piece.vertices.len() as u32).collect();
    assert_eq!(mesh.indices()[piece.indices.len()..], shifted[..]);
}

#[test]
fn smaller_tolerance_gives_more_triangles() {
    let coarse = circle(40.0, 1.0);
    let fine = circle(40.0, 0.01);
    assert!(fine.indices.len() > coarse.indices.len());
    let mut builder = MeshBuilder::new();
    assert_eq!(builder.append(&coarse), Ok(()));
    assert_eq!(builder.append(&fine), Ok(()));
    assert!(builder.build().is_ok());
}

#[test]
fn circle_of_radius_zero_tessellates_to_nothing_and_still_builds() {
    let piece = circle(0.0, 0.1);
    assert!(piece.vertices.is_empty());
    assert!(piece.indices.is_empty());
    let mut builder = MeshBuilder::new();
    assert_eq!(builder.append(&piece), Ok(()));
    let mesh = builder.build().unwrap();
    assert_eq!(mesh.vertex_count(), 0);
    assert_eq!(mesh.triangle_count(), 0);
}

#[test]
fn line_ellipse_and_circle_merge_into_one_mesh() {
    let (a, b, c) = (line(4.0), ellipse(1.0), circle(40.0, 1.0));
    let mesh = build_mesh(&a, &b, &c).unwrap();
    assert_eq!(mesh.vertex_count(), a.vertices.len() + b.vertices.len() + c.vertices.len());
    assert_eq!(mesh.index_count(), a.indices.len() + b.indices.len() + c.indices.len());
    assert_eq!(mesh.vertices()[..a.vertices.len()], a.vertices[..]);
    assert_eq!(mesh.vertices()[a.vertices.len() + b.vertices.len()..], c.vertices[..]);
    assert!(mesh.indices().iter().all(|i| (*i as usize) < mesh.vertex_count()));
    assert_eq!(mesh.texture(), None);
}
