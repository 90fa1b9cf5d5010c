use scene2d::image::{FilterMode, Image};
use scene2d::mesh::{Geometry, GeometryError, MeshBuilder, Vertex};
use scene2d::units::{Color, Point};

fn vertex(x: i64, y: i64) -> Vertex {
    Vertex { pos: Point::new(x, y), uv: Point::new(0, 0), color: Color::white() }
}

#[test]
fn build_on_fresh_builder_fails_with_empty() {
    let builder = MeshBuilder::new();
    assert_eq!(builder.build().err(), Some(GeometryError::Empty));
}

#[test]
fn raw_merges_and_shifts_indices() {
    let mut builder = MeshBuilder::new();
    let first = [vertex(0, 0), vertex(1000, 0), vertex(0, 1000)];
    let second = [vertex(5000, 5000), vertex(6000, 5000), vertex(5000, 6000), vertex(6000, 6000)];
    assert_eq!(builder.raw(&first, &[0, 1, 2], None), Ok(()));
    assert_eq!(builder.raw(&second, &[0, 1, 2, 1, 3, 2], None), Ok(()));
    assert_eq!(builder.vertex_count(), 7);
    let mesh = builder.build().unwrap();
    assert_eq!(mesh.vertex_count(), 7);
    assert_eq!(mesh.index_count(), 9);
    assert_eq!(mesh.triangle_count(), 3);
    assert_eq!(mesh.indices(), &vec![0, 1, 2, 3, 4, 5, 4, 6, 5]);
    assert_eq!(mesh.vertices()[3], vertex(5000, 5000));
    assert_eq!(mesh.triangle(2), (4, 6, 5));
    assert_eq!(mesh.texture(), None);
}

#[test]
fn raw_refuses_index_out_of_range() {
    let mut builder = MeshBuilder::new();
    let verts = [vertex(0, 0), vertex(1000, 0), vertex(0, 1000)];
    assert_eq!(builder.raw(&verts, &[0, 1, 3], None), Err(GeometryError::IndexOutOfRange));
    assert_eq!(builder.vertex_count(), 0);
    assert_eq!(builder.build().err(), Some(GeometryError::Empty));
}

#[test]
fn raw_refuses_index_count_not_multiple_of_three() {
    let mut builder = MeshBuilder::new();
    let verts = [vertex(0, 0), vertex(1000, 0), vertex(0, 1000)];
    assert_eq!(builder.raw(&verts, &[0, 1], None), Err(GeometryError::NotTriangles));
    assert_eq!(builder.raw(&verts, &[0, 1, 2, 7], None), Err(GeometryError::NotTriangles));
}

#[test]
fn refused_set_leaves_earlier_sets_in_place() {
    let mut builder = MeshBuilder::new();
    let verts = [vertex(0, 0), vertex(1000, 0), vertex(0, 1000)];
    assert_eq!(builder.raw(&verts, &[2, 1, 0], None), Ok(()));
    assert_eq!(builder.raw(&verts, &[0, 1, 9], None), Err(GeometryError::IndexOutOfRange));
    let mesh = builder.build().unwrap();
    assert_eq!(mesh.vertex_count(), 3);
    assert_eq!(mesh.indices(), &vec![2, 1, 0]);
}

#[test]
fn texture_of_raw_becomes_texture_of_mesh() {
    let mut rock = Image::new(7);
    rock.set_filter(FilterMode::Nearest);
    let mut builder = MeshBuilder::new();
    let verts = [vertex(0, 0), vertex(1000, 0), vertex(0, 1000)];
    assert_eq!(builder.raw(&verts, &[0, 1, 2], Some(rock)), Ok(()));
    let piece = Geometry { vertices: verts.to_vec(), indices: vec![0, 2, 1] };
    assert_eq!(builder.append(&piece), Ok(()));
    let mesh = builder.build().unwrap();
    assert_eq!(mesh.texture(), Some(Image { handle: 7, filter: FilterMode::Nearest }));
    assert_eq!(mesh.indices(), &vec![0, 1, 2, 3, 5, 4]);
}

#[test]
fn empty_triangle_set_counts_as_a_primitive() {
    let mut builder = MeshBuilder::new();
    assert_eq!(builder.raw(&[], &[], None), Ok(()));
    let mesh = builder.build().unwrap();
    assert_eq!(mesh.vertex_count(), 0);
    assert_eq!(mesh.index_count(), 0);
}

#[test]
fn every_index_of_a_built_mesh_names_a_vertex() {
    let mut builder = MeshBuilder::new();
    let verts = [vertex(0, 0), vertex(1000, 0), vertex(0, 1000), vertex(1000, 1000)];
    for _ in 0..5 {
        assert_eq!(builder.raw(&verts, &[0, 1, 2, 3, 2, 1], None), Ok(()));
    }
    let mesh = builder.build().unwrap();
    assert_eq!(mesh.index_count() % 3, 0);
    for index in mesh.indices() {
        assert!((*index as usize) < mesh.vertex_count());
    }
}
