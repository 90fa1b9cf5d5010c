use scene2d::image::{FilterMode, Image};
use scene2d::mesh::{Mesh, MeshBuilder, Vertex};
use scene2d::store::{EntityStore, ImageId, MeshId};
use scene2d::units::{Color, Point};

fn one_triangle() -> Mesh {
    let v = Vertex { pos: Point::new(0, 0), uv: Point::new(0, 0), color: Color::white() };
    let mut builder = MeshBuilder::new();
    assert_eq!(builder.raw(&[v, v, v], &[0, 1, 2], None), Ok(()));
    builder.build().unwrap()
}

#[test]
fn image_is_linear_until_told_otherwise() {
    let mut image = Image::new(3);
    assert_eq!(image, Image { handle: 3, filter: FilterMode::Linear });
    image.set_filter(FilterMode::Nearest);
    assert_eq!(image, Image { handle: 3, filter: FilterMode::Nearest });
}

#[test]
fn store_hands_out_slots_in_order() {
    let mut store = EntityStore::new();
    assert_eq!(store.add_image(Image::new(10)), ImageId { slot: 0 });
    assert_eq!(store.add_image(Image::new(11)), ImageId { slot: 1 });
    assert_eq!(store.add_mesh(one_triangle()), MeshId { slot: 0 });
    assert_eq!(store.add_mesh(one_triangle()), MeshId { slot: 1 });
    assert_eq!(store.image(ImageId { slot: 1 }), Some(Image::new(11)));
    assert_eq!(store.image(ImageId { slot: 2 }), None);
    assert!(store.holds_mesh(MeshId { slot: 1 }));
    assert!(!store.holds_mesh(MeshId { slot: 2 }));
    assert_eq!(store.mesh(MeshId { slot: 0 }).map(|m| m.vertex_count()), Some(3));
    assert!(store.mesh(MeshId { slot: 5 }).is_none());
}

#[test]
fn released_entities_are_gone_and_slots_stay() {
    let mut store = EntityStore::new();
    let a = store.add_image(Image::new(10));
    let b = store.add_image(Image::new(11));
    let m = store.add_mesh(one_triangle());
    assert_eq!(store.release_image(a), Some(Image::new(10)));
    assert_eq!(store.release_image(a), None);
    assert_eq!(store.image(a), None);
    assert_eq!(store.image(b), Some(Image::new(11)));
    assert_eq!(store.release_image(ImageId { slot: 9 }), None);
    assert_eq!(store.release_mesh(m).map(|mesh| mesh.index_count()), Some(3));
    assert!(store.release_mesh(m).is_none());
    assert!(!store.holds_mesh(m));
    assert!(store.release_mesh(MeshId { slot: 9 }).is_none());
    assert_eq!(store.add_image(Image::new(12)), ImageId { slot: 2 });
    assert_eq!(store.add_mesh(one_triangle()), MeshId { slot: 1 });
}
