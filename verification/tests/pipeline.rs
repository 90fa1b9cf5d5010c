use scene2d::figure::{DrawMode, Figure};
use scene2d::image::{FilterMode, Image};
use scene2d::mesh::{MeshBuilder, Vertex};
use scene2d::pipeline::{render, target, Command, DrawParam, Drawable, Frame, RenderError, Target};
use scene2d::store::{EntityStore, ImageId, MeshId};
use scene2d::units::{Color, Point, Rect, Vector};

fn square(x: i64, color: Color) -> Figure {
    Figure::rectangle(DrawMode::Fill, Rect::new(x, 0, 100_000, 100_000), color)
}

#[test]
fn draw_param_defaults_to_identity() {
    let identity =
        DrawParam { dest: Point { x: 0, y: 0 }, rotation: 0, scale: Vector { x: 1000, y: 1000 } };
    assert_eq!(DrawParam::new(), identity);
    assert_eq!(DrawParam::default(), identity);
}

#[test]
fn draw_param_builders_change_one_field_each() {
    let param = DrawParam::new().dest(Point::new(1, 2)).rotation(1570).scale(Vector::new(3, 4));
    assert_eq!(
        param,
        DrawParam { dest: Point { x: 1, y: 2 }, rotation: 1570, scale: Vector { x: 3, y: 4 } }
    );
    assert_eq!(param.rotation(0).dest, Point { x: 1, y: 2 });
    assert_eq!(param.dest(Point::new(9, 9)).scale, Vector { x: 3, y: 4 });
}

#[test]
fn transform_scales_then_moves() {
    let param = DrawParam::new().dest(Point::new(10_000, 0)).scale(Vector::new(2000, 2000));
    let world = param.place(Vector::new(1000, 0), Point::new(1000, 0));
    assert_eq!(world, Some(Point { x: 12_000, y: 0 }));
}

#[test]
fn transform_turns_after_scaling() {
    let param = DrawParam::new()
        .dest(Point::new(10_000, 0))
        .rotation(1571)
        .scale(Vector::new(2000, 2000));
    let world = param.place(Vector::new(0, 1000), Point::new(1000, 0));
    assert_eq!(world, Some(Point { x: 10_000, y: 2000 }));
}

#[test]
fn transform_rounds_towards_zero() {
    let param = DrawParam::new().scale(Vector::new(500, 500));
    assert_eq!(param.place(Vector::new(1000, 0), Point::new(3, -3)), Some(Point { x: 1, y: -1 }));
    let diagonal = Vector::new(707, 707);
    assert_eq!(param.place(diagonal, Point::new(2000, 0)), Some(Point { x: 707, y: 707 }));
}

#[test]
fn transform_of_origin_is_destination() {
    let param = DrawParam::new()
        .dest(Point::new(-7, 11))
        .rotation(123)
        .scale(Vector::new(i64::MAX, i64::MIN));
    assert_eq!(param.place(Vector::new(992, 122), Point::new(0, 0)), Some(Point { x: -7, y: 11 }));
}

#[test]
fn transform_out_of_range_has_no_world_point() {
    let param = DrawParam::new().scale(Vector::new(i64::MAX, 1000));
    assert_eq!(param.place(Vector::new(1000, 0), Point::new(i64::MAX, 0)), None);
    let far = DrawParam::new().dest(Point::new(i64::MAX, 0));
    assert_eq!(far.place(Vector::new(1000, 0), Point::new(1, 0)), None);
    assert_eq!(
        far.place(Vector::new(1000, 0), Point::new(-1, 0)),
        Some(Point { x: i64::MAX - 1, y: 0 })
    );
}

#[test]
fn later_entity_is_drawn_after_earlier_one() {
    let store = EntityStore::new();
    let red = square(0, Color::new(1000, 0, 0, 1000));
    let blue = square(50_000, Color::new(0, 0, 1000, 1000));
    let frame = Frame {
        background: None,
        entities: vec![
            (Drawable::Figure(red), DrawParam::new()),
            (Drawable::Figure(blue), DrawParam::new()),
        ],
    };
    let commands = render(&store, &frame).unwrap();
    assert_eq!(
        commands,
        vec![
            Command::Draw { target: Target::Figure(red), param: DrawParam::new() },
            Command::Draw { target: Target::Figure(blue), param: DrawParam::new() },
            Command::Present,
        ]
    );
}

#[test]
fn frame_clears_first_and_presents_once_at_the_end() {
    let store = EntityStore::new();
    let black = Color::new(0, 0, 0, 1000);
    let frame = Frame { background: Some(black), entities: vec![] };
    assert_eq!(render(&store, &frame), Ok(vec![Command::Clear(black), Command::Present]));
    let bare = Frame { background: None, entities: vec![] };
    assert_eq!(render(&store, &bare), Ok(vec![Command::Present]));
}

#[test]
fn nearest_filter_stays_across_draws_at_different_scales() {
    let mut store = EntityStore::new();
    let mut shot = Image::new(4);
    shot.set_filter(FilterMode::Nearest);
    let id = store.add_image(shot);
    let small = DrawParam::new().scale(Vector::new(2000, 2000));
    let large = DrawParam::new().scale(Vector::new(10_000, 10_000));
    let frame = Frame {
        background: None,
        entities: vec![(Drawable::Image(id), small), (Drawable::Image(id), large)],
    };
    let nearest = Target::Image(Image { handle: 4, filter: FilterMode::Nearest });
    assert_eq!(
        render(&store, &frame),
        Ok(vec![
            Command::Draw { target: nearest, param: small },
            Command::Draw { target: nearest, param: large },
            Command::Present,
        ])
    );
    assert_eq!(render(&store, &frame), render(&store, &frame));
}

#[test]
fn released_image_gives_up_the_frame() {
    let mut store = EntityStore::new();
    let kept = store.add_image(Image::new(1));
    let gone = store.add_image(Image::new(2));
    store.release_image(gone);
    let frame = Frame {
        background: Some(Color::white()),
        entities: vec![
            (Drawable::Image(kept), DrawParam::new()),
            (Drawable::Image(gone), DrawParam::new()),
            (Drawable::Image(ImageId { slot: 7 }), DrawParam::new()),
        ],
    };
    assert_eq!(
        render(&store, &frame),
        Err(RenderError::MissingResource { position: 1, drawable: Drawable::Image(gone) })
    );
    assert_eq!(target(&store, Drawable::Image(kept)), Some(Target::Image(Image::new(1))));
    assert_eq!(target(&store, Drawable::Image(gone)), None);
}

#[test]
fn released_mesh_gives_up_the_frame_and_the_next_frame_is_free() {
    let v = Vertex { pos: Point::new(0, 0), uv: Point::new(0, 0), color: Color::white() };
    let mut builder = MeshBuilder::new();
    assert_eq!(builder.raw(&[v, v, v], &[0, 1, 2], None), Ok(()));
    let mut store = EntityStore::new();
    let mesh = store.add_mesh(builder.build().unwrap());
    let frame =
        Frame { background: None, entities: vec![(Drawable::Mesh(mesh), DrawParam::new())] };
    assert_eq!(
        render(&store, &frame),
        Ok(vec![
            Command::Draw { target: Target::Mesh(mesh), param: DrawParam::new() },
            Command::Present,
        ])
    );
    store.release_mesh(mesh);
    assert_eq!(
        render(&store, &frame),
        Err(RenderError::MissingResource { position: 0, drawable: Drawable::Mesh(mesh) })
    );
    let unknown = Frame {
        background: None,
        entities: vec![(Drawable::Mesh(MeshId { slot: 3 }), DrawParam::new())],
    };
    assert!(render(&store, &unknown).is_err());
    let free = Frame { background: None, entities: vec![] };
    assert_eq!(render(&store, &free), Ok(vec![Command::Present]));
}
