//! A scene of three images, two rectangles and two prepared meshes, of
//! which two images turn as time passes.

use vstd::prelude::*;
use crate::animator::{ticks_due, turned, Animator, AnimatorData};
use crate::figure::{DrawMode, Figure, Polyline, Primitive};
use crate::image::{FilterMode, Image};
use crate::mesh::{verdict, Geometry, GeometryError, Mesh, MeshBuilder, MeshData, Vertex};
use crate::pipeline::{
    draws, prologue, render, Command, DrawParam, Drawable, Frame, RenderError, Target,
};
use crate::store::{EntityStore, ImageId, MeshId};
use crate::units::{Color, Point, Rect, Vector};

verus! {

/// The tick rate of the animation, in ticks per second.
pub const DESIRED_FPS: u32 = 60;

/// The angle by which one tick turns the images: a hundredth of a radian.
pub const ROTATION_STEP: u32 = 10;

/// The angle at which the images start: one radian.
pub const INITIAL_ROTATION: i64 = 1000;

/// The scene: the store of its entities, their names, and the animator.
#[derive(Debug)]
pub struct MainState {
    store: EntityStore,
    image1: ImageId,
    image2_linear: ImageId,
    image2_nearest: ImageId,
    meshes: Vec<MeshId>,
    animator: Animator,
}

impl MainState {
    #[verifier::type_invariant]
    spec fn well_formed(self) -> bool {
        &&& self.store@.image_at(self.image1) is Some
        &&& self.store@.image_at(self.image2_linear) is Some
        &&& self.store@.image_at(self.image2_nearest) is Some
        &&& forall|k: int|
            0 <= k < self.meshes@.len() ==> self.store@.mesh_at(#[trigger] self.meshes@[k]) is Some
        &&& self.animator@.rate == DESIRED_FPS
        &&& self.animator@.increment == ROTATION_STEP
        &&& self.animator@.well_formed()
    }

    /// The three images of the scene as the store holds them.
    pub closed spec fn images(&self) -> (Image, Image, Image) {
        (
            self.store@.image_at(self.image1).unwrap(),
            self.store@.image_at(self.image2_linear).unwrap(),
            self.store@.image_at(self.image2_nearest).unwrap(),
        )
    }

    /// The names of the prepared meshes, in the order in which they are
    /// drawn.
    pub closed spec fn mesh_ids(&self) -> Seq<MeshId> {
        self.meshes@
    }

    /// The prepared meshes as the store holds them, in the same order.
    pub closed spec fn held_meshes(&self) -> Seq<MeshData> {
        Seq::new(self.meshes@.len(), |k: int| self.store@.mesh_at(self.meshes@[k]).unwrap())
    }

    /// The animator of the scene.
    pub closed spec fn animator(&self) -> AnimatorData {
        self.animator@
    }

    /// Takes the loaded images and the prepared meshes into a new scene.
    /// The third image, a second copy of the second, is sampled by its
    /// nearest pixel from here on; the meshes are named by their positions.
    pub fn new(
        image1: Image,
        image2_linear: Image,
        image2_nearest: Image,
        meshes: Vec<Mesh>,
    ) -> (state: MainState)
        ensures
            state.images() == (
                image1,
                image2_linear,
                Image { handle: image2_nearest.handle, filter: FilterMode::Nearest },
            ),
            state.mesh_ids() == Seq::new(meshes@.len(), |k: int| MeshId { slot: k as usize }),
            state.held_meshes() == Seq::new(meshes@.len(), |k: int| meshes@[k]@),
            state.animator() == (AnimatorData {
                rate: DESIRED_FPS as nat,
                carry: 0,
                increment: ROTATION_STEP as nat,
                rotation: INITIAL_ROTATION as int,
            }),
    {
        let mut nearest = image2_nearest;
        nearest.set_filter(FilterMode::Nearest);
        let mut store = EntityStore::new();
        let first = store.add_image(image1);
        let second = store.add_image(image2_linear);
        let third = store.add_image(nearest);
        let ghost images = store@.images;
        let ghost given = meshes@;
        let mut ids: Vec<MeshId> = Vec::new();
        for mesh in it: meshes.into_iter()
            invariant
                it.seq() == given,
                store@.images == images,
                ids@.len() == it.index(),
                store@.meshes.len() == it.index(),
                forall|k: int|
                    0 <= k < it.index() ==> (#[trigger] ids@[k]).slot == k,
                forall|k: int|
                    0 <= k < it.index() ==> (#[trigger] store@.meshes[k]) == Some(given[k]@),
        {
            let id = store.add_mesh(mesh);
            ids.push(id);
        }
        let animator = Animator::new(DESIRED_FPS, ROTATION_STEP, INITIAL_ROTATION).unwrap();
        let state = MainState {
            store,
            image1: first,
            image2_linear: second,
            image2_nearest: third,
            meshes: ids,
            animator,
        };
        proof {
            assert(state.mesh_ids() =~= Seq::new(
                given.len(),
                |k: int| MeshId { slot: k as usize },
            ));
            assert forall|k: int| 0 <= k < given.len() implies state.held_meshes()[k]
                == given[k]@ by {
                assert(state.store@.meshes[k] == Some(given[k]@));
            }
            assert(state.held_meshes() =~= Seq::new(given.len(), |k: int| given[k]@));
        }
        state
    }

    /// The angle to which the turning images are turned.
    pub fn rotation(&self) -> (rotation: i64)
        ensures
            rotation == self.animator().rotation,
    {
        self.animator.state().rotation
    }

    /// Applies the ticks that the host has counted since the last frame:
    /// each turns the two turning images by `ROTATION_STEP`, however long
    /// the frame took.
    pub fn update(&mut self, ticks: u64)
        ensures
            final(self).animator() == (AnimatorData {
                rotation: turned(
                    old(self).animator().rotation,
                    ROTATION_STEP as nat,
                    ticks as nat,
                ),
                ..old(self).animator()
            }),
            final(self).images() == old(self).images(),
            final(self).mesh_ids() == old(self).mesh_ids(),
            final(self).held_meshes() == old(self).held_meshes(),
    {
        proof {
            use_type_invariant(&*self);
        }
        let mut animator = self.animator;
        animator.apply(ticks);
        self.animator = animator;
    }

    /// Lets `delta` nanoseconds of frame time pass, for a host that does
    /// not count ticks itself: every tick that falls due at `DESIRED_FPS`
    /// is applied as by `update`. Returns the number of ticks.
    pub fn advance(&mut self, delta: u64) -> (ticks: u64)
        ensures
            ticks == ticks_due(DESIRED_FPS as nat, old(self).animator().carry, delta as nat),
            final(self).animator() == old(self).animator().step(delta as nat),
            final(self).images() == old(self).images(),
            final(self).mesh_ids() == old(self).mesh_ids(),
            final(self).held_meshes() == old(self).held_meshes(),
    {
        proof {
            use_type_invariant(&*self);
        }
        let mut animator = self.animator;
        let ticks = animator.advance(delta);
        self.animator = animator;
        ticks
    }

    /// The entities of a frame, in the order in which they are drawn.
    fn frame(&self) -> (frame: Frame)
        ensures
            frame.background == Some(background()),
            frame.entities@ == main_entities(
                (self.image1, self.image2_linear, self.image2_nearest),
                self.meshes@,
                self.animator@.rotation as i64,
            ),
    {
        let rotation = self.animator.state().rotation;
        let scale = Vector::new(10_000, 10_000);
        let rect = Rect::new(450_000, 450_000, 50_000, 50_000);
        let mut entities: Vec<(Drawable, DrawParam)> = Vec::new();
        entities.push(
            (Drawable::Image(self.image1), DrawParam::new().dest(Point::new(20_000, 20_000))),
        );
        entities.push(
            (
                Drawable::Image(self.image2_linear),
                DrawParam::new().dest(Point::new(200_000, 100_000)).rotation(rotation).scale(scale),
            ),
        );
        entities.push(
            (
                Drawable::Image(self.image2_nearest),
                DrawParam::new().dest(Point::new(400_000, 400_000)).rotation(rotation).scale(scale),
            ),
        );
        entities.push(
            (
                Drawable::Figure(Figure::rectangle(DrawMode::Fill, rect, Color::white())),
                DrawParam::default(),
            ),
        );
        entities.push(
            (
                Drawable::Figure(
                    Figure::rectangle(
                        DrawMode::Stroke { width: 1000 },
                        rect,
                        Color::new(1000, 0, 0, 1000),
                    ),
                ),
                DrawParam::default(),
            ),
        );
        let ghost fixed = entities@;
        let mut k: usize = 0;
        while k < self.meshes.len()
            invariant
                k <= self.meshes@.len(),
                entities@ == fixed + mesh_entities(self.meshes@.subrange(0, k as int)),
            decreases self.meshes@.len() - k,
        {
            entities.push((Drawable::Mesh(self.meshes[k]), DrawParam::new()));
            assert(entities@ =~= fixed + mesh_entities(self.meshes@.subrange(0, k + 1)));
            k += 1;
        }
        assert(self.meshes@.subrange(0, k as int) =~= self.meshes@);
        assert(fixed =~= fixed_entities(
            (self.image1, self.image2_linear, self.image2_nearest),
            self.animator@.rotation as i64,
        ));
        Frame { background: Some(Color::new(100, 200, 300, 1000)), entities }
    }

    /// Plans a frame: the clear, the first image, the two turning images
    /// ten times their size, a filled and a stroked rectangle, the prepared
    /// meshes, and one present, in this order. The scene releases nothing,
    /// so the frame is never given up.
    pub fn draw(&self) -> (r: Result<Vec<Command>, RenderError>)
        ensures
            r matches Ok(commands) && commands@ == main_commands(
                self.images(),
                self.mesh_ids(),
                self.animator().rotation as i64,
            ),
    {
        proof {
            use_type_invariant(self);
        }
        let frame = self.frame();
        let r = render(&self.store, &frame);
        proof {
            let ids = (self.image1, self.image2_linear, self.image2_nearest);
            let rotation = self.animator@.rotation as i64;
            let entities = main_entities(ids, self.meshes@, rotation);
            assert forall|i: int| 0 <= i < entities.len() implies crate::pipeline::resolve(
                self.store@,
                (#[trigger] entities[i]).0,
            ) is Some by {
                if i >= 5 {
                    assert(entities[i] == mesh_entities(self.meshes@)[i - 5]);
                    assert(self.store@.mesh_at(self.meshes@[i - 5]) is Some);
                }
            }
            if let Err(RenderError::MissingResource { position, drawable }) = r {
                assert(drawable == entities[position as int].0);
            }
            let listed = main_commands(self.images(), self.mesh_ids(), rotation);
            let planned = prologue(frame.background) + draws(self.store@, entities) + seq![
                Command::Present,
            ];
            assert(planned.len() == listed.len());
            assert forall|i: int| 0 <= i < planned.len() implies planned[i] == listed[i] by {
                if 6 <= i < planned.len() - 1 {
                    assert(entities[i - 1] == mesh_entities(self.meshes@)[i - 6]);
                    assert(self.store@.mesh_at(self.meshes@[i - 6]) is Some);
                }
            }
            assert(planned =~= listed);
        }
        r
    }
}

/// The colour to which every frame is cleared.
pub open spec fn background() -> Color {
    Color { r: 100, g: 200, b: 300, a: 1000 }
}

/// The rectangle that is drawn twice, filled and stroked.
pub open spec fn marker() -> Rect {
    Rect { x: 450_000, y: 450_000, w: 50_000, h: 50_000 }
}

/// The placement of a turning image: at `dest`, turned by `rotation`, ten
/// times its size.
pub open spec fn turning(dest: Point, rotation: i64) -> DrawParam {
    DrawParam { dest, rotation, scale: Vector { x: 10_000, y: 10_000 } }
}

/// The five entities that every frame starts with.
pub open spec fn fixed_entities(images: (ImageId, ImageId, ImageId), rotation: i64) -> Seq<
    (Drawable, DrawParam),
> {
    seq![
        (
            Drawable::Image(images.0),
            DrawParam {
                dest: Point { x: 20_000, y: 20_000 },
                rotation: 0,
                scale: Vector { x: 1000, y: 1000 },
            },
        ),
        (Drawable::Image(images.1), turning(Point { x: 200_000, y: 100_000 }, rotation)),
        (Drawable::Image(images.2), turning(Point { x: 400_000, y: 400_000 }, rotation)),
        (
            Drawable::Figure(
                Figure::Rectangle { mode: DrawMode::Fill, bounds: marker(), color: Color::white() },
            ),
            DrawParam::identity(),
        ),
        (
            Drawable::Figure(
                Figure::Rectangle {
                    mode: DrawMode::Stroke { width: 1000 },
                    bounds: marker(),
                    color: Color { r: 1000, g: 0, b: 0, a: 1000 },
                },
            ),
            DrawParam::identity(),
        ),
    ]
}

/// One entity per mesh, each placed as it is.
pub open spec fn mesh_entities(meshes: Seq<MeshId>) -> Seq<(Drawable, DrawParam)> {
    Seq::new(meshes.len(), |k: int| (Drawable::Mesh(meshes[k]), DrawParam::identity()))
}

/// The entities of a frame.
pub open spec fn main_entities(
    images: (ImageId, ImageId, ImageId),
    meshes: Seq<MeshId>,
    rotation: i64,
) -> Seq<(Drawable, DrawParam)> {
    fixed_entities(images, rotation) + mesh_entities(meshes)
}

/// The commands of a frame of the scene with the given images, meshes and
/// rotation.
pub open spec fn main_commands(
    images: (Image, Image, Image),
    meshes: Seq<MeshId>,
    rotation: i64,
) -> Seq<Command> {
    seq![
        Command::Clear(background()),
        Command::Draw {
            target: Target::Image(images.0),
            param: DrawParam {
                dest: Point { x: 20_000, y: 20_000 },
                rotation: 0,
                scale: Vector { x: 1000, y: 1000 },
            },
        },
        Command::Draw {
            target: Target::Image(images.1),
            param: turning(Point { x: 200_000, y: 100_000 }, rotation),
        },
        Command::Draw {
            target: Target::Image(images.2),
            param: turning(Point { x: 400_000, y: 400_000 }, rotation),
        },
        Command::Draw {
            target: Target::Figure(
                Figure::Rectangle { mode: DrawMode::Fill, bounds: marker(), color: Color::white() },
            ),
            param: DrawParam::identity(),
        },
        Command::Draw {
            target: Target::Figure(
                Figure::Rectangle {
                    mode: DrawMode::Stroke { width: 1000 },
                    bounds: marker(),
                    color: Color { r: 1000, g: 0, b: 0, a: 1000 },
                },
            ),
            param: DrawParam::identity(),
        },
    ] + Seq::new(
        meshes.len(),
        |k: int| Command::Draw { target: Target::Mesh(meshes[k]), param: DrawParam::identity() },
    ) + seq![Command::Present]
}

/// The points of the red line of the first prepared mesh.
pub open spec fn line_points() -> Seq<Point> {
    seq![
        Point { x: 200_000, y: 200_000 },
        Point { x: 400_000, y: 200_000 },
        Point { x: 400_000, y: 400_000 },
        Point { x: 200_000, y: 400_000 },
        Point { x: 200_000, y: 300_000 },
    ]
}

/// The yellow ellipse of the first prepared mesh.
pub open spec fn yellow_ellipse() -> Figure {
    Figure::Ellipse {
        mode: DrawMode::Fill,
        center: Point { x: 600_000, y: 200_000 },
        radius_x: 50_000,
        radius_y: 120_000,
        tolerance: 1000,
        color: Color { r: 1000, g: 1000, b: 0, a: 1000 },
    }
}

/// The magenta circle of the first prepared mesh.
pub open spec fn magenta_circle() -> Figure {
    Figure::Circle {
        mode: DrawMode::Fill,
        center: Point { x: 600_000, y: 380_000 },
        radius: 40_000,
        tolerance: 1000,
        color: Color { r: 1000, g: 0, b: 1000, a: 1000 },
    }
}

/// The primitives of the first prepared mesh, for the tessellator: a red
/// line four units wide, a filled yellow ellipse and a filled magenta
/// circle.
pub fn mesh_primitives() -> (primitives: Vec<Primitive>)
    ensures
        primitives@.len() == 3,
        primitives@[0] matches Primitive::Line(line) && line.points@ == line_points() && line.width
            == 4000 && line.color == (Color { r: 1000, g: 0, b: 0, a: 1000 }),
        primitives@[1] == Primitive::Figure(yellow_ellipse()),
        primitives@[2] == Primitive::Figure(magenta_circle()),
        forall|i: int| 0 <= i < 3 ==> (#[trigger] primitives@[i]).well_formed(),
{
    let mut points: Vec<Point> = Vec::new();
    points.push(Point::new(200_000, 200_000));
    points.push(Point::new(400_000, 200_000));
    points.push(Point::new(400_000, 400_000));
    points.push(Point::new(200_000, 400_000));
    points.push(Point::new(200_000, 300_000));
    assert(points@ =~= line_points());
    let mut primitives: Vec<Primitive> = Vec::new();
    primitives.push(Primitive::Line(Polyline::new(points, 4000, Color::new(1000, 0, 0, 1000))));
    primitives.push(
        Primitive::Figure(
            Figure::ellipse(
                DrawMode::Fill,
                Point::new(600_000, 200_000),
                50_000,
                120_000,
                1000,
                Color::new(1000, 1000, 0, 1000),
            ),
        ),
    );
    primitives.push(
        Primitive::Figure(
            Figure::circle(
                DrawMode::Fill,
                Point::new(600_000, 380_000),
                40_000,
                1000,
                Color::new(1000, 0, 1000, 1000),
            ),
        ),
    );
    primitives
}

/// The first of the verdicts on three triangle sets that refuses its set,
/// or none.
pub open spec fn first_refusal(line: Geometry, ellipse: Geometry, circle: Geometry) -> Result<
    (),
    GeometryError,
> {
    if verdict(line.vertices@.len(), line.indices@) is Err {
        verdict(line.vertices@.len(), line.indices@)
    } else if verdict(ellipse.vertices@.len(), ellipse.indices@) is Err {
        verdict(ellipse.vertices@.len(), ellipse.indices@)
    } else {
        verdict(circle.vertices@.len(), circle.indices@)
    }
}

/// Builds the first prepared mesh from the tessellated line, ellipse and
/// circle, merged in this order into one vertex list and one index list.
/// The first set that is refused ends the build.
pub fn build_mesh(line: &Geometry, ellipse: &Geometry, circle: &Geometry) -> (r: Result<
    Mesh,
    GeometryError,
>)
    requires
        line.vertices@.len() + ellipse.vertices@.len() + circle.vertices@.len() <= u32::MAX,
    ensures
        match r {
            Ok(mesh) => first_refusal(*line, *ellipse, *circle) is Ok && mesh@
                == MeshData::empty().merge(line.vertices@, line.indices@, None).merge(
                ellipse.vertices@,
                ellipse.indices@,
                None,
            ).merge(circle.vertices@, circle.indices@, None),
            Err(e) => first_refusal(*line, *ellipse, *circle) == Err::<(), GeometryError>(e),
        },
{
    let mut builder = MeshBuilder::new();
    match builder.append(line) {
        Err(e) => {
            return Err(e);
        },
        Ok(()) => {},
    }
    match builder.append(ellipse) {
        Err(e) => {
            return Err(e);
        },
        Ok(()) => {},
    }
    match builder.append(circle) {
        Err(e) => {
            return Err(e);
        },
        Ok(()) => {},
    }
    builder.build()
}

/// The three corners of the textured triangle: red, green and blue, each
/// sampling the corner of the texture that it lies at.
pub open spec fn triangle_vertices() -> Seq<Vertex> {
    seq![
        Vertex {
            pos: Point { x: 100_000, y: 100_000 },
            uv: Point { x: 1000, y: 1000 },
            color: Color { r: 1000, g: 0, b: 0, a: 1000 },
        },
        Vertex {
            pos: Point { x: 0, y: 100_000 },
            uv: Point { x: 0, y: 1000 },
            color: Color { r: 0, g: 1000, b: 0, a: 1000 },
        },
        Vertex {
            pos: Point { x: 0, y: 0 },
            uv: Point { x: 0, y: 0 },
            color: Color { r: 0, g: 0, b: 1000, a: 1000 },
        },
    ]
}

/// Builds the second prepared mesh: one triangle, textured with `texture`.
pub fn build_textured_triangle(texture: Image) -> (r: Result<Mesh, GeometryError>)
    ensures
        r matches Ok(mesh) && mesh@ == (MeshData {
            vertices: triangle_vertices(),
            indices: seq![0u32, 1u32, 2u32],
            texture: Some(texture),
        }),
{
    let triangle_verts = [
        Vertex {
            pos: Point::new(100_000, 100_000),
            uv: Point::new(1000, 1000),
            color: Color::new(1000, 0, 0, 1000),
        },
        Vertex {
            pos: Point::new(0, 100_000),
            uv: Point::new(0, 1000),
            color: Color::new(0, 1000, 0, 1000),
        },
        Vertex { pos: Point::new(0, 0), uv: Point::new(0, 0), color: Color::new(0, 0, 1000, 1000) },
    ];
    let triangle_indices = [0u32, 1, 2];
    let mut builder = MeshBuilder::new();
    let accepted = builder.raw(
        triangle_verts.as_slice(),
        triangle_indices.as_slice(),
        Some(texture),
    );
    proof {
        assert(triangle_indices@[0] < 3 && triangle_indices@[1] < 3 && triangle_indices@[2] < 3);
        assert(accepted is Ok);
        assert(triangle_verts@ =~= triangle_vertices());
        assert(crate::mesh::shift(triangle_indices@, 0) =~= seq![0u32, 1u32, 2u32]);
        assert(builder@.vertices =~= triangle_vertices());
        assert(builder@.indices =~= seq![0u32, 1u32, 2u32]);
    }
    builder.build()
}

} // verus!
