//! The transform pipeline: from the entities of a frame, each with its
//! placement, to the commands that the host carries out.
//!
//! The host places a drawable by scaling it, then rotating it, then moving
//! it to its destination. The pipeline fixes what is drawn, with which
//! placement, and in which order; a frame with a drawable whose resource
//! has been released is given up as a whole.

use vstd::prelude::*;
use crate::figure::Figure;
use crate::image::Image;
use crate::store::{EntityStore, ImageId, MeshId, StoreData};
use crate::units::{Color, Point, Vector, UNIT};

verus! {

/// Where and how a drawable is placed: scaled by `scale`, then turned by
/// `rotation` thousandths of a radian, then moved to `dest`.
#[derive(Clone, Copy, Debug, PartialEq, Eq, Structural)]
pub struct DrawParam {
    pub dest: Point,
    pub rotation: i64,
    pub scale: Vector,
}

impl DrawParam {
    /// The placement that changes nothing: at the origin, not turned, at
    /// scale one.
    pub open spec fn identity() -> DrawParam {
        DrawParam { dest: Point { x: 0, y: 0 }, rotation: 0, scale: Vector { x: 1000, y: 1000 } }
    }

    /// The placement that changes nothing.
    pub fn new() -> (param: DrawParam)
        ensures
            param == DrawParam::identity(),
    {
        DrawParam { dest: Point { x: 0, y: 0 }, rotation: 0, scale: Vector { x: UNIT, y: UNIT } }
    }

    /// This placement, moved to `dest`.
    pub fn dest(self, dest: Point) -> (param: DrawParam)
        ensures
            param == (DrawParam { dest, rotation: self.rotation, scale: self.scale }),
    {
        DrawParam { dest, rotation: self.rotation, scale: self.scale }
    }

    /// This placement, turned by `rotation`.
    pub fn rotation(self, rotation: i64) -> (param: DrawParam)
        ensures
            param == (DrawParam { dest: self.dest, rotation, scale: self.scale }),
    {
        DrawParam { dest: self.dest, rotation, scale: self.scale }
    }

    /// This placement, scaled by `scale`.
    pub fn scale(self, scale: Vector) -> (param: DrawParam)
        ensures
            param == (DrawParam { dest: self.dest, rotation: self.rotation, scale }),
    {
        DrawParam { dest: self.dest, rotation: self.rotation, scale }
    }
}

/// The product of two fixed-point scalars, rounded towards zero.
pub open spec fn fixed_mul(a: int, b: int) -> int {
    if a * b >= 0 {
        (a * b) / 1000
    } else {
        -((-(a * b)) / 1000)
    }
}

/// Whether `v` is a value of `i64`.
pub open spec fn fits(v: int) -> bool {
    i64::MIN <= v <= i64::MAX
}

impl DrawParam {
    /// Where the local point `local` lies once it is scaled by the scale
    /// of this placement.
    pub open spec fn scaled(self, local: Point) -> (int, int) {
        (
            fixed_mul(local.x as int, self.scale.x as int),
            fixed_mul(local.y as int, self.scale.y as int),
        )
    }

    /// Where the local point `local` lands in the world: scaled first,
    /// then turned, then moved to the destination. `heading` holds the
    /// cosine and the sine of the rotation.
    pub open spec fn placed(self, heading: Vector, local: Point) -> (int, int) {
        let (sx, sy) = self.scaled(local);
        (
            self.dest.x + fixed_mul(sx, heading.x as int) - fixed_mul(sy, heading.y as int),
            self.dest.y + fixed_mul(sx, heading.y as int) + fixed_mul(sy, heading.x as int),
        )
    }

    /// Whether `place` can give the world point: the scaled point and the
    /// world point fit.
    pub open spec fn placeable(self, heading: Vector, local: Point) -> bool {
        &&& fits(self.scaled(local).0)
        &&& fits(self.scaled(local).1)
        &&& fits(self.placed(heading, local).0)
        &&& fits(self.placed(heading, local).1)
    }

    /// Places the local point `local` in the world as the host places a
    /// drawable: scaled, then turned, then moved to the destination.
    ///
    /// The host computes the cosine and the sine of the rotation; they come
    /// in as `heading`, in thousandths. There is no world point where a
    /// coordinate leaves the range of `i64`.
    pub fn place(&self, heading: Vector, local: Point) -> (world: Option<Point>)
        ensures
            world is Some <==> self.placeable(heading, local),
            world matches Some(p) ==> (p.x as int, p.y as int) == self.placed(heading, local),
    {
        let sx = match mul_fixed(local.x as i128, self.scale.x as i128) {
            Some(v) => v,
            None => {
                return None;
            },
        };
        let sy = match mul_fixed(local.y as i128, self.scale.y as i128) {
            Some(v) => v,
            None => {
                return None;
            },
        };
        let cos = heading.x as i128;
        let sin = heading.y as i128;
        let x: i128 = self.dest.x as i128 + wide_mul(sx, cos) - wide_mul(sy, sin);
        let y: i128 = self.dest.y as i128 + wide_mul(sx, sin) + wide_mul(sy, cos);
        if x < i64::MIN as i128 || x > i64::MAX as i128 || y < i64::MIN as i128 || y
            > i64::MAX as i128 {
            return None;
        }
        Some(Point { x: x as i64, y: y as i64 })
    }
}

/// The fixed-point product of two values of `i64`, which may be none itself.
fn wide_mul(a: i128, b: i128) -> (product: i128)
    requires
        fits(a as int),
        fits(b as int),
    ensures
        product == fixed_mul(a as int, b as int),
        -0x40_0000_0000_0000_0000_0000_0000_0000 <= product
            <= 0x40_0000_0000_0000_0000_0000_0000_0000,
{
    assert(-0x4000_0000_0000_0000_0000_0000_0000_0000 <= a * b
        <= 0x4000_0000_0000_0000_0000_0000_0000_0000) by (nonlinear_arith)
        requires
            -0x8000_0000_0000_0000 <= a <= 0x8000_0000_0000_0000,
            -0x8000_0000_0000_0000 <= b <= 0x8000_0000_0000_0000,
    ;
    (a * b) / 1000
}

/// The fixed-point product of two values of `i64`, if it is one itself.
fn mul_fixed(a: i128, b: i128) -> (product: Option<i128>)
    requires
        fits(a as int),
        fits(b as int),
    ensures
        product is Some <==> fits(fixed_mul(a as int, b as int)),
        product matches Some(v) ==> v == fixed_mul(a as int, b as int),
{
    let v = wide_mul(a, b);
    if v < i64::MIN as i128 || v > i64::MAX as i128 {
        None
    } else {
        Some(v)
    }
}

impl Default for DrawParam {
    fn default() -> (param: DrawParam)
        ensures
            param == DrawParam::identity(),
    {
        DrawParam::new()
    }
}

/// Something that can be drawn: an image or a mesh of the store, or a
/// figure that the host tessellates as it draws.
#[derive(Clone, Copy, Debug, PartialEq, Eq, Structural)]
pub enum Drawable {
    Image(ImageId),
    Mesh(MeshId),
    Figure(Figure),
}

/// A drawable with its resource looked up.
#[derive(Clone, Copy, Debug, PartialEq, Eq, Structural)]
pub enum Target {
    /// An image, with the filter it was loaded with.
    Image(Image),
    Mesh(MeshId),
    Figure(Figure),
}

/// One step of a frame, for the host to carry out.
#[derive(Clone, Copy, Debug, PartialEq, Eq, Structural)]
pub enum Command {
    Clear(Color),
    Draw { target: Target, param: DrawParam },
    Present,
}

/// Why a frame was given up.
#[derive(Clone, Copy, Debug, PartialEq, Eq, Structural)]
pub enum RenderError {
    /// The drawable at `position` names a resource that the store no longer
    /// holds.
    MissingResource { position: usize, drawable: Drawable },
}

/// The entities of one frame, in the order in which they are to be drawn,
/// and the colour to clear to first, if any.
#[derive(Debug)]
pub struct Frame {
    pub background: Option<Color>,
    pub entities: Vec<(Drawable, DrawParam)>,
}

/// What `drawable` resolves to in `store`: nothing if its resource is gone.
pub open spec fn resolve(store: StoreData, drawable: Drawable) -> Option<Target> {
    match drawable {
        Drawable::Image(id) => match store.image_at(id) {
            Some(image) => Some(Target::Image(image)),
            None => None,
        },
        Drawable::Mesh(id) => if store.mesh_at(id) is Some {
            Some(Target::Mesh(id))
        } else {
            None
        },
        Drawable::Figure(figure) => Some(Target::Figure(figure)),
    }
}

/// Whether every drawable among `entities` still has its resource.
pub open spec fn presentable(store: StoreData, entities: Seq<(Drawable, DrawParam)>) -> bool {
    forall|i: int| 0 <= i < entities.len() ==> resolve(store, (#[trigger] entities[i]).0) is Some
}

/// The commands before the first draw.
pub open spec fn prologue(background: Option<Color>) -> Seq<Command> {
    match background {
        Some(color) => seq![Command::Clear(color)],
        None => Seq::empty(),
    }
}

/// One draw command per entity, in the order of the entities.
pub open spec fn draws(store: StoreData, entities: Seq<(Drawable, DrawParam)>) -> Seq<Command> {
    Seq::new(
        entities.len(),
        |i: int|
            Command::Draw {
                target: resolve(store, entities[i].0).unwrap(),
                param: entities[i].1,
            },
    )
}

/// The commands of a whole frame: the clear, if any, the draws in order,
/// and one present.
pub open spec fn frame_commands(
    store: StoreData,
    background: Option<Color>,
    entities: Seq<(Drawable, DrawParam)>,
) -> Seq<Command> {
    prologue(background) + draws(store, entities) + seq![Command::Present]
}

/// Looks up the resource of `drawable`.
pub fn target(store: &EntityStore, drawable: Drawable) -> (found: Option<Target>)
    ensures
        found == resolve(store@, drawable),
{
    match drawable {
        Drawable::Image(id) => match store.image(id) {
            Some(image) => Some(Target::Image(image)),
            None => None,
        },
        Drawable::Mesh(id) => if store.holds_mesh(id) {
            Some(Target::Mesh(id))
        } else {
            None
        },
        Drawable::Figure(figure) => Some(Target::Figure(figure)),
    }
}

/// Plans a frame: one draw per entity, in the order given, so that a later
/// entity is drawn over an earlier one, and a single present at the end.
///
/// If the resource of any drawable has been released, no command is
/// issued and the error names the first such drawable.
pub fn render(store: &EntityStore, frame: &Frame) -> (r: Result<Vec<Command>, RenderError>)
    ensures
        match r {
            Ok(commands) => {
                &&& presentable(store@, frame.entities@)
                &&& commands@ == frame_commands(store@, frame.background, frame.entities@)
            },
            Err(RenderError::MissingResource { position, drawable }) => {
                &&& position < frame.entities@.len()
                &&& drawable == frame.entities@[position as int].0
                &&& resolve(store@, drawable) is None
                &&& presentable(store@, frame.entities@.subrange(0, position as int))
            },
        },
{
    let mut commands: Vec<Command> = Vec::new();
    if let Some(color) = frame.background {
        commands.push(Command::Clear(color));
    }
    assert(commands@ =~= prologue(frame.background));
    let mut i: usize = 0;
    while i < frame.entities.len()
        invariant
            i <= frame.entities@.len(),
            presentable(store@, frame.entities@.subrange(0, i as int)),
            commands@ == prologue(frame.background) + draws(
                store@,
                frame.entities@.subrange(0, i as int),
            ),
        decreases frame.entities@.len() - i,
    {
        let (drawable, param) = frame.entities[i];
        match target(store, drawable) {
            Some(found) => {
                commands.push(Command::Draw { target: found, param });
            },
            None => {
                return Err(RenderError::MissingResource { position: i, drawable });
            },
        }
        proof {
            let before = frame.entities@.subrange(0, i as int);
            let after = frame.entities@.subrange(0, i + 1);
            assert(after =~= before.push(frame.entities@[i as int]));
            assert(draws(store@, after) =~= draws(store@, before).push(
                Command::Draw { target: resolve(store@, drawable).unwrap(), param },
            ));
            assert forall|j: int| 0 <= j < after.len() implies resolve(
                store@,
                (#[trigger] after[j]).0,
            ) is Some by {
                if j < i {
                    assert(after[j] == before[j]);
                }
            }
        }
        i += 1;
    }
    commands.push(Command::Present);
    proof {
        assert(frame.entities@.subrange(0, i as int) =~= frame.entities@);
    }
    Ok(commands)
}

/// Draw order: in the commands of a frame, the draw of an earlier entity
/// comes before the draw of a later one, each entity is drawn exactly where
/// its position puts it, and the one present comes last. What is drawn
/// later is thus drawn over what was drawn earlier.
pub proof fn lemma_draw_order(
    store: StoreData,
    background: Option<Color>,
    entities: Seq<(Drawable, DrawParam)>,
    earlier: int,
    later: int,
)
    requires
        presentable(store, entities),
        0 <= earlier < later < entities.len(),
    ensures
        ({
            let commands = frame_commands(store, background, entities);
            let first = prologue(background).len();
            &&& commands.len() == first + entities.len() + 1
            &&& first + earlier < first + later < commands.len() - 1
            &&& commands[first + earlier] == (Command::Draw {
                target: resolve(store, entities[earlier].0).unwrap(),
                param: entities[earlier].1,
            })
            &&& commands[first + later] == (Command::Draw {
                target: resolve(store, entities[later].0).unwrap(),
                param: entities[later].1,
            })
            &&& commands.last() == Command::Present
            &&& forall|k: int| 0 <= k < commands.len() - 1 ==> commands[k] != Command::Present
        }),
{
}

/// Filter persistence: every draw of an image carries the image as the
/// store holds it, with the filter it was loaded with, whatever the
/// placement of the draw and however often the image is drawn.
pub proof fn lemma_filter_persists(
    store: StoreData,
    background: Option<Color>,
    entities: Seq<(Drawable, DrawParam)>,
    position: int,
    id: ImageId,
)
    requires
        presentable(store, entities),
        0 <= position < entities.len(),
        entities[position].0 == Drawable::Image(id),
    ensures
        store.image_at(id) is Some,
        frame_commands(store, background, entities)[prologue(background).len() + position] == (
        Command::Draw {
            target: Target::Image(store.image_at(id).unwrap()),
            param: entities[position].1,
        }),
{
}

/// A figure needs no resource: a frame of figures alone is presentable in
/// every store, whatever the extents of the figures.
pub proof fn lemma_figures_presentable(store: StoreData, entities: Seq<(Drawable, DrawParam)>)
    requires
        forall|i: int| 0 <= i < entities.len() ==> (#[trigger] entities[i]).0 is Figure,
    ensures
        presentable(store, entities),
{
}

/// The destination is applied last: the local origin lands on the
/// destination, whatever the scale and the rotation.
pub proof fn lemma_origin_lands_on_dest(param: DrawParam, heading: Vector)
    ensures
        param.placed(heading, Point { x: 0, y: 0 }) == (param.dest.x as int, param.dest.y as int),
        param.placeable(heading, Point { x: 0, y: 0 }),
{
    assert(0 * (param.scale.x as int) == 0);
    assert(0 * (param.scale.y as int) == 0);
    assert(0 * (heading.x as int) == 0);
    assert(0 * (heading.y as int) == 0);
}

/// The scale is applied before the rotation and the rotation before the
/// destination: with no rotation, a point lands at the destination plus
/// its scaled self.
pub proof fn lemma_unturned_placement(param: DrawParam, local: Point)
    ensures
        param.placed(Vector { x: 1000, y: 0 }, local) == (
            param.dest.x + param.scaled(local).0,
            param.dest.y + param.scaled(local).1,
        ),
{
    let (sx, sy) = param.scaled(local);
    assert(fixed_mul(sx, 1000) == sx) by {
        assert(sx * 1000 >= 0 <==> sx >= 0);
    }
    assert(fixed_mul(sy, 1000) == sy) by {
        assert(sy * 1000 >= 0 <==> sy >= 0);
    }
    assert(sx * 0 == 0 && sy * 0 == 0);
}

} // verus!
