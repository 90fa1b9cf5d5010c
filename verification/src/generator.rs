//! The procedural scene generator: random draws in, shapes out.
//!
//! Each shape is made from its own draws, taken in a fixed order: four for
//! the colour (red, green, blue, alpha), one that decides between rectangle
//! and circle, two for the position, and then two for the extents of a
//! rectangle or one for the radius of a circle. No shape reads the draws of
//! another.

use rand::rngs::StdRng;
use rand::Rng;
use vstd::prelude::*;
use crate::figure::{DrawMode, Figure};
use crate::units::{Color, Point, Rect};

verus! {

/// The bound below which every colour channel is drawn: one whole unit.
pub const CHANNEL_BOUND: u32 = 1000;

/// The tolerance with which the circle of a shape is tessellated: a tenth
/// of a unit.
pub const CIRCLE_TOLERANCE: i64 = 100;

/// The bounds below which the geometry of a shape is drawn, none of them
/// zero. The position and the extents of a rectangle share `width` and
/// `height`, so a rectangle may well reach beyond them.
#[derive(Clone, Copy, Debug, PartialEq, Eq, Structural)]
pub struct Bounds {
    width: u32,
    height: u32,
    radius: u32,
}

impl Bounds {
    #[verifier::type_invariant]
    spec fn well_formed(self) -> bool {
        self.width > 0 && self.height > 0 && self.radius > 0
    }

    /// The bound on `x` and on the width of a rectangle.
    pub closed spec fn spec_width(&self) -> u32 {
        self.width
    }

    /// The bound on `y` and on the height of a rectangle.
    pub closed spec fn spec_height(&self) -> u32 {
        self.height
    }

    /// The bound on the radius of a circle.
    pub closed spec fn spec_radius(&self) -> u32 {
        self.radius
    }

    /// The bounds with the given values, unless one of them is zero: there
    /// is nothing to draw below zero.
    pub fn new(width: u32, height: u32, radius: u32) -> (made: Option<Bounds>)
        ensures
            made is Some <==> width > 0 && height > 0 && radius > 0,
            made matches Some(bounds) ==> bounds.width() == width && bounds.height() == height
                && bounds.radius() == radius,
    {
        if width == 0 || height == 0 || radius == 0 {
            None
        } else {
            Some(Bounds { width, height, radius })
        }
    }

    /// The bound on `x` and on the width of a rectangle.
    #[verifier::when_used_as_spec(spec_width)]
    pub fn width(&self) -> (width: u32)
        ensures
            width == self.spec_width(),
            width > 0,
    {
        proof {
            use_type_invariant(self);
        }
        self.width
    }

    /// The bound on `y` and on the height of a rectangle.
    #[verifier::when_used_as_spec(spec_height)]
    pub fn height(&self) -> (height: u32)
        ensures
            height == self.spec_height(),
            height > 0,
    {
        proof {
            use_type_invariant(self);
        }
        self.height
    }

    /// The bound on the radius of a circle.
    #[verifier::when_used_as_spec(spec_radius)]
    pub fn radius(&self) -> (radius: u32)
        ensures
            radius == self.spec_radius(),
            radius > 0,
    {
        proof {
            use_type_invariant(self);
        }
        self.radius
    }
}

/// A random shape with its colour.
#[derive(Clone, Copy, Debug, PartialEq, Eq, Structural)]
pub enum Shape {
    Rectangle { bounds: Rect, color: Color },
    Circle { center: Point, radius: i64, color: Color },
}

impl Shape {
    /// The filled figure that draws this shape.
    pub open spec fn as_figure(self) -> Figure {
        match self {
            Shape::Rectangle { bounds, color } => Figure::Rectangle {
                mode: DrawMode::Fill,
                bounds,
                color,
            },
            Shape::Circle { center, radius, color } => Figure::Circle {
                mode: DrawMode::Fill,
                center,
                radius,
                tolerance: CIRCLE_TOLERANCE,
                color,
            },
        }
    }

    /// The filled figure that draws this shape, whatever its extents.
    pub fn figure(&self) -> (figure: Figure)
        ensures
            figure == self.as_figure(),
            figure.well_formed(),
    {
        match *self {
            Shape::Rectangle { bounds, color } => Figure::rectangle(DrawMode::Fill, bounds, color),
            Shape::Circle { center, radius, color } => Figure::circle(
                DrawMode::Fill,
                center,
                radius,
                CIRCLE_TOLERANCE,
                color,
            ),
        }
    }
}

/// Whether the deciding draw `coin` asks for a rectangle.
pub open spec fn is_rectangle(coin: u32) -> bool {
    coin % 2 == 0
}

/// The number of draws that a shape with the deciding draw `coin` reads.
pub open spec fn draws_read(coin: u32) -> nat {
    if is_rectangle(coin) {
        9
    } else {
        8
    }
}

/// The shape made from the draws at the front of `draws`.
pub open spec fn shape_of(draws: Seq<u32>) -> Shape {
    let color = Color {
        r: draws[0] as i64,
        g: draws[1] as i64,
        b: draws[2] as i64,
        a: draws[3] as i64,
    };
    if is_rectangle(draws[4]) {
        Shape::Rectangle {
            bounds: Rect {
                x: draws[5] as i64,
                y: draws[6] as i64,
                w: draws[7] as i64,
                h: draws[8] as i64,
            },
            color,
        }
    } else {
        Shape::Circle {
            center: Point { x: draws[5] as i64, y: draws[6] as i64 },
            radius: draws[7] as i64,
            color,
        }
    }
}

/// Whether `draws` starts with all the draws of one shape.
pub open spec fn holds_shape(draws: Seq<u32>) -> bool {
    draws.len() >= 8 && draws.len() >= draws_read(draws[4])
}

/// The scene of `count` shapes made from `draws`, each shape from the draws
/// that follow those of the shape before it; none if the draws run out.
pub open spec fn scene_of(draws: Seq<u32>, count: nat) -> Option<Seq<Shape>>
    decreases count,
{
    if count == 0 {
        Some(Seq::empty())
    } else if !holds_shape(draws) {
        None
    } else {
        match scene_of(draws.skip(draws_read(draws[4]) as int), (count - 1) as nat) {
            Some(rest) => Some(seq![shape_of(draws)] + rest),
            None => None,
        }
    }
}

/// The number of draws that the scene of `count` shapes reads from `draws`,
/// if they suffice.
pub open spec fn scene_reads(draws: Seq<u32>, count: nat) -> Option<nat>
    decreases count,
{
    if count == 0 {
        Some(0)
    } else if !holds_shape(draws) {
        None
    } else {
        match scene_reads(draws.skip(draws_read(draws[4]) as int), (count - 1) as nat) {
            Some(rest) => Some(draws_read(draws[4]) + rest),
            None => None,
        }
    }
}

/// Whether `value` is at least zero and below `bound`.
pub open spec fn below(value: i64, bound: u32) -> bool {
    0 <= value < bound
}

/// Whether every channel of `color` is at least zero and below one.
pub open spec fn channels_within(color: Color) -> bool {
    &&& below(color.r, CHANNEL_BOUND)
    &&& below(color.g, CHANNEL_BOUND)
    &&& below(color.b, CHANNEL_BOUND)
    &&& below(color.a, CHANNEL_BOUND)
}

/// Whether `shape` could have come out of the generator under the bounds
/// `width`, `height` and `radius`.
pub open spec fn within(width: u32, height: u32, radius: u32, shape: Shape) -> bool {
    match shape {
        Shape::Rectangle { bounds, color } => {
            &&& below(bounds.x, width)
            &&& below(bounds.y, height)
            &&& below(bounds.w, width)
            &&& below(bounds.h, height)
            &&& channels_within(color)
        },
        Shape::Circle { center, radius: r, color } => {
            &&& below(center.x, width)
            &&& below(center.y, height)
            &&& below(r, radius)
            &&& channels_within(color)
        },
    }
}

impl Bounds {
    /// Whether `shape` could have come out of the generator under these
    /// bounds.
    pub open spec fn allows(&self, shape: Shape) -> bool {
        within(self.width(), self.height(), self.radius(), shape)
    }
}

/// The generator of the rand crate that draws are taken from.
#[verifier::external_type_specification]
#[verifier::external_body]
pub struct ExStdRng(rand::rngs::StdRng);

/// Takes one draw from `rng`, by `rand::Rng::gen_range` from zero up to
/// `bound`. The crate documents that the value lies in the range with its
/// upper end left out, and that the call panics on an empty range.
#[verifier::external_body]
fn draw_below(rng: &mut StdRng, bound: u32) -> (value: u32)
    requires
        bound > 0,
    ensures
        value < bound,
{
    rng.gen_range(0, bound)
}

/// Whether `draws` are the draws of one shape and each lies below the
/// bound that it was taken under.
pub open spec fn draws_below(width: u32, height: u32, radius: u32, draws: Seq<u32>) -> bool {
    &&& holds_shape(draws)
    &&& draws[0] < CHANNEL_BOUND
    &&& draws[1] < CHANNEL_BOUND
    &&& draws[2] < CHANNEL_BOUND
    &&& draws[3] < CHANNEL_BOUND
    &&& draws[4] < 2
    &&& draws[5] < width
    &&& draws[6] < height
    &&& if is_rectangle(draws[4]) {
        draws[7] < width && draws[8] < height
    } else {
        draws[7] < radius
    }
}

impl Bounds {
    /// Whether `shape` is made from draws that lie below these bounds.
    pub open spec fn yields(&self, shape: Shape) -> bool {
        exists|draws: Seq<u32>|
            #[trigger] draws_below(self.width(), self.height(), self.radius(), draws) && shape
                == shape_of(draws)
    }
}

/// Takes the draws of one shape from `rng`, in the order in which a scene
/// reads them, and makes the shape from them.
///
/// What the shape is depends on what `rng` gives; whatever it gives, the
/// shape is made from draws below `bounds` and so lies within them.
pub fn draw_shape(bounds: &Bounds, rng: &mut StdRng) -> (shape: Shape)
    ensures
        bounds.yields(shape),
        bounds.allows(shape),
{
    let r = draw_below(rng, CHANNEL_BOUND);
    let g = draw_below(rng, CHANNEL_BOUND);
    let b = draw_below(rng, CHANNEL_BOUND);
    let a = draw_below(rng, CHANNEL_BOUND);
    let coin = draw_below(rng, 2);
    let x = draw_below(rng, bounds.width());
    let y = draw_below(rng, bounds.height());
    if coin % 2 == 0 {
        let w = draw_below(rng, bounds.width());
        let h = draw_below(rng, bounds.height());
        let draws = [r, g, b, a, coin, x, y, w, h];
        assert(draws_below(bounds.width(), bounds.height(), bounds.radius(), draws@));
        shape_from_draws(draws.as_slice()).unwrap()
    } else {
        let radius = draw_below(rng, bounds.radius());
        let draws = [r, g, b, a, coin, x, y, radius];
        assert(draws_below(bounds.width(), bounds.height(), bounds.radius(), draws@));
        shape_from_draws(draws.as_slice()).unwrap()
    }
}

/// Generates `count` shapes, each from its own draws from `rng`.
///
/// What the shapes are depends on what `rng` gives; whatever it gives,
/// there are `count` of them, and each is made from draws below `bounds`
/// and so lies within them.
pub fn generate(count: usize, bounds: &Bounds, rng: &mut StdRng) -> (shapes: Vec<Shape>)
    ensures
        shapes@.len() == count,
        forall|i: int| 0 <= i < count ==> bounds.yields(#[trigger] shapes@[i]),
        forall|i: int| 0 <= i < count ==> bounds.allows(#[trigger] shapes@[i]),
{
    let mut shapes: Vec<Shape> = Vec::new();
    let mut i: usize = 0;
    while i < count
        invariant
            i <= count,
            shapes@.len() == i,
            forall|j: int| 0 <= j < i ==> bounds.yields(#[trigger] shapes@[j]),
            forall|j: int| 0 <= j < i ==> bounds.allows(#[trigger] shapes@[j]),
        decreases count - i,
    {
        let shape = draw_shape(bounds, rng);
        shapes.push(shape);
        i += 1;
    }
    shapes
}

/// Makes one shape from the draws at the front of `draws`; none if they
/// are not all the draws of a shape.
pub fn shape_from_draws(draws: &[u32]) -> (made: Option<Shape>)
    ensures
        made is Some <==> holds_shape(draws@),
        made matches Some(shape) ==> shape == shape_of(draws@),
{
    if draws.len() < 8 {
        return None;
    }
    let color = Color {
        r: draws[0] as i64,
        g: draws[1] as i64,
        b: draws[2] as i64,
        a: draws[3] as i64,
    };
    if draws[4] % 2 == 0 {
        if draws.len() < 9 {
            return None;
        }
        Some(
            Shape::Rectangle {
                bounds: Rect {
                    x: draws[5] as i64,
                    y: draws[6] as i64,
                    w: draws[7] as i64,
                    h: draws[8] as i64,
                },
                color,
            },
        )
    } else {
        Some(
            Shape::Circle {
                center: Point { x: draws[5] as i64, y: draws[6] as i64 },
                radius: draws[7] as i64,
                color,
            },
        )
    }
}

/// `shapes` followed by the shapes of `rest`, if there are any.
pub open spec fn followed_by(shapes: Seq<Shape>, rest: Option<Seq<Shape>>) -> Option<Seq<Shape>> {
    match rest {
        Some(more) => Some(shapes + more),
        None => None,
    }
}

/// Makes the scene of `count` shapes again from the draws that it was
/// made from, in the order in which they were taken; none if the draws run
/// out. Draws beyond those of the scene are not read.
pub fn generate_from_draws(count: usize, draws: &[u32]) -> (made: Option<Vec<Shape>>)
    ensures
        made is Some <==> scene_of(draws@, count as nat) is Some,
        made matches Some(shapes) ==> Some(shapes@) == scene_of(draws@, count as nat),
{
    let limit = draws.len();
    let mut shapes: Vec<Shape> = Vec::new();
    let mut at: usize = 0;
    let mut i: usize = 0;
    proof {
        assert(draws@.skip(0) =~= draws@);
        if let Some(whole) = scene_of(draws@, count as nat) {
            assert(Seq::<Shape>::empty() + whole =~= whole);
        }
    }
    while i < count
        invariant
            i <= count,
            at <= limit == draws@.len(),
            scene_of(draws@, count as nat) == followed_by(
                shapes@,
                scene_of(draws@.skip(at as int), (count - i) as nat),
            ),
        decreases count - i,
    {
        let ghost left = draws@.skip(at as int);
        let ghost before = shapes@;
        let shape = match shape_from_draws(slice_from(draws, at)) {
            Some(shape) => shape,
            None => {
                return None;
            },
        };
        let read: usize = match shape {
            Shape::Rectangle { .. } => 9,
            Shape::Circle { .. } => 8,
        };
        shapes.push(shape);
        proof {
            assert(holds_shape(left));
            assert(read == draws_read(left[4]));
            assert(at + read <= limit);
            let rest = scene_of(left.skip(read as int), (count - i - 1) as nat);
            assert(left.skip(read as int) =~= draws@.skip(at + read));
            if let Some(more) = rest {
                assert(before + (seq![shape] + more) =~= before.push(shape) + more);
            }
        }
        at += read;
        i += 1;
    }
    assert(shapes@ + Seq::<Shape>::empty() =~= shapes@);
    Some(shapes)
}

/// The part of `draws` from position `at` on.
fn slice_from(draws: &[u32], at: usize) -> (rest: &[u32])
    requires
        at <= draws@.len(),
    ensures
        rest@ == draws@.skip(at as int),
{
    let rest = vstd::slice::slice_subrange(draws, at, draws.len());
    assert(rest@ =~= draws@.skip(at as int));
    rest
}

/// Seeded reproducibility: the scene is a function of the draws it is made
/// from. Draws that follow those of the scene change nothing: two runs of
/// draws that start alike give the same scene, shape for shape.
pub proof fn lemma_scene_reproducible(draws: Seq<u32>, more: Seq<u32>, count: nat)
    requires
        scene_of(draws, count) is Some,
    ensures
        scene_of(draws + more, count) == scene_of(draws, count),
        scene_reads(draws + more, count) == scene_reads(draws, count),
    decreases count,
{
    if count > 0 {
        let read = draws_read(draws[4]) as int;
        assert((draws + more)[4] == draws[4]);
        assert((draws + more).skip(read) =~= draws.skip(read) + more);
        lemma_scene_reproducible(draws.skip(read), more, (count - 1) as nat);
    }
}

/// No two shapes interact: the first shapes of a scene are the same
/// whether or not more shapes are made after them from the same draws.
pub proof fn lemma_shapes_independent(draws: Seq<u32>, fewer: nat, more: nat)
    requires
        fewer <= more,
        scene_of(draws, more) is Some,
    ensures
        scene_of(draws, fewer) == Some(scene_of(draws, more).unwrap().subrange(0, fewer as int)),
    decreases fewer,
{
    let whole = scene_of(draws, more).unwrap();
    lemma_scene_length(draws, more);
    if fewer == 0 {
        assert(whole.subrange(0, 0) =~= Seq::<Shape>::empty());
    } else {
        let rest = draws.skip(draws_read(draws[4]) as int);
        lemma_shapes_independent(rest, (fewer - 1) as nat, (more - 1) as nat);
        lemma_scene_length(rest, (more - 1) as nat);
        let tail = scene_of(rest, (more - 1) as nat).unwrap();
        assert(seq![shape_of(draws)] + tail.subrange(0, fewer - 1) =~= (seq![shape_of(draws)]
            + tail).subrange(0, fewer as int));
    }
}

/// A scene has as many shapes as were asked for.
pub proof fn lemma_scene_length(draws: Seq<u32>, count: nat)
    requires
        scene_of(draws, count) is Some,
    ensures
        scene_of(draws, count).unwrap().len() == count,
        scene_reads(draws, count) is Some,
        scene_reads(draws, count).unwrap() <= draws.len(),
    decreases count,
{
    if count > 0 {
        lemma_scene_length(draws.skip(draws_read(draws[4]) as int), (count - 1) as nat);
    }
}

/// Draws below their bounds make a shape within the bounds: every
/// coordinate, extent and colour channel is at least zero and below its
/// bound.
pub proof fn lemma_draws_within(width: u32, height: u32, radius: u32, draws: Seq<u32>)
    requires
        draws_below(width, height, radius, draws),
    ensures
        within(width, height, radius, shape_of(draws)),
{
}

} // verus!
