//! A scene of random shapes, generated once and drawn anew in every frame.

use rand::rngs::StdRng;
use vstd::prelude::*;
use crate::generator::{generate, within, Bounds, Shape};
use crate::pipeline::{
    draws, prologue, render, Command, DrawParam, Drawable, Frame, RenderError, Target,
};
use crate::store::EntityStore;

verus! {

/// The number of shapes in the scene.
pub const SHAPE_COUNT: usize = 8;

/// The bound on `x` and on the width of a rectangle: 800 units.
pub const SCENE_WIDTH: u32 = 800_000;

/// The bound on `y` and on the height of a rectangle: 600 units.
pub const SCENE_HEIGHT: u32 = 600_000;

/// The bound on the radius of a circle: 300 units.
pub const SCENE_RADIUS: u32 = 300_000;


/// The scene: its shapes, in the order in which they are drawn.
#[derive(Debug)]
pub struct State {
    pub shapes: Vec<Shape>,
}

/// The entities that stand for `shapes`: each as its filled figure, placed
/// as it is.
pub open spec fn shape_entities(shapes: Seq<Shape>) -> Seq<(Drawable, DrawParam)> {
    Seq::new(
        shapes.len(),
        |i: int| (Drawable::Figure(shapes[i].as_figure()), DrawParam::identity()),
    )
}

/// The commands that draw `shapes`: each as its filled figure, untouched by
/// any placement, in order, and then one present.
pub open spec fn shape_commands(shapes: Seq<Shape>) -> Seq<Command> {
    Seq::new(
        shapes.len(),
        |i: int|
            Command::Draw {
                target: Target::Figure(shapes[i].as_figure()),
                param: DrawParam::identity(),
            },
    ) + seq![Command::Present]
}

impl State {
    /// A scene of `SHAPE_COUNT` shapes drawn from `rng` within the bounds of
    /// the scene.
    pub fn new(rng: &mut StdRng) -> (state: State)
        ensures
            state.shapes@.len() == SHAPE_COUNT,
            forall|i: int|
                0 <= i < SHAPE_COUNT ==> within(
                    SCENE_WIDTH,
                    SCENE_HEIGHT,
                    SCENE_RADIUS,
                    #[trigger] state.shapes@[i],
                ),
    {
        let bounds = Bounds::new(SCENE_WIDTH, SCENE_HEIGHT, SCENE_RADIUS).unwrap();
        State { shapes: generate(SHAPE_COUNT, &bounds, rng) }
    }

    /// Nothing in this scene moves.
    pub fn update(&mut self)
        ensures
            final(self).shapes@ == old(self).shapes@,
    {
    }

    /// The frame of this scene: every shape as its filled figure, in order,
    /// each placed as it is, and no clearing.
    pub fn frame(&self) -> (frame: Frame)
        ensures
            frame.background is None,
            frame.entities@ == shape_entities(self.shapes@),
    {
        let mut entities: Vec<(Drawable, DrawParam)> = Vec::new();
        let mut i: usize = 0;
        while i < self.shapes.len()
            invariant
                i <= self.shapes@.len(),
                entities@ == shape_entities(self.shapes@.subrange(0, i as int)),
            decreases self.shapes@.len() - i,
        {
            entities.push((Drawable::Figure(self.shapes[i].figure()), DrawParam::new()));
            assert(entities@ =~= shape_entities(self.shapes@.subrange(0, i + 1)));
            i += 1;
        }
        assert(self.shapes@.subrange(0, i as int) =~= self.shapes@);
        Frame { background: None, entities }
    }

    /// Plans a frame: every shape, in order, and one present. No shape
    /// needs a resource, so the frame is never given up, whatever the
    /// extents of the shapes.
    pub fn draw(&self) -> (r: Result<Vec<Command>, RenderError>)
        ensures
            r matches Ok(commands) && commands@ == shape_commands(self.shapes@),
    {
        let store = EntityStore::new();
        let frame = self.frame();
        let r = render(&store, &frame);
        proof {
            let entities = shape_entities(self.shapes@);
            assert(draws(store@, entities) =~= Seq::new(
                self.shapes@.len(),
                |i: int|
                    Command::Draw {
                        target: Target::Figure(self.shapes@[i].as_figure()),
                        param: DrawParam::identity(),
                    },
            ));
            assert(prologue(None) + draws(store@, entities) =~= draws(store@, entities));
        }
        r
    }
}

} // verus!
