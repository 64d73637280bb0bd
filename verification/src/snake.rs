//! The snake: a row of segments led by a head, a direction waiting for the
//! next tick, and the rules by which it turns, moves, grows and dies.

use vstd::prelude::*;
use crate::cell::{advance_cell, retreat_cell, scale_offset, wrap_axis, Cell, Offset, Point};
use crate::chance::random_below;
use crate::engine::{Color, Mesh, Object, ObjectView};
use crate::grid::{Grid, GridView};
use crate::grid_drawable::{cells_of, DrawableView, GridDrawable};
use crate::settings::Settings;

verus! {

/// Width of the band within which the colour of a new segment varies, in
/// thousandths of a channel.
pub const SNAKE_BODY_VARIATION: i32 = 300;

/// Side of the head, in thousandths of a cell's side.
pub const SNAKE_HEAD_SIZE_MULTIPLIER: i32 = 1100;

/// Side of a segment that has been handed a direction.
pub const SNAKE_BODY_SIZE_MULTIPLIER: i32 = 1000;

/// Side of a segment that has not been handed a direction yet.
pub const SNAKE_BODY_FULL_SIZE_MULTIPLIER: i32 = 1300;

/// Opacity of a segment that has been handed a direction.
pub const SNAKE_BODY_ALPHA: i32 = 900;

/// Opacity of a segment that has not been handed a direction yet.
pub const SNAKE_BODY_FULL_ALPHA: i32 = 900;

/// The colour of the head.
pub open spec fn snake_head_color() -> Color {
    Color { red: 200, green: 700, blue: 1000, alpha: 1000 }
}

/// The colour around which the colours of the segments behind the head vary.
pub open spec fn snake_body_color() -> Color {
    Color { red: 100, green: 400, blue: 920, alpha: SNAKE_BODY_ALPHA }
}

/// The way a segment faces: the step it took into its cell, or none.
#[derive(Clone, Copy, Debug, PartialEq, Eq, Structural)]
pub enum SnakeDirection {
    Up,
    Down,
    Left,
    Right,
    Still,
}

impl SnakeDirection {
    /// The unit step of a direction. Rows count downwards.
    pub open spec fn delta(self) -> Point {
        match self {
            SnakeDirection::Up => Point { x: 0, y: -1 },
            SnakeDirection::Down => Point { x: 0, y: 1 },
            SnakeDirection::Left => Point { x: -1, y: 0 },
            SnakeDirection::Right => Point { x: 1, y: 0 },
            SnakeDirection::Still => Point { x: 0, y: 0 },
        }
    }

    /// A turn into `self` would send a head that faces `facing` straight
    /// back: the head has taken a step, and the two steps cancel each other.
    pub open spec fn reverses(self, facing: SnakeDirection) -> bool {
        facing != SnakeDirection::Still && self.delta() == facing.delta().times(-1)
    }

    /// The unit step of the direction, as a displacement between cells.
    pub fn to_vector(&self) -> (vector: Offset)
        ensures
            vector@ == self.delta(),
    {
        let mut vector = Offset { x: 0, y: 0 };
        match self {
            SnakeDirection::Up => {
                vector.y = vector.y - 1;
            },
            SnakeDirection::Down => {
                vector.y = vector.y + 1;
            },
            SnakeDirection::Left => {
                vector.x = vector.x - 1;
            },
            SnakeDirection::Right => {
                vector.x = vector.x + 1;
            },
            SnakeDirection::Still => {},
        }
        vector
    }
}

/// The pairs of directions that reverse each other: up and down, left and
/// right. Nothing reverses standing still, and standing still reverses
/// nothing.
pub proof fn lemma_reversing_pairs(turn: SnakeDirection, facing: SnakeDirection)
    ensures
        turn.reverses(facing) <==> match facing {
            SnakeDirection::Up => turn == SnakeDirection::Down,
            SnakeDirection::Down => turn == SnakeDirection::Up,
            SnakeDirection::Left => turn == SnakeDirection::Right,
            SnakeDirection::Right => turn == SnakeDirection::Left,
            SnakeDirection::Still => false,
        },
        !SnakeDirection::Still.reverses(facing),
{
}

/// What a segment is to the contracts.
pub struct SegmentView {
    pub object: DrawableView,
    pub direction: SnakeDirection,
}

impl SegmentView {
    /// The head of a snake that has just been set down at `position`.
    pub open spec fn head_at(position: Point) -> SegmentView {
        SegmentView {
            object: DrawableView {
                color: snake_head_color(),
                mesh: Mesh::Rectangle,
                position,
                size_multiplier: SNAKE_HEAD_SIZE_MULTIPLIER,
            },
            direction: SnakeDirection::Right,
        }
    }

    /// What the renderer is to draw for the segment on the given grid: the
    /// segment slides in from the cell one step against its facing, if the
    /// tick under way is measured at all.
    pub open spec fn drawn(self, grid: GridView, transition: Option<(u64, u64)>) -> ObjectView {
        self.object.drawn(grid, Some(self.direction.delta()), transition)
    }

    /// The segment that grows behind `self`, taken as the head, in the given
    /// colour: one step against the head's facing, with no direction of its
    /// own yet.
    pub open spec fn sprout(self, color: Color) -> SegmentView {
        SegmentView {
            object: DrawableView {
                color,
                mesh: Mesh::RoundedRectangle,
                position: self.object.position.minus(self.direction.delta()),
                size_multiplier: SNAKE_BODY_FULL_SIZE_MULTIPLIER,
            },
            direction: SnakeDirection::Still,
        }
    }

    /// `self` grew behind `head`, in some colour of the body's band.
    pub open spec fn is_sprout_of(self, head: SegmentView) -> bool {
        &&& self == head.sprout(self.object.color)
        &&& self.object.color.varies_from(snake_body_color(), SNAKE_BODY_VARIATION as int)
    }

    /// The segment after one tick's move in the direction handed to it.
    pub open spec fn stepped(self, direction: SnakeDirection, settings: Settings) -> SegmentView {
        let target = self.object.position.plus(direction.delta());
        let position = if settings.allow_wall_teleport {
            target.wrapped(settings.grid_width as int, settings.grid_height as int)
        } else {
            target
        };
        SegmentView {
            object: DrawableView {
                color: self.object.color,
                mesh: self.object.mesh,
                position,
                size_multiplier: self.object.size_multiplier,
            },
            direction,
        }
    }

    /// The segment in the look that goes with its direction: full while it
    /// has none, normal once it has one.
    pub open spec fn restyled(self) -> SegmentView {
        let full = self.direction == SnakeDirection::Still;
        SegmentView {
            object: DrawableView {
                color: self.object.color.with_alpha(
                    if full {
                        SNAKE_BODY_FULL_ALPHA
                    } else {
                        SNAKE_BODY_ALPHA
                    },
                ),
                mesh: if full {
                    Mesh::RoundedRectangle
                } else {
                    Mesh::Rectangle
                },
                position: self.object.position,
                size_multiplier: if full {
                    SNAKE_BODY_FULL_SIZE_MULTIPLIER
                } else {
                    SNAKE_BODY_SIZE_MULTIPLIER
                },
            },
            direction: self.direction,
        }
    }
}

/// One segment of a snake.
#[derive(Clone, Copy, Debug, PartialEq, Eq)]
pub struct SnakeBody {
    pub object: GridDrawable,
    pub direction: SnakeDirection,
}

impl View for SnakeBody {
    type V = SegmentView;

    open spec fn view(&self) -> SegmentView {
        SegmentView { object: self.object@, direction: self.direction }
    }
}

impl SnakeBody {
    /// What the renderer is to draw for the segment on the given grid. The
    /// segment slides in from the cell one step against its facing when
    /// `transition` says how far the tick under way has come, and rests on
    /// its cell when it does not.
    pub fn update_object(&self, grid: &Grid, transition: Option<(u64, u64)>) -> (object: Object)
        requires
            transition is Some ==> self@.object.position.minus(self.direction.delta()).fits(),
        ensures
            object@ == self@.drawn(grid@, transition),
    {
        self.object.update_object(grid, Some(self.direction.to_vector()), transition)
    }
}

/// What a snake is to the contracts: its segments from the head back, the
/// direction that waits for the next tick, and the configuration it lives by.
pub struct SnakeView {
    pub body: Seq<SegmentView>,
    pub direction: SnakeDirection,
    pub settings: Settings,
}

impl SnakeView {
    /// The snake has a head, and its grid is one that can be played on.
    pub open spec fn wf(self) -> bool {
        self.body.len() >= 1 && self.settings.wf()
    }

    /// Every segment can take a unit step in any direction without leaving
    /// the cells the machine can write down.
    pub open spec fn has_room(self) -> bool {
        forall|i: int| 0 <= i < self.body.len() ==> (#[trigger] self.body[i]).object.position.has_room()
    }

    /// Every segment can be drawn sliding in from the cell one step against
    /// its facing: the machine can write that cell down.
    pub open spec fn can_slide(self) -> bool {
        forall|i: int|
            0 <= i < self.body.len() ==> (#[trigger] self.body[i]).object.position.minus(
                self.body[i].direction.delta(),
            ).fits()
    }

    /// A snake of the head alone, just set down at `position`.
    pub open spec fn hatched(position: Point, settings: Settings) -> SnakeView {
        SnakeView {
            body: seq![SegmentView::head_at(position)],
            direction: SnakeDirection::Right,
            settings,
        }
    }

    /// The snake with one more segment, of the given colour, right behind
    /// the head.
    pub open spec fn grown(self, color: Color) -> SnakeView {
        SnakeView {
            body: self.body.insert(1, self.body[0].sprout(color)),
            direction: self.direction,
            settings: self.settings,
        }
    }

    /// `self` is `before` after `count` segments grew right behind the head,
    /// each in some colour of the body's band.
    pub open spec fn sprouted_from(self, before: SnakeView, count: nat) -> bool {
        &&& self.direction == before.direction
        &&& self.settings == before.settings
        &&& self.body.len() == before.body.len() + count
        &&& self.body[0] == before.body[0]
        &&& forall|i: int| 1 <= i <= count ==> (#[trigger] self.body[i]).is_sprout_of(before.body[0])
        &&& forall|i: int|
            count < i < self.body.len() ==> #[trigger] self.body[i] == before.body[i - count]
    }

    /// The snake after a request to turn: a request that reverses the head's
    /// facing is dropped, any other waits for the next tick.
    pub open spec fn steered(self, request: SnakeDirection) -> SnakeView {
        if request.reverses(self.body[0].direction) {
            self
        } else {
            SnakeView { body: self.body, direction: request, settings: self.settings }
        }
    }

    /// The direction that segment `i` is handed at the next tick: the waiting
    /// direction for the head, and for every other segment the facing of the
    /// one in front of it.
    pub open spec fn handed(self, i: int) -> SnakeDirection {
        if i == 0 {
            self.direction
        } else {
            self.body[i - 1].direction
        }
    }

    /// The snake after every segment took its step.
    pub open spec fn moved(self) -> SnakeView {
        SnakeView {
            body: Seq::new(
                self.body.len(),
                |i: int| self.body[i].stepped(self.handed(i), self.settings),
            ),
            direction: self.direction,
            settings: self.settings,
        }
    }

    /// The snake with every segment behind the head in the look that goes
    /// with its direction.
    pub open spec fn restyled(self) -> SnakeView {
        SnakeView {
            body: Seq::new(
                self.body.len(),
                |i: int|
                    if i == 0 {
                        self.body[i]
                    } else {
                        self.body[i].restyled()
                    },
            ),
            direction: self.direction,
            settings: self.settings,
        }
    }

    /// The snake one tick later.
    pub open spec fn ticked(self) -> SnakeView {
        self.moved().restyled()
    }

    /// The points on which the segments lie.
    pub open spec fn cells(self) -> Set<Point> {
        Set::new(
            |position: Point|
                exists|i: int|
                    0 <= i < self.body.len() && (#[trigger] self.body[i]).object.position
                        == position,
        )
    }

    /// Some segment behind the head lies on the head's cell.
    pub open spec fn bites_itself(self) -> bool {
        exists|i: int|
            1 <= i < self.body.len() && (#[trigger] self.body[i]).object.position
                == self.body[0].object.position
    }

    /// The head has left the grid or lies on another segment.
    pub open spec fn collided(self) -> bool {
        ||| !self.body[0].object.position.on_grid(
            self.settings.grid_width as int,
            self.settings.grid_height as int,
        )
        ||| self.bites_itself()
    }
}

/// The number of segments that a new snake of the given length gets behind
/// its head.
pub open spec fn trailing_segments(length: int) -> nat {
    if length >= 2 {
        (length - 1) as nat
    } else {
        0
    }
}

/// A snake on its grid.
#[derive(Debug)]
pub struct Snake {
    pub body: Vec<SnakeBody>,
    pub direction: SnakeDirection,
    pub settings: Settings,
}

impl View for Snake {
    type V = SnakeView;

    open spec fn view(&self) -> SnakeView {
        SnakeView {
            body: self.body@.map_values(|segment: SnakeBody| segment@),
            direction: self.direction,
            settings: self.settings,
        }
    }
}

impl Snake {
    /// A snake on the standard grid: see `with_settings`.
    pub fn new(position_start: Cell, length: i32) -> (snake: Snake)
        requires
            length >= 2 ==> position_start@.minus(SnakeDirection::Right.delta()).fits(),
        ensures
            snake@.sprouted_from(
                SnakeView::hatched(position_start@, Settings::standard()),
                trailing_segments(length as int),
            ),
    {
        Snake::with_settings(position_start, length, Settings::standard())
    }

    /// A snake of `length` segments, or of the head alone where `length` is
    /// below two. The head lies on `position_start` and faces right, and so
    /// does the direction that waits for the first tick. Every other segment
    /// grew right behind the head.
    pub fn with_settings(position_start: Cell, length: i32, settings: Settings) -> (snake: Snake)
        requires
            length >= 2 ==> position_start@.minus(SnakeDirection::Right.delta()).fits(),
        ensures
            snake@.sprouted_from(
                SnakeView::hatched(position_start@, settings),
                trailing_segments(length as int),
            ),
    {
        let head = SnakeBody {
            object: GridDrawable::new(
                Color { red: 200, green: 700, blue: 1000, alpha: 1000 },
                Mesh::Rectangle,
                position_start,
                SNAKE_HEAD_SIZE_MULTIPLIER,
            ),
            direction: SnakeDirection::Right,
        };
        let mut body: Vec<SnakeBody> = Vec::new();
        body.push(head);
        let mut new_snake = Snake { body, direction: SnakeDirection::Right, settings };
        let ghost start = new_snake@;
        assert(start.body =~= SnakeView::hatched(position_start@, settings).body);
        let mut grown: i32 = 1;
        while grown < length
            invariant
                1 <= grown,
                grown <= length || grown == 1,
                start == SnakeView::hatched(position_start@, settings),
                new_snake@.sprouted_from(start, (grown - 1) as nat),
                length >= 2 ==> position_start@.minus(SnakeDirection::Right.delta()).fits(),
            decreases length - grown,
        {
            let ghost before = new_snake@;
            new_snake.create_body();
            proof {
                lemma_sprouted_once_more(start, before, new_snake@, (grown - 1) as nat);
            }
            grown = grown + 1;
        }
        new_snake
    }

    /// Grows one segment right behind the head, on the cell one step against
    /// the head's facing. The segment has no direction yet, wears the full
    /// look, and its colour is drawn at random from the body's band.
    pub fn create_body(&mut self)
        requires
            old(self)@.body.len() >= 1,
            old(self)@.body[0].object.position.minus(old(self)@.body[0].direction.delta()).fits(),
        ensures
            final(self)@.sprouted_from(old(self)@, 1),
            final(self)@.body.len() == old(self)@.body.len() + 1,
            final(self)@.body[1].object.position == old(self)@.body[0].object.position.minus(
                old(self)@.body[0].direction.delta(),
            ),
    {
        let low: i32 = SNAKE_BODY_VARIATION / 2;
        let color = Color {
            red: 100 - low + random_below(SNAKE_BODY_VARIATION),
            green: 400 - low + random_below(SNAKE_BODY_VARIATION),
            blue: 920 - low + random_below(SNAKE_BODY_VARIATION),
            alpha: SNAKE_BODY_ALPHA - low + random_below(SNAKE_BODY_VARIATION),
        };
        self.grow_with(color);
    }

    /// Grows one segment of the given colour right behind the head, on the
    /// cell one step against the head's facing, with no direction yet and in
    /// the full look.
    pub fn grow_with(&mut self, color: Color)
        requires
            old(self)@.body.len() >= 1,
            old(self)@.body[0].object.position.minus(old(self)@.body[0].direction.delta()).fits(),
        ensures
            final(self)@ == old(self)@.grown(color),
    {
        let head = self.body[0];
        let position = retreat_cell(head.object.position, head.direction.to_vector());
        let new_body = SnakeBody {
            object: GridDrawable::new(
                color,
                Mesh::RoundedRectangle,
                position,
                SNAKE_BODY_FULL_SIZE_MULTIPLIER,
            ),
            direction: SnakeDirection::Still,
        };
        self.body.insert(1, new_body);
        assert(final(self)@.body =~= old(self)@.grown(color).body);
    }

    /// The entities of the segments, from the head back.
    pub fn get_objects(&self) -> (objects: Vec<&GridDrawable>)
        ensures
            objects@.len() == self@.body.len(),
            forall|i: int| 0 <= i < objects@.len() ==> (#[trigger] objects@[i])@ == self@.body[i].object,
            cells_of(objects@) == self@.cells(),
    {
        let mut vec: Vec<&GridDrawable> = Vec::new();
        let mut i: usize = 0;
        while i < self.body.len()
            invariant
                i <= self.body.len(),
                vec@.len() == i,
                forall|j: int| 0 <= j < i ==> (#[trigger] vec@[j])@ == self@.body[j].object,
            decreases self.body.len() - i,
        {
            vec.push(&self.body[i].object);
            i = i + 1;
        }
        proof {
            assert forall|position: Point| cells_of(vec@).contains(position) implies self@.cells().contains(
                position,
            ) by {
                let i = choose|i: int|
                    0 <= i < vec@.len() && (#[trigger] vec@[i])@.position == position;
                assert(self@.body[i].object.position == position);
            }
            assert forall|position: Point| self@.cells().contains(position) implies cells_of(
                vec@,
            ).contains(position) by {
                let i = choose|i: int|
                    0 <= i < self@.body.len() && (#[trigger] self@.body[i]).object.position
                        == position;
                assert(vec@[i]@.position == position);
            }
            assert(cells_of(vec@) =~= self@.cells());
        }
        vec
    }

    /// What the renderer is to draw for the segments, from the head back,
    /// on the given grid: see `SnakeBody::update_object`.
    pub fn update_objects(&self, grid: &Grid, transition: Option<(u64, u64)>) -> (objects: Vec<
        Object,
    >)
        requires
            transition is Some ==> self@.can_slide(),
        ensures
            objects@.len() == self@.body.len(),
            forall|i: int|
                0 <= i < objects@.len() ==> (#[trigger] objects@[i])@ == self@.body[i].drawn(
                    grid@,
                    transition,
                ),
    {
        let mut objects: Vec<Object> = Vec::new();
        let mut i: usize = 0;
        while i < self.body.len()
            invariant
                i <= self.body.len(),
                objects@.len() == i,
                transition is Some ==> self@.can_slide(),
                forall|j: int|
                    0 <= j < i ==> (#[trigger] objects@[j])@ == self@.body[j].drawn(
                        grid@,
                        transition,
                    ),
            decreases self.body.len() - i,
        {
            assert(self@.body[i as int] == self.body@[i as int]@);
            objects.push(self.body[i].update_object(grid, transition));
            i = i + 1;
        }
        objects
    }

    /// One tick: every segment takes its step, the segments behind the head
    /// take the look that goes with their new direction, and the head is
    /// tested for a collision. Returns whether the game is over.
    pub fn update(&mut self) -> (game_over: bool)
        requires
            old(self)@.wf(),
            old(self)@.has_room(),
        ensures
            final(self)@ == old(self)@.ticked(),
            game_over == final(self)@.collided(),
            final(self)@.bites_itself() ==> game_over,
    {
        self.move_body();
        self.check_body_full();
        self.check_collision()
    }

    /// Hands the waiting direction to the head and to every other segment
    /// the facing its predecessor had, and moves each segment one step in
    /// its new direction, through the wall where walls teleport.
    fn move_body(&mut self)
        requires
            old(self)@.wf(),
            old(self)@.has_room(),
        ensures
            final(self)@ == old(self)@.moved(),
    {
        let ghost before = self@;
        let mut forward_direction = self.direction;
        let mut i: usize = 0;
        while i < self.body.len()
            invariant
                i <= self.body.len(),
                before.wf(),
                before.has_room(),
                self@.body.len() == before.body.len(),
                self@.direction == before.direction,
                self@.settings == before.settings,
                i < before.body.len() ==> forward_direction == before.handed(i as int),
                forall|j: int|
                    0 <= j < i ==> (#[trigger] self.body@[j])@ == before.moved().body[j],
                forall|j: int|
                    i <= j < before.body.len() ==> (#[trigger] self.body@[j])@ == before.body[j],
            decreases self.body.len() - i,
        {
            let body_part = self.body[i];
            assert(before.body[i as int].object.position.has_room());
            let direction_buffer = body_part.direction;
            let mut position = advance_cell(
                body_part.object.position,
                forward_direction.to_vector(),
            );
            if self.settings.allow_wall_teleport {
                position = Cell {
                    x: wrap_axis(position.x, self.settings.grid_width),
                    y: wrap_axis(position.y, self.settings.grid_height),
                };
            }
            let moved = SnakeBody {
                object: GridDrawable::new(
                    body_part.object.color,
                    body_part.object.mesh,
                    position,
                    body_part.object.size_multiplier,
                ),
                direction: forward_direction,
            };
            assert(moved@ == before.moved().body[i as int]);
            self.body.set(i, moved);
            forward_direction = direction_buffer;
            i = i + 1;
        }
        assert(self@.body =~= before.moved().body);
    }

    /// Gives every segment behind the head the look that goes with its
    /// direction: full while it has none, normal once it has one.
    fn check_body_full(&mut self)
        ensures
            final(self)@ == old(self)@.restyled(),
    {
        let ghost before = self@;
        let mut i: usize = 1;
        while i < self.body.len()
            invariant
                1 <= i,
                self@.body.len() == before.body.len(),
                self@.direction == before.direction,
                self@.settings == before.settings,
                forall|j: int|
                    0 <= j < i && j < before.body.len() ==> (#[trigger] self.body@[j])@
                        == before.restyled().body[j],
                forall|j: int|
                    i <= j < before.body.len() ==> (#[trigger] self.body@[j])@ == before.body[j],
            decreases self.body.len() - i,
        {
            let body_part = self.body[i];
            let full = body_part.direction == SnakeDirection::Still;
            let restyled = SnakeBody {
                object: GridDrawable::new(
                    Color {
                        red: body_part.object.color.red,
                        green: body_part.object.color.green,
                        blue: body_part.object.color.blue,
                        alpha: if full {
                            SNAKE_BODY_FULL_ALPHA
                        } else {
                            SNAKE_BODY_ALPHA
                        },
                    },
                    if full {
                        Mesh::RoundedRectangle
                    } else {
                        Mesh::Rectangle
                    },
                    body_part.object.position,
                    if full {
                        SNAKE_BODY_FULL_SIZE_MULTIPLIER
                    } else {
                        SNAKE_BODY_SIZE_MULTIPLIER
                    },
                ),
                direction: body_part.direction,
            };
            assert(restyled@ == before.restyled().body[i as int]);
            self.body.set(i, restyled);
            i = i + 1;
        }
        assert(self@.body =~= before.restyled().body);
    }

    /// Whether the head has left the grid or lies on another segment.
    fn check_collision(&self) -> (collided: bool)
        requires
            self@.wf(),
        ensures
            collided == self@.collided(),
    {
        let position = self.body[0].object.position;
        if position.x >= self.settings.grid_width || position.x < 0 || position.y
            >= self.settings.grid_height || position.y < 0 {
            return true;
        }
        let mut i: usize = 1;
        while i < self.body.len()
            invariant
                1 <= i,
                position@ == self@.body[0].object.position,
                forall|j: int|
                    1 <= j < i && j < self@.body.len() ==> (#[trigger] self@.body[j]).object.position
                        != position@,
            decreases self.body.len() - i,
        {
            if position == self.body[i].object.position {
                assert(self@.body[i as int].object.position == position@);
                return true;
            }
            i = i + 1;
        }
        false
    }

    /// Asks for a turn at the next tick. A turn that would send the head
    /// straight back where it came from is refused and changes nothing; any
    /// other, and any turn of a head that has not taken a step, replaces
    /// the direction that waits. Returns whether the turn was accepted.
    pub fn change_direction(&mut self, new_direction: SnakeDirection) -> (accepted: bool)
        requires
            old(self)@.body.len() >= 1,
        ensures
            accepted == !new_direction.reverses(old(self)@.body[0].direction),
            final(self)@ == old(self)@.steered(new_direction),
            !accepted ==> final(self)@ == old(self)@,
    {
        let facing = self.body[0].direction;
        let standing = match facing {
            SnakeDirection::Still => true,
            _ => false,
        };
        if standing || scale_offset(facing.to_vector(), -1) != new_direction.to_vector() {
            self.direction = new_direction;
            return true;
        }
        false
    }

    /// Looks for food under the head. Returns whether the head lies on one
    /// of the given entities, and the index of the first such entity, or
    /// zero where there is none.
    pub fn check_food(&self, food: &Vec<&GridDrawable>) -> (found: (bool, usize))
        requires
            self@.body.len() >= 1,
        ensures
            found.0 == cells_of(food@).contains(self@.body[0].object.position),
            found.0 ==> found.1 < food@.len() && food@[found.1 as int]@.position
                == self@.body[0].object.position,
            found.0 ==> forall|i: int|
                0 <= i < found.1 ==> (#[trigger] food@[i])@.position
                    != self@.body[0].object.position,
            !found.0 ==> found.1 == 0,
    {
        let position = self.body[0].object.position;
        let mut i: usize = 0;
        while i < food.len()
            invariant
                position@ == self@.body[0].object.position,
                forall|j: int|
                    0 <= j < i && j < food@.len() ==> (#[trigger] food@[j])@.position != position@,
            decreases food.len() - i,
        {
            if position == food[i].position {
                return (true, i);
            }
            i = i + 1;
        }
        (false, 0)
    }
}

/// Growing once more behind the same head adds one to the count of sprouts.
pub proof fn lemma_sprouted_once_more(start: SnakeView, before: SnakeView, after: SnakeView, count: nat)
    requires
        start.body.len() >= 1,
        before.sprouted_from(start, count),
        after.sprouted_from(before, 1),
    ensures
        after.sprouted_from(start, count + 1),
{
    assert forall|i: int| 1 <= i <= count + 1 implies (#[trigger] after.body[i]).is_sprout_of(
        start.body[0],
    ) by {
        if i > 1 {
            assert(after.body[i] == before.body[i - 1]);
        }
    }
    assert forall|i: int| count + 1 < i < after.body.len() implies #[trigger] after.body[i]
        == start.body[i - (count + 1)] by {
        assert(after.body[i] == before.body[i - 1]);
    }
}

} // verus!
