//! How a snake moves over many ticks: where its head ends up, what happens
//! at the walls, and the shape that the segments keep behind the head.

use vstd::prelude::*;
use vstd::arithmetic::div_mod::{
    lemma_add_mod_noop_right, lemma_mod_add_multiples_vanish, lemma_mod_pos_bound,
    lemma_mod_self_0, lemma_small_mod,
};
use crate::cell::{wrap_coordinate, Point};
use crate::snake::{SnakeDirection, SnakeView};

verus! {

/// A coordinate that lies at most one dimension before the axis lands on the
/// axis, at its remainder by the dimension.
pub proof fn lemma_wrap_lands_on_axis(value: int, dimension: int)
    requires
        dimension > 0,
        value >= -dimension,
    ensures
        0 <= wrap_coordinate(value, dimension) < dimension,
        wrap_coordinate(value, dimension) == value % dimension,
{
    if value < 0 {
        lemma_mod_add_multiples_vanish(value, dimension);
        lemma_mod_pos_bound(value + dimension, dimension);
    } else {
        lemma_mod_pos_bound(value, dimension);
    }
}

/// A coordinate on the axis stays where it is.
pub proof fn lemma_wrap_keeps_axis(value: int, dimension: int)
    requires
        0 <= value < dimension,
    ensures
        wrap_coordinate(value, dimension) == value,
{
    lemma_small_mod(value as nat, dimension as nat);
}

impl Point {
    /// The point of the grid that the point is congruent with.
    pub open spec fn modulo(self, width: int, height: int) -> Point {
        Point { x: self.x % width, y: self.y % height }
    }
}

/// The sum of the steps of the given directions.
pub open spec fn total_step(turns: Seq<SnakeDirection>) -> Point
    decreases turns.len(),
{
    if turns.len() == 0 {
        Point { x: 0, y: 0 }
    } else {
        turns[0].delta().plus(total_step(turns.drop_first()))
    }
}

impl SnakeView {
    /// Every segment lies on the grid or on a cell next to it.
    pub open spec fn near_grid(self) -> bool {
        forall|i: int|
            0 <= i < self.body.len() ==> {
                let position = (#[trigger] self.body[i]).object.position;
                &&& -1 <= position.x <= self.settings.grid_width
                &&& -1 <= position.y <= self.settings.grid_height
            }
    }

    /// The head lies on the grid, and every other segment on the grid or on
    /// a cell next to it.
    pub open spec fn settled(self) -> bool {
        &&& self.body[0].object.position.on_grid(
            self.settings.grid_width as int,
            self.settings.grid_height as int,
        )
        &&& self.near_grid()
    }

    /// Segment `i` lies where the one in front of it was before that one
    /// took the step it faces.
    pub open spec fn linked(self, i: int) -> bool {
        self.body[i].object.position.plus(self.body[i - 1].direction.delta()) == self.body[i
            - 1].object.position
    }

    /// Every segment behind the head is linked to the one in front of it.
    pub open spec fn chained(self) -> bool {
        forall|i: int| 1 <= i < self.body.len() ==> #[trigger] self.linked(i)
    }

    /// The snake after one tick for each of the given turns, each asked for
    /// before its tick.
    pub open spec fn played(self, turns: Seq<SnakeDirection>) -> SnakeView
        decreases turns.len(),
    {
        if turns.len() == 0 {
            self
        } else {
            self.steered(turns[0]).ticked().played(turns.drop_first())
        }
    }

    /// None of the given turns, each asked for before its tick, reverses the
    /// facing that the head has at that time.
    pub open spec fn accepts(self, turns: Seq<SnakeDirection>) -> bool
        decreases turns.len(),
    {
        turns.len() == 0 || (!turns[0].reverses(self.body[0].direction) && self.steered(
            turns[0],
        ).ticked().accepts(turns.drop_first()))
    }
}

/// A tick moves the head one step in the direction that waited, through the
/// wall where walls teleport, and leaves it facing that direction.
pub proof fn lemma_tick_moves_head(snake: SnakeView)
    requires
        snake.wf(),
    ensures
        snake.ticked().wf(),
        snake.ticked().body.len() == snake.body.len(),
        snake.ticked().direction == snake.direction,
        snake.ticked().settings == snake.settings,
        snake.ticked().body[0].direction == snake.direction,
        !snake.settings.allow_wall_teleport ==> snake.ticked().body[0].object.position
            == snake.body[0].object.position.plus(snake.direction.delta()),
        snake.settings.allow_wall_teleport ==> snake.ticked().body[0].object.position
            == snake.body[0].object.position.plus(snake.direction.delta()).wrapped(
            snake.settings.grid_width as int,
            snake.settings.grid_height as int,
        ),
{
}

/// After any number of ticks, each with a turn that was accepted, the head
/// lies where it started plus the sum of the steps of the turns: at that
/// very point where walls stop the snake, and, for a head that started on
/// the grid, at the point of the grid congruent with it where walls teleport.
pub proof fn lemma_head_follows_turns(snake: SnakeView, turns: Seq<SnakeDirection>)
    requires
        snake.wf(),
        snake.accepts(turns),
    ensures
        snake.played(turns).wf(),
        !snake.settings.allow_wall_teleport ==> snake.played(turns).body[0].object.position
            == snake.body[0].object.position.plus(total_step(turns)),
        snake.settings.allow_wall_teleport && snake.body[0].object.position.on_grid(
            snake.settings.grid_width as int,
            snake.settings.grid_height as int,
        ) ==> snake.played(turns).body[0].object.position == snake.body[0].object.position.plus(
            total_step(turns),
        ).modulo(snake.settings.grid_width as int, snake.settings.grid_height as int),
    decreases turns.len(),
{
    let width = snake.settings.grid_width as int;
    let height = snake.settings.grid_height as int;
    let start = snake.body[0].object.position;
    if turns.len() == 0 {
        if start.on_grid(width, height) {
            lemma_small_mod(start.x as nat, width as nat);
            lemma_small_mod(start.y as nat, height as nat);
        }
    } else {
        let turned = snake.steered(turns[0]);
        let next = turned.ticked();
        let rest = turns.drop_first();
        let step = turns[0].delta();
        lemma_tick_moves_head(turned);
        lemma_head_follows_turns(next, rest);
        if snake.settings.allow_wall_teleport && start.on_grid(width, height) {
            let target = start.plus(step);
            lemma_wrap_lands_on_axis(target.x, width);
            lemma_wrap_lands_on_axis(target.y, height);
            let sum = total_step(rest);
            lemma_add_mod_noop_right(sum.x, target.x, width);
            lemma_add_mod_noop_right(sum.y, target.y, height);
        }
    }
}

/// At the right wall: a head in the last column that is sent right enters
/// the first column of its row where walls teleport, and ends the game
/// where they do not.
pub proof fn lemma_right_wall(snake: SnakeView)
    requires
        snake.wf(),
        snake.direction == SnakeDirection::Right,
        snake.body[0].object.position.on_grid(
            snake.settings.grid_width as int,
            snake.settings.grid_height as int,
        ),
        snake.body[0].object.position.x == snake.settings.grid_width - 1,
    ensures
        snake.settings.allow_wall_teleport ==> snake.ticked().body[0].object.position == (Point {
            x: 0,
            y: snake.body[0].object.position.y,
        }),
        !snake.settings.allow_wall_teleport ==> snake.ticked().collided(),
{
    let width = snake.settings.grid_width as int;
    let height = snake.settings.grid_height as int;
    let start = snake.body[0].object.position;
    lemma_tick_moves_head(snake);
    if snake.settings.allow_wall_teleport {
        lemma_wrap_lands_on_axis(width, width);
        lemma_mod_self_0(width);
        lemma_wrap_keeps_axis(start.y, height);
    }
}

/// A snake near its grid, on a grid that can be played, can take a tick and
/// can be drawn sliding: every segment has room for a step either way.
pub proof fn lemma_near_grid_has_room(snake: SnakeView)
    requires
        snake.wf(),
        snake.near_grid(),
    ensures
        snake.has_room(),
        snake.can_slide(),
{
    assert forall|i: int| 0 <= i < snake.body.len() implies (#[trigger] snake.body[i]).object.position.has_room() by {}
    assert forall|i: int| 0 <= i < snake.body.len() implies (#[trigger] snake.body[i]).object.position.minus(
        snake.body[i].direction.delta(),
    ).fits() by {
        assert(snake.body[i].object.position.has_room());
    }
}

/// A tick leaves a settled snake near its grid, whether or not its head
/// stays on the grid, provided that the snake is chained where walls stop
/// it.
pub proof fn lemma_tick_stays_near(snake: SnakeView)
    requires
        snake.wf(),
        snake.settled(),
        !snake.settings.allow_wall_teleport ==> snake.chained(),
    ensures
        snake.ticked().near_grid(),
{
    let after = snake.ticked();
    if snake.settings.allow_wall_teleport {
        lemma_tick_settles_when_wrapping(snake);
    } else {
        lemma_tick_follows(snake);
        assert forall|i: int| 0 <= i < after.body.len() implies {
            let position = (#[trigger] after.body[i]).object.position;
            &&& -1 <= position.x <= after.settings.grid_width
            &&& -1 <= position.y <= after.settings.grid_height
        } by {
            if i >= 1 {
                assert(after.body[i].object.position == snake.body[i - 1].object.position);
            }
        }
    }
}

/// Where walls teleport, a tick puts every segment of a settled snake on
/// the grid.
pub proof fn lemma_tick_settles_when_wrapping(snake: SnakeView)
    requires
        snake.wf(),
        snake.settled(),
        snake.settings.allow_wall_teleport,
    ensures
        snake.ticked().settled(),
        forall|i: int|
            0 <= i < snake.body.len() ==> (#[trigger] snake.ticked().body[i]).object.position.on_grid(
                snake.settings.grid_width as int,
                snake.settings.grid_height as int,
            ),
{
    let width = snake.settings.grid_width as int;
    let height = snake.settings.grid_height as int;
    let after = snake.ticked();
    assert forall|i: int| 0 <= i < snake.body.len() implies (#[trigger] after.body[i]).object.position.on_grid(
        width,
        height,
    ) by {
        let target = snake.body[i].object.position.plus(snake.handed(i).delta());
        assert(after.body[i].object.position == target.wrapped(width, height));
        lemma_wrap_near_axis(target.x, width);
        lemma_wrap_near_axis(target.y, height);
    }
    assert(after.body[0].object.position.on_grid(width, height));
}

/// A coordinate no more than two cells before the axis or one behind it
/// lands on the axis.
proof fn lemma_wrap_near_axis(value: int, dimension: int)
    requires
        dimension > 0,
        -2 <= value <= dimension + 1,
    ensures
        0 <= wrap_coordinate(value, dimension) < dimension,
{
    if value < 0 && value + dimension < 0 {
        assert(dimension == 1 && value == -2);
        lemma_small_mod(0, 1);
        lemma_mod_add_multiples_vanish(0, 1);
    } else if value < 0 {
        lemma_mod_pos_bound(value + dimension, dimension);
    } else {
        lemma_mod_pos_bound(value, dimension);
    }
}

/// Where walls stop the snake, a tick moves every segment behind the head of
/// a chained snake onto the cell that the one in front of it left, and the
/// snake stays chained.
pub proof fn lemma_tick_follows(snake: SnakeView)
    requires
        snake.wf(),
        snake.chained(),
        !snake.settings.allow_wall_teleport,
    ensures
        snake.ticked().chained(),
        forall|i: int|
            1 <= i < snake.body.len() ==> (#[trigger] snake.ticked().body[i]).object.position
                == snake.body[i - 1].object.position,
{
    let after = snake.ticked();
    assert forall|i: int| 1 <= i < snake.body.len() implies (#[trigger] after.body[i]).object.position
        == snake.body[i - 1].object.position by {
        assert(snake.linked(i));
    }
    assert forall|i: int| 1 <= i < after.body.len() implies #[trigger] after.linked(i) by {
        assert(snake.linked(i));
        assert(after.body[i].object.position == snake.body[i - 1].object.position);
        assert(after.body[i - 1].direction == snake.handed(i - 1));
        assert(after.body[i - 1].object.position == snake.body[i - 1].object.position.plus(
            snake.handed(i - 1).delta(),
        ));
    }
}

/// Where walls stop the snake, a chained snake whose head steps onto a cell
/// on which a segment other than the last lay before the tick has bitten
/// itself: the segment behind that one has moved there too. The last
/// segment's cell is safe, for nothing follows it.
pub proof fn lemma_head_runs_into_body(snake: SnakeView, segment: int)
    requires
        snake.wf(),
        snake.chained(),
        !snake.settings.allow_wall_teleport,
        0 <= segment < snake.body.len() - 1,
        snake.body[segment].object.position == snake.body[0].object.position.plus(
            snake.direction.delta(),
        ),
    ensures
        snake.ticked().bites_itself(),
        snake.ticked().collided(),
{
    lemma_tick_follows(snake);
    lemma_tick_moves_head(snake);
    let after = snake.ticked();
    assert(after.body[segment + 1].object.position == after.body[0].object.position);
}

/// Where walls stop the snake, a settled and chained snake whose head is
/// still on the grid after a tick is settled after it.
pub proof fn lemma_tick_settles_when_stopping(snake: SnakeView)
    requires
        snake.wf(),
        snake.settled(),
        snake.chained(),
        !snake.settings.allow_wall_teleport,
        snake.ticked().body[0].object.position.on_grid(
            snake.settings.grid_width as int,
            snake.settings.grid_height as int,
        ),
    ensures
        snake.ticked().settled(),
{
    lemma_tick_stays_near(snake);
}

/// A request to turn leaves the segments where they are and as they face: a
/// snake near its grid stays near it, a settled snake settled, a chained
/// snake chained.
pub proof fn lemma_turn_keeps_shape(snake: SnakeView, request: SnakeDirection)
    ensures
        snake.steered(request).body == snake.body,
        snake.steered(request).settings == snake.settings,
        snake.wf() ==> snake.steered(request).wf(),
        snake.near_grid() ==> snake.steered(request).near_grid(),
        snake.settled() ==> snake.steered(request).settled(),
        snake.chained() ==> snake.steered(request).chained(),
{
    let turned = snake.steered(request);
    if snake.near_grid() {
        assert forall|i: int| 0 <= i < turned.body.len() implies {
            let position = (#[trigger] turned.body[i]).object.position;
            &&& -1 <= position.x <= turned.settings.grid_width
            &&& -1 <= position.y <= turned.settings.grid_height
        } by {
            assert(snake.body[i] == turned.body[i]);
        }
    }
    if snake.chained() {
        assert forall|i: int| 1 <= i < turned.body.len() implies #[trigger] turned.linked(i) by {
            assert(snake.linked(i));
        }
    }
}

/// Segments that grow behind the head leave a settled snake settled and a
/// chained snake chained.
pub proof fn lemma_sprouts_keep_shape(before: SnakeView, after: SnakeView, count: nat)
    requires
        before.wf(),
        after.sprouted_from(before, count),
    ensures
        after.wf(),
        before.settled() ==> after.settled(),
        before.chained() ==> after.chained(),
{
    let head = before.body[0];
    if before.settled() {
        assert forall|i: int| 0 <= i < after.body.len() implies {
            let position = (#[trigger] after.body[i]).object.position;
            &&& -1 <= position.x <= after.settings.grid_width
            &&& -1 <= position.y <= after.settings.grid_height
        } by {
            if 1 <= i <= count {
                assert(after.body[i].is_sprout_of(head));
            } else if i > count {
                assert(after.body[i] == before.body[i - count]);
            }
        }
    }
    if before.chained() {
        assert forall|i: int| 1 <= i < after.body.len() implies #[trigger] after.linked(i) by {
            if i <= count {
                assert(after.body[i].is_sprout_of(head));
                if i >= 2 {
                    assert(after.body[i - 1].is_sprout_of(head));
                }
            } else if i == count + 1 {
                assert(after.body[i] == before.body[1]);
                assert(before.linked(1));
                if count >= 1 {
                    assert(after.body[i - 1].is_sprout_of(head));
                }
            } else {
                assert(after.body[i] == before.body[i - count]);
                assert(after.body[i - 1] == before.body[i - 1 - count]);
                assert(before.linked(i - count));
            }
        }
    }
}

/// A snake that grew one segment is the snake grown in that segment's colour.
pub proof fn lemma_sprouted_once(before: SnakeView, after: SnakeView)
    requires
        before.wf(),
        after.sprouted_from(before, 1),
    ensures
        after == before.grown(after.body[1].object.color),
{
    let grown = before.grown(after.body[1].object.color);
    assert(after.body[1].is_sprout_of(before.body[0]));
    assert forall|i: int| 0 <= i < after.body.len() implies after.body[i] == grown.body[i] by {
        if i > 1 {
            assert(after.body[i] == before.body[i - 1]);
        }
    }
    assert(after.body =~= grown.body);
}

} // verus!
