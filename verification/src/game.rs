//! A session: the clock that turns elapsed time into ticks, the lock that
//! lets one turn through per tick, and what a tick does to snake and food.

use vstd::prelude::*;
use crate::cell::{Cell, Point};
use crate::engine::{Extent, Object, ObjectView};
use crate::food::{FoodHandler, FoodView};
use crate::grid::{Grid, GridView};
use crate::motion::{
    lemma_near_grid_has_room, lemma_sprouts_keep_shape, lemma_tick_follows,
    lemma_tick_settles_when_stopping, lemma_tick_settles_when_wrapping, lemma_tick_stays_near,
    lemma_turn_keeps_shape,
};
use crate::settings::Settings;
use crate::snake::{
    lemma_sprouted_once_more, trailing_segments, Snake, SnakeDirection, SnakeView,
};

verus! {

/// The number of times that one tick tries to set down food before it leaves
/// the rest to the next tick.
pub const SPAWN_ATTEMPTS: u32 = 65_536;

/// The cell in the middle of the grid, where a session sets its snake down.
pub open spec fn grid_centre(settings: Settings) -> Point {
    Point { x: settings.grid_width as int / 2, y: settings.grid_height as int / 2 }
}

/// The number of segments that a snake gains from one food item.
pub open spec fn growth_per_food(settings: Settings) -> nat {
    if settings.food_growth > 0 {
        settings.food_growth as nat
    } else {
        0
    }
}

/// What eating does. With food under the head of `snake`, the first such
/// item of `stock` is gone in `left`, and `fed` is the snake after `growth`
/// segments grew behind its head. With none, nothing changed.
pub open spec fn feeds(
    snake: SnakeView,
    stock: FoodView,
    growth: nat,
    fed: SnakeView,
    left: FoodView,
) -> bool {
    let head = snake.body[0].object.position;
    if stock.holds(head) {
        &&& fed.sprouted_from(snake, growth)
        &&& exists|index: int|
            stock.is_first_at(index, head) && left == #[trigger] stock.without(index)
    } else {
        fed == snake && left == stock
    }
}

/// What a session is to the contracts.
pub struct GameView {
    /// Nanoseconds gone by since the last tick.
    pub timer: nat,
    /// A turn has been accepted since the last tick.
    pub command_blocked: bool,
    /// How the grid lies on the screen.
    pub grid: GridView,
    pub snake: SnakeView,
    pub food: FoodView,
    pub settings: Settings,
}

impl GameView {
    /// Snake and food live by the session's configuration, which can be
    /// played, and the snake has a head and lies near the grid.
    pub open spec fn wf(self) -> bool {
        &&& self.settings.wf()
        &&& self.snake.settings == self.settings
        &&& self.food.settings == self.settings
        &&& self.snake.wf()
        &&& self.snake.near_grid()
    }

    /// How far the tick under way has come, for entities that slide between
    /// cells: the nanoseconds gone by since the last tick and the tick
    /// interval, or nothing where entities are to snap to their cells.
    pub open spec fn transition(self) -> Option<(u64, u64)> {
        if self.settings.smooth_transition {
            Some((self.timer as u64, self.settings.snake_speed_nanos))
        } else {
            None
        }
    }

    /// What the renderer is to draw, in the order in which it is to paint:
    /// the grid's background, then the segments of the snake from the head
    /// back, each on its slide, then the food.
    pub open spec fn drawn(self) -> Seq<ObjectView> {
        seq![self.grid.object] + Seq::new(
            self.snake.body.len(),
            |i: int| self.snake.body[i].drawn(self.grid, self.transition()),
        ) + Seq::new(self.food.food.len(), |i: int| self.food.food[i].drawn(self.grid, None, None))
    }

    /// The snake is in a shape from which a tick can be taken: it is settled
    /// on its grid and, where walls stop it, chained.
    pub open spec fn playable(self) -> bool {
        &&& self.snake.settled()
        &&& !self.settings.allow_wall_teleport ==> self.snake.chained()
    }

    /// The session has just begun on a screen of the given size: the clock
    /// stands at zero, no turn is locked in, the grid is fitted to the
    /// screen, there is no food, and the snake, of the configured length,
    /// has its head in the middle of the grid.
    pub open spec fn is_new(self, settings: Settings, screen: Extent) -> bool {
        &&& self.timer == 0
        &&& !self.command_blocked
        &&& self.settings == settings
        &&& self.grid == GridView::fitted(screen, settings.grid_size())
        &&& self.food == (FoodView { food: Seq::empty(), settings })
        &&& self.snake.sprouted_from(
            SnakeView::hatched(grid_centre(settings), settings),
            trailing_segments(settings.snake_length_start as int),
        )
    }

    /// With `delta` more nanoseconds the time since the last tick reaches
    /// the tick interval.
    pub open spec fn tick_due(self, delta: nat) -> bool {
        self.timer + delta >= self.settings.snake_speed_nanos
    }

    /// The session after a request to turn. While a turn is locked in, the
    /// request is dropped. Otherwise it goes to the snake, and is locked in
    /// if the snake accepts it.
    pub open spec fn keyed(self, request: SnakeDirection) -> GameView {
        if self.command_blocked {
            self
        } else {
            GameView {
                timer: self.timer,
                command_blocked: !request.reverses(self.snake.body[0].direction),
                grid: self.grid,
                snake: self.snake.steered(request),
                food: self.food,
                settings: self.settings,
            }
        }
    }

    /// The session after the screen took the given size: the grid is fitted
    /// to it anew.
    pub open spec fn resized(self, screen: Extent) -> GameView {
        GameView {
            timer: self.timer,
            command_blocked: self.command_blocked,
            grid: GridView::fitted(screen, self.settings.grid_size()),
            snake: self.snake,
            food: self.food,
            settings: self.settings,
        }
    }

    /// `after` is what `delta` more nanoseconds can make of the session, and
    /// `game_over` what they make of the game.
    ///
    /// Short of a tick, only the clock moves on. With a tick, the snake takes
    /// its tick, the clock starts again from zero and the lock on turns is
    /// lifted; the grid stays as it is. If the snake collided, the game is
    /// over and nothing else happens. If not, food is restocked: while it is
    /// low, and at most `SPAWN_ATTEMPTS` times, an item is tried on some cell
    /// of the grid and set down unless the snake or food lies there, so that
    /// food stays low only when every one of these tries was used. Then the
    /// snake eats what lies under its head.
    pub open spec fn advances_to(self, delta: nat, after: GameView, game_over: bool) -> bool {
        if !self.tick_due(delta) {
            &&& !game_over
            &&& after == GameView {
                timer: self.timer + delta,
                command_blocked: self.command_blocked,
                grid: self.grid,
                snake: self.snake,
                food: self.food,
                settings: self.settings,
            }
        } else {
            let snake = self.snake.ticked();
            &&& game_over == snake.collided()
            &&& after.timer == 0
            &&& !after.command_blocked
            &&& after.grid == self.grid
            &&& after.settings == self.settings
            &&& if game_over {
                after.snake == snake && after.food == self.food
            } else {
                exists|candidates: Seq<Point>|
                    self.food.restocks(candidates, snake.cells(), SPAWN_ATTEMPTS as nat)
                        && feeds(
                        snake,
                        #[trigger] self.food.tried_each(candidates, snake.cells()),
                        growth_per_food(self.settings),
                        after.snake,
                        after.food,
                    )
            }
        }
    }
}

/// A session of the game.
#[derive(Debug)]
pub struct Game {
    pub timer: u64,
    pub command_blocked: bool,
    pub grid: Grid,
    pub snake: Snake,
    pub food_handler: FoodHandler,
    pub settings: Settings,
}

impl View for Game {
    type V = GameView;

    open spec fn view(&self) -> GameView {
        GameView {
            timer: self.timer as nat,
            command_blocked: self.command_blocked,
            grid: self.grid@,
            snake: self.snake@,
            food: self.food_handler@,
            settings: self.settings,
        }
    }
}

impl Game {
    /// A new session under the standard configuration.
    pub fn new() -> (game: Game)
        ensures
            game@.is_new(Settings::standard(), Settings::standard().screen_size()),
            game@.wf(),
            game@.playable(),
    {
        Game::with_settings(Settings::standard())
    }

    /// A new session under the given configuration.
    pub fn with_settings(settings: Settings) -> (game: Game)
        requires
            settings.wf(),
        ensures
            game@.is_new(settings, settings.screen_size()),
            game@.wf(),
            game@.playable(),
    {
        let grid = Grid::new(
            Extent { width: settings.screen_width, height: settings.screen_height },
            Extent { width: settings.grid_width, height: settings.grid_height },
        );
        let start_position = Cell { x: settings.grid_width / 2, y: settings.grid_height / 2 };
        let snake = Snake::with_settings(start_position, settings.snake_length_start, settings);
        let food_handler = FoodHandler::with_settings(settings);
        proof {
            let hatched = SnakeView::hatched(grid_centre(settings), settings);
            assert(hatched.chained());
            assert(hatched.settled());
            lemma_sprouts_keep_shape(
                hatched,
                snake@,
                trailing_segments(settings.snake_length_start as int),
            );
            assert(food_handler@.food =~= Seq::empty());
        }
        Game { timer: 0, command_blocked: false, grid, snake, food_handler, settings }
    }

    /// Lets `delta_nanos` nanoseconds go by. When the time since the last
    /// tick reaches the tick interval, the session takes one tick. Returns
    /// whether the game is over.
    pub fn update(&mut self, delta_nanos: u64) -> (is_gameover: bool)
        requires
            old(self)@.wf(),
            old(self)@.playable(),
        ensures
            old(self)@.advances_to(delta_nanos as nat, final(self)@, is_gameover),
            final(self)@.wf(),
            !is_gameover || final(self)@.settings.allow_wall_teleport ==> final(self)@.playable(),
    {
        let total: u128 = self.timer as u128 + delta_nanos as u128;
        if total < self.settings.snake_speed_nanos as u128 {
            self.timer = total as u64;
            return false;
        }
        let ghost before = self@;
        proof {
            lemma_near_grid_has_room(before.snake);
            lemma_tick_stays_near(before.snake);
            if self.settings.allow_wall_teleport {
                lemma_tick_settles_when_wrapping(before.snake);
            } else {
                lemma_tick_follows(before.snake);
                if before.snake.ticked().body[0].object.position.on_grid(
                    self.settings.grid_width as int,
                    self.settings.grid_height as int,
                ) {
                    lemma_tick_settles_when_stopping(before.snake);
                }
            }
        }
        let is_gameover = self.snake.update();
        let ghost ticked = self.snake@;
        let ghost mut candidates: Seq<Point> = Seq::empty();
        if !is_gameover {
            let snake = self.snake.get_objects();
            let tried = self.food_handler.refill(&snake, SPAWN_ATTEMPTS);
            let ghost stock = self.food_handler@;
            proof {
                candidates = choose|candidates: Seq<Point>|
                    candidates.len() == tried && before.food.restocks(
                        candidates,
                        ticked.cells(),
                        SPAWN_ATTEMPTS as nat,
                    ) && stock == #[trigger] before.food.tried_each(candidates, ticked.cells());
            }
            let food = self.food_handler.get_objects();
            let (is_collided, food_index) = self.snake.check_food(&food);
            if is_collided {
                proof {
                    let head = ticked.body[0].object.position;
                    assert(food@[food_index as int]@ == stock.food[food_index as int]);
                    assert forall|j: int| 0 <= j < food_index implies (#[trigger] stock.food[j]).position
                        != head by {
                        assert(food@[j]@ == stock.food[j]);
                    }
                    assert(stock.is_first_at(food_index as int, head));
                }
                let mut grown: i32 = 0;
                while grown < self.settings.food_growth
                    invariant
                        0 <= grown,
                        grown <= self.settings.food_growth || grown == 0,
                        ticked.wf(),
                        ticked.settled(),
                        self.settings == before.settings,
                        ticked.settings == before.settings,
                        self.snake@.sprouted_from(ticked, grown as nat),
                        self.food_handler@ == stock,
                        self.grid@ == before.grid,
                        stock.is_first_at(food_index as int, ticked.body[0].object.position),
                    decreases self.settings.food_growth - grown,
                {
                    let ghost earlier = self.snake@;
                    self.snake.create_body();
                    proof {
                        lemma_sprouted_once_more(ticked, earlier, self.snake@, grown as nat);
                    }
                    grown = grown + 1;
                }
                self.food_handler.remove(food_index);
                proof {
                    lemma_sprouts_keep_shape(ticked, self.snake@, growth_per_food(before.settings));
                }
            }
            proof {
                assert(feeds(
                    ticked,
                    stock,
                    growth_per_food(before.settings),
                    self.snake@,
                    self.food_handler@,
                ));
            }
        }
        self.command_blocked = false;
        self.timer = 0;
        proof {
            if !is_gameover {
                assert(before.food.restocks(candidates, ticked.cells(), SPAWN_ATTEMPTS as nat));
                assert(feeds(
                    ticked,
                    before.food.tried_each(candidates, ticked.cells()),
                    growth_per_food(before.settings),
                    self@.snake,
                    self@.food,
                ));
            }
        }
        is_gameover
    }

    /// Takes the new size of the screen, in pixels, and fits the grid to it.
    pub fn resize_event(&mut self, width: i32, height: i32)
        requires
            old(self)@.wf(),
        ensures
            final(self)@ == old(self)@.resized(Extent { width, height }),
    {
        self.grid = Grid::new(
            Extent { width, height },
            Extent { width: self.settings.grid_width, height: self.settings.grid_height },
        );
    }

    /// Takes a request to turn the snake. At most one turn gets through
    /// between two ticks: once the snake has accepted one, further requests
    /// are dropped until the next tick.
    pub fn key_down_event(&mut self, new_direction: SnakeDirection)
        requires
            old(self)@.wf(),
        ensures
            final(self)@ == old(self)@.keyed(new_direction),
            final(self)@.wf(),
            old(self)@.playable() ==> final(self)@.playable(),
    {
        if self.command_blocked {
            return ;
        }
        let status = self.snake.change_direction(new_direction);
        if status {
            self.command_blocked = true;
        }
        proof {
            lemma_turn_keeps_shape(old(self)@.snake, new_direction);
        }
    }

    /// How far the tick under way has come, for entities that slide between
    /// cells: the nanoseconds gone by since the last tick and the tick
    /// interval, or nothing where entities are to snap to their cells.
    pub fn transition(&self) -> (progress: Option<(u64, u64)>)
        ensures
            progress == self@.transition(),
    {
        if self.settings.smooth_transition {
            Some((self.timer, self.settings.snake_speed_nanos))
        } else {
            None
        }
    }

    /// What the renderer is to draw for this frame, in the order in which
    /// it is to paint.
    pub fn draw(&self) -> (render_buffer: Vec<Object>)
        requires
            self@.wf(),
        ensures
            render_buffer@.len() == self@.drawn().len(),
            forall|i: int|
                0 <= i < render_buffer@.len() ==> (#[trigger] render_buffer@[i])@
                    == self@.drawn()[i],
    {
        proof {
            lemma_near_grid_has_room(self@.snake);
        }
        let transition = self.transition();
        let snake = self.snake.update_objects(&self.grid, transition);
        let food = self.food_handler.update_objects(&self.grid);
        let mut render_buffer: Vec<Object> = Vec::new();
        render_buffer.push(self.grid.object);
        let mut i: usize = 0;
        while i < snake.len()
            invariant
                i <= snake@.len(),
                snake@.len() == self@.snake.body.len(),
                render_buffer@.len() == 1 + i,
                forall|j: int|
                    0 <= j < 1 + i ==> (#[trigger] render_buffer@[j])@ == self@.drawn()[j],
                forall|j: int|
                    0 <= j < snake@.len() ==> (#[trigger] snake@[j])@ == self@.snake.body[j].drawn(
                        self@.grid,
                        transition,
                    ),
                transition == self@.transition(),
            decreases snake.len() - i,
        {
            render_buffer.push(snake[i]);
            i = i + 1;
        }
        let mut k: usize = 0;
        while k < food.len()
            invariant
                k <= food@.len(),
                food@.len() == self@.food.food.len(),
                snake@.len() == self@.snake.body.len(),
                render_buffer@.len() == 1 + snake@.len() + k,
                forall|j: int|
                    0 <= j < 1 + snake@.len() + k ==> (#[trigger] render_buffer@[j])@
                        == self@.drawn()[j],
                forall|j: int|
                    0 <= j < food@.len() ==> (#[trigger] food@[j])@ == self@.food.food[j].drawn(
                        self@.grid,
                        None,
                        None,
                    ),
            decreases food.len() - k,
        {
            render_buffer.push(food[k]);
            k = k + 1;
        }
        render_buffer
    }
}

/// What a key press asks of a session.
#[derive(Clone, Copy, Debug, PartialEq, Eq)]
pub enum Command {
    /// Turn the snake.
    Turn(SnakeDirection),
    /// Begin again, once the game is over.
    Reset,
}

/// What a game is to the contracts: a session, whether it has ended, and
/// the size of the window it is shown in.
pub struct HandlerView {
    pub game: GameView,
    pub is_gameover: bool,
    pub window_dimensions: Extent,
}

impl HandlerView {
    /// The session is well-formed, its grid is fitted to the window, and as
    /// long as the game is on it is playable.
    pub open spec fn wf(self) -> bool {
        &&& self.game.wf()
        &&& self.game.grid == GridView::fitted(
            self.window_dimensions,
            self.game.settings.grid_size(),
        )
        &&& !self.is_gameover ==> self.game.playable()
    }

    /// The game after a key press. A reset begins a new session under the
    /// same configuration and in the same window once the game is over, and
    /// does nothing before. A turn goes to the session, over or not.
    pub open spec fn commanded(self, command: Command, after: HandlerView) -> bool {
        match command {
            Command::Reset => if self.is_gameover {
                &&& !after.is_gameover
                &&& after.window_dimensions == self.window_dimensions
                &&& after.game.is_new(self.game.settings, self.window_dimensions)
            } else {
                after == self
            },
            Command::Turn(request) => after == HandlerView {
                game: self.game.keyed(request),
                is_gameover: self.is_gameover,
                window_dimensions: self.window_dimensions,
            },
        }
    }

    /// The game after its window took the given size.
    pub open spec fn resized(self, screen: Extent) -> HandlerView {
        HandlerView {
            game: self.game.resized(screen),
            is_gameover: self.is_gameover,
            window_dimensions: screen,
        }
    }
}

/// A game from its first session on: it runs the session until the game is
/// over, and begins a new one when asked to.
#[derive(Debug)]
pub struct GameHandler {
    pub game: Game,
    pub is_gameover: bool,
    pub window_dimensions: Extent,
}

impl View for GameHandler {
    type V = HandlerView;

    open spec fn view(&self) -> HandlerView {
        HandlerView {
            game: self.game@,
            is_gameover: self.is_gameover,
            window_dimensions: self.window_dimensions,
        }
    }
}

impl GameHandler {
    /// A game under the standard configuration, with its first session.
    pub fn new() -> (handler: GameHandler)
        ensures
            handler@.game.is_new(Settings::standard(), Settings::standard().screen_size()),
            handler@.window_dimensions == Settings::standard().screen_size(),
            !handler@.is_gameover,
            handler@.wf(),
    {
        GameHandler::with_settings(Settings::standard())
    }

    /// A game under the given configuration, with its first session.
    pub fn with_settings(settings: Settings) -> (handler: GameHandler)
        requires
            settings.wf(),
        ensures
            handler@.game.is_new(settings, settings.screen_size()),
            handler@.window_dimensions == settings.screen_size(),
            !handler@.is_gameover,
            handler@.wf(),
    {
        GameHandler {
            game: Game::with_settings(settings),
            is_gameover: false,
            window_dimensions: Extent {
                width: settings.screen_width,
                height: settings.screen_height,
            },
        }
    }

    /// Takes the size of the window that the game has been given.
    pub fn init(&mut self, width: i32, height: i32)
        requires
            old(self)@.wf(),
        ensures
            final(self)@ == old(self)@.resized(Extent { width, height }),
            final(self)@.wf(),
    {
        self.resize_event(width, height);
    }

    /// Takes the new size of the window, in pixels: the size is kept for
    /// sessions to come, and the grid of the session is fitted to it.
    pub fn resize_event(&mut self, width: i32, height: i32)
        requires
            old(self)@.wf(),
        ensures
            final(self)@ == old(self)@.resized(Extent { width, height }),
            final(self)@.wf(),
    {
        self.window_dimensions = Extent { width, height };
        self.game.resize_event(width, height);
    }

    /// Lets `delta_nanos` nanoseconds go by in the session, and notes when
    /// the game ends. Once the game is over, time changes nothing.
    pub fn update(&mut self, delta_nanos: u64)
        requires
            old(self)@.wf(),
        ensures
            final(self)@.wf(),
            old(self)@.is_gameover ==> final(self)@ == old(self)@,
            !old(self)@.is_gameover ==> old(self)@.game.advances_to(
                delta_nanos as nat,
                final(self)@.game,
                final(self)@.is_gameover,
            ),
            final(self)@.window_dimensions == old(self)@.window_dimensions,
    {
        if !self.is_gameover {
            self.is_gameover = self.game.update(delta_nanos);
        }
    }

    /// What the renderer is to draw for this frame, in the order in which
    /// it is to paint.
    pub fn draw(&self) -> (render_buffer: Vec<Object>)
        requires
            self@.wf(),
        ensures
            render_buffer@.len() == self@.game.drawn().len(),
            forall|i: int|
                0 <= i < render_buffer@.len() ==> (#[trigger] render_buffer@[i])@
                    == self@.game.drawn()[i],
    {
        self.game.draw()
    }

    /// Takes a key press: see `HandlerView::commanded`.
    pub fn key_down_event(&mut self, command: Command)
        requires
            old(self)@.wf(),
        ensures
            final(self)@.wf(),
            old(self)@.commanded(command, final(self)@),
    {
        match command {
            Command::Reset => {
                if self.is_gameover {
                    self.game = Game::with_settings(self.game.settings);
                    self.game.resize_event(
                        self.window_dimensions.width,
                        self.window_dimensions.height,
                    );
                    self.is_gameover = false;
                }
            },
            Command::Turn(new_direction) => {
                self.game.key_down_event(new_direction);
            },
        }
    }
}

} // verus!
