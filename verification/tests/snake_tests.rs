use snake_game::cell::{wrap_axis, Cell, Offset};
use snake_game::engine::{Color, Mesh, Object, ScreenRect};
use snake_game::grid::Grid;
use snake_game::engine::Extent;
use snake_game::grid_drawable::GridDrawable;
use snake_game::settings::Settings;
use snake_game::snake::{Snake, SnakeBody, SnakeDirection};

fn small_grid(wrap: bool) -> Settings {
    Settings {
        screen_width: 800,
        screen_height: 800,
        grid_width: 10,
        grid_height: 10,
        snake_length_start: 3,
        snake_speed_nanos: 100_000_000,
        allow_wall_teleport: wrap,
        smooth_transition: true,
        food_vector_size: 3,
        food_growth: 3,
    }
}

fn cells(snake: &Snake) -> Vec<(i32, i32)> {
    snake.body.iter().map(|part| (part.object.position.x, part.object.position.y)).collect()
}

fn facings(snake: &Snake) -> Vec<SnakeDirection> {
    snake.body.iter().map(|part| part.direction).collect()
}

#[test]
fn direction_vectors() {
    assert_eq!(SnakeDirection::Up.to_vector(), Offset { x: 0, y: -1 });
    assert_eq!(SnakeDirection::Down.to_vector(), Offset { x: 0, y: 1 });
    assert_eq!(SnakeDirection::Left.to_vector(), Offset { x: -1, y: 0 });
    assert_eq!(SnakeDirection::Right.to_vector(), Offset { x: 1, y: 0 });
    assert_eq!(SnakeDirection::Still.to_vector(), Offset { x: 0, y: 0 });
}

#[test]
fn wrap_axis_values() {
    assert_eq!(wrap_axis(0, 30), 0);
    assert_eq!(wrap_axis(29, 30), 29);
    assert_eq!(wrap_axis(30, 30), 0);
    assert_eq!(wrap_axis(31, 30), 1);
    assert_eq!(wrap_axis(-1, 30), 29);
    assert_eq!(wrap_axis(-30, 30), 0);
    assert_eq!(wrap_axis(-31, 30), -1);
    assert_eq!(wrap_axis(-100, 30), -10);
    assert_eq!(wrap_axis(-2, 1), 0);
    assert_eq!(wrap_axis(i32::MAX, 7), i32::MAX % 7);
}

#[test]
fn new_snake_layout() {
    let snake = Snake::new(Cell { x: 5, y: 5 }, 3);
    assert_eq!(snake.settings, Settings::standard());
    assert_eq!(snake.direction, SnakeDirection::Right);
    assert_eq!(cells(&snake), vec![(5, 5), (4, 5), (4, 5)]);
    assert_eq!(
        facings(&snake),
        vec![SnakeDirection::Right, SnakeDirection::Still, SnakeDirection::Still]
    );
    let head = snake.body[0].object;
    assert_eq!(head.color, Color { red: 200, green: 700, blue: 1000, alpha: 1000 });
    assert_eq!(head.mesh, Mesh::Rectangle);
    assert_eq!(head.size_multiplier, 1100);
    for part in &snake.body[1..] {
        assert_eq!(part.object.mesh, Mesh::RoundedRectangle);
        assert_eq!(part.object.size_multiplier, 1300);
        let color = part.object.color;
        assert!(-50 <= color.red && color.red < 250);
        assert!(250 <= color.green && color.green < 550);
        assert!(770 <= color.blue && color.blue < 1070);
        assert!(750 <= color.alpha && color.alpha < 1050);
    }
}

#[test]
fn new_snake_of_short_length_is_head_alone() {
    for length in [1, 0, -3, i32::MIN] {
        let snake = Snake::new(Cell { x: 2, y: 3 }, length);
        assert_eq!(cells(&snake), vec![(2, 3)]);
        assert_eq!(facings(&snake), vec![SnakeDirection::Right]);
    }
}

#[test]
fn new_snake_with_settings_keeps_them() {
    let snake = Snake::with_settings(Cell { x: 1, y: 1 }, 2, small_grid(false));
    assert_eq!(snake.settings, small_grid(false));
    assert_eq!(cells(&snake), vec![(1, 1), (0, 1)]);
}

#[test]
fn reversing_turn_is_rejected() {
    let pairs = [
        (SnakeDirection::Up, SnakeDirection::Down),
        (SnakeDirection::Down, SnakeDirection::Up),
        (SnakeDirection::Left, SnakeDirection::Right),
        (SnakeDirection::Right, SnakeDirection::Left),
    ];
    for (facing, opposite) in pairs {
        let mut snake = Snake::new(Cell { x: 5, y: 5 }, 3);
        snake.body[0].direction = facing;
        snake.direction = facing;
        let before = cells(&snake);
        assert!(!snake.change_direction(opposite));
        assert_eq!(snake.direction, facing);
        assert_eq!(cells(&snake), before);
        assert_eq!(snake.body[0].direction, facing);
    }
}

#[test]
fn other_turns_are_accepted() {
    for turn in [SnakeDirection::Up, SnakeDirection::Down, SnakeDirection::Right] {
        let mut snake = Snake::new(Cell { x: 5, y: 5 }, 3);
        assert!(snake.change_direction(turn));
        assert_eq!(snake.direction, turn);
        assert_eq!(snake.body[0].direction, SnakeDirection::Right);
    }
}

#[test]
fn turn_is_judged_by_the_heads_facing_not_by_the_waiting_direction() {
    let mut snake = Snake::new(Cell { x: 5, y: 5 }, 3);
    assert!(snake.change_direction(SnakeDirection::Up));
    assert!(snake.change_direction(SnakeDirection::Down));
    assert_eq!(snake.direction, SnakeDirection::Down);
    assert!(!snake.change_direction(SnakeDirection::Left));
    assert_eq!(snake.direction, SnakeDirection::Down);
}

#[test]
fn standing_still_is_never_a_reversal() {
    let mut snake = Snake::new(Cell { x: 5, y: 5 }, 3);
    assert!(snake.change_direction(SnakeDirection::Still));
    assert_eq!(snake.direction, SnakeDirection::Still);
    snake.body[0].direction = SnakeDirection::Still;
    snake.direction = SnakeDirection::Up;
    assert!(snake.change_direction(SnakeDirection::Still));
    assert_eq!(snake.direction, SnakeDirection::Still);
    for turn in [
        SnakeDirection::Up,
        SnakeDirection::Down,
        SnakeDirection::Left,
        SnakeDirection::Right,
    ] {
        assert!(snake.change_direction(turn));
        assert_eq!(snake.direction, turn);
    }
}

#[test]
fn head_that_stopped_may_turn_any_way() {
    let mut snake = Snake::with_settings(Cell { x: 5, y: 5 }, 1, small_grid(true));
    assert!(snake.change_direction(SnakeDirection::Still));
    assert!(!snake.update());
    assert_eq!(cells(&snake), vec![(5, 5)]);
    assert_eq!(snake.body[0].direction, SnakeDirection::Still);
    assert!(snake.change_direction(SnakeDirection::Left));
    assert!(!snake.update());
    assert_eq!(cells(&snake), vec![(4, 5)]);
    assert!(!snake.change_direction(SnakeDirection::Right));
}

#[test]
fn create_body_grows_right_behind_the_head() {
    let directions = [
        (SnakeDirection::Up, (5, 6)),
        (SnakeDirection::Down, (5, 4)),
        (SnakeDirection::Left, (6, 5)),
        (SnakeDirection::Right, (4, 5)),
        (SnakeDirection::Still, (5, 5)),
    ];
    for (facing, expected) in directions {
        let mut snake = Snake::new(Cell { x: 5, y: 5 }, 1);
        snake.body[0].direction = facing;
        snake.body.push(SnakeBody {
            object: GridDrawable::new(
                Color { red: 1, green: 2, blue: 3, alpha: 4 },
                Mesh::Rectangle,
                Cell { x: 9, y: 9 },
                1000,
            ),
            direction: SnakeDirection::Down,
        });
        let tail = snake.body[1];
        snake.create_body();
        assert_eq!(snake.body.len(), 3);
        assert_eq!(cells(&snake), vec![(5, 5), expected, (9, 9)]);
        assert_eq!(snake.body[1].direction, SnakeDirection::Still);
        assert_eq!(snake.body[1].object.mesh, Mesh::RoundedRectangle);
        assert_eq!(snake.body[1].object.size_multiplier, 1300);
        assert_eq!(snake.body[2], tail);
        assert_eq!(snake.body[0].direction, facing);
    }
}

#[test]
fn grow_with_takes_the_given_colour() {
    let mut snake = Snake::new(Cell { x: 0, y: 0 }, 1);
    let color = Color { red: 11, green: 22, blue: 33, alpha: 44 };
    snake.grow_with(color);
    assert_eq!(
        snake.body[1],
        SnakeBody {
            object: GridDrawable {
                color,
                mesh: Mesh::RoundedRectangle,
                position: Cell { x: -1, y: 0 },
                size_multiplier: 1300,
            },
            direction: SnakeDirection::Still,
        }
    );
    assert_eq!(snake.body.len(), 2);
}

#[test]
fn colours_of_new_segments_stay_in_their_band() {
    let mut snake = Snake::new(Cell { x: 5, y: 5 }, 1);
    for _ in 0..500 {
        snake.create_body();
        let color = snake.body[1].object.color;
        assert!(100 - 150 <= color.red && color.red < 100 + 150);
        assert!(400 - 150 <= color.green && color.green < 400 + 150);
        assert!(920 - 150 <= color.blue && color.blue < 920 + 150);
        assert!(900 - 150 <= color.alpha && color.alpha < 900 + 150);
    }
    assert_eq!(snake.body.len(), 501);
}

#[test]
fn one_tick_moves_head_and_first_segment() {
    let mut snake = Snake::with_settings(Cell { x: 5, y: 5 }, 3, small_grid(true));
    assert!(!snake.update());
    assert_eq!(cells(&snake), vec![(6, 5), (5, 5), (4, 5)]);
    assert_eq!(
        facings(&snake),
        vec![SnakeDirection::Right, SnakeDirection::Right, SnakeDirection::Still]
    );
    assert_eq!(snake.direction, SnakeDirection::Right);
}

#[test]
fn tick_gives_segments_the_look_of_their_direction() {
    let mut snake = Snake::with_settings(Cell { x: 5, y: 5 }, 3, small_grid(true));
    let before: Vec<Color> = snake.body.iter().map(|part| part.object.color).collect();
    snake.update();
    let head = snake.body[0].object;
    assert_eq!(head.color, Color { red: 200, green: 700, blue: 1000, alpha: 1000 });
    assert_eq!(head.mesh, Mesh::Rectangle);
    assert_eq!(head.size_multiplier, 1100);
    let moving = snake.body[1].object;
    assert_eq!(moving.mesh, Mesh::Rectangle);
    assert_eq!(moving.size_multiplier, 1000);
    assert_eq!(moving.color, Color { alpha: 900, ..before[1] });
    let waiting = snake.body[2].object;
    assert_eq!(waiting.mesh, Mesh::RoundedRectangle);
    assert_eq!(waiting.size_multiplier, 1300);
    assert_eq!(waiting.color, Color { alpha: 900, ..before[2] });
}

#[test]
fn right_wall_teleports_when_walls_wrap() {
    let mut snake = Snake::with_settings(Cell { x: 9, y: 4 }, 3, small_grid(true));
    assert!(!snake.update());
    assert_eq!(cells(&snake), vec![(0, 4), (9, 4), (8, 4)]);
}

#[test]
fn right_wall_ends_the_game_when_walls_stop() {
    let mut snake = Snake::with_settings(Cell { x: 9, y: 4 }, 3, small_grid(false));
    assert!(snake.update());
    assert_eq!(cells(&snake), vec![(10, 4), (9, 4), (8, 4)]);
}

#[test]
fn other_walls_teleport_too() {
    let mut snake = Snake::with_settings(Cell { x: 0, y: 0 }, 1, small_grid(true));
    assert!(snake.change_direction(SnakeDirection::Up));
    assert!(!snake.update());
    assert_eq!(cells(&snake), vec![(0, 9)]);
    assert!(snake.change_direction(SnakeDirection::Left));
    assert!(!snake.update());
    assert_eq!(cells(&snake), vec![(9, 9)]);
    assert!(snake.change_direction(SnakeDirection::Down));
    assert!(!snake.update());
    assert_eq!(cells(&snake), vec![(9, 0)]);
}

#[test]
fn other_walls_end_the_game_when_walls_stop() {
    for (turn, cell) in [
        (SnakeDirection::Up, (0, -1)),
        (SnakeDirection::Down, (0, 1)),
    ] {
        let mut snake = Snake::with_settings(Cell { x: 0, y: 0 }, 1, small_grid(false));
        assert!(snake.change_direction(turn));
        let over = snake.update();
        assert_eq!(cells(&snake), vec![cell]);
        assert_eq!(over, cell.1 < 0);
    }
    let mut snake = Snake::with_settings(Cell { x: 0, y: 9 }, 1, small_grid(false));
    snake.body[0].direction = SnakeDirection::Down;
    assert!(snake.change_direction(SnakeDirection::Left));
    assert!(snake.update());
    assert_eq!(cells(&snake), vec![(-1, 9)]);
    let mut snake = Snake::with_settings(Cell { x: 3, y: 9 }, 1, small_grid(false));
    assert!(snake.change_direction(SnakeDirection::Down));
    assert!(snake.update());
    assert_eq!(cells(&snake), vec![(3, 10)]);
}

#[test]
fn head_running_into_its_body_ends_the_game() {
    let mut snake = Snake::with_settings(Cell { x: 5, y: 5 }, 5, small_grid(true));
    let turns = [
        SnakeDirection::Right,
        SnakeDirection::Right,
        SnakeDirection::Right,
        SnakeDirection::Right,
        SnakeDirection::Down,
        SnakeDirection::Left,
    ];
    for turn in turns {
        assert!(snake.change_direction(turn));
        assert!(!snake.update());
    }
    assert_eq!(cells(&snake), vec![(8, 6), (9, 6), (9, 5), (8, 5), (7, 5)]);
    assert!(snake.change_direction(SnakeDirection::Up));
    assert!(snake.update());
    assert_eq!(cells(&snake), vec![(8, 5), (8, 6), (9, 6), (9, 5), (8, 5)]);
}

#[test]
fn snake_of_four_escapes_its_own_tail() {
    let mut snake = Snake::with_settings(Cell { x: 5, y: 5 }, 4, small_grid(true));
    let turns = [
        SnakeDirection::Right,
        SnakeDirection::Right,
        SnakeDirection::Right,
        SnakeDirection::Right,
        SnakeDirection::Down,
        SnakeDirection::Left,
        SnakeDirection::Up,
    ];
    for turn in turns {
        assert!(snake.change_direction(turn));
        assert!(!snake.update());
    }
    assert_eq!(cells(&snake), vec![(8, 5), (8, 6), (9, 6), (9, 5)]);
}

#[test]
fn snake_of_four_that_stops_is_caught_by_its_body() {
    let mut snake = Snake::with_settings(Cell { x: 5, y: 5 }, 4, small_grid(true));
    assert!(!snake.update());
    assert!(snake.change_direction(SnakeDirection::Still));
    assert!(snake.update());
    assert_eq!(cells(&snake), vec![(6, 5), (6, 5), (5, 5), (4, 5)]);
}

#[test]
fn head_ends_at_start_plus_sum_of_turns_modulo_grid() {
    let mut snake = Snake::with_settings(Cell { x: 5, y: 5 }, 1, small_grid(true));
    let turns = [
        (SnakeDirection::Right, (6, 5)),
        (SnakeDirection::Right, (7, 5)),
        (SnakeDirection::Right, (8, 5)),
        (SnakeDirection::Right, (9, 5)),
        (SnakeDirection::Right, (0, 5)),
        (SnakeDirection::Up, (0, 4)),
        (SnakeDirection::Up, (0, 3)),
        (SnakeDirection::Left, (9, 3)),
        (SnakeDirection::Up, (9, 2)),
        (SnakeDirection::Up, (9, 1)),
        (SnakeDirection::Up, (9, 0)),
        (SnakeDirection::Up, (9, 9)),
    ];
    let mut sum = (5, 5);
    for (turn, expected) in turns {
        assert!(snake.change_direction(turn));
        assert!(!snake.update());
        let step = turn.to_vector();
        sum = (sum.0 + step.x, sum.1 + step.y);
        assert_eq!(cells(&snake), vec![expected]);
        assert_eq!(expected, (sum.0.rem_euclid(10), sum.1.rem_euclid(10)));
    }
}

#[test]
fn head_ends_at_start_plus_sum_of_turns_when_walls_stop() {
    let mut snake = Snake::with_settings(Cell { x: 5, y: 5 }, 1, small_grid(false));
    let turns = [
        SnakeDirection::Right,
        SnakeDirection::Right,
        SnakeDirection::Down,
        SnakeDirection::Down,
        SnakeDirection::Left,
        SnakeDirection::Left,
        SnakeDirection::Left,
        SnakeDirection::Up,
        SnakeDirection::Up,
        SnakeDirection::Up,
        SnakeDirection::Up,
        SnakeDirection::Up,
        SnakeDirection::Up,
    ];
    let mut over = Vec::new();
    for turn in turns {
        assert!(snake.change_direction(turn));
        over.push(snake.update());
    }
    assert_eq!(cells(&snake), vec![(4, 1)]);
    assert!(over.iter().all(|o| !o));
    for _ in 0..2 {
        over.push(snake.update());
    }
    assert_eq!(cells(&snake), vec![(4, -1)]);
    assert_eq!(over[13..], [false, true]);
}

#[test]
fn waiting_direction_is_applied_again_without_a_new_turn() {
    let mut snake = Snake::with_settings(Cell { x: 2, y: 2 }, 2, small_grid(true));
    assert!(snake.change_direction(SnakeDirection::Down));
    snake.update();
    snake.update();
    snake.update();
    assert_eq!(cells(&snake), vec![(2, 5), (2, 4)]);
    assert_eq!(snake.direction, SnakeDirection::Down);
}

#[test]
fn grown_segments_hold_the_tail_back() {
    let mut snake = Snake::with_settings(Cell { x: 5, y: 5 }, 2, small_grid(true));
    snake.update();
    assert_eq!(cells(&snake), vec![(6, 5), (5, 5)]);
    for _ in 0..3 {
        snake.create_body();
    }
    assert_eq!(cells(&snake), vec![(6, 5), (5, 5), (5, 5), (5, 5), (5, 5)]);
    assert!(!snake.update());
    assert_eq!(cells(&snake), vec![(7, 5), (6, 5), (5, 5), (5, 5), (5, 5)]);
    assert!(!snake.update());
    assert_eq!(cells(&snake), vec![(8, 5), (7, 5), (6, 5), (5, 5), (5, 5)]);
    assert!(!snake.update());
    assert!(!snake.update());
    assert_eq!(cells(&snake), vec![(0, 5), (9, 5), (8, 5), (7, 5), (6, 5)]);
}

#[test]
fn check_food_finds_the_first_item_under_the_head() {
    let snake = Snake::new(Cell { x: 3, y: 4 }, 3);
    let at = |x: i32, y: i32| {
        GridDrawable::new(
            Color { red: 0, green: 0, blue: 0, alpha: 0 },
            Mesh::Circle,
            Cell { x, y },
            700,
        )
    };
    let items = [at(1, 1), at(3, 4), at(2, 4), at(3, 4)];
    let food: Vec<&GridDrawable> = items.iter().collect();
    assert_eq!(snake.check_food(&food), (true, 1));
    let food: Vec<&GridDrawable> = items[2..].iter().collect();
    assert_eq!(snake.check_food(&food), (true, 1));
    let food: Vec<&GridDrawable> = items[..1].iter().collect();
    assert_eq!(snake.check_food(&food), (false, 0));
    let food: Vec<&GridDrawable> = vec![&items[2], &items[0]];
    assert_eq!(snake.check_food(&food), (false, 0));
    assert_eq!(snake.check_food(&Vec::new()), (false, 0));
    let body_only = [at(2, 4)];
    let food: Vec<&GridDrawable> = body_only.iter().collect();
    assert_eq!(snake.check_food(&food), (false, 0));
}

#[test]
fn get_objects_lists_the_segments_from_the_head_back() {
    let mut snake = Snake::with_settings(Cell { x: 5, y: 5 }, 3, small_grid(true));
    snake.update();
    let objects = snake.get_objects();
    assert_eq!(objects.len(), 3);
    for (object, part) in objects.iter().zip(snake.body.iter()) {
        assert_eq!(**object, part.object);
    }
    assert_eq!(objects[0].position, Cell { x: 6, y: 5 });
    assert_eq!(objects[2].position, Cell { x: 4, y: 5 });
}

fn standard_grid() -> Grid {
    Grid::new(Extent { width: 800, height: 800 }, Extent { width: 30, height: 20 })
}

fn square(x: i128, y: i128, side: i128) -> ScreenRect {
    ScreenRect { x, y, width: side, height: side, unit: 60_000 }
}

#[test]
fn entity_without_direction_or_measure_rests() {
    let color = Color { red: 1, green: 2, blue: 3, alpha: 4 };
    let drawable = GridDrawable::new(color, Mesh::Circle, Cell { x: 3, y: 2 }, 700);
    let grid = standard_grid();
    let resting = Object {
        rect: square(5_040_000, 11_440_000, 1_120_000),
        slide_from: square(5_040_000, 11_440_000, 1_120_000),
        transition: None,
        color,
        mesh: Mesh::Circle,
    };
    let right = Some(Offset { x: 1, y: 0 });
    assert_eq!(drawable.update_object(&grid, None, None), resting);
    assert_eq!(drawable.update_object(&grid, right, None), resting);
    assert_eq!(drawable.update_object(&grid, None, Some((1, 4))), resting);
}

#[test]
fn entity_with_direction_and_measure_slides_in_from_behind() {
    let color = Color { red: 1, green: 2, blue: 3, alpha: 4 };
    let drawable = GridDrawable::new(color, Mesh::Rectangle, Cell { x: 0, y: 7 }, 1000);
    let grid = standard_grid();
    let rect = square(0, 8_000_000 + 7 * 1_600_000, 1_600_000);
    assert_eq!(
        drawable.update_object(&grid, Some(Offset { x: 1, y: 0 }), Some((25, 100))),
        Object {
            rect,
            slide_from: square(-1_600_000, 8_000_000 + 7 * 1_600_000, 1_600_000),
            transition: Some((25, 100)),
            color,
            mesh: Mesh::Rectangle,
        }
    );
    assert_eq!(
        drawable.update_object(&grid, Some(Offset { x: 0, y: -1 }), Some((0, 100))),
        Object {
            rect,
            slide_from: square(0, 8_000_000 + 8 * 1_600_000, 1_600_000),
            transition: Some((0, 100)),
            color,
            mesh: Mesh::Rectangle,
        }
    );
    assert_eq!(
        drawable.update_object(&grid, Some(Offset { x: 0, y: 0 }), Some((99, 100))),
        Object { rect, slide_from: rect, transition: Some((99, 100)), color, mesh: Mesh::Rectangle }
    );
}

#[test]
fn segments_slide_in_from_the_cells_they_left() {
    let mut snake = Snake::with_settings(Cell { x: 9, y: 5 }, 3, small_grid(true));
    snake.update();
    let grid = Grid::new(Extent { width: 100, height: 100 }, Extent { width: 10, height: 10 });
    let at = |x: i128, y: i128, inset: i128| ScreenRect {
        x: 200_000 * x + 100 * inset,
        y: 200_000 * y + 100 * inset,
        width: 200_000 - 200 * inset,
        height: 200_000 - 200 * inset,
        unit: 20_000,
    };
    let sliding = snake.update_objects(&grid, Some((3, 10)));
    assert_eq!(sliding.len(), 3);
    assert_eq!(sliding[0].rect, at(0, 5, -100));
    assert_eq!(sliding[0].slide_from, at(-1, 5, -100));
    assert_eq!(sliding[1].rect, at(9, 5, 0));
    assert_eq!(sliding[1].slide_from, at(8, 5, 0));
    assert_eq!(sliding[2].rect, at(8, 5, -300));
    assert_eq!(sliding[2].slide_from, at(8, 5, -300));
    for (object, part) in sliding.iter().zip(snake.body.iter()) {
        assert_eq!(object.transition, Some((3, 10)));
        assert_eq!(object.color, part.object.color);
        assert_eq!(object.mesh, part.object.mesh);
        assert_eq!(*object, part.update_object(&grid, Some((3, 10))));
    }
    let resting = snake.update_objects(&grid, None);
    for (object, moving) in resting.iter().zip(sliding.iter()) {
        assert_eq!(object.rect, moving.rect);
        assert_eq!(object.slide_from, moving.rect);
        assert_eq!(object.transition, None);
    }
}
