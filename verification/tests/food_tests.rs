use snake_game::cell::Cell;
use snake_game::engine::{Color, Extent, Mesh, Object, ScreenRect};
use snake_game::food::{Food, FoodHandler};
use snake_game::grid::Grid;
use snake_game::grid_drawable::GridDrawable;
use snake_game::settings::Settings;
use snake_game::snake::Snake;

fn grid(width: i32, height: i32, minimum: i32) -> Settings {
    Settings {
        screen_width: 800,
        screen_height: 800,
        grid_width: width,
        grid_height: height,
        snake_length_start: 3,
        snake_speed_nanos: 100_000_000,
        allow_wall_teleport: true,
        smooth_transition: true,
        food_vector_size: minimum,
        food_growth: 3,
    }
}

fn food_cells(handler: &FoodHandler) -> Vec<(i32, i32)> {
    handler.food.iter().map(|item| (item.object.position.x, item.object.position.y)).collect()
}

#[test]
fn food_item_look() {
    let food = Food::new(Cell { x: 3, y: 8 });
    assert_eq!(
        food.object,
        GridDrawable {
            color: Color { red: 900, green: 500, blue: 100, alpha: 800 },
            mesh: Mesh::Circle,
            position: Cell { x: 3, y: 8 },
            size_multiplier: 700,
        }
    );
}

#[test]
fn new_handler_is_empty_and_low() {
    let handler = FoodHandler::new();
    assert!(handler.food.is_empty());
    assert_eq!(handler.settings, Settings::standard());
    assert!(handler.is_low());
    assert!(handler.get_objects().is_empty());
}

#[test]
fn is_low_compares_with_the_minimum() {
    let mut handler = FoodHandler::with_settings(grid(10, 10, 2));
    assert!(handler.is_low());
    assert!(handler.spawn_at(Cell { x: 0, y: 0 }, &Vec::new()));
    assert!(handler.is_low());
    assert!(handler.spawn_at(Cell { x: 1, y: 0 }, &Vec::new()));
    assert!(!handler.is_low());
    assert!(handler.spawn_at(Cell { x: 2, y: 0 }, &Vec::new()));
    assert!(!handler.is_low());
    for minimum in [0, -1, i32::MIN] {
        assert!(!FoodHandler::with_settings(grid(10, 10, minimum)).is_low());
    }
}

#[test]
fn spawn_at_sets_food_down_on_a_free_cell() {
    let snake = Snake::new(Cell { x: 5, y: 5 }, 3);
    let mut handler = FoodHandler::new();
    assert!(handler.spawn_at(Cell { x: 7, y: 7 }, &snake.get_objects()));
    assert!(handler.spawn_at(Cell { x: 6, y: 5 }, &snake.get_objects()));
    assert_eq!(food_cells(&handler), vec![(7, 7), (6, 5)]);
    assert_eq!(handler.food[1], Food::new(Cell { x: 6, y: 5 }));
}

#[test]
fn spawn_at_drops_a_cell_under_the_snake() {
    let snake = Snake::new(Cell { x: 5, y: 5 }, 3);
    let mut handler = FoodHandler::new();
    assert!(!handler.spawn_at(Cell { x: 5, y: 5 }, &snake.get_objects()));
    assert!(!handler.spawn_at(Cell { x: 4, y: 5 }, &snake.get_objects()));
    assert!(handler.food.is_empty());
}

#[test]
fn spawn_at_drops_a_cell_under_food() {
    let mut handler = FoodHandler::new();
    assert!(handler.spawn_at(Cell { x: 1, y: 2 }, &Vec::new()));
    assert!(handler.spawn_at(Cell { x: 2, y: 1 }, &Vec::new()));
    assert!(!handler.spawn_at(Cell { x: 1, y: 2 }, &Vec::new()));
    assert!(!handler.spawn_at(Cell { x: 2, y: 1 }, &Vec::new()));
    assert_eq!(food_cells(&handler), vec![(1, 2), (2, 1)]);
}

#[test]
fn spawn_never_lands_on_snake_or_food() {
    let settings = grid(4, 3, 3);
    let snake = Snake::with_settings(Cell { x: 2, y: 1 }, 3, settings);
    let mut handler = FoodHandler::with_settings(settings);
    for _ in 0..2000 {
        let before = food_cells(&handler);
        handler.spawn(&snake.get_objects());
        let after = food_cells(&handler);
        assert_eq!(after[..before.len()], before[..]);
        assert!(after.len() == before.len() || after.len() == before.len() + 1);
        if after.len() > before.len() {
            let new = after[before.len()];
            assert!(0 <= new.0 && new.0 < 4 && 0 <= new.1 && new.1 < 3);
            assert!(new != (2, 1) && new != (1, 1));
            assert!(!before.contains(&new));
            assert_eq!(handler.food[before.len()], Food::new(Cell { x: new.0, y: new.1 }));
        }
    }
    assert_eq!(handler.food.len(), 10);
}

#[test]
fn spawn_tries_once() {
    let settings = grid(1, 1, 3);
    let snake = Snake::with_settings(Cell { x: 0, y: 0 }, 1, settings);
    let mut handler = FoodHandler::with_settings(settings);
    for _ in 0..50 {
        handler.spawn(&snake.get_objects());
    }
    assert!(handler.food.is_empty());
    handler.spawn(&Vec::new());
    assert_eq!(food_cells(&handler), vec![(0, 0)]);
    handler.spawn(&Vec::new());
    assert_eq!(food_cells(&handler), vec![(0, 0)]);
}

#[test]
fn spawn_reaches_every_cell_of_the_grid() {
    let mut handler = FoodHandler::with_settings(grid(3, 2, 3));
    for _ in 0..2000 {
        handler.spawn(&Vec::new());
    }
    let mut cells = food_cells(&handler);
    cells.sort();
    assert_eq!(cells, vec![(0, 0), (0, 1), (1, 0), (1, 1), (2, 0), (2, 1)]);
}

#[test]
fn refill_stops_at_the_minimum() {
    let settings = grid(10, 10, 3);
    let snake = Snake::with_settings(Cell { x: 5, y: 5 }, 3, settings);
    let mut handler = FoodHandler::with_settings(settings);
    let tried = handler.refill(&snake.get_objects(), 10_000);
    assert!(3 <= tried && tried <= 10_000);
    assert_eq!(handler.food.len(), 3);
    assert!(!handler.is_low());
    let cells = food_cells(&handler);
    for (i, cell) in cells.iter().enumerate() {
        assert!(0 <= cell.0 && cell.0 < 10 && 0 <= cell.1 && cell.1 < 10);
        assert!(*cell != (5, 5) && *cell != (4, 5));
        assert!(!cells[..i].contains(cell));
    }
    assert_eq!(handler.refill(&snake.get_objects(), 10_000), 0);
    assert_eq!(food_cells(&handler), cells);
}

#[test]
fn refill_gives_up_when_the_grid_is_full() {
    let settings = grid(1, 1, 3);
    let snake = Snake::with_settings(Cell { x: 0, y: 0 }, 1, settings);
    let mut handler = FoodHandler::with_settings(settings);
    assert_eq!(handler.refill(&snake.get_objects(), 1000), 1000);
    assert!(handler.food.is_empty());
    assert!(handler.is_low());
}

#[test]
fn refill_without_attempts_changes_nothing() {
    let mut handler = FoodHandler::with_settings(grid(10, 10, 3));
    assert_eq!(handler.refill(&Vec::new(), 0), 0);
    assert!(handler.food.is_empty());
    assert_eq!(handler.refill(&Vec::new(), 1), 1);
    assert_eq!(handler.food.len(), 1);
}

#[test]
fn remove_moves_later_items_up() {
    let mut handler = FoodHandler::new();
    for x in 0..4 {
        assert!(handler.spawn_at(Cell { x, y: 0 }, &Vec::new()));
    }
    handler.remove(1);
    assert_eq!(food_cells(&handler), vec![(0, 0), (2, 0), (3, 0)]);
    handler.remove(2);
    assert_eq!(food_cells(&handler), vec![(0, 0), (2, 0)]);
    handler.remove(0);
    assert_eq!(food_cells(&handler), vec![(2, 0)]);
    handler.remove(0);
    assert!(handler.food.is_empty());
}

#[test]
fn get_objects_lists_the_items_in_order() {
    let mut handler = FoodHandler::new();
    assert!(handler.spawn_at(Cell { x: 4, y: 1 }, &Vec::new()));
    assert!(handler.spawn_at(Cell { x: 0, y: 3 }, &Vec::new()));
    let objects = handler.get_objects();
    assert_eq!(objects.len(), 2);
    assert_eq!(*objects[0], Food::new(Cell { x: 4, y: 1 }).object);
    assert_eq!(*objects[1], Food::new(Cell { x: 0, y: 3 }).object);
}

#[test]
fn food_rests_on_its_cell() {
    let grid = Grid::new(Extent { width: 800, height: 800 }, Extent { width: 30, height: 20 });
    let mut handler = FoodHandler::new();
    assert!(handler.spawn_at(Cell { x: 3, y: 2 }, &Vec::new()));
    assert!(handler.spawn_at(Cell { x: 0, y: 0 }, &Vec::new()));
    let square = |x: i128, y: i128| ScreenRect {
        x,
        y,
        width: 1_120_000,
        height: 1_120_000,
        unit: 60_000,
    };
    let look = |rect: ScreenRect| Object {
        rect,
        slide_from: rect,
        transition: None,
        color: Color { red: 900, green: 500, blue: 100, alpha: 800 },
        mesh: Mesh::Circle,
    };
    assert_eq!(
        handler.update_objects(&grid),
        vec![look(square(5_040_000, 11_440_000)), look(square(240_000, 8_240_000))]
    );
    assert_eq!(handler.food[0].update_object(&grid), look(square(5_040_000, 11_440_000)));
    assert!(FoodHandler::new().update_objects(&grid).is_empty());
}
