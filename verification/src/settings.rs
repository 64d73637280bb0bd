//! The configuration of a session and its standard values.

use vstd::prelude::*;
use crate::engine::Extent;

verus! {

/// Width of the window a session starts in, in pixels.
pub const SCREEN_WIDTH: i32 = 800;

/// Height of the window a session starts in, in pixels.
pub const SCREEN_HEIGHT: i32 = 800;

/// Columns of the standard grid.
pub const GRID_WIDTH: i32 = 30;

/// Rows of the standard grid.
pub const GRID_HEIGHT: i32 = 20;

/// Segments a snake starts with, the head included.
pub const SNAKE_LENGTH_START: i32 = 3;

/// Time between two ticks, in nanoseconds.
pub const SNAKE_SPEED_NANOS: u64 = 100_000_000;

/// Whether a snake that leaves the grid enters it again on the other side.
pub const ALLOW_WALL_TELEPORT: bool = true;

/// Whether entities slide between cells while a tick is under way.
pub const SMOOTH_TRANSITION: bool = true;

/// Food items below which the grid is restocked.
pub const FOOD_VECTOR_SIZE: i32 = 3;

/// Segments a snake gains from one food item.
pub const FOOD_GROWTH: i32 = 3;

/// Everything a session is configured with.
#[derive(Clone, Copy, Debug, PartialEq, Eq, Structural)]
pub struct Settings {
    pub screen_width: i32,
    pub screen_height: i32,
    pub grid_width: i32,
    pub grid_height: i32,
    pub snake_length_start: i32,
    pub snake_speed_nanos: u64,
    pub allow_wall_teleport: bool,
    pub smooth_transition: bool,
    pub food_vector_size: i32,
    pub food_growth: i32,
}

impl Settings {
    /// The grid has at least one cell, and one more column and one more row
    /// would still fit a machine cell.
    pub open spec fn wf(self) -> bool {
        0 < self.grid_width < i32::MAX && 0 < self.grid_height < i32::MAX
    }

    /// The size of the window a session starts in.
    pub open spec fn screen_size(self) -> Extent {
        Extent { width: self.screen_width, height: self.screen_height }
    }

    /// The size of the grid.
    pub open spec fn grid_size(self) -> Extent {
        Extent { width: self.grid_width, height: self.grid_height }
    }

    /// The standard configuration, as a value of specifications.
    pub open spec fn standard_spec() -> Settings {
        Settings {
            screen_width: SCREEN_WIDTH,
            screen_height: SCREEN_HEIGHT,
            grid_width: GRID_WIDTH,
            grid_height: GRID_HEIGHT,
            snake_length_start: SNAKE_LENGTH_START,
            snake_speed_nanos: SNAKE_SPEED_NANOS,
            allow_wall_teleport: ALLOW_WALL_TELEPORT,
            smooth_transition: SMOOTH_TRANSITION,
            food_vector_size: FOOD_VECTOR_SIZE,
            food_growth: FOOD_GROWTH,
        }
    }

    /// The standard configuration.
    #[verifier::when_used_as_spec(standard_spec)]
    pub fn standard() -> (settings: Settings)
        ensures
            settings == Settings::standard_spec(),
            settings.wf(),
    {
        Settings {
            screen_width: SCREEN_WIDTH,
            screen_height: SCREEN_HEIGHT,
            grid_width: GRID_WIDTH,
            grid_height: GRID_HEIGHT,
            snake_length_start: SNAKE_LENGTH_START,
            snake_speed_nanos: SNAKE_SPEED_NANOS,
            allow_wall_teleport: ALLOW_WALL_TELEPORT,
            smooth_transition: SMOOTH_TRANSITION,
            food_vector_size: FOOD_VECTOR_SIZE,
            food_growth: FOOD_GROWTH,
        }
    }

    /// Whether the configuration can be played: the grid is not empty and
    /// not so large that a cell next to it could not be written down.
    pub fn is_valid(&self) -> (valid: bool)
        ensures
            valid == self.wf(),
    {
        0 < self.grid_width && self.grid_width < i32::MAX && 0 < self.grid_height
            && self.grid_height < i32::MAX
    }
}

} // verus!
