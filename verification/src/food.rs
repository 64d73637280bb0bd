//! The food on the grid: a bag of items that is restocked, one random cell
//! at a time, whenever it runs low.

use vstd::prelude::*;
use crate::cell::{Cell, Point};
use crate::chance::random_below;
use crate::engine::{Color, Mesh, Object};
use crate::grid::Grid;
use crate::grid_drawable::{cells_of, DrawableView, GridDrawable};
use crate::settings::Settings;

verus! {

/// Side of a food item, in thousandths of a cell's side.
pub const FOOD_SIZE_MULTIPLIER: i32 = 700;

/// The colour of food.
pub open spec fn food_color() -> Color {
    Color { red: 900, green: 500, blue: 100, alpha: 800 }
}

/// A food item on the given point, as the contracts see it.
pub open spec fn food_at(position: Point) -> DrawableView {
    DrawableView {
        color: food_color(),
        mesh: Mesh::Circle,
        position,
        size_multiplier: FOOD_SIZE_MULTIPLIER,
    }
}

/// One food item.
#[derive(Clone, Copy, Debug, PartialEq, Eq)]
pub struct Food {
    pub object: GridDrawable,
}

impl View for Food {
    type V = DrawableView;

    open spec fn view(&self) -> DrawableView {
        self.object@
    }
}

impl Food {
    /// A food item on the given cell.
    pub fn new(position: Cell) -> (food: Food)
        ensures
            food@ == food_at(position@),
    {
        Food {
            object: GridDrawable::new(
                Color { red: 900, green: 500, blue: 100, alpha: 800 },
                Mesh::Circle,
                position,
                FOOD_SIZE_MULTIPLIER,
            ),
        }
    }
}

impl Food {
    /// What the renderer is to draw for the item on the given grid. Food
    /// does not slide.
    pub fn update_object(&self, grid: &Grid) -> (object: Object)
        ensures
            object@ == self@.drawn(grid@, None, None),
    {
        self.object.update_object(grid, None, None)
    }
}

/// What the food on a grid is to the contracts: the items in the order in
/// which they were set down, and the configuration they are kept by.
pub struct FoodView {
    pub food: Seq<DrawableView>,
    pub settings: Settings,
}

impl FoodView {
    /// Some item lies on the point.
    pub open spec fn holds(self, position: Point) -> bool {
        exists|i: int| 0 <= i < self.food.len() && (#[trigger] self.food[i]).position == position
    }

    /// Item `index` lies on the point, and no item before it does.
    pub open spec fn is_first_at(self, index: int, position: Point) -> bool {
        &&& 0 <= index < self.food.len()
        &&& self.food[index].position == position
        &&& forall|j: int| 0 <= j < index ==> (#[trigger] self.food[j]).position != position
    }

    /// The food with the item at `index` taken out.
    pub open spec fn without(self, index: int) -> FoodView {
        FoodView { food: self.food.remove(index), settings: self.settings }
    }

    /// There are fewer items than the configuration asks for.
    pub open spec fn is_low(self) -> bool {
        self.food.len() < self.settings.food_vector_size
    }

    /// The food with one more item on the point.
    pub open spec fn with_food_at(self, position: Point) -> FoodView {
        FoodView { food: self.food.push(food_at(position)), settings: self.settings }
    }

    /// The food after an attempt to set an item down on `candidate`: the
    /// attempt is dropped where one of `occupied` or an item lies there.
    pub open spec fn tried(self, candidate: Point, occupied: Set<Point>) -> FoodView {
        if occupied.contains(candidate) || self.holds(candidate) {
            self
        } else {
            self.with_food_at(candidate)
        }
    }

    /// The food after one attempt on each of the candidates, in their order.
    pub open spec fn tried_each(self, candidates: Seq<Point>, occupied: Set<Point>) -> FoodView
        decreases candidates.len(),
    {
        if candidates.len() == 0 {
            self
        } else {
            self.tried_each(candidates.drop_last(), occupied).tried(candidates.last(), occupied)
        }
    }

    /// The candidates are attempts that restocking makes one after the
    /// other: each is a cell of the grid, and each is tried because the food
    /// was still low after the ones before it.
    pub open spec fn admits(self, candidates: Seq<Point>, occupied: Set<Point>) -> bool
        decreases candidates.len(),
    {
        candidates.len() == 0 || {
            let earlier = candidates.drop_last();
            &&& self.admits(earlier, occupied)
            &&& self.tried_each(earlier, occupied).is_low()
            &&& candidates.last().on_grid(
                self.settings.grid_width as int,
                self.settings.grid_height as int,
            )
        }
    }

    /// The candidates are a whole restocking of the food with at most
    /// `attempts` tries: attempts made one after the other while the food
    /// was low, up to the first that left it no longer low, or else all of
    /// the tries there were.
    pub open spec fn restocks(
        self,
        candidates: Seq<Point>,
        occupied: Set<Point>,
        attempts: nat,
    ) -> bool {
        &&& candidates.len() <= attempts
        &&& self.admits(candidates, occupied)
        &&& self.tried_each(candidates, occupied).is_low() ==> candidates.len() == attempts
    }

    /// Item `i` is food on a cell of the grid that is not among `occupied`
    /// and on which no earlier item lies.
    pub open spec fn fresh_at(self, i: int, occupied: Set<Point>) -> bool {
        let position = self.food[i].position;
        &&& self.food[i] == food_at(position)
        &&& position.on_grid(self.settings.grid_width as int, self.settings.grid_height as int)
        &&& !occupied.contains(position)
        &&& forall|j: int| 0 <= j < i ==> (#[trigger] self.food[j]).position != position
    }

    /// `self` is `before` with items added at its end, each of them fresh
    /// when it was set down, and with no more of them than it takes to stop
    /// the food from being low.
    pub open spec fn restocked_from(self, before: FoodView, occupied: Set<Point>) -> bool {
        &&& self.settings == before.settings
        &&& self.food.len() >= before.food.len()
        &&& forall|i: int| 0 <= i < before.food.len() ==> #[trigger] self.food[i] == before.food[i]
        &&& forall|i: int|
            before.food.len() <= i < self.food.len() ==> #[trigger] self.fresh_at(i, occupied)
        &&& self.food.len() > before.food.len() ==> self.food.len()
            <= self.settings.food_vector_size
    }
}

/// An attempt to set food down never puts an item on a cell that is
/// occupied or on which an item lies already: it either changes nothing or
/// adds, at the end, one item that is food on the candidate cell, and then
/// that cell was free of both.
pub proof fn lemma_food_lands_on_free_cell(before: FoodView, candidate: Point, occupied: Set<Point>)
    ensures
        ({
            let after = before.tried(candidate, occupied);
            ||| after == before
            ||| {
                &&& after == before.with_food_at(candidate)
                &&& after.food.len() == before.food.len() + 1
                &&& after.food.last() == food_at(candidate)
                &&& !occupied.contains(candidate)
                &&& !before.holds(candidate)
            }
        }),
{
}

impl FoodView {
    /// No item lies on a cell of `occupied`, and no two items lie on the
    /// same cell.
    pub open spec fn apart_from(self, occupied: Set<Point>) -> bool {
        &&& forall|i: int|
            0 <= i < self.food.len() ==> !occupied.contains((#[trigger] self.food[i]).position)
        &&& forall|i: int, j: int|
            0 <= i < j < self.food.len() ==> (#[trigger] self.food[i]).position
                != (#[trigger] self.food[j]).position
    }
}

/// Food that lies apart from the occupied cells, each item on a cell of its
/// own, still does so after any attempt to set down more.
pub proof fn lemma_food_stays_apart(before: FoodView, candidate: Point, occupied: Set<Point>)
    requires
        before.apart_from(occupied),
    ensures
        before.tried(candidate, occupied).apart_from(occupied),
{
    let after = before.tried(candidate, occupied);
    if after != before {
        assert forall|i: int, j: int| 0 <= i < j < after.food.len() implies (#[trigger] after.food[i]).position
            != (#[trigger] after.food[j]).position by {
            if j == before.food.len() {
                assert(before.food[i].position != candidate);
            } else {
                assert(before.food[i].position != before.food[j].position);
            }
        }
        assert forall|i: int| 0 <= i < after.food.len() implies !occupied.contains(
            (#[trigger] after.food[i]).position,
        ) by {
            if i < before.food.len() {
                assert(!occupied.contains(before.food[i].position));
            }
        }
    }
}

/// Restocking only adds: the food after a run of attempts is the food
/// before it with items added at its end, at most one for each attempt,
/// each of them fresh when it was set down, and no more of them than it
/// takes to stop the food from being low.
pub proof fn lemma_restocking_adds_fresh_food(
    before: FoodView,
    candidates: Seq<Point>,
    occupied: Set<Point>,
)
    requires
        before.admits(candidates, occupied),
    ensures
        before.tried_each(candidates, occupied).restocked_from(before, occupied),
        before.tried_each(candidates, occupied).food.len() <= before.food.len()
            + candidates.len(),
    decreases candidates.len(),
{
    if candidates.len() > 0 {
        let earlier = candidates.drop_last();
        let stock = before.tried_each(earlier, occupied);
        let after = stock.tried(candidates.last(), occupied);
        lemma_restocking_adds_fresh_food(before, earlier, occupied);
        if after != stock {
            assert(after.fresh_at(stock.food.len() as int, occupied));
            assert forall|i: int| before.food.len() <= i < after.food.len() implies #[trigger] after.fresh_at(
                i,
                occupied,
            ) by {
                if i < stock.food.len() {
                    assert(stock.fresh_at(i, occupied));
                }
            }
        }
    }
}

/// The food on a grid.
#[derive(Debug)]
pub struct FoodHandler {
    pub food: Vec<Food>,
    pub settings: Settings,
}

impl View for FoodHandler {
    type V = FoodView;

    open spec fn view(&self) -> FoodView {
        FoodView { food: self.food@.map_values(|item: Food| item@), settings: self.settings }
    }
}

impl FoodHandler {
    /// No food yet, on the standard grid.
    pub fn new() -> (handler: FoodHandler)
        ensures
            handler@.food.len() == 0,
            handler@.settings == Settings::standard(),
    {
        FoodHandler::with_settings(Settings::standard())
    }

    /// No food yet, under the given configuration.
    pub fn with_settings(settings: Settings) -> (handler: FoodHandler)
        ensures
            handler@.food.len() == 0,
            handler@.settings == settings,
    {
        FoodHandler { food: Vec::new(), settings }
    }

    /// The entities of the items, in the order in which they were set down.
    pub fn get_objects(&self) -> (objects: Vec<&GridDrawable>)
        ensures
            objects@.len() == self@.food.len(),
            forall|i: int| 0 <= i < objects@.len() ==> (#[trigger] objects@[i])@ == self@.food[i],
            forall|position: Point|
                cells_of(objects@).contains(position) == #[trigger] self@.holds(position),
    {
        let mut vec: Vec<&GridDrawable> = Vec::new();
        let mut i: usize = 0;
        while i < self.food.len()
            invariant
                i <= self.food.len(),
                vec@.len() == i,
                forall|j: int| 0 <= j < i ==> (#[trigger] vec@[j])@ == self@.food[j],
            decreases self.food.len() - i,
        {
            vec.push(&self.food[i].object);
            i = i + 1;
        }
        proof {
            assert forall|position: Point|
                cells_of(vec@).contains(position) == #[trigger] self@.holds(position) by {
                if cells_of(vec@).contains(position) {
                    let i = choose|i: int|
                        0 <= i < vec@.len() && (#[trigger] vec@[i])@.position == position;
                    assert(self@.food[i].position == position);
                }
                if self@.holds(position) {
                    let i = choose|i: int|
                        0 <= i < self@.food.len() && (#[trigger] self@.food[i]).position
                            == position;
                    assert(vec@[i]@.position == position);
                }
            }
        }
        vec
    }

    /// What the renderer is to draw for the items on the given grid, in the
    /// order in which they were set down.
    pub fn update_objects(&self, grid: &Grid) -> (objects: Vec<Object>)
        ensures
            objects@.len() == self@.food.len(),
            forall|i: int|
                0 <= i < objects@.len() ==> (#[trigger] objects@[i])@ == self@.food[i].drawn(
                    grid@,
                    None,
                    None,
                ),
    {
        let mut objects: Vec<Object> = Vec::new();
        let mut i: usize = 0;
        while i < self.food.len()
            invariant
                i <= self.food.len(),
                objects@.len() == i,
                forall|j: int|
                    0 <= j < i ==> (#[trigger] objects@[j])@ == self@.food[j].drawn(
                        grid@,
                        None,
                        None,
                    ),
            decreases self.food.len() - i,
        {
            assert(self@.food[i as int] == self.food@[i as int]@);
            objects.push(self.food[i].update_object(grid));
            i = i + 1;
        }
        objects
    }

    /// Whether there are fewer items than the configuration asks for.
    pub fn is_low(&self) -> (low: bool)
        ensures
            low == self@.is_low(),
    {
        self.settings.food_vector_size > 0 && self.food.len()
            < self.settings.food_vector_size as usize
    }

    /// Tries once to set down a new item: draws a cell of the grid at
    /// random, and sets the item down unless a snake entity or an item lies
    /// there already. A failed attempt changes nothing.
    pub fn spawn(&mut self, snake_objects: &Vec<&GridDrawable>)
        requires
            old(self)@.settings.wf(),
        ensures
            exists|candidate: Point|
                candidate.on_grid(
                    old(self)@.settings.grid_width as int,
                    old(self)@.settings.grid_height as int,
                ) && final(self)@ == #[trigger] old(self)@.tried(candidate, cells_of(snake_objects@)),
    {
        let new_position = Cell {
            x: random_below(self.settings.grid_width),
            y: random_below(self.settings.grid_height),
        };
        self.spawn_at(new_position, snake_objects);
        assert(new_position@.on_grid(
            old(self)@.settings.grid_width as int,
            old(self)@.settings.grid_height as int,
        ) && final(self)@ == old(self)@.tried(new_position@, cells_of(snake_objects@)));
    }

    /// Tries to set down a new item on `candidate`. The attempt is dropped,
    /// and nothing changes, where a snake entity or an item lies there
    /// already. Returns whether the item was set down.
    pub fn spawn_at(&mut self, candidate: Cell, snake_objects: &Vec<&GridDrawable>) -> (placed:
        bool)
        ensures
            final(self)@ == old(self)@.tried(candidate@, cells_of(snake_objects@)),
            placed == !(cells_of(snake_objects@).contains(candidate@) || old(self)@.holds(candidate@)),
    {
        let mut i: usize = 0;
        while i < snake_objects.len()
            invariant
                forall|j: int|
                    0 <= j < i && j < snake_objects@.len() ==> (#[trigger] snake_objects@[j])@.position
                        != candidate@,
            decreases snake_objects.len() - i,
        {
            if candidate == snake_objects[i].position {
                assert(snake_objects@[i as int]@.position == candidate@);
                return false;
            }
            i = i + 1;
        }
        let mut k: usize = 0;
        while k < self.food.len()
            invariant
                self == old(self),
                forall|j: int|
                    0 <= j < k && j < self.food@.len() ==> (#[trigger] self.food@[j])@.position
                        != candidate@,
            decreases self.food.len() - k,
        {
            if candidate == self.food[k].object.position {
                assert(self@.food[k as int].position == candidate@);
                return false;
            }
            k = k + 1;
        }
        assert(!old(self)@.holds(candidate@)) by {
            assert forall|j: int| 0 <= j < old(self)@.food.len() implies (#[trigger] old(
                self,
            )@.food[j]).position != candidate@ by {
                assert(old(self)@.food[j] == old(self).food@[j]@);
            }
        }
        let new_food = Food::new(candidate);
        self.food.push(new_food);
        assert(final(self)@.food =~= old(self)@.with_food_at(candidate@).food);
        true
    }

    /// Restocks the grid: tries to set down a new item, as `spawn` does,
    /// for as long as the food is low, and gives up after `attempts` tries.
    /// Returns the number of tries made.
    ///
    /// The food afterwards is the food before after that many attempts,
    /// each on some cell of the grid and each made because the food was
    /// still low. Food that is low afterwards has had all the attempts
    /// there were.
    pub fn refill(&mut self, snake_objects: &Vec<&GridDrawable>, attempts: u32) -> (tried: u32)
        requires
            old(self)@.settings.wf(),
        ensures
            exists|candidates: Seq<Point>|
                candidates.len() == tried && old(self)@.restocks(
                    candidates,
                    cells_of(snake_objects@),
                    attempts as nat,
                ) && final(self)@ == #[trigger] old(self)@.tried_each(
                    candidates,
                    cells_of(snake_objects@),
                ),
            final(self)@.restocked_from(old(self)@, cells_of(snake_objects@)),
            final(self)@.food.len() <= old(self)@.food.len() + tried,
            !old(self)@.is_low() || attempts == 0 ==> final(self)@ == old(self)@ && tried == 0,
    {
        let ghost before = self@;
        let ghost occupied = cells_of(snake_objects@);
        let ghost mut candidates: Seq<Point> = Seq::empty();
        let mut tried: u32 = 0;
        while tried < attempts && self.is_low()
            invariant
                tried <= attempts,
                before.settings.wf(),
                occupied == cells_of(snake_objects@),
                candidates.len() == tried,
                before.admits(candidates, occupied),
                self@ == before.tried_each(candidates, occupied),
                self@.settings == before.settings,
                !before.is_low() || tried == 0 ==> self@ == before && tried == 0,
            decreases attempts - tried,
        {
            let ghost stock = self@;
            self.spawn(snake_objects);
            proof {
                let candidate = choose|candidate: Point|
                    candidate.on_grid(
                        stock.settings.grid_width as int,
                        stock.settings.grid_height as int,
                    ) && self@ == #[trigger] stock.tried(candidate, occupied);
                assert(candidates.push(candidate).drop_last() =~= candidates);
                candidates = candidates.push(candidate);
            }
            tried = tried + 1;
        }
        proof {
            lemma_restocking_adds_fresh_food(before, candidates, occupied);
            assert(before.restocks(candidates, occupied, attempts as nat));
        }
        tried
    }

    /// Takes out the item at `index`; the items behind it move up.
    pub fn remove(&mut self, index: usize)
        requires
            index < old(self)@.food.len(),
        ensures
            final(self)@ == old(self)@.without(index as int),
    {
        self.food.remove(index);
        assert(final(self)@.food =~= old(self)@.food.remove(index as int));
    }
}

} // verus!
