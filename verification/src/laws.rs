//! What holds of every game, proved from the rules in `model`.

use crate::direction::{GameState, PlayerDirection};
use crate::grid::{cell_count, grid_cells, in_grid, lemma_grid_cells_distinct, DOT_SIZE_IN_PX,
    INITIAL_SPEED, TOP_SPEED};
use crate::model::{lemma_free_cells, lemma_tick_wf, GameModel, TickOutcome};
use crate::point::Point;
use crate::screen::drawable;
use vstd::prelude::*;

verus! {

impl GameModel {
    /// The state after one tick for each cell of `foods`, in order, each
    /// cell being where the food reappears if the snake eats at that tick.
    pub open spec fn run(self, foods: Seq<Point>) -> GameModel
        decreases foods.len(),
    {
        if foods.len() == 0 {
            self
        } else {
            self.run(foods.drop_last()).tick(foods.last())
        }
    }
}

/// A tick leaves a paused game exactly as it was.
pub proof fn law_paused_tick_changes_nothing(m: GameModel, new_food: Point)
    requires
        m.state == GameState::Paused,
    ensures
        m.tick(new_food) == m,
        forall|after: GameModel| m.ticks_to(after) ==> after == m,
{
}

/// A tick that does not end the game keeps the length of the snake when the
/// head does not reach the food, and adds one cell when it does.
pub proof fn law_body_length(m: GameModel, new_food: Point)
    requires
        m.wf(),
        m.state != GameState::Paused,
        !m.blocked(),
    ensures
        m.next_head() != m.food ==> m.tick(new_food).body.len() == m.body.len(),
        m.next_head() == m.food ==> m.tick(new_food).body.len() == m.body.len() + 1,
{
}

/// A tick that moves the snake puts the head one step further in the
/// current direction, and every other cell where the cell before it was.
pub proof fn law_head_moves_body_follows(m: GameModel, new_food: Point)
    requires
        m.wf(),
        m.outcome() == TickOutcome::Advance || m.outcome() == TickOutcome::Feed,
    ensures
        m.tick(new_food).head().0 == m.head().0 + m.direction.step().0,
        m.tick(new_food).head().1 == m.head().1 + m.direction.step().1,
        forall|i: int|
            1 <= i < m.tick(new_food).body.len() ==> #[trigger] m.tick(new_food).body[i] == m.body[i
                - 1],
        m.tick(new_food).direction == m.direction,
{
    assert(in_grid(m.body[0]));
}

/// A request to turn back on itself never changes where the snake is
/// heading, nor anything else; any other request is granted.
pub proof fn law_no_reversal(m: GameModel, wanted: PlayerDirection)
    ensures
        wanted == m.direction.reverse() ==> m.turned(wanted) == m,
        wanted != m.direction.reverse() ==> m.turned(wanted).direction == wanted,
        m.turned(m.direction.reverse()).direction == m.direction,
{
}

/// When the head would leave the field or run into the body, the tick ends
/// the game and leaves the snake where it was.
pub proof fn law_collision_ends_game(m: GameModel, new_food: Point)
    requires
        m.state != GameState::Paused,
        !in_grid(m.next_head()) || m.body.contains(m.next_head()),
    ensures
        m.tick(new_food).state == GameState::Over,
        m.tick(new_food).body == m.body,
        m.tick(new_food) == (GameModel { state: GameState::Over, ..m }),
{
}

/// A tick never slows the game down and never takes it past the top speed.
pub proof fn law_speed_step(m: GameModel, new_food: Point)
    requires
        TOP_SPEED <= m.speed,
    ensures
        TOP_SPEED <= m.tick(new_food).speed <= m.speed,
{
}

/// Over any run of ticks, whatever the snake eats, the speed never rises
/// and never falls below the top speed.
pub proof fn law_speed_monotone(m: GameModel, foods: Seq<Point>)
    requires
        TOP_SPEED <= m.speed,
    ensures
        TOP_SPEED <= m.run(foods).speed <= m.speed,
    decreases foods.len(),
{
    if foods.len() > 0 {
        law_speed_monotone(m, foods.drop_last());
        law_speed_step(m.run(foods.drop_last()), foods.last());
    }
}

/// Over any run of ticks the score never falls.
pub proof fn law_score_monotone(m: GameModel, foods: Seq<Point>)
    ensures
        m.score <= m.run(foods).score,
    decreases foods.len(),
{
    if foods.len() > 0 {
        law_score_monotone(m, foods.drop_last());
    }
}

/// After the snake has eaten, the food lies on the field and on no cell of
/// the snake, provided it did not reappear on the very cell where it was
/// eaten: that cell is free when the new place is drawn, and the head
/// moves onto it afterwards.
pub proof fn law_food_off_body(m: GameModel, new_food: Point)
    requires
        m.wf(),
        m.outcome() == TickOutcome::Feed,
        m.free_cells().contains(new_food),
        new_food != m.food,
    ensures
        m.tick(new_food).food == new_food,
        in_grid(m.tick(new_food).food),
        !m.tick(new_food).body.contains(m.tick(new_food).food),
{
    lemma_free_cells(m, new_food);
    lemma_tick_wf(m, new_food);
    let after = m.tick(new_food);
    if after.body.contains(new_food) {
        let i = choose|i: int| 0 <= i < after.body.len() && after.body[i] == new_food;
        if i > 0 {
            assert(after.body[i] == m.body[i - 1]);
        }
    }
}

/// A tick in which the snake does not eat keeps the food off the snake, if
/// it was off the snake before.
pub proof fn law_food_stays_off_body(m: GameModel, new_food: Point)
    requires
        m.wf(),
        !m.body.contains(m.food),
        m.outcome() != TickOutcome::Feed,
    ensures
        m.tick(new_food).food == m.food,
        !m.tick(new_food).body.contains(m.food),
{
    let after = m.tick(new_food);
    if after.body.contains(m.food) {
        let i = choose|i: int| 0 <= i < after.body.len() && after.body[i] == m.food;
        if m.outcome() == TickOutcome::Advance && i > 0 {
            assert(after.body[i] == m.body[i - 1]);
        }
    }
}

/// The pause key on a game that is over sets the snake, its heading, the
/// food, the score, the speed and the field to what a new game has, and
/// leaves the game paused.
pub proof fn law_restart(m: GameModel)
    requires
        m.state == GameState::Over,
    ensures
        m.toggled() == GameModel::initial(),
        m.toggled().state == GameState::Paused,
        m.toggled().body == seq![Point(3, 1), Point(2, 1), Point(1, 1)],
        m.toggled().direction == PlayerDirection::Right,
        m.toggled().food == Point(3, 3),
        m.toggled().score == 0,
        m.toggled().speed == INITIAL_SPEED,
{
}

/// The phases follow one another in one way only: the pause key takes a
/// game between paused and playing and out of over; a tick leaves the phase
/// alone or ends the game; a request to turn leaves it alone.
pub proof fn law_phases(m: GameModel, new_food: Point, wanted: PlayerDirection)
    ensures
        m.state == GameState::Paused ==> m.toggled().state == GameState::Playing,
        m.state == GameState::Playing ==> m.toggled().state == GameState::Paused,
        m.state == GameState::Over ==> m.toggled().state == GameState::Paused,
        m.tick(new_food).state == m.state || m.tick(new_food).state == GameState::Over,
        m.state == GameState::Over ==> m.tick(new_food).state == GameState::Over,
        m.turned(wanted).state == m.state,
{
}

/// Every run of ticks from a well-formed state is well-formed, as long as
/// the food reappears on a free cell each time the snake eats.
pub proof fn law_run_wf(m: GameModel, foods: Seq<Point>)
    requires
        m.wf(),
        forall|k: int|
            0 <= k < foods.len() && (#[trigger] m.run(foods.take(k))).outcome() == TickOutcome::Feed
                ==> m.run(foods.take(k)).free_cells().contains(foods[k]),
    ensures
        m.run(foods).wf(),
    decreases foods.len(),
{
    if foods.len() > 0 {
        let front = foods.drop_last();
        assert forall|k: int|
            0 <= k < front.len() && (#[trigger] m.run(front.take(k))).outcome()
                == TickOutcome::Feed implies m.run(front.take(k)).free_cells().contains(
            front[k],
        ) by {
            assert(front.take(k) =~= foods.take(k));
        }
        law_run_wf(m, front);
        assert(foods.take(foods.len() - 1) =~= front);
        lemma_tick_wf(m.run(front), foods.last());
    }
}

/// As long as the snake has fewer cells than the field, some cell is free
/// for the food.
pub proof fn law_room_for_food(m: GameModel)
    requires
        m.space == grid_cells(),
        m.body.len() < cell_count(),
    ensures
        m.free_cells().len() > 0,
{
    if m.free_cells().len() == 0 {
        lemma_grid_cells_distinct();
        grid_cells().unique_seq_to_set();
        m.body.lemma_cardinality_of_set();
        assert forall|p: Point| grid_cells().to_set().contains(p) implies m.body.to_set().contains(
            p,
        ) by {
            lemma_free_cells(m, p);
            if !m.body.contains(p) {
                let i = choose|i: int| 0 <= i < m.free_cells().len() && m.free_cells()[i] == p;
            }
        }
        vstd::set_lib::lemma_len_subset(grid_cells().to_set(), m.body.to_set());
    }
}

/// Each direction is one step along one axis, and its reverse undoes it.
pub proof fn law_steps_are_unit(d: PlayerDirection)
    ensures
        d.reverse().reverse() == d,
        d.reverse() != d,
        d.step().0 + d.reverse().step().0 == 0,
        d.step().1 + d.reverse().step().1 == 0,
        (d.step().0 == 0 && (d.step().1 == 1 || d.step().1 == -1)) || (d.step().1 == 0 && (
        d.step().0 == 1 || d.step().0 == -1)),
{
}

/// Every cell of the field can be drawn, and the squares of two different
/// cells start at different pixels.
pub proof fn law_field_is_drawable(p: Point, q: Point)
    requires
        in_grid(p),
        in_grid(q),
    ensures
        drawable(p),
        p != q ==> p.0 * DOT_SIZE_IN_PX != q.0 * DOT_SIZE_IN_PX || p.1 * DOT_SIZE_IN_PX != q.1
            * DOT_SIZE_IN_PX,
{
}

} // verus!
