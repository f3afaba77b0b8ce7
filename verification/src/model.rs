//! The game as mathematics: a state, and the functions that say what each
//! operation makes of it. The executable game is specified against these.

use crate::direction::{GameState, PlayerDirection};
use crate::grid::{cell_count, grid_cells, in_grid, lemma_distinct_cells_fit,
    lemma_grid_cells_are_the_field, ACC_RATE, INITIAL_SPEED, TOP_SPEED};
use crate::point::Point;
use vstd::prelude::*;

verus! {

/// What one tick does to a game.
#[derive(Clone, Copy, Debug, PartialEq, Eq, Structural)]
pub enum TickOutcome {
    /// The game is paused: nothing happens.
    Idle,
    /// The head would leave the field or run into the body: the game is over.
    Crash,
    /// The snake moves one cell on.
    Advance,
    /// The snake moves onto the food and grows by one cell.
    Feed,
}

/// The state of a game.
pub struct GameModel {
    /// The cells of the snake, head first.
    pub body: Seq<Point>,
    /// The way the snake is heading.
    pub direction: PlayerDirection,
    /// How often the snake has eaten in this game.
    pub score: nat,
    /// Where the food lies.
    pub food: Point,
    /// The phase of the game.
    pub state: GameState,
    /// The cells among which food is placed.
    pub space: Seq<Point>,
    /// Frames per tick.
    pub speed: nat,
}

/// The test that holds of the cells on which no part of `body` lies.
pub open spec fn off_body(body: Seq<Point>) -> spec_fn(Point) -> bool {
    |p: Point| !body.contains(p)
}

/// The body after the snake has moved its head to `head` and let go of its
/// last cell.
pub open spec fn shifted(body: Seq<Point>, head: Point) -> Seq<Point> {
    seq![head] + body.drop_last()
}

/// The body after the snake has moved its head to `head` and kept its tail.
pub open spec fn grown(body: Seq<Point>, head: Point) -> Seq<Point> {
    seq![head] + body
}

/// The speed after the snake has eaten: one step quicker, unless that would
/// pass the top speed.
pub open spec fn quickened(speed: nat) -> nat {
    if speed - ACC_RATE >= TOP_SPEED {
        (speed - ACC_RATE) as nat
    } else {
        speed
    }
}

impl GameModel {
    /// The state in which every game begins.
    pub open spec fn initial() -> GameModel {
        GameModel {
            body: seq![Point(3, 1), Point(2, 1), Point(1, 1)],
            direction: PlayerDirection::Right,
            score: 0,
            food: Point(3, 3),
            state: GameState::Paused,
            space: grid_cells(),
            speed: INITIAL_SPEED as nat,
        }
    }

    /// What holds of every state that a game can reach: the snake lies on
    /// the field and crosses itself nowhere, it has grown by one cell for
    /// each time it has eaten, the food lies on the field, the speed is
    /// between the initial and the top speed, and `space` lists the field.
    pub open spec fn wf(self) -> bool {
        &&& self.space == grid_cells()
        &&& self.body.len() == self.score + Self::initial().body.len()
        &&& forall|i: int| 0 <= i < self.body.len() ==> in_grid(#[trigger] self.body[i])
        &&& self.body.no_duplicates()
        &&& in_grid(self.food)
        &&& TOP_SPEED <= self.speed <= INITIAL_SPEED
    }

    /// The cell the head is on.
    pub open spec fn head(self) -> Point {
        self.body[0]
    }

    /// The cell the head moves to at the next tick.
    pub open spec fn next_head(self) -> Point {
        self.head().plus(self.direction.step())
    }

    /// Whether the head cannot move on: the next cell is off the field or
    /// part of the body.
    pub open spec fn blocked(self) -> bool {
        !in_grid(self.next_head()) || self.body.contains(self.next_head())
    }

    /// What the next tick does.
    pub open spec fn outcome(self) -> TickOutcome {
        if self.state == GameState::Paused {
            TickOutcome::Idle
        } else if self.blocked() {
            TickOutcome::Crash
        } else if self.next_head() != self.food {
            TickOutcome::Advance
        } else {
            TickOutcome::Feed
        }
    }

    /// The cells of `space` on which no part of the snake lies, in the
    /// order of `space`.
    pub open spec fn free_cells(self) -> Seq<Point> {
        self.space.filter(off_body(self.body))
    }

    /// The state after a tick that ends the game.
    pub open spec fn crashed(self) -> GameModel {
        GameModel { state: GameState::Over, ..self }
    }

    /// The state after a tick that moves the snake one cell on.
    pub open spec fn advanced(self) -> GameModel {
        GameModel { body: shifted(self.body, self.next_head()), ..self }
    }

    /// The state after a tick in which the snake eats and the food
    /// reappears at `new_food`.
    pub open spec fn fed(self, new_food: Point) -> GameModel {
        GameModel {
            body: grown(self.body, self.next_head()),
            food: new_food,
            score: self.score + 1,
            speed: quickened(self.speed),
            ..self
        }
    }

    /// The state after one tick. `new_food` is where the food reappears if
    /// the snake eats; otherwise it plays no part.
    pub open spec fn tick(self, new_food: Point) -> GameModel {
        match self.outcome() {
            TickOutcome::Idle => self,
            TickOutcome::Crash => self.crashed(),
            TickOutcome::Advance => self.advanced(),
            TickOutcome::Feed => self.fed(new_food),
        }
    }

    /// Whether one tick can lead from this state to `after`: it does what
    /// `tick` says, and if the snake eats, the food reappears on one of the
    /// free cells.
    pub open spec fn ticks_to(self, after: GameModel) -> bool {
        &&& after == self.tick(after.food)
        &&& self.outcome() == TickOutcome::Feed ==> self.free_cells().contains(after.food)
    }

    /// The state after a request to head towards `wanted`: granted, unless
    /// it asks the snake to turn back on itself.
    pub open spec fn turned(self, wanted: PlayerDirection) -> GameModel {
        if wanted == self.direction.reverse() {
            self
        } else {
            GameModel { direction: wanted, ..self }
        }
    }

    /// The state after everything but the phase is set back to the start.
    pub open spec fn restarted(self) -> GameModel {
        GameModel { state: self.state, ..Self::initial() }
    }

    /// The state after the pause key: a running game pauses, a paused one
    /// runs, and one that is over starts anew, paused.
    pub open spec fn toggled(self) -> GameModel {
        match self.state {
            GameState::Paused => GameModel { state: GameState::Playing, ..self },
            GameState::Playing => GameModel { state: GameState::Paused, ..self },
            GameState::Over => GameModel { state: GameState::Paused, ..self.restarted() },
        }
    }
}

/// A cell is in what a filter keeps exactly if it is in the sequence and
/// passes the test.
pub proof fn lemma_filter_membership(cells: Seq<Point>, keep: spec_fn(Point) -> bool, p: Point)
    ensures
        cells.filter(keep).contains(p) <==> cells.contains(p) && keep(p),
    decreases cells.len(),
{
    reveal(Seq::filter);
    if cells.len() > 0 {
        let front = cells.drop_last();
        lemma_filter_membership(front, keep, p);
        let kept = front.filter(keep);
        if cells.filter(keep).contains(p) {
            let i = choose|i: int| 0 <= i < cells.filter(keep).len() && cells.filter(keep)[i] == p;
            if i < kept.len() {
                assert(kept[i] == p);
                let j = choose|j: int| 0 <= j < front.len() && front[j] == p;
                assert(cells[j] == p);
            } else {
                assert(cells[cells.len() - 1] == p);
            }
        }
        if cells.contains(p) && keep(p) {
            let j = choose|j: int| 0 <= j < cells.len() && cells[j] == p;
            if j < front.len() {
                assert(front[j] == p);
                let i = choose|i: int| 0 <= i < kept.len() && kept[i] == p;
                assert(cells.filter(keep)[i] == p);
            } else {
                assert(cells.filter(keep)[kept.len() as int] == p);
            }
        }
    }
}

/// A cell is free exactly if it is in `space` and no part of the snake
/// lies on it.
pub proof fn lemma_free_cells(m: GameModel, p: Point)
    ensures
        m.free_cells().contains(p) <==> m.space.contains(p) && !m.body.contains(p),
{
    lemma_filter_membership(m.space, off_body(m.body), p);
}

/// The start of a game is a state as `wf` describes.
pub proof fn lemma_initial_wf()
    ensures
        GameModel::initial().wf(),
{
    let body = GameModel::initial().body;
    assert(body[0] == Point(3, 1) && body[1] == Point(2, 1) && body[2] == Point(1, 1));
}

/// In a well-formed state the snake has no more cells than the field, and
/// the score counts those it has gained.
pub proof fn lemma_body_fits(m: GameModel)
    requires
        m.wf(),
    ensures
        3 <= m.body.len() <= cell_count(),
        m.score + 3 <= cell_count(),
{
    lemma_distinct_cells_fit(m.body);
}

/// When the snake is about to eat, the cell it moves to is free: there is
/// always a cell for the food to reappear on.
pub proof fn lemma_feed_has_free_cell(m: GameModel)
    requires
        m.wf(),
        m.outcome() == TickOutcome::Feed,
    ensures
        m.free_cells().contains(m.next_head()),
        m.free_cells().len() > 0,
{
    lemma_grid_cells_are_the_field(m.next_head());
    lemma_free_cells(m, m.next_head());
}

/// A tick keeps a well-formed state well-formed, wherever among the free
/// cells the food reappears.
pub proof fn lemma_tick_wf(m: GameModel, new_food: Point)
    requires
        m.wf(),
        m.outcome() == TickOutcome::Feed ==> m.free_cells().contains(new_food),
    ensures
        m.tick(new_food).wf(),
{
    let next = m.next_head();
    match m.outcome() {
        TickOutcome::Idle => {},
        TickOutcome::Crash => {},
        TickOutcome::Advance => {
            let body = shifted(m.body, next);
            assert forall|i: int| 0 <= i < body.len() implies in_grid(#[trigger] body[i]) by {
                if i > 0 {
                    assert(body[i] == m.body[i - 1]);
                }
            }
            assert forall|i: int, j: int| 0 <= i < body.len() && 0 <= j < body.len() && i != j implies body[i]
                != body[j] by {
                if i > 0 {
                    assert(body[i] == m.body[i - 1]);
                }
                if j > 0 {
                    assert(body[j] == m.body[j - 1]);
                }
            }
        },
        TickOutcome::Feed => {
            let body = grown(m.body, next);
            assert forall|i: int| 0 <= i < body.len() implies in_grid(#[trigger] body[i]) by {
                if i > 0 {
                    assert(body[i] == m.body[i - 1]);
                }
            }
            assert forall|i: int, j: int| 0 <= i < body.len() && 0 <= j < body.len() && i != j implies body[i]
                != body[j] by {
                if i > 0 {
                    assert(body[i] == m.body[i - 1]);
                }
                if j > 0 {
                    assert(body[j] == m.body[j - 1]);
                }
            }
            lemma_free_cells(m, new_food);
            lemma_grid_cells_are_the_field(new_food);
        },
    }
}

} // verus!
