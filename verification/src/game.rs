//! The game itself: its state, and the operations that are the only way to
//! change it.

use crate::direction::{GameState, PlayerDirection};
use crate::grid::{grid_cell, grid_cells, in_grid, lemma_grid_cells_distinct, on_grid, ACC_RATE,
    GRID_X_SIZE, GRID_Y_SIZE, INITIAL_SPEED, TOP_SPEED};
use crate::model::{lemma_body_fits, lemma_feed_has_free_cell, lemma_initial_wf, lemma_tick_wf,
    off_body, GameModel, TickOutcome};
use crate::point::Point;
use crate::random::random_index;
use vstd::prelude::*;

verus! {

/// One game of snake.
#[derive(Clone, Debug, PartialEq, Eq)]
pub struct GameContext {
    /// The cells of the snake, head first.
    pub player_position: Vec<Point>,
    /// The way the snake is heading.
    pub player_direction: PlayerDirection,
    /// How often the snake has eaten in this game.
    pub score: u32,
    /// Where the food lies.
    pub food: Point,
    /// The phase of the game.
    pub state: GameState,
    /// Every cell of the field.
    pub space: Vec<Point>,
    /// Frames per tick: the lower, the faster.
    pub speed: u32,
}

impl View for GameContext {
    type V = GameModel;

    open spec fn view(&self) -> GameModel {
        GameModel {
            body: self.player_position@,
            direction: self.player_direction,
            score: self.score as nat,
            food: self.food,
            state: self.state,
            space: self.space@,
            speed: self.speed as nat,
        }
    }
}

/// Whether `p` is one of `cells`.
fn occupies(cells: &Vec<Point>, p: Point) -> (found: bool)
    ensures
        found == cells@.contains(p),
{
    let mut i: usize = 0;
    while i < cells.len()
        invariant
            i <= cells.len(),
            forall|k: int| 0 <= k < i ==> cells@[k] != p,
        decreases cells.len() - i,
    {
        if cells[i] == p {
            return true;
        }
        i += 1;
    }
    false
}

impl GameContext {
    /// Whether this is a state that a game can be in; see `GameModel::wf`.
    /// `new` gives such a state and every operation keeps it so.
    pub open spec fn wf(&self) -> bool {
        self@.wf()
    }

    /// Every cell of the field, column by column.
    pub fn getspace() -> (space: Vec<Point>)
        ensures
            space@ == grid_cells(),
    {
        let mut spacevec: Vec<Point> = Vec::with_capacity((GRID_X_SIZE * GRID_Y_SIZE) as usize);
        for x in 0..GRID_X_SIZE
            invariant
                spacevec@.len() == x * GRID_Y_SIZE,
                forall|k: int| 0 <= k < spacevec@.len() ==> spacevec@[k] == grid_cell(k),
        {
            for y in 0..GRID_Y_SIZE
                invariant
                    x < GRID_X_SIZE,
                    spacevec@.len() == x * GRID_Y_SIZE + y,
                    forall|k: int| 0 <= k < spacevec@.len() ==> spacevec@[k] == grid_cell(k),
            {
                spacevec.push(Point(x as i32, y as i32));
            }
        }
        assert(spacevec@ =~= grid_cells());
        spacevec
    }

    /// A new game: a snake of three cells heading right, paused.
    pub fn new() -> (game: GameContext)
        ensures
            game@ == GameModel::initial(),
            game.wf(),
    {
        let game = GameContext {
            player_position: vec![Point(3, 1), Point(2, 1), Point(1, 1)],
            player_direction: PlayerDirection::Right,
            score: 0,
            state: GameState::Paused,
            food: Point(3, 3),
            space: Self::getspace(),
            speed: INITIAL_SPEED,
        };
        proof {
            assert(game@.body =~= GameModel::initial().body);
            lemma_initial_wf();
        }
        game
    }

    /// What the next tick will do.
    pub fn outcome(&self) -> (outcome: TickOutcome)
        requires
            self.wf(),
        ensures
            outcome == self@.outcome(),
    {
        if let GameState::Paused = self.state {
            return TickOutcome::Idle;
        }
        let next_head_position = self.player_position[0] + self.player_direction.vector();
        if !on_grid(next_head_position) || occupies(&self.player_position, next_head_position) {
            TickOutcome::Crash
        } else if next_head_position != self.food {
            TickOutcome::Advance
        } else {
            TickOutcome::Feed
        }
    }

    /// One tick, with `new_food` as the cell on which the food reappears if
    /// the snake eats. A paused game stays as it is. Otherwise the head
    /// moves one cell in the current direction: into a wall or the body, and
    /// the game is over with the snake left where it was; onto the food, and
    /// the snake grows, the score rises and the game quickens; anywhere
    /// else, and the tail follows.
    pub fn next_tick_with(&mut self, new_food: Point)
        requires
            old(self).wf(),
            old(self)@.outcome() == TickOutcome::Feed ==> old(self)@.free_cells().contains(new_food),
        ensures
            final(self)@ == old(self)@.tick(new_food),
            final(self).wf(),
    {
        proof {
            lemma_tick_wf(self@, new_food);
            lemma_body_fits(self@);
        }
        if let GameState::Paused = self.state {
            return ;
        }
        let next_head_position = self.player_position[0] + self.player_direction.vector();
        if !on_grid(next_head_position) || occupies(&self.player_position, next_head_position) {
            self.state = GameState::Over;
            return ;
        }
        if next_head_position != self.food {
            self.player_position.pop();
            assert(self.player_position@ =~= old(self)@.body.drop_last());
        } else {
            self.food = new_food;
            self.score += 1;
            if self.speed - ACC_RATE >= TOP_SPEED {
                self.speed -= ACC_RATE;
            }
        }
        let ghost tail = self.player_position@;
        self.player_position.insert(0, next_head_position);
        assert(self.player_position@ =~= seq![next_head_position] + tail);
    }

    /// One tick, with the food reappearing on a free cell drawn at random
    /// if the snake eats.
    pub fn next_tick(&mut self)
        requires
            old(self).wf(),
        ensures
            old(self)@.ticks_to(final(self)@),
            old(self).state == GameState::Paused ==> final(self)@ == old(self)@,
            final(self).wf(),
    {
        let new_food = match self.outcome() {
            TickOutcome::Feed => {
                proof {
                    lemma_feed_has_free_cell(self@);
                }
                self.getfreespace()
            },
            _ => self.food,
        };
        self.next_tick_with(new_food);
    }

    /// The cells on which no part of the snake lies, in the order of
    /// `space`.
    pub fn free_cells(&self) -> (free: Vec<Point>)
        ensures
            free@ == self@.free_cells(),
    {
        let ghost keep = off_body(self.player_position@);
        let mut free: Vec<Point> = Vec::new();
        assert(self.space@.take(0).filter(keep) =~= Seq::<Point>::empty()) by {
            reveal(Seq::filter);
        }
        for i in 0..self.space.len()
            invariant
                keep == off_body(self.player_position@),
                free@ == self.space@.take(i as int).filter(keep),
        {
            let cell = self.space[i];
            proof {
                let seen = self.space@.take(i + 1);
                assert(seen.drop_last() =~= self.space@.take(i as int));
                assert(seen.last() == cell);
                reveal(Seq::filter);
            }
            if !occupies(&self.player_position, cell) {
                free.push(cell);
            }
        }
        assert(self.space@.take(self.space@.len() as int) =~= self.space@);
        free
    }

    /// A free cell, each with the same chance. The game is left as it is.
    pub fn getfreespace(&mut self) -> (cell: Point)
        requires
            old(self)@.free_cells().len() > 0,
        ensures
            old(self)@.free_cells().contains(cell),
            *final(self) == *old(self),
    {
        let free = self.free_cells();
        let pick = random_index(free.len());
        free[pick]
    }

    /// Sets everything but the phase back to the start of a game.
    pub fn restartgame(&mut self)
        ensures
            final(self)@ == old(self)@.restarted(),
            final(self).wf(),
    {
        self.player_position = vec![Point(3, 1), Point(2, 1), Point(1, 1)];
        self.player_direction = PlayerDirection::Right;
        self.food = Point(3, 3);
        self.space = Self::getspace();
        self.score = 0;
        self.speed = INITIAL_SPEED;
        proof {
            assert(self@.body =~= GameModel::initial().body);
            lemma_initial_wf();
        }
    }

    /// The pause key: pauses a running game, resumes a paused one, and
    /// starts a game that is over anew, paused.
    pub fn toggle_pause(&mut self)
        ensures
            final(self)@ == old(self)@.toggled(),
            old(self).wf() || old(self).state == GameState::Over ==> final(self).wf(),
    {
        self.state = match self.state {
            GameState::Paused => GameState::Playing,
            GameState::Playing => GameState::Paused,
            GameState::Over => {
                self.restartgame();
                GameState::Paused
            },
        }
    }

    /// Asks the snake to head towards `wanted`. The request is granted
    /// unless it is the reverse of the current heading; it moves nothing.
    pub fn turn(&mut self, wanted: PlayerDirection)
        ensures
            final(self)@ == old(self)@.turned(wanted),
            old(self).wf() ==> final(self).wf(),
    {
        if wanted != self.player_direction.opposite() {
            self.player_direction = wanted;
        }
    }

    /// Asks the snake to head up; ignored while it heads down.
    pub fn move_up(&mut self)
        ensures
            final(self)@ == old(self)@.turned(PlayerDirection::Up),
            old(self).wf() ==> final(self).wf(),
    {
        self.turn(PlayerDirection::Up);
    }

    /// Asks the snake to head down; ignored while it heads up.
    pub fn move_down(&mut self)
        ensures
            final(self)@ == old(self)@.turned(PlayerDirection::Down),
            old(self).wf() ==> final(self).wf(),
    {
        self.turn(PlayerDirection::Down);
    }

    /// Asks the snake to head left; ignored while it heads right.
    pub fn move_left(&mut self)
        ensures
            final(self)@ == old(self)@.turned(PlayerDirection::Left),
            old(self).wf() ==> final(self).wf(),
    {
        self.turn(PlayerDirection::Left);
    }

    /// Asks the snake to head right; ignored while it heads left.
    pub fn move_right(&mut self)
        ensures
            final(self)@ == old(self)@.turned(PlayerDirection::Right),
            old(self).wf() ==> final(self).wf(),
    {
        self.turn(PlayerDirection::Right);
    }

    /// Whether the game is in a state that a game can be in. It tells a
    /// caller at run time whether the operations that ask for `wf` may be
    /// called.
    pub fn is_wf(&self) -> (ok: bool)
        ensures
            ok == self.wf(),
    {
        proof {
            lemma_grid_cells_distinct();
        }
        if self.space.len() != (GRID_X_SIZE * GRID_Y_SIZE) as usize {
            return false;
        }
        for i in 0..self.space.len()
            invariant
                self.space@.len() == grid_cells().len(),
                forall|k: int| 0 <= k < i ==> self.space@[k] == grid_cell(k),
        {
            let cell = Point((i / GRID_Y_SIZE as usize) as i32, (i % GRID_Y_SIZE as usize) as i32);
            assert(cell == grid_cell(i as int));
            if self.space[i] != cell {
                assert(self.space@[i as int] != grid_cells()[i as int]);
                return false;
            }
        }
        assert(self.space@ =~= grid_cells());
        if self.player_position.len() as u64 != self.score as u64 + 3 {
            return false;
        }
        for i in 0..self.player_position.len()
            invariant
                forall|k: int| 0 <= k < i ==> in_grid(#[trigger] self.player_position@[k]),
                forall|k: int, l: int| 0 <= l < k < i ==> self.player_position@[k] != self.player_position@[l],
        {
            if !on_grid(self.player_position[i]) {
                return false;
            }
            for j in 0..i
                invariant
                    i < self.player_position.len(),
                    forall|l: int| 0 <= l < j ==> self.player_position@[i as int] != self.player_position@[l],
            {
                if self.player_position[i] == self.player_position[j] {
                    return false;
                }
            }
        }
        on_grid(self.food) && TOP_SPEED <= self.speed && self.speed <= INITIAL_SPEED
    }

    /// One frame of a loop that runs faster than the game: counts the
    /// frame, and if the count is then a multiple of `speed`, runs one tick
    /// and starts counting again. Returns the new count.
    pub fn next_frame(&mut self, frame_counter: u32) -> (counter: u32)
        requires
            old(self).wf(),
            frame_counter < u32::MAX,
        ensures
            final(self).wf(),
            tick_due(frame_counter, old(self).speed) ==> counter == 0 && old(self)@.ticks_to(
                final(self)@,
            ),
            !tick_due(frame_counter, old(self).speed) ==> counter == frame_counter + 1
                && *final(self) == *old(self),
    {
        let counter = frame_counter + 1;
        if counter % self.speed == 0 {
            self.next_tick();
            0
        } else {
            counter
        }
    }
}

/// Whether the frame that follows `frame_counter` counted frames brings a
/// tick, at `speed` frames per tick.
pub open spec fn tick_due(frame_counter: u32, speed: u32) -> bool {
    (frame_counter + 1) % (speed as int) == 0
}

} // verus!
