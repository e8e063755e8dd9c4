//! The state of a run and the step that advances it by one tick.

use vstd::prelude::*;
use crate::grid::{on_grid, point, shifted, step, Direction, GAME_HEIGHT, GAME_WIDTH};
use crate::rng::random_u16;

verus! {

/// The snake: its cells from head (index 0) to tail.
#[derive(Clone, Debug, PartialEq, Eq)]
pub struct Snake {
    pub body: Vec<(u16, u16)>,
}

/// The food: one cell.
#[derive(Clone, Copy, Debug, PartialEq, Eq)]
pub struct Food {
    pub x: u16,
    pub y: u16,
}

/// A run of the game. The fields are open to the caller; what a sound game
/// looks like is said by `GameState::wf`, which every step here keeps.
#[derive(Clone, Debug, PartialEq, Eq)]
pub struct Game {
    pub snake: Snake,
    pub food: Food,
    pub direction: Direction,
    pub game_over: bool,
}

/// What a `Game` stands for: positions as pairs of integers `(x, y)`.
pub struct GameState {
    pub snake: Seq<(int, int)>,
    pub food: (int, int),
    pub direction: Direction,
    pub game_over: bool,
}

impl View for Snake {
    type V = Seq<(int, int)>;

    open spec fn view(&self) -> Seq<(int, int)> {
        Seq::new(self.body@.len(), |i: int| point(self.body@[i]))
    }
}

impl View for Food {
    type V = (int, int);

    open spec fn view(&self) -> (int, int) {
        (self.x as int, self.y as int)
    }
}

impl View for Game {
    type V = GameState;

    open spec fn view(&self) -> GameState {
        GameState {
            snake: self.snake@,
            food: self.food@,
            direction: self.direction,
            game_over: self.game_over,
        }
    }
}

/// Where a pair of drawn numbers puts the food: each is reduced modulo the
/// size of the playfield in its axis.
pub open spec fn food_target(rx: u16, ry: u16) -> (int, int) {
    ((rx % GAME_WIDTH) as int, (ry % GAME_HEIGHT) as int)
}

impl GameState {
    /// The snake has a head, all its cells lie on the playfield, no two of
    /// them coincide, and the food lies on the playfield.
    pub open spec fn wf(self) -> bool {
        &&& self.snake.len() > 0
        &&& forall|i: int| 0 <= i < self.snake.len() ==> on_grid(#[trigger] self.snake[i])
        &&& self.snake.no_duplicates()
        &&& on_grid(self.food)
    }

    /// The position of the head.
    pub open spec fn head(self) -> (int, int) {
        self.snake[0]
    }

    /// The position the head moves to at the next tick: one cell from the
    /// head in the current direction.
    pub open spec fn next_head(self) -> (int, int) {
        shifted(self.head(), self.direction)
    }

    /// Whether the next tick ends the run: the head would leave the
    /// playfield or run into a cell of the snake as it is before the move.
    pub open spec fn crashes(self) -> bool {
        !on_grid(self.next_head()) || self.snake.contains(self.next_head())
    }

    /// Whether the next tick moves the head onto the food.
    pub open spec fn eats(self) -> bool {
        !self.crashes() && self.next_head() == self.food
    }

    /// The snake after the next tick. A crash leaves it as it is. Otherwise
    /// the new head goes in front, and the tail cell leaves unless the head
    /// has reached the food.
    pub open spec fn moved_snake(self) -> Seq<(int, int)> {
        if self.crashes() {
            self.snake
        } else if self.eats() {
            seq![self.next_head()] + self.snake
        } else {
            seq![self.next_head()] + self.snake.drop_last()
        }
    }

    /// The state after the snake has moved and before any food is placed
    /// anew.
    pub open spec fn advanced(self) -> GameState {
        GameState {
            snake: self.moved_snake(),
            food: self.food,
            direction: self.direction,
            game_over: self.game_over || self.crashes(),
        }
    }

    /// This state with the food at `p`.
    pub open spec fn with_food(self, p: (int, int)) -> GameState {
        GameState { snake: self.snake, food: p, direction: self.direction, game_over: self.game_over }
    }

    /// The state one tick later, where `target` is the cell that food
    /// eaten in this tick moves to.
    pub open spec fn after_tick(self, target: (int, int)) -> GameState {
        if self.eats() {
            self.advanced().with_food(target)
        } else {
            self.advanced()
        }
    }

    /// Whether `next` can be the state one tick after this one: the snake
    /// has moved, and the food stays unless it was eaten, in which case it
    /// lies anywhere on the playfield.
    pub open spec fn ticks_to(self, next: GameState) -> bool {
        &&& next.snake == self.moved_snake()
        &&& next.direction == self.direction
        &&& next.game_over == (self.game_over || self.crashes())
        &&& if self.eats() {
            on_grid(next.food)
        } else {
            next.food == self.food
        }
    }
}

/// Putting a cell that the snake does not hold in front of it keeps its
/// cells distinct, and so does dropping the tail afterwards.
proof fn lemma_move_keeps_distinct(s: Seq<(int, int)>, h: (int, int))
    requires
        s.len() > 0,
        s.no_duplicates(),
        !s.contains(h),
    ensures
        (seq![h] + s).no_duplicates(),
        (seq![h] + s.drop_last()).no_duplicates(),
{
    let grown = seq![h] + s;
    assert forall|i: int, j: int| 0 <= i < grown.len() && 0 <= j < grown.len() && i != j implies grown[i]
        != grown[j] by {
        if i > 0 {
            assert(grown[i] == s[i - 1]);
        }
        if j > 0 {
            assert(grown[j] == s[j - 1]);
        }
    }
    let moved = seq![h] + s.drop_last();
    assert forall|i: int, j: int| 0 <= i < moved.len() && 0 <= j < moved.len() && i != j implies moved[i]
        != moved[j] by {
        assert(moved[i] == grown[i]);
        assert(moved[j] == grown[j]);
    }
}

/// A tick whose target lies on the playfield keeps a game well formed.
pub proof fn lemma_tick_keeps_wf(before: GameState, target: (int, int))
    requires
        before.wf(),
        on_grid(target),
    ensures
        before.after_tick(target).wf(),
{
    if !before.crashes() {
        lemma_move_keeps_distinct(before.snake, before.next_head());
    }
}

/// A state follows another by one tick exactly if it is the state after a
/// tick with some target on the playfield.
pub proof fn lemma_ticks_to_is_after_tick(before: GameState, after: GameState)
    ensures
        before.ticks_to(after) <==> exists|target: (int, int)|
            on_grid(target) && after == #[trigger] before.after_tick(target),
{
    if before.ticks_to(after) {
        let target = if before.eats() {
            after.food
        } else {
            (0int, 0int)
        };
        assert(on_grid(target) && after == before.after_tick(target));
    }
}

/// Whatever numbers are drawn, the food lands on the playfield.
pub proof fn lemma_food_target_on_grid(rx: u16, ry: u16)
    ensures
        on_grid(food_target(rx, ry)),
{
}

/// Every cell of the playfield is where some pair of drawn numbers puts the
/// food: its own coordinates do.
pub proof fn lemma_food_target_reaches(p: (int, int))
    requires
        on_grid(p),
    ensures
        food_target(p.0 as u16, p.1 as u16) == p,
{
}

impl Snake {
    /// Whether one of the snake's cells is `(x, y)`.
    pub fn occupies(&self, x: u16, y: u16) -> (r: bool)
        ensures
            r == self@.contains((x as int, y as int)),
    {
        let mut i: usize = 0;
        while i < self.body.len()
            invariant
                i <= self.body.len(),
                forall|j: int| 0 <= j < i ==> self@[j] != (x as int, y as int),
            decreases self.body.len() - i,
        {
            let (sx, sy) = self.body[i];
            if sx == x && sy == y {
                assert(self@[i as int] == (x as int, y as int));
                return true;
            }
            i += 1;
        }
        false
    }
}

impl Game {
    /// A fresh run: three cells in row 2, heading right, food at `(10, 10)`.
    pub fn new() -> (game: Game)
        ensures
            game@.snake == seq![(2int, 2int), (3int, 2int), (4int, 2int)],
            game@.food == (10int, 10int),
            game@.direction == Direction::Right,
            !game@.game_over,
            game@.wf(),
    {
        let snake = Snake { body: vec![(2u16, 2u16), (3u16, 2u16), (4u16, 2u16)] };
        let food = Food { x: 10, y: 10 };
        let direction = Direction::Right;
        let game_over = false;
        let game = Game { snake, food, direction, game_over };
        assert(game@.snake =~= seq![(2int, 2int), (3int, 2int), (4int, 2int)]);
        game
    }

    /// Moves the snake by one cell and leaves the food where it is. Returns
    /// whether the head has reached the food, in which case the snake has
    /// grown by that cell.
    pub fn advance(&mut self) -> (ate: bool)
        requires
            old(self)@.snake.len() > 0,
        ensures
            final(self)@ == old(self)@.advanced(),
            ate == old(self)@.eats(),
            old(self)@.wf() ==> final(self)@.wf(),
    {
        let head = self.snake.body[0];
        assert(point(head) == self@.head());
        match step(head, self.direction) {
            None => {
                self.game_over = true;
                false
            },
            Some(next) => {
                if self.snake.occupies(next.0, next.1) {
                    self.game_over = true;
                    false
                } else {
                    proof {
                        if old(self)@.wf() {
                            lemma_move_keeps_distinct(old(self)@.snake, point(next));
                        }
                    }
                    self.snake.body.insert(0, next);
                    assert(self@.snake =~= seq![point(next)] + old(self)@.snake);
                    if next.0 == self.food.x && next.1 == self.food.y {
                        true
                    } else {
                        self.snake.body.pop();
                        assert(self@.snake =~= seq![point(next)] + old(self)@.snake.drop_last());
                        false
                    }
                }
            },
        }
    }

    /// Puts the food where the drawn numbers `rx` and `ry` say, and changes
    /// nothing else.
    pub fn relocate_food(&mut self, rx: u16, ry: u16)
        ensures
            final(self)@ == old(self)@.with_food(food_target(rx, ry)),
            on_grid(final(self)@.food),
    {
        self.food.x = rx % GAME_WIDTH;
        self.food.y = ry % GAME_HEIGHT;
    }

    /// One tick: moves the snake, and where the head has reached the food,
    /// puts the food on a cell of the playfield drawn at random. That cell
    /// may be one the snake holds.
    ///
    /// A head that would leave the playfield or run into the snake ends the
    /// run and leaves snake and food as they are. Any other move puts the
    /// head one cell further in the current direction; the snake keeps its
    /// length, or grows by one where it eats.
    pub fn update(&mut self)
        requires
            old(self)@.snake.len() > 0,
        ensures
            old(self)@.ticks_to(final(self)@),
            final(self)@.game_over <==> old(self)@.game_over || old(self)@.crashes(),
            old(self)@.crashes() ==> final(self)@.snake == old(self)@.snake && final(self)@.food
                == old(self)@.food,
            !old(self)@.crashes() ==> final(self)@.head() == old(self)@.next_head(),
            !old(self)@.crashes() && !old(self)@.eats() ==> final(self)@.snake.len() == old(
                self,
            )@.snake.len(),
            old(self)@.eats() ==> final(self)@.snake.len() == old(self)@.snake.len() + 1,
            old(self)@.eats() ==> on_grid(final(self)@.food),
            old(self)@.wf() ==> final(self)@.wf(),
    {
        let ate = self.advance();
        if ate {
            let rx = random_u16();
            let ry = random_u16();
            self.relocate_food(rx, ry);
        }
    }
}

} // verus!
