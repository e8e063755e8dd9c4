//! The keyboard: what each key asks for and what the game makes of it.

use vstd::prelude::*;
use crate::game::{Game, GameState};
use crate::grid::Direction;

verus! {

/// A key press, as the rules see it.
#[derive(Clone, Copy, Debug, PartialEq, Eq)]
pub enum Key {
    /// A character key.
    Char(char),
    Up,
    Down,
    Left,
    Right,
    /// Any other key.
    Other,
}

/// The character that ends the run.
pub const QUIT_KEY: char = 'q';

impl Key {
    /// The heading an arrow key asks for; `None` for every other key.
    pub open spec fn spec_wanted(self) -> Option<Direction> {
        match self {
            Key::Up => Some(Direction::Up),
            Key::Down => Some(Direction::Down),
            Key::Left => Some(Direction::Left),
            Key::Right => Some(Direction::Right),
            _ => None,
        }
    }

    /// Whether this key ends the run.
    pub open spec fn spec_quits(self) -> bool {
        self == Key::Char(QUIT_KEY)
    }

    /// The heading an arrow key asks for; `None` for every other key.
    #[verifier::when_used_as_spec(spec_wanted)]
    pub fn wanted(self) -> (r: Option<Direction>)
        ensures
            r == self.spec_wanted(),
    {
        match self {
            Key::Up => Some(Direction::Up),
            Key::Down => Some(Direction::Down),
            Key::Left => Some(Direction::Left),
            Key::Right => Some(Direction::Right),
            _ => None,
        }
    }

    /// Whether this key ends the run.
    #[verifier::when_used_as_spec(spec_quits)]
    pub fn quits(self) -> (r: bool)
        ensures
            r == self.spec_quits(),
    {
        match self {
            Key::Char(c) => c == QUIT_KEY,
            _ => false,
        }
    }
}

impl GameState {
    /// The state after one key press. The quit key ends the run; an arrow
    /// steers, unless it points straight back; any other key does nothing.
    pub open spec fn after_key(self, key: Key) -> GameState {
        if key.quits() {
            GameState {
                snake: self.snake,
                food: self.food,
                direction: self.direction,
                game_over: true,
            }
        } else {
            match key.wanted() {
                Some(wanted) => GameState {
                    snake: self.snake,
                    food: self.food,
                    direction: self.direction.steer(wanted),
                    game_over: self.game_over,
                },
                None => self,
            }
        }
    }

    /// The state after one look at the keyboard: `None` stands for a wait
    /// that ended without a key press.
    pub open spec fn after_event(self, event: Option<Key>) -> GameState {
        match event {
            Some(key) => self.after_key(key),
            None => self,
        }
    }

    /// The state after the keys of `keys`, pressed in order.
    pub open spec fn after_keys(self, keys: Seq<Key>) -> GameState
        decreases keys.len(),
    {
        if keys.len() == 0 {
            self
        } else {
            self.after_keys(keys.drop_last()).after_key(keys.last())
        }
    }
}

/// Applies one key press to the game.
pub fn handle_key(game: &mut Game, key: Key)
    ensures
        final(game)@ == old(game)@.after_key(key),
        final(game)@.direction != old(game)@.direction.opposite(),
        key.wanted() == Some(old(game)@.direction.opposite()) ==> final(game)@.direction == old(
            game,
        )@.direction,
        old(game)@.wf() ==> final(game)@.wf(),
{
    if key.quits() {
        game.game_over = true;
    } else {
        match key.wanted() {
            Some(wanted) => {
                game.direction = game.direction.steer(wanted);
            },
            None => {},
        }
    }
}

/// Applies what one look at the keyboard brought: at most one key press.
/// With `None` the game stays as it is.
pub fn process_input(game: &mut Game, event: Option<Key>)
    ensures
        final(game)@ == old(game)@.after_event(event),
        final(game)@.direction != old(game)@.direction.opposite(),
        event matches Some(key) && key.wanted() == Some(old(game)@.direction.opposite())
            ==> final(game)@.direction == old(game)@.direction,
        old(game)@.wf() ==> final(game)@.wf(),
{
    match event {
        Some(key) => handle_key(game, key),
        None => {},
    }
}

/// In any sequence of key presses, no press turns the heading straight
/// back, a press that asks for just that leaves the heading as it is, and
/// snake and food stay where they were.
pub proof fn lemma_keys_never_reverse(start: GameState, keys: Seq<Key>, i: int)
    requires
        0 <= i < keys.len(),
    ensures
        start.after_keys(keys.take(i + 1)) == start.after_keys(keys.take(i)).after_key(keys[i]),
        start.after_keys(keys.take(i + 1)).direction != start.after_keys(
            keys.take(i),
        ).direction.opposite(),
        keys[i].wanted() == Some(start.after_keys(keys.take(i)).direction.opposite())
            ==> start.after_keys(keys.take(i + 1)).direction == start.after_keys(
            keys.take(i),
        ).direction,
        start.after_keys(keys.take(i + 1)).snake == start.snake,
        start.after_keys(keys.take(i + 1)).food == start.food,
    decreases i,
{
    assert(keys.take(i + 1).drop_last() =~= keys.take(i));
    assert(keys.take(i + 1).last() == keys[i]);
    if i > 0 {
        lemma_keys_never_reverse(start, keys, i - 1);
    } else {
        assert(keys.take(0).len() == 0);
    }
}

} // verus!
