//! The loop around the game: when it runs, what one round does, and how
//! long it rests.

use vstd::prelude::*;
use crate::game::{lemma_tick_keeps_wf, Game, GameState};
use crate::grid::on_grid;
use crate::input::{process_input, Key};
use crate::render::{draw_game, frame_paints, Paint};

verus! {

/// Nanoseconds that one round of the loop lasts at least.
pub const FRAME_BUDGET_NANOS: u64 = 100_000_000;

/// Milliseconds that one round waits for a key press at most.
pub const INPUT_TIMEOUT_MILLIS: u64 = 100;

/// Whether the loop goes on.
#[derive(Clone, Copy, Debug, PartialEq, Eq, Structural)]
pub enum Phase {
    Running,
    Stopped,
}

impl GameState {
    /// The loop runs until the run is over.
    pub open spec fn phase(self) -> Phase {
        if self.game_over {
            Phase::Stopped
        } else {
            Phase::Running
        }
    }

    /// The state after the rounds of `rounds`, in order. A round is what the
    /// keyboard brought, then one tick with its target for the food.
    pub open spec fn after_rounds(self, rounds: Seq<(Option<Key>, (int, int))>) -> GameState
        decreases rounds.len(),
    {
        if rounds.len() == 0 {
            self
        } else {
            self.after_rounds(rounds.drop_last()).after_event(rounds.last().0).after_tick(
                rounds.last().1,
            )
        }
    }
}

/// How long the loop rests after a round that took `elapsed` nanoseconds:
/// what is left of the budget, and nothing once the budget is spent.
pub open spec fn spec_pacing_sleep(elapsed: int) -> int {
    if elapsed < FRAME_BUDGET_NANOS {
        FRAME_BUDGET_NANOS - elapsed
    } else {
        0
    }
}

/// How long the loop rests, in nanoseconds, after a round that took
/// `elapsed_nanos`.
pub fn pacing_sleep(elapsed_nanos: u128) -> (rest: u64)
    ensures
        rest == spec_pacing_sleep(elapsed_nanos as int),
{
    if elapsed_nanos < FRAME_BUDGET_NANOS as u128 {
        FRAME_BUDGET_NANOS - elapsed_nanos as u64
    } else {
        0
    }
}

impl Game {
    /// Whether the loop goes on with this game.
    pub fn phase(&self) -> (p: Phase)
        ensures
            p == self@.phase(),
    {
        if self.game_over {
            Phase::Stopped
        } else {
            Phase::Running
        }
    }
}

/// One round of the loop after the keyboard has been looked at: applies the
/// key press, if there was one, advances the game by one tick and returns
/// the instructions that repaint the screen.
pub fn tick(game: &mut Game, event: Option<Key>) -> (ops: Vec<Paint>)
    requires
        old(game)@.snake.len() > 0,
    ensures
        old(game)@.after_event(event).ticks_to(final(game)@),
        ops@ == frame_paints(final(game)@.frame()),
        old(game)@.wf() ==> final(game)@.wf(),
{
    process_input(game, event);
    game.update();
    draw_game(game)
}

/// Over any number of rounds whose targets lie on the playfield, a game
/// that starts well formed stays so, and no round turns the heading
/// straight back.
pub proof fn lemma_rounds_keep_wf(start: GameState, rounds: Seq<(Option<Key>, (int, int))>, i: int)
    requires
        start.wf(),
        forall|k: int| 0 <= k < rounds.len() ==> on_grid(#[trigger] rounds[k].1),
        0 <= i < rounds.len(),
    ensures
        start.after_rounds(rounds.take(i)).wf(),
        start.after_rounds(rounds.take(i + 1)) == start.after_rounds(rounds.take(i)).after_event(
            rounds[i].0,
        ).after_tick(rounds[i].1),
        start.after_rounds(rounds.take(i + 1)).wf(),
        start.after_rounds(rounds.take(i + 1)).direction != start.after_rounds(
            rounds.take(i),
        ).direction.opposite(),
    decreases i,
{
    assert(rounds.take(i + 1).drop_last() =~= rounds.take(i));
    assert(rounds.take(i + 1).last() == rounds[i]);
    if i > 0 {
        lemma_rounds_keep_wf(start, rounds, i - 1);
    } else {
        assert(rounds.take(0).len() == 0);
    }
    let before = start.after_rounds(rounds.take(i));
    let steered = before.after_event(rounds[i].0);
    lemma_tick_keeps_wf(steered, rounds[i].1);
}

} // verus!
