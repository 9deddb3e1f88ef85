//! Laws of the game's rules, stated over the model of a game.
use crate::board::{Snek, on_wall, inside};
use crate::direction::{Command, Key, command_of};
use crate::game::{GameView, Outcome, Phase};
use vstd::prelude::*;

verus! {

/// A tick in which the snake does not eat leaves its length unchanged.
pub proof fn lemma_tick_keeps_length(v: GameView, fresh: Snek)
    requires
        v.wf(),
        v.phase == Phase::Running,
        !v.eats(),
    ensures
        v.after_tick(fresh).snake.len() == v.snake.len(),
{
}

/// A tick in which the head lands on the food makes the snake one segment
/// longer, and the food stays inside the wall ring: at `fresh` unless the
/// game was lost.
pub proof fn lemma_tick_grows(v: GameView, fresh: Snek)
    requires
        v.wf(),
        v.phase == Phase::Running,
        v.eats(),
        inside(fresh),
    ensures
        v.after_tick(fresh).snake.len() == v.snake.len() + 1,
        inside(v.after_tick(fresh).apple),
        v.after_tick(fresh).phase == Phase::Running ==> v.after_tick(fresh).apple == fresh,
{
}

/// A key that asks to reverse the heading changes nothing, whatever the phase.
pub proof fn lemma_reversal_refused(v: GameView, k: Key)
    requires
        command_of(k) == Command::Turn(v.direction.opposite()),
    ensures
        v.after_key(k) == v,
{
}

/// A head that steps onto the wall ring loses the game in that tick.
pub proof fn lemma_wall_loses(v: GameView, fresh: Snek)
    requires
        on_wall(v.next_head()),
    ensures
        v.after_tick(fresh).phase == Phase::Over(Outcome::Lost),
{
}

/// A head that steps onto another segment of the snake loses the game in
/// that tick.
pub proof fn lemma_bite_loses(v: GameView, fresh: Snek, i: int)
    requires
        1 <= i < v.moved_snake().len(),
        v.moved_snake()[i] == v.next_head(),
    ensures
        v.after_tick(fresh).phase == Phase::Over(Outcome::Lost),
{
    assert(v.moved_snake()[0] == v.next_head());
}

/// The quit key ends a running or paused game as quit.
pub proof fn lemma_quit_ends(v: GameView, k: Key)
    requires
        v.live(),
        command_of(k) == Command::Quit,
    ensures
        v.after_key(k).phase == Phase::Over(Outcome::Quit),
{
}

/// While paused, every key but pause and quit leaves the game as it is.
pub proof fn lemma_pause_holds(v: GameView, k: Key)
    requires
        v.phase == Phase::Paused,
        command_of(k) != Command::Pause,
        command_of(k) != Command::Quit,
    ensures
        v.after_key(k) == v,
{
}

} // verus!
