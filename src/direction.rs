//! Headings of the snake, the keymap, and the rule on turns.
use crate::board::{Snek, on_board, inside};
use vstd::prelude::*;

verus! {

/// The heading of the snake.
#[derive(Clone, Copy, Debug, PartialEq, Eq, Structural)]
pub enum Direction {
    Left,
    Down,
    Up,
    Right,
}

impl Direction {
    /// The heading runs along the x axis.
    pub open spec fn horizontal(self) -> bool {
        self is Left || self is Right
    }

    /// The heading along the same axis, the other way.
    pub open spec fn opposite(self) -> Direction {
        match self {
            Direction::Left => Direction::Right,
            Direction::Down => Direction::Up,
            Direction::Up => Direction::Down,
            Direction::Right => Direction::Left,
        }
    }

    /// A change of heading is allowed only onto the other axis: a reversal, and a
    /// repeat of the current heading, are refused.
    pub open spec fn allows(self, to: Direction) -> bool {
        self.horizontal() != to.horizontal()
    }

    /// The cell one step from `p` in this heading (`y` grows downwards).
    pub open spec fn moved(self, p: Snek) -> Snek {
        match self {
            Direction::Left => Snek { x: (p.x - 1) as u16, y: p.y },
            Direction::Down => Snek { x: p.x, y: (p.y + 1) as u16 },
            Direction::Up => Snek { x: p.x, y: (p.y - 1) as u16 },
            Direction::Right => Snek { x: (p.x + 1) as u16, y: p.y },
        }
    }

    /// Whether turning from `self` to `to` is allowed.
    pub fn accepts(self, to: Direction) -> (r: bool)
        ensures
            r == self.allows(to),
    {
        let h = match self {
            Direction::Left | Direction::Right => true,
            _ => false,
        };
        let to_h = match to {
            Direction::Left | Direction::Right => true,
            _ => false,
        };
        h != to_h
    }

    /// Moves one cell from an interior cell; the result is on the board.
    pub fn step(self, p: Snek) -> (r: Snek)
        requires
            inside(p),
        ensures
            r == self.moved(p),
            on_board(r),
    {
        match self {
            Direction::Left => Snek::new(p.x - 1, p.y),
            Direction::Down => Snek::new(p.x, p.y + 1),
            Direction::Up => Snek::new(p.x, p.y - 1),
            Direction::Right => Snek::new(p.x + 1, p.y),
        }
    }
}

/// A key as the game sees it.
#[derive(Clone, Copy, Debug, PartialEq, Eq, Structural)]
pub enum Key {
    Char(char),
    Left,
    Down,
    Up,
    Right,
    Esc,
    /// Any other key; it has no binding.
    Other,
}

/// What a key asks of the game.
#[derive(Clone, Copy, Debug, PartialEq, Eq, Structural)]
pub enum Command {
    Turn(Direction),
    /// Pause, or resume when paused.
    Pause,
    Quit,
    Nothing,
}

/// The keymap: `h a ←` left, `j s ↓` down, `k w ↑` up, `l d →` right,
/// `p`, space and Esc pause or resume, `q` quits. Letters are case-sensitive.
pub open spec fn command_of(k: Key) -> Command {
    match k {
        Key::Char(c) => {
            if c == 'h' || c == 'a' {
                Command::Turn(Direction::Left)
            } else if c == 'j' || c == 's' {
                Command::Turn(Direction::Down)
            } else if c == 'k' || c == 'w' {
                Command::Turn(Direction::Up)
            } else if c == 'l' || c == 'd' {
                Command::Turn(Direction::Right)
            } else if c == 'p' || c == ' ' {
                Command::Pause
            } else if c == 'q' {
                Command::Quit
            } else {
                Command::Nothing
            }
        },
        Key::Left => Command::Turn(Direction::Left),
        Key::Down => Command::Turn(Direction::Down),
        Key::Up => Command::Turn(Direction::Up),
        Key::Right => Command::Turn(Direction::Right),
        Key::Esc => Command::Pause,
        Key::Other => Command::Nothing,
    }
}

impl Key {
    /// The command bound to this key.
    pub fn command(self) -> (c: Command)
        ensures
            c == command_of(self),
    {
        match self {
            Key::Char(c) => {
                if c == 'h' || c == 'a' {
                    Command::Turn(Direction::Left)
                } else if c == 'j' || c == 's' {
                    Command::Turn(Direction::Down)
                } else if c == 'k' || c == 'w' {
                    Command::Turn(Direction::Up)
                } else if c == 'l' || c == 'd' {
                    Command::Turn(Direction::Right)
                } else if c == 'p' || c == ' ' {
                    Command::Pause
                } else if c == 'q' {
                    Command::Quit
                } else {
                    Command::Nothing
                }
            },
            Key::Left => Command::Turn(Direction::Left),
            Key::Down => Command::Turn(Direction::Down),
            Key::Up => Command::Turn(Direction::Up),
            Key::Right => Command::Turn(Direction::Right),
            Key::Esc => Command::Pause,
            Key::Other => Command::Nothing,
        }
    }
}

} // verus!
