//! The game's state machine: one tick moves the snake, a key press steers,
//! pauses or quits.
use crate::board::{Snek, on_wall, inside, hits_wall, random_food, WIDTH, HEIGHT};
use crate::direction::{Direction, Key, Command, command_of};
use std::collections::VecDeque;
use vstd::prelude::*;

verus! {

/// How a game ended.
#[derive(Clone, Copy, Debug, PartialEq, Eq, Structural)]
pub enum Outcome {
    /// The head ran into the wall or into the snake's own body.
    Lost,
    /// The player quit.
    Quit,
}

/// Where the game stands.
#[derive(Clone, Copy, Debug, PartialEq, Eq, Structural)]
pub enum Phase {
    Running,
    /// No tick advances until the game is resumed or quit.
    Paused,
    /// Final: nothing changes any more.
    Over(Outcome),
}

/// The whole state of a game.
pub struct Game {
    /// The segments, head first, tail last.
    pub snake: VecDeque<Snek>,
    pub direction: Direction,
    /// The one food item.
    pub apple: Snek,
    pub phase: Phase,
    /// A change of heading was accepted since the last tick.
    pub turned: bool,
}

/// The mathematical model of a [`Game`].
pub struct GameView {
    pub snake: Seq<Snek>,
    pub direction: Direction,
    pub apple: Snek,
    pub phase: Phase,
    pub turned: bool,
}

impl View for Game {
    type V = GameView;

    open spec fn view(&self) -> GameView {
        GameView {
            snake: self.snake@,
            direction: self.direction,
            apple: self.apple,
            phase: self.phase,
            turned: self.turned,
        }
    }
}

impl GameView {
    /// The game has not ended.
    pub open spec fn live(self) -> bool {
        self.phase is Running || self.phase is Paused
    }

    /// There is a head, the food is inside, and while the game is live the
    /// head is inside too.
    pub open spec fn wf(self) -> bool {
        &&& self.snake.len() >= 1
        &&& inside(self.apple)
        &&& self.live() ==> inside(self.snake[0])
    }

    /// The cell the head moves to on the next tick.
    pub open spec fn next_head(self) -> Snek {
        self.direction.moved(self.snake[0])
    }

    /// The next tick moves the head onto the food.
    pub open spec fn eats(self) -> bool {
        self.next_head() == self.apple
    }

    /// The snake after the next tick: the new head in front, and the tail cut
    /// off unless the snake eats.
    pub open spec fn moved_snake(self) -> Seq<Snek> {
        if self.eats() {
            seq![self.next_head()] + self.snake
        } else {
            seq![self.next_head()] + self.snake.drop_last()
        }
    }

    /// The state after one tick, where `fresh` is where new food goes if the
    /// snake eats. A head on the wall or on its own body loses the game.
    pub open spec fn after_tick(self, fresh: Snek) -> GameView {
        let body = self.moved_snake();
        let lost = on_wall(body[0]) || bites(body);
        GameView {
            snake: body,
            direction: self.direction,
            apple: if !lost && self.eats() { fresh } else { self.apple },
            phase: if lost { Phase::Over(Outcome::Lost) } else { Phase::Running },
            turned: false,
        }
    }

    /// The state after a key press.
    pub open spec fn after_key(self, k: Key) -> GameView {
        match self.phase {
            Phase::Over(_) => self,
            Phase::Paused => match command_of(k) {
                Command::Pause => GameView { phase: Phase::Running, ..self },
                Command::Quit => GameView { phase: Phase::Over(Outcome::Quit), ..self },
                _ => self,
            },
            Phase::Running => match command_of(k) {
                Command::Turn(d) => if !self.turned && self.direction.allows(d) {
                    GameView { direction: d, turned: true, ..self }
                } else {
                    self
                },
                Command::Pause => GameView { phase: Phase::Paused, ..self },
                Command::Quit => GameView { phase: Phase::Over(Outcome::Quit), ..self },
                Command::Nothing => self,
            },
        }
    }
}

/// The head (first segment) lies on another segment.
pub open spec fn bites(body: Seq<Snek>) -> bool {
    exists|i: int| 1 <= i < body.len() && #[trigger] body[i] == body[0]
}

impl Game {
    /// The invariant of a game: see [`GameView::wf`].
    pub open spec fn wf(&self) -> bool {
        self@.wf()
    }

    /// A new game: a snake of three segments heading up, its head at the
    /// centre, and food up to the left.
    pub fn new() -> (g: Game)
        ensures
            g.wf(),
            g@.snake == seq![
                Snek { x: 17, y: 9 },
                Snek { x: 17, y: 10 },
                Snek { x: 17, y: 11 },
            ],
            g.direction == Direction::Up,
            g.apple == (Snek { x: 8, y: 4 }),
            g.phase == Phase::Running,
            !g.turned,
    {
        let mut snake: VecDeque<Snek> = VecDeque::with_capacity(3);
        snake.push_back(Snek::new(WIDTH / 2 + 1, HEIGHT / 2 + 1));
        snake.push_back(Snek::new(WIDTH / 2 + 1, HEIGHT / 2 + 2));
        snake.push_back(Snek::new(WIDTH / 2 + 1, HEIGHT / 2 + 3));
        let g = Game {
            snake,
            direction: Direction::Up,
            apple: Snek::new(WIDTH / 4, HEIGHT / 4),
            phase: Phase::Running,
            turned: false,
        };
        assert(g@.snake =~= seq![
            Snek { x: 17, y: 9 },
            Snek { x: 17, y: 10 },
            Snek { x: 17, y: 11 },
        ]);
        g
    }

    /// The head of the snake.
    pub fn head(&self) -> (h: Snek)
        requires
            self.wf(),
        ensures
            h == self@.snake[0],
    {
        self.snake[0]
    }

    /// The number of segments.
    pub fn len(&self) -> (n: usize)
        ensures
            n == self@.snake.len(),
    {
        self.snake.len()
    }

    /// Whether the head lies on any other segment.
    pub fn bitten(&self) -> (r: bool)
        requires
            self@.snake.len() >= 1,
        ensures
            r == bites(self@.snake),
    {
        let head = self.snake[0];
        let n = self.snake.len();
        let mut i: usize = 1;
        while i < n
            invariant
                n == self@.snake.len(),
                head == self@.snake[0],
                1 <= i <= n,
                forall|j: int| 1 <= j < i ==> self@.snake[j] != head,
            decreases n - i,
        {
            if self.snake[i] == head {
                return true;
            }
            i = i + 1;
        }
        false
    }

    /// One tick: the head steps once in the current heading; the tail is cut
    /// off unless the head lands on the food, which then moves to `fresh`.
    /// A head on the wall or on the body ends the game as lost. Returns the
    /// cell the tail left, if it was cut.
    pub fn tick_with(&mut self, fresh: Snek) -> (vacated: Option<Snek>)
        requires
            old(self).wf(),
            old(self).phase == Phase::Running,
            inside(fresh),
        ensures
            final(self)@ == old(self)@.after_tick(fresh),
            final(self).wf(),
            vacated == if old(self)@.eats() {
                None
            } else {
                Some(old(self)@.snake.last())
            },
    {
        let ghost before = self@;
        let head = self.snake[0];
        let next = self.direction.step(head);
        let grows = next == self.apple;
        self.snake.push_front(next);
        let vacated = if grows {
            None
        } else {
            self.snake.pop_back()
        };
        assert(self@.snake =~= before.moved_snake());
        let lost = hits_wall(next) || self.bitten();
        if lost {
            self.phase = Phase::Over(Outcome::Lost);
        } else {
            if grows {
                self.apple = fresh;
            }
            self.phase = Phase::Running;
        }
        self.turned = false;
        vacated
    }

    /// One tick, with new food drawn at random in the interior should the
    /// snake eat.
    pub fn tick(&mut self) -> (vacated: Option<Snek>)
        requires
            old(self).wf(),
            old(self).phase == Phase::Running,
        ensures
            exists|fresh: Snek| inside(fresh) && final(self)@ == old(self)@.after_tick(fresh),
            final(self).wf(),
            vacated == if old(self)@.eats() {
                None
            } else {
                Some(old(self)@.snake.last())
            },
    {
        let next = self.direction.step(self.snake[0]);
        let fresh = if next == self.apple {
            random_food()
        } else {
            self.apple
        };
        self.tick_with(fresh)
    }

    /// Handles one key press: steers while running (once per tick, and only
    /// onto the other axis), pauses or resumes, or quits. Returns whether the
    /// heading changed.
    pub fn press(&mut self, key: Key) -> (turned: bool)
        requires
            old(self).wf(),
        ensures
            final(self)@ == old(self)@.after_key(key),
            final(self).wf(),
            turned == (final(self).turned && !old(self).turned),
    {
        let cmd = key.command();
        match self.phase {
            Phase::Over(_) => false,
            Phase::Paused => {
                match cmd {
                    Command::Pause => self.phase = Phase::Running,
                    Command::Quit => self.phase = Phase::Over(Outcome::Quit),
                    _ => {},
                }
                false
            },
            Phase::Running => {
                match cmd {
                    Command::Turn(d) => {
                        if !self.turned && self.direction.accepts(d) {
                            self.direction = d;
                            self.turned = true;
                            return true;
                        }
                    },
                    Command::Pause => self.phase = Phase::Paused,
                    Command::Quit => self.phase = Phase::Over(Outcome::Quit),
                    Command::Nothing => {},
                }
                false
            },
        }
    }
}

} // verus!
