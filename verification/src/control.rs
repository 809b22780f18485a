//! The control loop as a state machine: what a key press does to the game,
//! when the grid advances by itself, and what the caller has to do next.
//!
//! The loop itself is the caller's: it writes the queued bytes to the
//! terminal, reads a key in the way the state asks for, hands it to
//! `ControlLoop::advance` and does what the returned action says.

use vstd::prelude::*;
use crate::escape::{clear_all, clear_all_sequence, goto, goto_sequence};
use crate::game::Game;
use crate::game_io::{border_frame, fits_screen, map_frame, GameIO};
use crate::grid::{lemma_reset_leaves_no_live_cell, lemma_step_cells, lemma_toggle_twice, Grid};

verus! {

/// How long the loop sleeps after a generation that autorun advanced, in
/// milliseconds.
pub const TICK_MILLIS: u64 = 10;

/// A key press, as far as the loop tells keys apart.
#[derive(Copy, Clone, PartialEq, Eq, Debug, Structural)]
pub enum Key {
    /// A key that stands for a character.
    Char(char),
    Left,
    Right,
    Up,
    Down,
    /// Any other key.
    Other,
}

/// What a key press asks for.
#[derive(Copy, Clone, PartialEq, Eq, Debug, Structural)]
pub enum Command {
    MoveLeft,
    MoveDown,
    MoveUp,
    MoveRight,
    /// Flip the cell under the cursor.
    Toggle,
    /// Kill every cell.
    Reset,
    /// Advance the grid by one generation.
    Step,
    /// Switch autorun on or off.
    ToggleAutorun,
    Quit,
    /// Nothing: the key has no meaning.
    Ignore,
}

/// The state of the loop.
#[derive(Copy, Clone, PartialEq, Eq, Debug, Structural)]
pub enum Mode {
    /// The loop waits for a key and does nothing without one.
    Idle,
    /// The grid advances by one generation in every turn of the loop.
    Autorun,
    /// The loop has ended.
    Stopped,
}

/// How the caller gets the input for the next turn.
#[derive(Copy, Clone, PartialEq, Eq, Debug, Structural)]
pub enum InputPolicy {
    /// Wait until a key is pressed.
    Blocking,
    /// Take a key if one is pending and go on at once if none is.
    Polling,
    /// Read nothing more.
    Closed,
}

/// What the caller does after a turn.
#[derive(Copy, Clone, PartialEq, Eq, Debug, Structural)]
pub enum Action {
    /// Redraw and go on with the next turn.
    Redraw,
    /// Sleep for `TICK_MILLIS`, then redraw and go on with the next turn.
    Tick,
    /// Leave the loop.
    Stop,
}

/// The command that a key stands for.
pub open spec fn command_of(key: Key) -> Command {
    match key {
        Key::Left => Command::MoveLeft,
        Key::Down => Command::MoveDown,
        Key::Up => Command::MoveUp,
        Key::Right => Command::MoveRight,
        Key::Other => Command::Ignore,
        Key::Char(c) => if c == 'h' || c == 'a' {
            Command::MoveLeft
        } else if c == 'j' || c == 's' {
            Command::MoveDown
        } else if c == 'k' || c == 'w' {
            Command::MoveUp
        } else if c == 'l' || c == 'd' {
            Command::MoveRight
        } else if c == ' ' {
            Command::Toggle
        } else if c == 'r' {
            Command::Reset
        } else if c == 'n' {
            Command::Step
        } else if c == 'p' {
            Command::ToggleAutorun
        } else if c == 'q' {
            Command::Quit
        } else {
            Command::Ignore
        },
    }
}

/// The command of a turn's input: that of the key, or nothing where no key
/// came.
pub open spec fn command_of_input(input: Option<Key>) -> Command {
    match input {
        Some(key) => command_of(key),
        None => Command::Ignore,
    }
}

/// The command that a key stands for.
pub fn command_for(key: Key) -> (command: Command)
    ensures
        command == command_of(key),
{
    match key {
        Key::Left => Command::MoveLeft,
        Key::Down => Command::MoveDown,
        Key::Up => Command::MoveUp,
        Key::Right => Command::MoveRight,
        Key::Other => Command::Ignore,
        Key::Char(c) => {
            if c == 'h' || c == 'a' {
                Command::MoveLeft
            } else if c == 'j' || c == 's' {
                Command::MoveDown
            } else if c == 'k' || c == 'w' {
                Command::MoveUp
            } else if c == 'l' || c == 'd' {
                Command::MoveRight
            } else if c == ' ' {
                Command::Toggle
            } else if c == 'r' {
                Command::Reset
            } else if c == 'n' {
                Command::Step
            } else if c == 'p' {
                Command::ToggleAutorun
            } else if c == 'q' {
                Command::Quit
            } else {
                Command::Ignore
            }
        },
    }
}

/// What the loop is about: the grid, the cursor and the mode.
pub struct LoopState {
    pub grid: Grid,
    pub x: int,
    pub y: int,
    pub mode: Mode,
}

impl LoopState {
    /// The grid is well formed and fits on a screen with its border, and the
    /// cursor is on the grid.
    pub open spec fn wf(self) -> bool {
        &&& self.grid.wf()
        &&& fits_screen(self.grid)
        &&& self.grid.in_bounds(self.x, self.y)
    }

    /// The state at the start: every cell dead, the cursor in the top-left
    /// corner, the loop idle.
    pub open spec fn initial(width: int, height: int) -> LoopState {
        LoopState { grid: Grid::dead(width, height), x: 0, y: 0, mode: Mode::Idle }
    }

    /// The state after a command, which means the same in both running modes.
    pub open spec fn apply(self, command: Command) -> LoopState {
        match command {
            Command::MoveLeft => LoopState { x: self.grid.left(self.x), ..self },
            Command::MoveDown => LoopState { y: self.grid.down(self.y), ..self },
            Command::MoveUp => LoopState { y: self.grid.up(self.y), ..self },
            Command::MoveRight => LoopState { x: self.grid.right(self.x), ..self },
            Command::Toggle => LoopState { grid: self.grid.toggle(self.x, self.y), ..self },
            Command::Reset => LoopState { grid: self.grid.reset(), ..self },
            Command::Step => LoopState { grid: self.grid.step(), ..self },
            Command::ToggleAutorun => LoopState {
                mode: match self.mode {
                    Mode::Idle => Mode::Autorun,
                    Mode::Autorun => Mode::Idle,
                    Mode::Stopped => Mode::Stopped,
                },
                ..self
            },
            Command::Quit => LoopState { mode: Mode::Stopped, ..self },
            Command::Ignore => self,
        }
    }

    /// The state with the grid advanced by one generation.
    pub open spec fn tick(self) -> LoopState {
        LoopState { grid: self.grid.step(), ..self }
    }

    /// One turn of the loop: the state after it and what the caller does next.
    ///
    /// An idle loop applies the command and asks for a redraw. A loop in
    /// autorun applies the command and then, whatever the command was unless
    /// it was to quit, advances the grid by one generation and asks for a
    /// sleep. A loop that has stopped stays as it is.
    pub open spec fn turn(self, input: Option<Key>) -> (LoopState, Action) {
        let applied = self.apply(command_of_input(input));
        match self.mode {
            Mode::Stopped => (self, Action::Stop),
            Mode::Idle => if applied.mode == Mode::Stopped {
                (applied, Action::Stop)
            } else {
                (applied, Action::Redraw)
            },
            Mode::Autorun => if applied.mode == Mode::Stopped {
                (applied, Action::Stop)
            } else {
                (applied.tick(), Action::Tick)
            },
        }
    }

    /// What shows the state on the terminal: every cell, and then the caret
    /// on the cursor.
    pub open spec fn frame(self) -> Seq<u8> {
        map_frame(self.grid) + goto_sequence((self.x + 2) as nat, (self.y + 2) as nat)
    }

    /// What a turn queues for the terminal: the frame of the state that the
    /// turn leads to, and nothing where the turn ends the loop.
    pub open spec fn turn_output(self, input: Option<Key>) -> Seq<u8> {
        let (next, action) = self.turn(input);
        if action == Action::Stop {
            Seq::empty()
        } else {
            next.frame()
        }
    }

    /// The state after `n` turns in which no key came.
    pub open spec fn quiet_turns(self, n: nat) -> LoopState
        decreases n,
    {
        if n == 0 {
            self
        } else {
            self.quiet_turns((n - 1) as nat).turn(None).0
        }
    }

    /// How the input of the next turn is to be read.
    pub open spec fn input_policy(self) -> InputPolicy {
        match self.mode {
            Mode::Idle => InputPolicy::Blocking,
            Mode::Autorun => InputPolicy::Polling,
            Mode::Stopped => InputPolicy::Closed,
        }
    }
}

/// A game with its cursor, its mode and the bytes queued for the terminal.
pub struct ControlLoop {
    game: Game,
    io: GameIO,
    mode: Mode,
}

impl View for ControlLoop {
    type V = LoopState;

    closed spec fn view(&self) -> LoopState {
        LoopState { grid: self.game@, x: self.io.x as int, y: self.io.y as int, mode: self.mode }
    }
}

impl ControlLoop {
    /// The bytes that are queued for the terminal.
    pub closed spec fn pending(&self) -> Seq<u8> {
        self.io.stdout@
    }

    /// The invariant of the loop: that of its state.
    pub open spec fn wf(&self) -> bool {
        self@.wf()
    }

    /// Start a loop on a new grid of `w` columns and `h` rows. The queue
    /// holds what clears the screen, draws the border and shows the grid.
    pub fn new(w: u16, h: u16) -> (ctl: ControlLoop)
        requires
            w >= 1,
            h >= 1,
            w + 2 <= u16::MAX,
            h + 2 <= u16::MAX,
        ensures
            ctl.wf(),
            ctl@ == LoopState::initial(w as int, h as int),
            ctl.pending() == clear_all_sequence() + border_frame(ctl@.grid, 0, 0) + ctl@.frame(),
    {
        // Set the initial game state.
        let mut game = Game::new(w, h);
        let mut io = GameIO { stdout: clear_all(), x: 0, y: 0 };

        // Reset that game.
        game.reset();
        assert(game@.cells =~= Grid::dead(w as int, h as int).cells);

        io.print_border(&game);
        let mut ctl = ControlLoop { game, io, mode: Mode::Idle };
        ctl.redraw();
        ctl
    }

    /// The game.
    pub fn game(&self) -> (game: &Game)
        ensures
            game@ == self@.grid,
    {
        &self.game
    }

    /// The cursor, column first.
    pub fn cursor(&self) -> (at: (u16, u16))
        ensures
            at.0 == self@.x,
            at.1 == self@.y,
    {
        (self.io.x, self.io.y)
    }

    /// The mode.
    pub fn mode(&self) -> (mode: Mode)
        ensures
            mode == self@.mode,
    {
        self.mode
    }

    /// How the caller gets the input for the next turn: it waits for a key
    /// while the loop is idle, and must not wait while the grid runs by itself.
    pub fn input_policy(&self) -> (policy: InputPolicy)
        ensures
            policy == self@.input_policy(),
    {
        match self.mode {
            Mode::Idle => InputPolicy::Blocking,
            Mode::Autorun => InputPolicy::Polling,
            Mode::Stopped => InputPolicy::Closed,
        }
    }

    /// Queue what shows the state: every cell, and then the caret on the
    /// cursor.
    pub fn redraw(&mut self)
        requires
            old(self).wf(),
        ensures
            final(self).wf(),
            final(self)@ == old(self)@,
            final(self).pending() == old(self).pending() + old(self)@.frame(),
    {
        self.io.print_map(&self.game);

        // Make sure the cursor is placed on the current position.
        let mut jump = goto(self.io.x + 2, self.io.y + 2);
        self.io.stdout.append(&mut jump);
    }

    /// Take the queued bytes, to write them to the terminal.
    pub fn take_output(&mut self) -> (bytes: Vec<u8>)
        ensures
            bytes@ == old(self).pending(),
            final(self).pending() == Seq::<u8>::empty(),
            final(self)@ == old(self)@,
    {
        let mut bytes: Vec<u8> = Vec::new();
        bytes.append(&mut self.io.stdout);
        bytes
    }

    /// One turn of the loop on the key that was read, or on `None` where no
    /// key came. Unless the turn ends the loop, the frame of the new state
    /// is queued, so that what is shown next is the state after this turn.
    pub fn advance(&mut self, input: Option<Key>) -> (action: Action)
        requires
            old(self).wf(),
        ensures
            final(self).wf(),
            (final(self)@, action) == old(self)@.turn(input),
            final(self).pending() == old(self).pending() + old(self)@.turn_output(input),
    {
        let command = match input {
            Some(key) => command_for(key),
            None => Command::Ignore,
        };
        let before = self.mode;
        match before {
            Mode::Stopped => {
                return Action::Stop;
            },
            _ => {},
        }
        self.apply(command);
        match self.mode {
            Mode::Stopped => {
                return Action::Stop;
            },
            _ => {},
        }
        let action = match before {
            Mode::Autorun => {
                self.game.step();
                Action::Tick
            },
            _ => Action::Redraw,
        };
        self.redraw();
        action
    }

    /// Carry out a command.
    fn apply(&mut self, command: Command)
        requires
            old(self).wf(),
        ensures
            final(self).wf(),
            final(self)@ == old(self)@.apply(command),
            final(self).pending() == old(self).pending(),
    {
        match command {
            Command::MoveLeft => {
                self.io.x = self.game.left(self.io.x);
            },
            Command::MoveDown => {
                self.io.y = self.game.down(self.io.y);
            },
            Command::MoveUp => {
                self.io.y = self.game.up(self.io.y);
            },
            Command::MoveRight => {
                self.io.x = self.game.right(self.io.x);
            },
            Command::Toggle => {
                let (x, y) = (self.io.x, self.io.y);
                self.game.toggle(x, y);
            },
            Command::Reset => {
                self.game.reset();
            },
            Command::Step => {
                self.game.step();
            },
            Command::ToggleAutorun => {
                self.mode = match self.mode {
                    Mode::Idle => Mode::Autorun,
                    Mode::Autorun => Mode::Idle,
                    Mode::Stopped => Mode::Stopped,
                };
            },
            Command::Quit => {
                self.mode = Mode::Stopped;
            },
            Command::Ignore => {},
        }
    }
}

/// A turn keeps the invariant of the loop: the grid keeps its size and the
/// cursor stays on it, whatever the input is.
pub proof fn lemma_turn_keeps_invariant(s: LoopState, input: Option<Key>)
    requires
        s.wf(),
    ensures
        s.turn(input).0.wf(),
        s.turn(input).0.grid.width == s.grid.width,
        s.turn(input).0.grid.height == s.grid.height,
{
    let applied = s.apply(command_of_input(input));
    lemma_toggle_twice(s.grid, s.x, s.y);
    lemma_reset_leaves_no_live_cell(s.grid);
    lemma_step_cells(s.grid);
    assert(applied.wf());
    lemma_step_cells(applied.grid);
}

/// A loop in autorun that gets no input advances the grid by exactly one
/// generation in every turn and changes nothing else. Each of these turns
/// asks for a tick, and the input of the next one is polled, never waited for.
pub proof fn lemma_autorun_without_input(s: LoopState, n: nat)
    requires
        s.mode == Mode::Autorun,
    ensures
        s.quiet_turns(n) == (LoopState { grid: s.grid.generations(n), ..s }),
        s.quiet_turns(n).input_policy() == InputPolicy::Polling,
        s.quiet_turns(n).turn(None).1 == Action::Tick,
    decreases n,
{
    if n > 0 {
        lemma_autorun_without_input(s, (n - 1) as nat);
    }
}

} // verus!
