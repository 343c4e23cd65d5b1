//! The flapping variant: the actor falls under gravity, may flap at any
//! height, and the run ends once it drops below the bottom of the screen.

use vstd::prelude::*;
use crate::engine::{
    accelerate, accelerated, advance_clock, clock_after, cp437_of, glyph, velocity_in_range,
    whole_cells, whole_cells_of, Cell, GameMode, Input, IMPULSE_VELOCITY, TERMINAL_VELOCITY,
};

verus! {

/// Lowest row on screen; an actor below it has fallen out.
pub const SCREEN_HEIGHT: i32 = 50;

/// Frame time, in microseconds, that must pass before a physics step.
pub const FRAME_DURATION: u64 = 75_000;

/// Column at which the actor starts a run.
pub const START_X: i32 = 5;

/// Row at which the actor starts a run.
pub const START_Y: i32 = 25;

/// Screen column at which the actor is drawn.
pub const ACTOR_COLUMN: i32 = 0;

/// The flying actor: world column, screen row, and vertical velocity in
/// tenths of a cell per step (negative is upward).
#[derive(Clone, Copy, Debug)]
pub struct Player {
    pub x: i32,
    pub y: i32,
    pub velocity: i32,
}

impl Player {
    /// The actor can take a physics step without leaving machine integers.
    pub open spec fn can_move(self) -> bool {
        &&& velocity_in_range(self.velocity as int)
        &&& self.x < i32::MAX
        &&& i32::MIN + 2 <= self.y <= i32::MAX - 2
    }

    /// The actor after one physics step: gravity, a vertical move by the
    /// truncated velocity, one column forward, and no higher than the top row.
    pub open spec fn moved(self) -> Player {
        let v = accelerated(self.velocity as int);
        let y = self.y + whole_cells_of(v);
        Player { x: (self.x + 1) as i32, y: if y < 0 { 0 } else { y as i32 }, velocity: v as i32 }
    }

    /// The actor after a flap, at any height.
    pub open spec fn flapped(self) -> Player {
        Player { x: self.x, y: self.y, velocity: IMPULSE_VELOCITY }
    }

    /// The actor after `n` physics steps.
    pub open spec fn after(self, n: nat) -> Player
        decreases n,
    {
        if n == 0 {
            self
        } else {
            self.after((n - 1) as nat).moved()
        }
    }

    /// An actor at rest at the given position.
    pub fn new(x: i32, y: i32) -> (r: Player)
        ensures
            r == (Player { x, y, velocity: 0 }),
    {
        Player { x, y, velocity: 0 }
    }

    /// The glyph that stands for the actor.
    pub fn render(&self) -> (r: Cell)
        ensures
            r == (Cell { x: ACTOR_COLUMN, y: self.y, glyph: cp437_of('@') }),
            r.glyph == 64,
    {
        Cell { x: ACTOR_COLUMN, y: self.y, glyph: glyph('@') }
    }

    /// One physics step.
    pub fn gravity_and_move(&mut self)
        requires
            old(self).can_move(),
        ensures
            *final(self) == old(self).moved(),
    {
        let v = accelerate(self.velocity);
        self.velocity = v;
        self.y = self.y + whole_cells(v);
        self.x = self.x + 1;
        if self.y < 0 {
            self.y = 0;
        }
    }

    /// Flaps: the velocity becomes the impulse velocity.
    pub fn flap(&mut self)
        ensures
            *final(self) == old(self).flapped(),
    {
        self.velocity = IMPULSE_VELOCITY;
    }
}

/// A whole game: actor, frame-time accumulator (microseconds) and mode.
#[derive(Clone, Copy, Debug)]
pub struct State {
    pub player: Player,
    pub frame_time: u64,
    pub mode: GameMode,
}

impl State {
    /// What every state of a game satisfies: a velocity the physics can hold,
    /// the actor at most one step below the screen (and on it while
    /// playing), and the accumulator below the frame duration.
    pub open spec fn wf(self) -> bool {
        &&& velocity_in_range(self.player.velocity as int)
        &&& 0 <= self.player.y <= SCREEN_HEIGHT + 2
        &&& self.mode == GameMode::Playing ==> self.player.y <= SCREEN_HEIGHT
        &&& self.frame_time <= FRAME_DURATION
    }

    /// The actor has room for the step of one more tick.
    pub open spec fn has_room(self) -> bool {
        self.player.x < i32::MAX
    }

    /// The start of a run.
    pub open spec fn restarted(self) -> State {
        State {
            player: Player { x: START_X, y: START_Y, velocity: 0 },
            frame_time: 0,
            mode: GameMode::Playing,
        }
    }

    /// One tick while playing: a physics step once the frame time passes the
    /// frame duration, the flap key at once, and the end of the run when the
    /// actor is below the screen.
    pub open spec fn played(self, elapsed_us: u32, key: Option<Input>) -> State {
        let (acc, due) = clock_after(
            self.frame_time as int,
            elapsed_us as int,
            FRAME_DURATION as int,
        );
        let p1 = if due { self.player.moved() } else { self.player };
        let p = if key == Some(Input::Impulse) { p1.flapped() } else { p1 };
        State {
            player: p,
            frame_time: acc as u64,
            mode: if p.y > SCREEN_HEIGHT { GameMode::End } else { self.mode },
        }
    }

    /// Menu and end screens: "play" starts a run, "quit" asks the host to
    /// stop (the second component), anything else changes nothing.
    pub open spec fn chosen(self, key: Option<Input>) -> (State, bool) {
        match key {
            Some(Input::Play) => (self.restarted(), false),
            Some(Input::Quit) => (self, true),
            _ => (self, false),
        }
    }

    /// One tick in any mode, and whether the host should stop.
    pub open spec fn ticked(self, elapsed_us: u32, key: Option<Input>) -> (State, bool) {
        match self.mode {
            GameMode::Playing => (self.played(elapsed_us, key), false),
            _ => self.chosen(key),
        }
    }

    /// A game on the menu screen, before any run.
    pub fn new() -> (r: State)
        ensures
            r == (State {
                player: Player { x: START_X, y: START_Y, velocity: 0 },
                frame_time: 0,
                mode: GameMode::Menu,
            }),
            r.wf(),
    {
        State { player: Player::new(START_X, START_Y), frame_time: 0, mode: GameMode::Menu }
    }

    /// One tick of a run, given the microseconds since the last tick and the
    /// key pressed, if any.
    pub fn play(&mut self, elapsed_us: u32, key: Option<Input>)
        requires
            old(self).wf(),
            old(self).mode == GameMode::Playing,
            old(self).has_room(),
        ensures
            *final(self) == old(self).played(elapsed_us, key),
            final(self).wf(),
    {
        let (acc, due) = advance_clock(self.frame_time, elapsed_us, FRAME_DURATION);
        self.frame_time = acc;
        if due {
            self.player.gravity_and_move();
        }
        if matches!(key, Some(Input::Impulse)) {
            self.player.flap();
        }
        if self.player.y > SCREEN_HEIGHT {
            self.mode = GameMode::End;
        }
    }

    /// Starts a new run.
    pub fn restart(&mut self)
        ensures
            *final(self) == old(self).restarted(),
            final(self).wf(),
    {
        self.player = Player::new(START_X, START_Y);
        self.frame_time = 0;
        self.mode = GameMode::Playing;
    }

    /// The menu screen's response to a key.
    pub fn main_menu(&mut self, key: Option<Input>) -> (quit: bool)
        ensures
            (*final(self), quit) == old(self).chosen(key),
    {
        match key {
            Some(Input::Play) => {
                self.restart();
                false
            },
            Some(Input::Quit) => true,
            _ => false,
        }
    }

    /// The end screen's response to a key.
    pub fn dead(&mut self, key: Option<Input>) -> (quit: bool)
        ensures
            (*final(self), quit) == old(self).chosen(key),
    {
        match key {
            Some(Input::Play) => {
                self.restart();
                false
            },
            Some(Input::Quit) => true,
            _ => false,
        }
    }

    /// One frame: dispatches on the mode. Returns whether the host should
    /// stop.
    pub fn tick(&mut self, elapsed_us: u32, key: Option<Input>) -> (quit: bool)
        requires
            old(self).wf(),
            old(self).has_room(),
        ensures
            (*final(self), quit) == old(self).ticked(elapsed_us, key),
            final(self).wf(),
    {
        match self.mode {
            GameMode::Menu => self.main_menu(key),
            GameMode::End => self.dead(key),
            GameMode::Playing => {
                self.play(elapsed_us, key);
                false
            },
        }
    }
}


/// Starting at rest, the velocity after `n` physics steps is
/// `min(2n, 20)` tenths of a cell per step.
pub proof fn lemma_velocity_from_rest(p: Player, n: nat)
    requires
        p.velocity == 0,
    ensures
        p.after(n).velocity == if 2 * n <= TERMINAL_VELOCITY { 2 * n as int } else { TERMINAL_VELOCITY as int },
    decreases n,
{
    if n > 0 {
        lemma_velocity_from_rest(p, (n - 1) as nat);
    }
}

/// However many physics steps are taken, the actor never ends above the top
/// row (for as many steps as its row stays a machine integer: it falls at
/// most two rows a step).
pub proof fn lemma_never_above_top(p: Player, n: nat)
    requires
        velocity_in_range(p.velocity as int),
        0 <= p.y,
        p.y + 2 * n <= i32::MAX,
    ensures
        0 <= p.after(n).y <= p.y + 2 * n,
        velocity_in_range(p.after(n).velocity as int),
    decreases n,
{
    if n > 0 {
        lemma_never_above_top(p, (n - 1) as nat);
    }
}

/// A flap sets the velocity rather than adding to it: flapping again changes
/// nothing, and the step after a flap does not depend on the velocity before
/// it.
pub proof fn lemma_flap_sets_velocity(p: Player, q: Player)
    requires
        p.x == q.x,
        p.y == q.y,
    ensures
        p.flapped().flapped() == p.flapped(),
        p.flapped().moved() == q.flapped().moved(),
        p.flapped().moved().velocity == IMPULSE_VELOCITY + 2,
{
}

/// A playing tick that leaves the actor below the screen ends the run; once
/// ended, ticks change nothing until "play" starts a new run.
pub proof fn lemma_fall_ends_run(s: State, elapsed_us: u32, key: Option<Input>)
    ensures
        s.mode == GameMode::Playing && s.played(elapsed_us, key).player.y > SCREEN_HEIGHT
            ==> s.ticked(elapsed_us, key).0.mode == GameMode::End,
        s.mode == GameMode::End && key != Some(Input::Play) ==> s.ticked(elapsed_us, key).0 == s,
        s.mode == GameMode::End && key == Some(Input::Play) ==> s.ticked(elapsed_us, key).0
            == s.restarted(),
{
}

} // verus!
