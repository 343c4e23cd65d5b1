//! The jump-over-logs variant: the actor runs along a floor, jumps only from
//! the floor, and scores a point for each log it clears.

use vstd::prelude::*;
use crate::engine::{
    accelerate, accelerated, advance_clock, clock_after, cp437_of, glyph, velocity_in_range,
    whole_cells, whole_cells_of, Cell, GameMode, Input, IMPULSE_VELOCITY, TERMINAL_VELOCITY,
};

verus! {

/// Row of the floor; larger rows are lower on screen.
pub const FLOOR_HEIGHT: i32 = 30;

/// Distance ahead of the actor at which a new log appears.
pub const SCREEN_WIDTH: i32 = 80;

/// Frame time, in microseconds, that must pass before a physics step.
pub const FRAME_DURATION: u64 = 45_000;

/// Column at which the actor starts a run.
pub const START_X: i32 = 5;

/// Screen column at which the actor is drawn.
pub const ACTOR_COLUMN: i32 = 5;

/// The most rows a jump lifts the actor above the floor.
pub const MAX_RISE: i32 = 5;

/// Rows the actor will still rise, moving upward at velocity `v`.
pub open spec fn rise_left(v: int) -> int {
    if v <= -12 {
        (-10 - v) / 2
    } else {
        0
    }
}

/// The running actor: world column, screen row, and vertical velocity in
/// tenths of a cell per step (negative is upward).
#[derive(Clone, Copy, Debug)]
pub struct Player {
    pub x: i32,
    pub y: i32,
    pub velocity: i32,
}

impl Player {
    /// The actor can take a physics step without leaving machine integers.
    pub open spec fn can_move(self) -> bool {
        &&& velocity_in_range(self.velocity as int)
        &&& self.x < i32::MAX
        &&& i32::MIN + 2 <= self.y <= i32::MAX - 2
    }

    /// The actor after one physics step: gravity, a vertical move by the
    /// truncated velocity, one column forward, and no lower than the floor.
    pub open spec fn moved(self) -> Player {
        let v = accelerated(self.velocity as int);
        let y = self.y + whole_cells_of(v);
        Player {
            x: (self.x + 1) as i32,
            y: if y > FLOOR_HEIGHT { FLOOR_HEIGHT } else { y as i32 },
            velocity: v as i32,
        }
    }

    /// The actor after a jump key: the impulse applies only on the floor.
    pub open spec fn jumped(self) -> Player {
        if self.y == FLOOR_HEIGHT {
            Player { x: self.x, y: self.y, velocity: IMPULSE_VELOCITY }
        } else {
            self
        }
    }

    /// The actor after `n` physics steps.
    pub open spec fn after(self, n: nat) -> Player
        decreases n,
    {
        if n == 0 {
            self
        } else {
            self.after((n - 1) as nat).moved()
        }
    }

    /// Height bound of a run: on or above the floor, and never higher than a
    /// jump can carry it.
    pub open spec fn in_reach(self) -> bool {
        &&& velocity_in_range(self.velocity as int)
        &&& FLOOR_HEIGHT - MAX_RISE + rise_left(self.velocity as int) <= self.y <= FLOOR_HEIGHT
    }

    /// An actor at rest at the given position.
    pub fn new(x: i32, y: i32) -> (r: Player)
        ensures
            r == (Player { x, y, velocity: 0 }),
    {
        Player { x, y, velocity: 0 }
    }

    /// The glyph that stands for the actor.
    pub fn render(&self) -> (r: Cell)
        ensures
            r == (Cell { x: ACTOR_COLUMN, y: self.y, glyph: cp437_of('A') }),
            r.glyph == 65,
    {
        Cell { x: ACTOR_COLUMN, y: self.y, glyph: glyph('A') }
    }

    /// One physics step.
    pub fn gravity_and_move(&mut self)
        requires
            old(self).can_move(),
        ensures
            *final(self) == old(self).moved(),
    {
        let v = accelerate(self.velocity);
        self.velocity = v;
        self.y = self.y + whole_cells(v);
        self.x = self.x + 1;
        if self.y > FLOOR_HEIGHT {
            self.y = FLOOR_HEIGHT;
        }
    }

    /// Jumps, if the actor stands on the floor.
    pub fn jump(&mut self)
        ensures
            *final(self) == old(self).jumped(),
    {
        if self.y == FLOOR_HEIGHT {
            self.velocity = IMPULSE_VELOCITY;
        }
    }
}

/// A log lying on the floor, three cells wide, ending at world column `x`.
#[derive(Clone, Copy, Debug)]
pub struct Log {
    pub x: i32,
}

impl Log {
    /// The actor stands in one of the log's three cells.
    pub open spec fn hits(self, p: Player) -> bool {
        p.y == FLOOR_HEIGHT && (p.x == self.x || p.x == self.x - 1 || p.x == self.x - 2)
    }

    /// The actor has moved past the log.
    pub open spec fn passed_by(self, actor_x: int) -> bool {
        actor_x > self.x + 2
    }

    /// A log at world column `x`.
    pub fn new(x: i32) -> (r: Log)
        ensures
            r == (Log { x }),
    {
        Log { x }
    }

    /// A log one screen width ahead of the actor.
    pub fn spawn_ahead_of(actor_x: i32, screen_width: i32) -> (r: Log)
        requires
            i32::MIN <= actor_x + screen_width <= i32::MAX,
        ensures
            r.x == actor_x + screen_width,
    {
        Log::new(actor_x + screen_width)
    }

    /// The three cells of the log, on the floor row, at screen columns
    /// relative to the actor's world column.
    pub fn render(&self, player_x: i32) -> (r: Vec<Cell>)
        requires
            i32::MIN <= self.x - player_x,
            self.x - player_x + 2 <= i32::MAX,
        ensures
            r@.len() == 3,
            forall|i: int|
                0 <= i < 3 ==> r@[i] == (Cell {
                    x: (self.x - player_x + i) as i32,
                    y: FLOOR_HEIGHT,
                    glyph: cp437_of('L'),
                }),
            forall|i: int| 0 <= i < 3 ==> r@[i].glyph == 76,
    {
        let screen_x = self.x - player_x;
        let g = glyph('L');
        let mut cells: Vec<Cell> = Vec::new();
        let mut i: i32 = 0;
        while i < 3
            invariant
                0 <= i <= 3,
                cells@.len() == i,
                g == cp437_of('L'),
                g == 76,
                screen_x == self.x - player_x,
                screen_x + 2 <= i32::MAX,
                forall|j: int|
                    0 <= j < i ==> cells@[j] == (Cell {
                        x: (screen_x + j) as i32,
                        y: FLOOR_HEIGHT,
                        glyph: g,
                    }),
            decreases 3 - i,
        {
            cells.push(Cell { x: screen_x + i, y: FLOOR_HEIGHT, glyph: g });
            i = i + 1;
        }
        cells
    }

    /// Whether the actor stands in the log.
    pub fn is_colliding(&self, player: &Player) -> (r: bool)
        ensures
            r == self.hits(*player),
    {
        let match_y = player.y == FLOOR_HEIGHT;
        let gap: i64 = self.x as i64 - player.x as i64;
        let match_x = 0 <= gap && gap <= 2;
        match_y && match_x
    }

    /// Whether the actor at world column `actor_x` has cleared the log.
    pub fn has_been_passed(&self, actor_x: i32) -> (r: bool)
        ensures
            r == self.passed_by(actor_x as int),
    {
        actor_x as i64 > self.x as i64 + 2
    }
}

/// A whole game: mode, frame-time accumulator (microseconds), actor, the
/// current log, and the score.
#[derive(Clone, Copy, Debug)]
pub struct State {
    pub mode: GameMode,
    pub frame_time: u64,
    pub player: Player,
    pub log: Log,
    pub score: i32,
}

impl State {
    /// What every state of a game satisfies: the actor within its reach, the
    /// accumulator below the frame duration, and the log at most one screen
    /// ahead of the actor and at least a screen beyond the score.
    pub open spec fn wf(self) -> bool {
        &&& self.player.in_reach()
        &&& self.frame_time <= FRAME_DURATION
        &&& 0 <= self.score
        &&& self.score + SCREEN_WIDTH <= self.log.x <= self.player.x + SCREEN_WIDTH
    }

    /// The actor has room for the steps of one more tick.
    pub open spec fn has_room(self) -> bool {
        self.player.x < i32::MAX - SCREEN_WIDTH
    }

    /// The start of a run.
    pub open spec fn restarted(self) -> State {
        State {
            mode: GameMode::Playing,
            frame_time: 0,
            player: Player { x: START_X, y: FLOOR_HEIGHT, velocity: 0 },
            log: Log { x: (START_X + SCREEN_WIDTH) as i32 },
            score: 0,
        }
    }

    /// The actor after the physics and input of one playing tick.
    pub open spec fn actor_after(self, elapsed_us: u32, key: Option<Input>) -> Player {
        let due = clock_after(self.frame_time as int, elapsed_us as int, FRAME_DURATION as int).1;
        let p = if due { self.player.moved() } else { self.player };
        if key == Some(Input::Impulse) { p.jumped() } else { p }
    }

    /// One tick while playing: a physics step once the frame time passes the
    /// frame duration, the jump key at once, a new log and a point once the
    /// actor clears the log, and the end of the run when the actor hits it.
    pub open spec fn played(self, elapsed_us: u32, key: Option<Input>) -> State {
        let acc = clock_after(self.frame_time as int, elapsed_us as int, FRAME_DURATION as int).0;
        let p = self.actor_after(elapsed_us, key);
        let passed = self.log.passed_by(p.x as int);
        let log = if passed { Log { x: (p.x + SCREEN_WIDTH) as i32 } } else { self.log };
        let score = if passed { self.score + 1 } else { self.score as int };
        State {
            mode: if log.hits(p) { GameMode::End } else { self.mode },
            frame_time: acc as u64,
            player: p,
            log,
            score: score as i32,
        }
    }

    /// Menu and end screens: "play" starts a run, "quit" asks the host to
    /// stop (the second component), anything else changes nothing.
    pub open spec fn chosen(self, key: Option<Input>) -> (State, bool) {
        match key {
            Some(Input::Play) => (self.restarted(), false),
            Some(Input::Quit) => (self, true),
            _ => (self, false),
        }
    }

    /// One tick in any mode, and whether the host should stop.
    pub open spec fn ticked(self, elapsed_us: u32, key: Option<Input>) -> (State, bool) {
        match self.mode {
            GameMode::Playing => (self.played(elapsed_us, key), false),
            _ => self.chosen(key),
        }
    }

    /// A game on the menu screen, before any run.
    pub fn new() -> (r: State)
        ensures
            r == (State {
                mode: GameMode::Menu,
                frame_time: 0,
                player: Player { x: START_X, y: FLOOR_HEIGHT, velocity: 0 },
                log: Log { x: SCREEN_WIDTH },
                score: 0,
            }),
            r.wf(),
    {
        State {
            mode: GameMode::Menu,
            player: Player::new(START_X, FLOOR_HEIGHT),
            frame_time: 0,
            log: Log::new(SCREEN_WIDTH),
            score: 0,
        }
    }

    /// The end screen's response to a key.
    pub fn dead(&mut self, key: Option<Input>) -> (quit: bool)
        ensures
            (*final(self), quit) == old(self).chosen(key),
    {
        match key {
            Some(Input::Play) => {
                self.restart();
                false
            },
            Some(Input::Quit) => true,
            _ => false,
        }
    }

    /// The menu screen's response to a key.
    pub fn main_menu(&mut self, key: Option<Input>) -> (quit: bool)
        ensures
            (*final(self), quit) == old(self).chosen(key),
    {
        match key {
            Some(Input::Play) => {
                self.restart();
                false
            },
            Some(Input::Quit) => true,
            _ => false,
        }
    }

    /// One tick of a run, given the microseconds since the last tick and the
    /// key pressed, if any.
    pub fn play(&mut self, elapsed_us: u32, key: Option<Input>)
        requires
            old(self).wf(),
            old(self).has_room(),
        ensures
            *final(self) == old(self).played(elapsed_us, key),
            final(self).wf(),
    {
        let (acc, due) = advance_clock(self.frame_time, elapsed_us, FRAME_DURATION);
        self.frame_time = acc;
        if due {
            proof {
                lemma_step_keeps_reach(self.player);
            }
            self.player.gravity_and_move();
        }
        if matches!(key, Some(Input::Impulse)) {
            self.player.jump();
        }
        if self.log.has_been_passed(self.player.x) {
            self.log = Log::spawn_ahead_of(self.player.x, SCREEN_WIDTH);
            self.score = self.score + 1;
        }
        if self.log.is_colliding(&self.player) {
            self.mode = GameMode::End;
        }
    }

    /// Starts a new run.
    pub fn restart(&mut self)
        ensures
            *final(self) == old(self).restarted(),
            final(self).wf(),
    {
        self.player = Player::new(START_X, FLOOR_HEIGHT);
        self.frame_time = 0;
        self.mode = GameMode::Playing;
        self.log = Log::new(START_X + SCREEN_WIDTH);
        self.score = 0;
    }

    /// One frame: dispatches on the mode. Returns whether the host should
    /// stop.
    pub fn tick(&mut self, elapsed_us: u32, key: Option<Input>) -> (quit: bool)
        requires
            old(self).wf(),
            old(self).has_room(),
        ensures
            (*final(self), quit) == old(self).ticked(elapsed_us, key),
            final(self).wf(),
    {
        match self.mode {
            GameMode::Menu => self.main_menu(key),
            GameMode::End => self.dead(key),
            GameMode::Playing => {
                self.play(elapsed_us, key);
                false
            },
        }
    }
}

/// A physics step keeps the actor within its reach.
pub proof fn lemma_step_keeps_reach(p: Player)
    requires
        p.in_reach(),
    ensures
        p.can_move() || p.x == i32::MAX,
        p.moved().in_reach(),
{
}


/// Starting at rest, the velocity after `n` physics steps is
/// `min(2n, 20)` tenths of a cell per step.
pub proof fn lemma_velocity_from_rest(p: Player, n: nat)
    requires
        p.velocity == 0,
    ensures
        p.after(n).velocity == if 2 * n <= TERMINAL_VELOCITY { 2 * n as int } else { TERMINAL_VELOCITY as int },
    decreases n,
{
    if n > 0 {
        lemma_velocity_from_rest(p, (n - 1) as nat);
    }
}

/// However many physics steps are taken from a height that a run can
/// reach, the actor never ends below the floor, nor leaves its reach.
pub proof fn lemma_never_below_floor(p: Player, n: nat)
    requires
        p.in_reach(),
    ensures
        p.after(n).y <= FLOOR_HEIGHT,
        p.after(n).in_reach(),
    decreases n,
{
    if n > 0 {
        lemma_never_below_floor(p, (n - 1) as nat);
        lemma_step_keeps_reach(p.after((n - 1) as nat));
    }
}

/// A jump sets the velocity rather than adding to it: jumping again changes
/// nothing, and the step after a jump from the floor does not depend on the
/// velocity before it.
pub proof fn lemma_jump_sets_velocity(p: Player, q: Player)
    requires
        p.x == q.x,
        p.y == q.y,
        p.y == FLOOR_HEIGHT,
    ensures
        p.jumped().jumped() == p.jumped(),
        p.jumped().moved() == q.jumped().moved(),
        p.jumped().moved().velocity == IMPULSE_VELOCITY + 2,
        p.jumped().moved().y == FLOOR_HEIGHT - 1,
{
}

/// The actor collides with a log exactly when it is on the floor and within
/// the log's three cells; one cell before them or after them it does not.
pub proof fn lemma_collision_span(log: Log, p: Player)
    ensures
        log.hits(p) <==> (p.y == FLOOR_HEIGHT && log.x - 2 <= p.x <= log.x),
        p.x == log.x - 3 ==> !log.hits(p),
        p.x == log.x + 1 ==> !log.hits(p),
{
}

/// The score rises by exactly one on the tick at which the actor clears the
/// log, and otherwise stays; it never falls while playing, and a new run
/// starts it from zero.
pub proof fn lemma_score_counts_cleared_logs(s: State, elapsed_us: u32, key: Option<Input>)
    requires
        s.wf(),
        s.has_room(),
    ensures
        s.mode == GameMode::Playing ==> s.ticked(elapsed_us, key).0.score == s.score + if s.log.passed_by(
            s.actor_after(elapsed_us, key).x as int,
        ) {
            1int
        } else {
            0int
        },
        s.mode == GameMode::Playing ==> s.ticked(elapsed_us, key).0.score >= s.score,
        s.mode != GameMode::Playing && key == Some(Input::Play) ==> s.ticked(elapsed_us, key).0.score
            == 0,
        s.mode != GameMode::Playing && key != Some(Input::Play) ==> s.ticked(elapsed_us, key).0
            == s,
{
}

} // verus!
