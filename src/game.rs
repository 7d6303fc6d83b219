//! The game's state machine: one step per rendered frame, in one of three
//! modes, driven by the elapsed time and at most one key press.
use vstd::prelude::*;
use crate::config::{
    FRAME_DURATION_US, GAP_START_SIZE, HORIZONTAL_VELOCITY, PLAYER_START_X, PLAYER_START_Y,
    ROW_SCALE, SCREEN_HEIGHT, SCREEN_WIDTH,
};
use crate::obstacle::{gap_size, hits, Obstacle};
use crate::player::{row_of, Player};

verus! {

#[derive(Clone, Copy, Debug, PartialEq, Eq, Structural)]
pub enum GameMode {
    Menu,
    Playing,
    End,
}

/// The keys the game reacts to; every other key is `Other`.
#[derive(Clone, Copy, Debug, PartialEq, Eq, Structural)]
pub enum Key {
    /// Flap while playing (space).
    Flap,
    /// Start a game from the menu, or play again after dying (P).
    Start,
    /// Leave the game from the menu or after dying (Q).
    Quit,
    Other,
}

/// What a step asks the frame driver to draw.
#[derive(Clone, Copy, Debug, PartialEq, Eq, Structural)]
pub enum Screen {
    /// The title menu.
    Menu,
    /// The field: the player, the obstacle and the score line.
    Playing { player: Player, obstacle: Obstacle, score: i32 },
    /// The death notice with the final score.
    Dead { score: i32 },
}

/// The result of one step: whether to quit, and what to draw.
#[derive(Clone, Copy, Debug, PartialEq, Eq, Structural)]
pub struct TickOutput {
    pub quit: bool,
    pub screen: Screen,
}

pub struct State {
    pub mode: GameMode,
    /// Time accumulated since the last physics step, in microseconds.
    pub frame_time: u64,
    pub player: Player,
    pub obstacle: Obstacle,
    /// Obstacles passed in this game.
    pub score: i32,
}

/// The player of a fresh game.
pub open spec fn start_player() -> Player {
    Player { x: PLAYER_START_X, y: PLAYER_START_Y, velocity: 0, frame: 0 }
}

/// The state after `restart`: player back at the start, clock and score at
/// zero, mode `Playing`; the obstacle is kept.
pub open spec fn restarted(s: State) -> State {
    State { mode: GameMode::Playing, frame_time: 0, player: start_player(), score: 0, ..s }
}

/// The menu and the death notice react alike: `Start` restarts, `Quit` asks
/// to leave, anything else (or nothing) changes nothing.
pub open spec fn choice_step(s: State, key: Option<Key>) -> (State, bool) {
    match key {
        Option::Some(Key::Start) => (restarted(s), false),
        Option::Some(Key::Quit) => (s, true),
        _ => (s, false),
    }
}

/// The player after the clock has run for `elapsed` more microseconds and
/// the key was handled, with the new clock.
pub open spec fn advanced(s: State, elapsed: u32, key: Option<Key>) -> (Player, u64) {
    let t = s.frame_time + elapsed;
    let (p, ft) = if t > FRAME_DURATION_US {
        (s.player.moved(), 0u64)
    } else {
        (s.player, t as u64)
    };
    let p2 = if key == Option::Some(Key::Flap) {
        p.flapped()
    } else {
        p
    };
    (p2, ft)
}

/// One step in `Playing` mode, where a new obstacle, if one is made, has
/// its gap centred on `gap_y`. Returns the new state and what to draw: the
/// field as it stood before the obstacle was passed.
pub open spec fn play_step(s: State, elapsed: u32, key: Option<Key>, gap_y: i32) -> (
    State,
    Screen,
) {
    let (p, ft) = advanced(s, elapsed, key);
    let passed = p.x > s.obstacle.x;
    let score = if passed {
        s.score + 1
    } else {
        s.score as int
    };
    let o = if passed {
        Obstacle {
            x: (SCREEN_WIDTH + p.x) as i32,
            gap_y,
            size: gap_size(score) as i32,
        }
    } else {
        s.obstacle
    };
    let dead = row_of(p.y as int) > SCREEN_HEIGHT || hits(
        o.x as int,
        o.gap_y as int,
        o.size as int,
        p.x as int,
        p.y as int,
    );
    let mode = if dead {
        GameMode::End
    } else {
        GameMode::Playing
    };
    (
        State { mode, frame_time: ft, player: p, obstacle: o, score: score as i32 },
        Screen::Playing { player: p, obstacle: s.obstacle, score: s.score },
    )
}

/// One step of the whole machine, dispatched on the mode.
pub open spec fn tick_step(s: State, elapsed: u32, key: Option<Key>, gap_y: i32) -> (
    State,
    TickOutput,
) {
    match s.mode {
        GameMode::Menu => {
            let (t, quit) = choice_step(s, key);
            (t, TickOutput { quit, screen: Screen::Menu })
        },
        GameMode::Playing => {
            let (t, screen) = play_step(s, elapsed, key, gap_y);
            (t, TickOutput { quit: false, screen })
        },
        GameMode::End => {
            let (t, quit) = choice_step(s, key);
            (t, TickOutput { quit, screen: Screen::Dead { score: s.score } })
        },
    }
}

/// With no key, the menu and the death notice leave the whole state as it is
/// and never ask to quit, however often they run and whatever time passes.
pub proof fn lemma_idle_screens_keep_state(s: State, elapsed: u32, gap_y: i32, n: nat)
    requires
        s.mode == GameMode::Menu || s.mode == GameMode::End,
    ensures
        choice_step(s, Option::None) == (s, false),
        tick_step(s, elapsed, Option::None, gap_y).0 == s,
        !tick_step(s, elapsed, Option::None, gap_y).1.quit,
        idle_ticks(s, elapsed, gap_y, n) == s,
    decreases n,
{
    if n > 0 {
        lemma_idle_screens_keep_state(s, elapsed, gap_y, (n - 1) as nat);
    }
}

/// The state after `n` steps with no key, each `elapsed` microseconds long.
pub open spec fn idle_ticks(s: State, elapsed: u32, gap_y: i32, n: nat) -> State
    decreases n,
{
    if n == 0 {
        s
    } else {
        tick_step(idle_ticks(s, elapsed, gap_y, (n - 1) as nat), elapsed, Option::None, gap_y).0
    }
}

impl State {
    /// The entities are well formed, the clock never holds more than one
    /// physics step, the score is a count, and while playing the player is
    /// inside the field.
    pub open spec fn inv(&self) -> bool {
        &&& self.player.inv()
        &&& self.obstacle.inv()
        &&& self.frame_time <= FRAME_DURATION_US
        &&& self.score >= 0
        &&& self.mode == GameMode::Playing ==> 0 <= self.player.y < (SCREEN_HEIGHT + 1)
            * ROW_SCALE
    }

    /// Another step of play keeps every position and the score inside `i32`.
    pub open spec fn has_room(&self) -> bool {
        &&& self.player.x + HORIZONTAL_VELOCITY + SCREEN_WIDTH <= i32::MAX
        &&& self.score < i32::MAX
    }

    /// A new game at the menu: the player at the start, the first obstacle
    /// one screen ahead, score zero.
    pub fn new() -> (s: State)
        ensures
            s.inv(),
            s.mode == GameMode::Menu,
            s.player == start_player(),
            s.frame_time == 0,
            s.score == 0,
            s.obstacle.x == SCREEN_WIDTH,
            s.obstacle.size == GAP_START_SIZE,
    {
        State {
            mode: GameMode::Menu,
            player: Player::new(PLAYER_START_X, PLAYER_START_Y),
            frame_time: 0,
            obstacle: Obstacle::new(SCREEN_WIDTH, 0),
            score: 0,
        }
    }

    /// Starts a new game: the player back at the start, clock and score at
    /// zero, mode `Playing`.
    pub fn restart(&mut self)
        requires
            old(self).inv(),
        ensures
            final(self).inv(),
            *final(self) == restarted(*old(self)),
    {
        self.player = Player::new(PLAYER_START_X, PLAYER_START_Y);
        self.frame_time = 0;
        self.score = 0;
        self.mode = GameMode::Playing;
    }

    /// Reacts to a key on the menu or the death notice; returns whether to quit.
    fn answer_key(&mut self, key: Option<Key>) -> (quit: bool)
        requires
            old(self).inv(),
        ensures
            final(self).inv(),
            (*final(self), quit) == choice_step(*old(self), key),
    {
        match key {
            Some(Key::Start) => {
                self.restart();
                false
            },
            Some(Key::Quit) => true,
            _ => false,
        }
    }

    /// The menu: returns whether to quit.
    pub fn main_menu(&mut self, key: Option<Key>) -> (quit: bool)
        requires
            old(self).inv(),
        ensures
            final(self).inv(),
            (*final(self), quit) == choice_step(*old(self), key),
    {
        self.answer_key(key)
    }

    /// The death notice: returns whether to quit.
    pub fn dead(&mut self, key: Option<Key>) -> (quit: bool)
        requires
            old(self).inv(),
        ensures
            final(self).inv(),
            (*final(self), quit) == choice_step(*old(self), key),
    {
        self.answer_key(key)
    }

    /// One step of play: run the clock, take a physics step once it passes
    /// the step duration, flap on `Flap`, replace a passed obstacle (score
    /// plus one), and die on leaving the field or hitting the obstacle.
    pub fn play(&mut self, elapsed_us: u32, key: Option<Key>) -> (shown: Screen)
        requires
            old(self).inv(),
            old(self).mode == GameMode::Playing,
            old(self).has_room(),
        ensures
            final(self).inv(),
            (*final(self), shown) == play_step(
                *old(self),
                elapsed_us,
                key,
                final(self).obstacle.gap_y,
            ),
    {
        self.frame_time = self.frame_time + elapsed_us as u64;
        if self.frame_time > FRAME_DURATION_US {
            self.frame_time = 0;
            self.player.gravity_and_move();
        }
        match key {
            Some(Key::Flap) => self.player.flap(),
            _ => {},
        }
        let shown = Screen::Playing { player: self.player, obstacle: self.obstacle, score: self.score };
        if self.player.x > self.obstacle.x {
            self.score = self.score + 1;
            self.obstacle = Obstacle::new(SCREEN_WIDTH + self.player.x, self.score);
        }
        if self.player.row() > SCREEN_HEIGHT || self.obstacle.hit_obstacle(&self.player) {
            self.mode = GameMode::End;
        }
        shown
    }

    /// One frame: `elapsed_us` microseconds since the last one, and the key
    /// pressed in it, if any.
    pub fn tick(&mut self, elapsed_us: u32, key: Option<Key>) -> (out: TickOutput)
        requires
            old(self).inv(),
            old(self).has_room(),
        ensures
            final(self).inv(),
            (*final(self), out) == tick_step(
                *old(self),
                elapsed_us,
                key,
                final(self).obstacle.gap_y,
            ),
    {
        match self.mode {
            GameMode::Menu => {
                let quit = self.main_menu(key);
                TickOutput { quit, screen: Screen::Menu }
            },
            GameMode::Playing => {
                let screen = self.play(elapsed_us, key);
                TickOutput { quit: false, screen }
            },
            GameMode::End => {
                let score = self.score;
                let quit = self.dead(key);
                TickOutput { quit, screen: Screen::Dead { score } }
            },
        }
    }
}

} // verus!
