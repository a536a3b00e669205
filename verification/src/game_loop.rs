//! The loop that drives a game: logic at one fixed rate, drawing at another.
//!
//! The host owns the clock, the keyboard and the screen. It hands key events
//! over as they come, and whenever it has none left it calls
//! [`GameLoop::advance`] with the current time. The game then catches up on
//! every update that is overdue, and says whether a frame is to be drawn and
//! what is in it.

use vstd::prelude::*;
use crate::entity::{DrawCommand, ImageHandle};
use crate::game::{Game, GameState};
use crate::input::KeyEvent;
use crate::timer::{
    lemma_consume_adds, lemma_consume_all, lemma_consume_none, Timer, TimerState, NANOS_PER_SECOND,
};

verus! {

/// Updates of the game's logic per second.
pub const UPDATES_PER_SECOND: u32 = 30;

/// Frames drawn per second, at most.
pub const RENDERS_PER_SECOND: u32 = 60;

/// Width of the screen in grid units.
pub const SCREEN_WIDTH: u32 = 800;

/// Height of the screen in grid units.
pub const SCREEN_HEIGHT: u32 = 600;

/// What a running loop is, as plain data: the game and its two timers.
pub struct LoopState {
    pub game: GameState,
    pub updates: TimerState,
    pub renders: TimerState,
}

impl LoopState {
    /// A loop started at `now` with the two images that the host has loaded:
    /// a new game that has been given its images, and both timers counting
    /// from `now` at their rates.
    pub open spec fn started(
        player_image: ImageHandle,
        enemy_image: ImageHandle,
        now: nat,
    ) -> LoopState {
        LoopState {
            game: GameState::initial().after_init(player_image, enemy_image),
            updates: TimerState {
                period: (NANOS_PER_SECOND / UPDATES_PER_SECOND as u64) as nat,
                init: now,
            },
            renders: TimerState {
                period: (NANOS_PER_SECOND / RENDERS_PER_SECOND as u64) as nat,
                init: now,
            },
        }
    }

    /// Whether a frame is to be drawn at `now`.
    pub open spec fn frame_due(self, now: nat) -> bool {
        self.renders.due(now) >= 1
    }

    /// The loop after it has been advanced to `now`. The game has made one
    /// update for every update period that was due, however many there were.
    /// The render periods that were due are all consumed as well; frames that
    /// were missed are not made up for.
    pub open spec fn after_advance(self, now: nat) -> LoopState {
        LoopState {
            game: self.game.after_updates(self.updates.due(now)),
            updates: self.updates.consume(self.updates.due(now)),
            renders: self.renders.consume(self.renders.due(now)),
        }
    }
}

/// Advancing twice to the same instant does nothing the second time: no
/// update is made, and no frame is due.
pub proof fn lemma_advance_settles(state: LoopState, now: nat)
    requires
        state.updates.period > 0,
        state.renders.period > 0,
    ensures
        state.after_advance(now).after_advance(now) == state.after_advance(now),
        !state.after_advance(now).frame_due(now),
{
    lemma_consume_all(state.updates, now);
    lemma_consume_all(state.renders, now);
    lemma_consume_none(state.after_advance(now).updates);
    lemma_consume_none(state.after_advance(now).renders);
}

/// A game together with the timers that pace its updates and its frames.
pub struct GameLoop {
    game: Game,
    update_timer: Timer,
    draw_timer: Timer,
}

impl View for GameLoop {
    type V = LoopState;

    closed spec fn view(&self) -> LoopState {
        LoopState {
            game: self.game@,
            updates: self.update_timer@,
            renders: self.draw_timer@,
        }
    }
}

impl GameLoop {
    /// Starts a loop at `now`. The game is new and is given the two images
    /// that the host has loaded before anything else can happen to it, so
    /// that no frame is ever asked for without them.
    pub fn new(
        player_image: ImageHandle,
        enemy_image: ImageHandle,
        now: u64,
    ) -> (game_loop: GameLoop)
        ensures
            game_loop@ == LoopState::started(player_image, enemy_image, now as nat),
    {
        let mut game = Game::new();
        game.init(player_image, enemy_image);
        GameLoop {
            game,
            update_timer: Timer::time_per_second(UPDATES_PER_SECOND, now),
            draw_timer: Timer::time_per_second(RENDERS_PER_SECOND, now),
        }
    }

    /// Hands the game a key event.
    pub fn handle_key(&mut self, event: KeyEvent)
        ensures
            final(self)@ == (LoopState { game: old(self)@.game.after_key(event), ..old(self)@ }),
    {
        self.game.handle_key(event);
    }

    /// Advances the loop to `now`. The game makes every update that is due,
    /// one by one. Then, if a frame is due, the list of what to draw is
    /// returned; otherwise `None`.
    pub fn advance(&mut self, now: u64) -> (frame: Option<Vec<DrawCommand>>)
        ensures
            final(self)@ == old(self)@.after_advance(now as nat),
            frame.is_some() == old(self)@.frame_due(now as nat),
            frame.is_some() ==> frame.unwrap()@ == final(self)@.game.frame(),
    {
        let ghost start = self@;
        let ghost total = start.updates.due(now as nat);
        let ghost mut count: nat = 0;
        proof {
            lemma_consume_none(start.updates);
        }
        let mut fired = self.update_timer.tick(now);
        while fired
            invariant
                self.game@ == start.game.after_updates(count),
                self.draw_timer@ == start.renders,
                total == start.updates.due(now as nat),
                fired ==> self.update_timer@ == start.updates.consume(count + 1),
                fired ==> self.update_timer@.due(now as nat) + count + 1 == total,
                !fired ==> self.update_timer@ == start.updates.consume(count),
                !fired ==> count == total,
            decreases total - count,
        {
            self.game.update();
            proof {
                count = count + 1;
                lemma_consume_adds(start.updates, count, 1);
            }
            fired = self.update_timer.tick(now);
        }
        match self.draw_timer.exhaust(now) {
            Some(_) => Some(self.game.render()),
            None => None,
        }
    }

    /// The game that the loop drives.
    pub fn game(&self) -> (game: &Game)
        ensures
            game@ == self@.game,
    {
        &self.game
    }
}

} // verus!
