use vstd::prelude::*;

use bracket_lib::random::RandomNumberGenerator;

use crate::config::SCREEN_WIDTH;
use crate::config::TERMINAL_VELOCITY;
use crate::session::GameSession;
use crate::session::advance_rel;
use crate::session::session_init;
use crate::session::ticks_of;

verus! {

/// A discrete input event, already debounced by the host to at most one per
/// frame. Which events matter depends on the mode; an event irrelevant to the
/// current mode is a no-op.
#[derive(Clone, Copy, PartialEq, Eq, Structural, Debug)]
pub enum InputEvent {
    Flap,
    Start,
    Quit,
    Restart,
}

/// The top-level mode: the menu, a live run carrying its session, or the
/// end screen, which retains the finished session so its final score stays
/// displayable. A session exists exactly while playing or just ended.
pub enum GameMode {
    Menu,
    Playing(GameSession),
    End(GameSession),
}

impl GameMode {
    pub open spec fn wf(self) -> bool {
        match self {
            GameMode::Menu => true,
            GameMode::Playing(s) => s.wf(),
            GameMode::End(s) => s.wf(),
        }
    }
}

/// The top-level state machine: owns the current mode (and with it the only
/// live session) and the quit flag the host loop polls once per frame.
pub struct GameModeController {
    pub mode: GameMode,
    pub quit_requested: bool,
}

impl GameModeController {
    pub open spec fn wf(self) -> bool {
        self.mode.wf()
    }

    /// A fresh controller: at the menu, with no session and no quit request.
    pub fn new() -> (c: GameModeController)
        ensures
            c.mode is Menu,
            !c.quit_requested,
            c.wf(),
    {
        GameModeController { mode: GameMode::Menu, quit_requested: false }
    }

    /// The quit flag, for the host loop to poll.
    pub fn quit_requested(&self) -> (r: bool)
        ensures
            r == self.quit_requested,
    {
        self.quit_requested
    }

    /// One rendered frame. In the menu, a start input begins a fresh run and
    /// a quit input raises the quit flag; while playing, the elapsed time and
    /// any flap input drive the session, and a fatal condition moves to the
    /// end screen with the session retained; on the end screen, a restart
    /// input begins a fresh run discarding the old one, and a quit input
    /// raises the quit flag. Every other combination changes nothing.
    pub fn frame(&mut self, rng: &mut RandomNumberGenerator, elapsed_ms: u64, input: Option<InputEvent>)
        requires
            old(self).wf(),
            old(self).mode matches GameMode::Playing(s) ==> {
                &&& s@.accum + elapsed_ms <= u64::MAX
                &&& s@.player.x + ticks_of(s@.accum, elapsed_ms as int) + SCREEN_WIDTH <= u64::MAX
                &&& s@.player.y + TERMINAL_VELOCITY * ticks_of(s@.accum, elapsed_ms as int) <= i64::MAX
            },
        ensures
            final(self).wf(),
            old(self).mode is Menu ==> {
                &&& (input == Some(InputEvent::Start) ==> {
                    &&& final(self).mode matches GameMode::Playing(s2) && session_init(s2@)
                    &&& final(self).quit_requested == old(self).quit_requested
                })
                &&& (input == Some(InputEvent::Quit) ==> final(self).mode is Menu && final(self).quit_requested)
                &&& (input != Some(InputEvent::Start) && input != Some(InputEvent::Quit)
                    ==> *final(self) == *old(self))
            },
            old(self).mode matches GameMode::Playing(s) ==> {
                &&& final(self).quit_requested == old(self).quit_requested
                &&& (final(self).mode is Playing || final(self).mode is End)
                &&& (final(self).mode matches GameMode::Playing(s2)
                    ==> advance_rel(s@, elapsed_ms as int, input == Some(InputEvent::Flap), s2@, false))
                &&& (final(self).mode matches GameMode::End(s2)
                    ==> advance_rel(s@, elapsed_ms as int, input == Some(InputEvent::Flap), s2@, true))
            },
            old(self).mode is End ==> {
                &&& (input == Some(InputEvent::Restart) ==> {
                    &&& final(self).mode matches GameMode::Playing(s2) && session_init(s2@)
                    &&& final(self).quit_requested == old(self).quit_requested
                })
                &&& (input == Some(InputEvent::Quit) ==> final(self).mode == old(self).mode
                    && final(self).quit_requested)
                &&& (input != Some(InputEvent::Restart) && input != Some(InputEvent::Quit)
                    ==> *final(self) == *old(self))
            },
    {
        let mut mode = GameMode::Menu;
        core::mem::swap(&mut mode, &mut self.mode);
        match mode {
            GameMode::Menu => {
                if input == Some(InputEvent::Start) {
                    self.mode = GameMode::Playing(GameSession::new(rng));
                } else {
                    if input == Some(InputEvent::Quit) {
                        self.quit_requested = true;
                    }
                    self.mode = GameMode::Menu;
                }
            },
            GameMode::Playing(mut session) => {
                let flap = input == Some(InputEvent::Flap);
                let ended = session.advance(rng, elapsed_ms, flap);
                self.mode = if ended {
                    GameMode::End(session)
                } else {
                    GameMode::Playing(session)
                };
            },
            GameMode::End(session) => {
                if input == Some(InputEvent::Restart) {
                    self.mode = GameMode::Playing(GameSession::new(rng));
                } else {
                    if input == Some(InputEvent::Quit) {
                        self.quit_requested = true;
                    }
                    self.mode = GameMode::End(session);
                }
            },
        }
    }
}

} // verus!
