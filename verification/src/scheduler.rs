//! The frame scheduler: a two-state machine. Before the first tick the
//! clock is `Idle` (no previous timestamp); the first tick records its
//! timestamp, forces the elapsed time to zero and moves to `Running`.
//! Every later tick measures the time since the previous one, runs the
//! movement step, then the render step, and records its own timestamp.
//!
//! The hosting layer owns the actual loop: it delivers key events to
//! `key_down` / `key_up`, calls `tick` once per display refresh with the
//! host's timestamp, draws the returned commands, and re-arms itself for
//! the next refresh.

use vstd::prelude::*;
use crate::entity::Entity;
use crate::entity::MAX_SPEED;
use crate::entity::dims_wf;
use crate::input::InputState;
use crate::input::spec_key_down;
use crate::input::spec_key_up;
use crate::render::DrawCmd;
use crate::render::render_commands;
use crate::render::render_seq;
use crate::update::new_x;
use crate::update::new_y;
use crate::update::lemma_zero_dt_is_still;
use crate::update::update_step;

verus! {

/// The scheduler's clock: either no frame has run yet, or the timestamp
/// of the previous frame (in host milliseconds) is known.
#[derive(Clone, Copy, Debug, PartialEq, Eq, Structural)]
pub enum FrameClock {
    Idle,
    Running { prev_ms: u64 },
}

/// The elapsed time, in milliseconds, that a tick at `now_ms` measures:
/// zero on the very first tick, the distance to the previous timestamp
/// afterwards.
pub open spec fn spec_tick_dt(c: FrameClock, now_ms: int) -> int {
    match c {
        FrameClock::Idle => 0,
        FrameClock::Running { prev_ms } => now_ms - prev_ms,
    }
}

/// The whole game state: held keys, the entity, the scheduler's clock and
/// the fixed surface dimensions (in sub-units).
#[derive(Clone, Copy, Debug, PartialEq, Eq, Structural)]
pub struct Game {
    pub input: InputState,
    pub entity: Entity,
    pub clock: FrameClock,
    pub width: i64,
    pub height: i64,
}

impl Game {
    /// The game invariant: sane dimensions and a well-formed entity.
    pub open spec fn wf(self) -> bool {
        self.entity.wf(self.width as int, self.height as int)
    }

    /// A fresh game on a `width` by `height` surface: no key held, no
    /// frame run yet, the entity centered with the given diameter and
    /// speed (all in sub-units; speed in sub-units per second).
    pub fn new(width: i64, height: i64, size: i64, speed: i64) -> (g: Game)
        requires
            dims_wf(width as int, height as int),
            0 < size <= width,
            size <= height,
            0 <= speed <= MAX_SPEED,
        ensures
            g.wf(),
            g.input == InputState::initial(),
            g.clock == FrameClock::Idle,
            g.width == width,
            g.height == height,
            g.entity.x == width / 2,
            g.entity.y == height / 2,
            g.entity.size == size,
            g.entity.speed == speed,
    {
        Game {
            input: InputState::new(),
            entity: Entity::centered(size, speed, width, height),
            clock: FrameClock::Idle,
            width,
            height,
        }
    }

    /// Records a key-down event: sets the flag of the mapped direction
    /// true; unrecognized keys change nothing. Only the input changes.
    pub fn key_down(&mut self, key: &str)
        ensures
            final(self).input == spec_key_down(old(self).input, key@),
            final(self).entity == old(self).entity,
            final(self).clock == old(self).clock,
            final(self).width == old(self).width,
            final(self).height == old(self).height,
    {
        self.input.key_down(key);
    }

    /// Records a key-up event: sets the flag of the mapped direction
    /// false; unrecognized keys change nothing. Only the input changes.
    pub fn key_up(&mut self, key: &str)
        ensures
            final(self).input == spec_key_up(old(self).input, key@),
            final(self).entity == old(self).entity,
            final(self).clock == old(self).clock,
            final(self).width == old(self).width,
            final(self).height == old(self).height,
    {
        self.input.key_up(key);
    }

    /// One frame: measure the elapsed time (zero on the first tick),
    /// record the timestamp, move the entity, and hand back the frame's
    /// drawing commands. The first tick never displaces the entity,
    /// whatever keys are held.
    pub fn tick(&mut self, now_ms: u64) -> (cmds: Vec<DrawCmd>)
        requires
            old(self).wf(),
            old(self).clock matches FrameClock::Running { prev_ms } ==> prev_ms <= now_ms,
        ensures
            final(self).wf(),
            final(self).input == old(self).input,
            final(self).width == old(self).width,
            final(self).height == old(self).height,
            final(self).clock == (FrameClock::Running { prev_ms: now_ms }),
            final(self).entity.x == new_x(
                old(self).input,
                old(self).entity,
                spec_tick_dt(old(self).clock, now_ms as int),
                old(self).width as int,
            ),
            final(self).entity.y == new_y(
                old(self).input,
                old(self).entity,
                spec_tick_dt(old(self).clock, now_ms as int),
                old(self).height as int,
            ),
            final(self).entity.size == old(self).entity.size,
            final(self).entity.speed == old(self).entity.speed,
            old(self).clock is Idle ==> final(self).entity == old(self).entity,
            cmds@ == render_seq(final(self).entity, old(self).width, old(self).height),
    {
        let dt_ms: u64 = match self.clock {
            FrameClock::Idle => 0,
            FrameClock::Running { prev_ms } => now_ms - prev_ms,
        };
        self.clock = FrameClock::Running { prev_ms: now_ms };
        let moved = update_step(&self.input, &self.entity, dt_ms, self.width, self.height);
        proof {
            if old(self).clock is Idle {
                lemma_zero_dt_is_still(
                    old(self).input,
                    old(self).entity,
                    old(self).width as int,
                    old(self).height as int,
                );
            }
        }
        self.entity = moved;
        render_commands(&self.entity, self.width, self.height)
    }
}

} // verus!
