//! Kinematics of the player: constant gravity, a terminal velocity, an
//! instantaneous upward flap impulse, and a floor at row zero.

use vstd::prelude::*;
use crate::draw::{Color, DrawCmd};

verus! {

/// Gravity adds this much velocity (hundredths of a row) per simulated step.
pub const GRAVITY: i32 = 35;

/// Velocity never exceeds this terminal value (two rows per step).
pub const TERMINAL_VELOCITY: i32 = 200;

/// A flap sets velocity to exactly this impulse (two rows per step, upward).
pub const FLAP_VELOCITY: i32 = -200;

/// The player. `x` counts simulated steps from the world origin; `y` and
/// `velocity` are in hundredths of a screen row, `y` growing downward.
#[derive(Clone, Copy, Debug, PartialEq, Eq, Structural)]
pub struct Player {
    pub x: u32,
    pub y: i32,
    pub velocity: i32,
}

impl Player {
    /// Velocity stays between the flap impulse and the terminal value.
    pub open spec fn velocity_ok(self) -> bool {
        FLAP_VELOCITY <= self.velocity <= TERMINAL_VELOCITY
    }

    /// The player never sits above the top of the world and its velocity
    /// stays between the flap impulse and the terminal value.
    pub open spec fn wf(self) -> bool {
        &&& self.y >= 0
        &&& self.velocity_ok()
    }

    /// One simulated step: velocity grows by `GRAVITY` but is capped at
    /// `TERMINAL_VELOCITY`, the new velocity moves `y` (clamped at 0), and
    /// `x` advances by exactly one step.
    pub open spec fn advanced(self) -> Player {
        let v = if self.velocity + GRAVITY > TERMINAL_VELOCITY {
            TERMINAL_VELOCITY as int
        } else {
            self.velocity + GRAVITY
        };
        let y1 = self.y + v;
        Player {
            x: (self.x + 1) as u32,
            y: (if y1 < 0 { 0 } else { y1 }) as i32,
            velocity: v as i32,
        }
    }

    /// The player after a flap: only the velocity changes.
    pub open spec fn flapped(self) -> Player {
        Player { velocity: FLAP_VELOCITY, ..self }
    }

    /// `self` after `n` simulated steps with no flap in between.
    pub open spec fn advanced_n(self, n: nat) -> Player
        decreases n,
    {
        if n == 0 {
            self
        } else {
            self.advanced_n((n - 1) as nat).advanced()
        }
    }

    /// The draw command that paints the player: its glyph at column 0 and
    /// the grid row its `y` falls in.
    pub open spec fn glyph_cmd(self) -> DrawCmd {
        DrawCmd::Glyph {
            col: 0,
            row: (self.y as int / 100) as i32,
            glyph: '@',
            fg: Color::Yellow,
            bg: Color::Black,
        }
    }

    pub fn new(x: u32, y: i32) -> (p: Player)
        requires
            y >= 0,
        ensures
            p == (Player { x, y, velocity: 0 }),
    {
        Player { x, y, velocity: 0 }
    }

    pub fn gravity_and_move(&mut self)
        requires
            old(self).wf(),
            old(self).x < u32::MAX,
            old(self).y <= i32::MAX - TERMINAL_VELOCITY,
        ensures
            *final(self) == old(self).advanced(),
            final(self).wf(),
            final(self).velocity >= old(self).velocity,
    {
        let mut v: i32 = self.velocity + GRAVITY;
        if v > TERMINAL_VELOCITY {
            v = TERMINAL_VELOCITY;
        }
        self.velocity = v;
        self.y = self.y + v;
        self.x = self.x + 1;
        if self.y < 0 {
            self.y = 0;
        }
    }

    pub fn flap(&mut self)
        ensures
            *final(self) == old(self).flapped(),
    {
        self.velocity = FLAP_VELOCITY;
    }

    pub fn render(&self, out: &mut Vec<DrawCmd>)
        requires
            self.wf(),
        ensures
            final(out)@ == old(out)@.push(self.glyph_cmd()),
    {
        let cmd = DrawCmd::Glyph {
            col: 0,
            row: self.y / 100,
            glyph: '@',
            fg: Color::Yellow,
            bg: Color::Black,
        };
        out.push(cmd);
    }

    /// Law: gravity alone keeps velocity between the flap impulse and the
    /// terminal value: it never exceeds the terminal value.
    pub proof fn lemma_velocity_bounded(self, n: nat)
        requires
            self.velocity_ok(),
        ensures
            self.advanced_n(n).velocity_ok(),
            self.advanced_n(n).velocity <= TERMINAL_VELOCITY,
        decreases n,
    {
        if n > 0 {
            self.lemma_velocity_bounded((n - 1) as nat);
        }
    }

    /// Law: any run of simulated steps with no flap keeps the player well
    /// formed; in particular `y` never goes negative. Each step moves `y` by
    /// at most the terminal velocity, so the headroom bound rules out wrap-
    /// around of the machine integer; it is the only input left out.
    pub proof fn lemma_gravity_preserves_wf(self, n: nat)
        requires
            self.wf(),
            self.y + TERMINAL_VELOCITY * n <= i32::MAX,
        ensures
            self.advanced_n(n).wf(),
            self.advanced_n(n).y >= 0,
            self.advanced_n(n).y <= self.y + TERMINAL_VELOCITY * n,
            self.advanced_n(n).velocity <= TERMINAL_VELOCITY,
        decreases n,
    {
        if n > 0 {
            self.lemma_gravity_preserves_wf((n - 1) as nat);
            assert(TERMINAL_VELOCITY * n == TERMINAL_VELOCITY * ((n - 1) as nat) + TERMINAL_VELOCITY);
        }
    }

    /// Law: across any run of simulated steps with no flap in between,
    /// velocity is monotonically non-decreasing.
    pub proof fn lemma_velocity_monotone(self, m: nat, n: nat)
        requires
            self.velocity_ok(),
            m <= n,
        ensures
            self.advanced_n(m).velocity <= self.advanced_n(n).velocity,
        decreases n,
    {
        if m < n {
            self.lemma_velocity_monotone(m, (n - 1) as nat);
            self.lemma_velocity_bounded((n - 1) as nat);
        }
    }
}

} // verus!
