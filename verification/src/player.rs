//! The sprite that the player steers.
//!
//! Positions are whole cells. Speed is held in fixed point: one unit is a
//! fifth of a row per physics step, which is also what gravity adds in one
//! step, so every speed the game reaches is exact.

use vstd::prelude::*;
use crate::display::{cp437, glyph, Color, DrawCommand, Drawing};

verus! {

/// Units of speed that make one row per physics step.
pub const SPEED_UNITS_PER_ROW: i32 = 5;

/// What one physics step adds to the speed: 0.2 rows per step.
pub const GRAVITY: i32 = 1;

/// The fastest fall: 2.0 rows per step. Gravity acts only below this speed.
pub const TERMINAL_VELOCITY: i32 = 10;

/// The speed right after a flap: 2.0 rows per step, upward.
pub const FLAP_VELOCITY: i32 = -10;

/// A player as mathematics sees it: unbounded integers.
pub struct PlayerModel {
    pub x: int,
    pub y: int,
    pub velocity: int,
}

impl PlayerModel {
    /// The speed after one physics step that began at speed `v`.
    pub open spec fn fall(v: int) -> int {
        if v < TERMINAL_VELOCITY {
            v + GRAVITY
        } else {
            v
        }
    }

    /// Whole rows moved in one step at speed `v`: the speed in rows, rounded
    /// down (so an upward speed of 1.8 lifts the player two rows).
    pub open spec fn rows(v: int) -> int {
        v / (SPEED_UNITS_PER_ROW as int)
    }

    /// The player after one physics step: gravity first, then the move by
    /// the new speed, one column forward, and never above row 0.
    pub open spec fn after_gravity(self) -> PlayerModel {
        let v = Self::fall(self.velocity);
        let y = self.y + Self::rows(v);
        PlayerModel { x: self.x + 1, y: if y < 0 { 0 } else { y }, velocity: v }
    }

    /// The player after a flap: only the speed changes.
    pub open spec fn flapped(self) -> PlayerModel {
        PlayerModel { velocity: FLAP_VELOCITY as int, ..self }
    }

    /// The player as drawn: always in screen column 0, at its own row. The
    /// world scrolls under it.
    pub open spec fn drawn(self) -> Drawing {
        Drawing::SetCell {
            x: 0,
            y: self.y,
            fg: Color::Yellow,
            bg: Color::Black,
            glyph: cp437('@'),
        }
    }

    /// The player after `n` physics steps with no flap between them.
    pub open spec fn after_steps(self, n: nat) -> PlayerModel
        decreases n,
    {
        if n == 0 {
            self
        } else {
            self.after_steps((n - 1) as nat).after_gravity()
        }
    }
}

/// Falling without a flap: each physics step takes the player one column
/// forward and adds gravity to a speed below the terminal one, until the
/// speed is the terminal one; there it stays. A speed that began above the
/// terminal one does not change.
pub proof fn lemma_after_steps(player: PlayerModel, n: nat)
    ensures
        player.after_steps(n).x == player.x + n,
        player.velocity <= TERMINAL_VELOCITY ==> player.after_steps(n).velocity <= TERMINAL_VELOCITY,
        player.after_steps(n).velocity == if player.velocity >= TERMINAL_VELOCITY {
            player.velocity
        } else if player.velocity + n * GRAVITY < TERMINAL_VELOCITY {
            player.velocity + n * GRAVITY
        } else {
            TERMINAL_VELOCITY as int
        },
        n > 0 ==> player.after_steps(n).y >= 0,
    decreases n,
{
    if n > 0 {
        lemma_after_steps(player, (n - 1) as nat);
    }
}

/// The controlled sprite: a cell in world space and a vertical speed.
#[derive(Clone, Copy, Debug, PartialEq, Eq, Structural)]
pub struct Player {
    /// Column in world space. It only ever grows.
    pub x: i32,
    /// Row; smaller is higher.
    pub y: i32,
    /// Vertical speed in fifths of a row per step; positive is downward.
    pub velocity: i32,
}

impl View for Player {
    type V = PlayerModel;

    open spec fn view(&self) -> PlayerModel {
        PlayerModel { x: self.x as int, y: self.y as int, velocity: self.velocity as int }
    }
}

impl Player {
    /// A player at rest at the given cell.
    pub fn new(x: i32, y: i32) -> (p: Player)
        ensures
            p@ == (PlayerModel { x: x as int, y: y as int, velocity: 0 }),
    {
        Player { x, y, velocity: 0 }
    }

    /// Whole rows moved in one step at speed `v`, rounded down.
    pub fn rows_per_step(v: i32) -> (r: i32)
        ensures
            r == PlayerModel::rows(v as int),
    {
        if v >= 0 {
            v / SPEED_UNITS_PER_ROW
        } else {
            let up: i64 = (SPEED_UNITS_PER_ROW as i64 - 1 - v as i64) / (SPEED_UNITS_PER_ROW as i64);
            (-up) as i32
        }
    }

    /// One physics step: gravity, then the move, clamped at the top row.
    pub fn gravity_to_move(&mut self)
        requires
            old(self)@.after_gravity().x <= i32::MAX,
            old(self)@.after_gravity().y <= i32::MAX,
        ensures
            final(self)@ == old(self)@.after_gravity(),
            final(self).y >= 0,
    {
        if self.velocity < TERMINAL_VELOCITY {
            self.velocity += GRAVITY;
        }
        let y: i64 = self.y as i64 + Self::rows_per_step(self.velocity) as i64;
        self.x += 1;
        self.y = if y < 0 { 0 } else { y as i32 };
    }

    /// The command that draws the player.
    pub fn render(&self) -> (command: DrawCommand)
        ensures
            command@ == self@.drawn(),
    {
        DrawCommand::SetCell {
            x: 0,
            y: self.y,
            fg: Color::Yellow,
            bg: Color::Black,
            glyph: glyph('@'),
        }
    }

    /// An upward impulse: the speed becomes the flap speed, whatever it was.
    pub fn flap(&mut self)
        ensures
            final(self)@ == old(self)@.flapped(),
            final(self).velocity == FLAP_VELOCITY,
    {
        self.velocity = FLAP_VELOCITY;
    }
}

} // verus!
