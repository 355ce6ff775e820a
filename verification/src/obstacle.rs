//! The wall ahead of the player, and the gap in it.

use vstd::prelude::*;
use bracket_lib::prelude::RandomNumberGenerator;
use crate::config::SCREEN_HEIGHT;
use crate::display::{cp437, drawings, glyph, Color, DrawCommand, Drawing};
use crate::player::{Player, PlayerModel};

verus! {

/// The lowest row at which a gap may be centred.
pub const GAP_Y_MIN: i32 = 10;

/// The first row past those at which a gap may be centred.
pub const GAP_Y_END: i32 = 40;

/// The height of the gap at score 0. Each point takes one row off.
pub const WIDEST_GAP: i32 = 20;

/// The height below which the gap never shrinks.
pub const NARROWEST_GAP: i32 = 2;

/// The height of the gap of a wall made at the given score.
pub open spec fn gap_size(score: int) -> int {
    if WIDEST_GAP - score > NARROWEST_GAP {
        WIDEST_GAP - score
    } else {
        NARROWEST_GAP as int
    }
}

/// A wall as mathematics sees it: unbounded integers.
pub struct ObstacleModel {
    pub x: int,
    pub gap_y: int,
    pub size: int,
}

impl ObstacleModel {
    /// The wall at column `x`, made at the given score, with its gap centred
    /// at row `gap_y`.
    pub open spec fn with_gap(x: int, gap_y: int, score: int) -> ObstacleModel {
        ObstacleModel { x, gap_y, size: gap_size(score) }
    }

    /// What holds of every wall of the game: the gap is centred in the
    /// allowed rows and is between the narrowest and the widest height.
    pub open spec fn wf(self) -> bool {
        &&& GAP_Y_MIN <= self.gap_y < GAP_Y_END
        &&& NARROWEST_GAP <= self.size <= WIDEST_GAP
    }

    /// The first row of the gap: the wall above it ends just before.
    pub open spec fn gap_top(self) -> int {
        self.gap_y - self.size / 2
    }

    /// The row at which the wall below the gap begins. A player in this row
    /// is not yet hit.
    pub open spec fn gap_bottom(self) -> int {
        self.gap_y + self.size / 2
    }

    /// Whether a player is in the wall: in its column, and above the gap or
    /// below it.
    pub open spec fn hits(self, player: PlayerModel) -> bool {
        player.x == self.x && (player.y < self.gap_top() || player.y > self.gap_bottom())
    }

    /// A stretch of wall in screen column `x`: one cell for each row from
    /// `from` up to but not including `to`, top to bottom.
    pub open spec fn wall(x: int, from: int, to: int) -> Seq<Drawing> {
        Seq::new(
            (if to > from { to - from } else { 0 }) as nat,
            |i: int| Drawing::SetCell {
                x,
                y: from + i,
                fg: Color::Red,
                bg: Color::Black,
                glyph: cp437('|'),
            },
        )
    }

    /// The wall as drawn for a player in column `player_x`, who is always
    /// shown in screen column 0: the part above the gap, then the part below
    /// it down to the last row of the screen.
    pub open spec fn drawn(self, player_x: int) -> Seq<Drawing> {
        Self::wall(self.x - player_x, 0, self.gap_top()) + Self::wall(
            self.x - player_x,
            self.gap_bottom(),
            SCREEN_HEIGHT as int,
        )
    }
}

/// One vertical wall with a gap to fly through.
#[derive(Clone, Copy, Debug, PartialEq, Eq, Structural)]
pub struct Obstacle {
    /// Column of the wall in world space.
    pub x: i32,
    /// Row at which the gap is centred.
    pub gap_y: i32,
    /// Height of the gap.
    pub size: i32,
}

impl View for Obstacle {
    type V = ObstacleModel;

    open spec fn view(&self) -> ObstacleModel {
        ObstacleModel { x: self.x as int, gap_y: self.gap_y as int, size: self.size as int }
    }
}

/// `RandomNumberGenerator` of bracket-lib, a seeded generator of random
/// numbers. Nothing of its inside is known here.
#[verifier::external_type_specification]
#[verifier::external_body]
pub struct ExRandomNumberGenerator(RandomNumberGenerator);

/// `RandomNumberGenerator::new` of bracket-lib: a generator seeded from the
/// system's entropy, or from the clock where there is none. Nothing is
/// claimed of it.
pub assume_specification[ RandomNumberGenerator::new ]() -> (random: RandomNumberGenerator);

/// A number drawn from `min..max`.
///
/// Calls `RandomNumberGenerator::range` of bracket-lib, which samples the
/// half-open range and panics on an empty one. The contract claims only that
/// the number lies in the range: which one comes is chance.
#[verifier::external_body]
fn range(random: &mut RandomNumberGenerator, min: i32, max: i32) -> (r: i32)
    requires
        min < max,
    ensures
        min <= r < max,
{
    random.range(min, max)
}

impl Obstacle {
    /// A wall at column `x` for the given score, with its gap centred at a
    /// row drawn at random from the allowed ones.
    pub fn new(x: i32, score: i32) -> (obstacle: Obstacle)
        requires
            score >= 0,
        ensures
            obstacle@ == ObstacleModel::with_gap(x as int, obstacle.gap_y as int, score as int),
            GAP_Y_MIN <= obstacle.gap_y < GAP_Y_END,
            obstacle.size == gap_size(score as int),
            obstacle.size >= NARROWEST_GAP,
            obstacle@.wf(),
    {
        let mut random = RandomNumberGenerator::new();
        let gap_y = range(&mut random, GAP_Y_MIN, GAP_Y_END);
        Obstacle::with_gap(x, gap_y, score)
    }

    /// A wall at column `x` for the given score, with its gap centred at the
    /// given row.
    pub fn with_gap(x: i32, gap_y: i32, score: i32) -> (obstacle: Obstacle)
        requires
            GAP_Y_MIN <= gap_y < GAP_Y_END,
            score >= 0,
        ensures
            obstacle@ == ObstacleModel::with_gap(x as int, gap_y as int, score as int),
            obstacle.size == gap_size(score as int),
            obstacle.size >= NARROWEST_GAP,
            obstacle@.wf(),
    {
        let shrunk: i32 = WIDEST_GAP - score;
        Obstacle { x, gap_y, size: if shrunk > NARROWEST_GAP { shrunk } else { NARROWEST_GAP } }
    }

    /// Whether this is a wall of the game.
    pub fn is_wf(&self) -> (ok: bool)
        ensures
            ok == self@.wf(),
    {
        GAP_Y_MIN <= self.gap_y && self.gap_y < GAP_Y_END && NARROWEST_GAP <= self.size
            && self.size <= WIDEST_GAP
    }

    /// The commands that draw the wall for a player in column `player_x`.
    pub fn render(&self, player_x: i32) -> (commands: Vec<DrawCommand>)
        requires
            self@.wf(),
            i32::MIN <= self.x - player_x <= i32::MAX,
        ensures
            drawings(commands@) == self@.drawn(player_x as int),
    {
        let screen_x: i32 = self.x - player_x;
        let half_size: i32 = self.size / 2;
        let bar = glyph('|');
        let top: i32 = self.gap_y - half_size;
        let bottom: i32 = self.gap_y + half_size;
        let mut commands: Vec<DrawCommand> = Vec::new();
        let mut y: i32 = 0;
        while y < top
            invariant
                0 <= y <= top,
                bar == cp437('|'),
                commands@.len() == y,
                drawings(commands@) =~= ObstacleModel::wall(screen_x as int, 0, y as int),
            decreases top - y,
        {
            let ghost before = commands@;
            let cell = DrawCommand::SetCell {
                x: screen_x,
                y,
                fg: Color::Red,
                bg: Color::Black,
                glyph: bar,
            };
            commands.push(cell);
            y += 1;
            assert(drawings(commands@) =~= drawings(before).push(cell@));
        }
        let mut y: i32 = bottom;
        while y < SCREEN_HEIGHT
            invariant
                0 <= top,
                bottom <= y <= SCREEN_HEIGHT,
                bar == cp437('|'),
                commands@.len() == top + (y - bottom),
                drawings(commands@) =~= ObstacleModel::wall(screen_x as int, 0, top as int)
                    + ObstacleModel::wall(screen_x as int, bottom as int, y as int),
            decreases SCREEN_HEIGHT - y,
        {
            let ghost before = commands@;
            let cell = DrawCommand::SetCell {
                x: screen_x,
                y,
                fg: Color::Red,
                bg: Color::Black,
                glyph: bar,
            };
            commands.push(cell);
            y += 1;
            assert(drawings(commands@) =~= drawings(before).push(cell@));
        }
        commands
    }

    /// Whether the player is in the wall: in its column, and above the gap
    /// or below it. A player in any other column is never hit.
    pub fn hit_obstacle(&self, player: &Player) -> (hit: bool)
        requires
            self@.wf(),
        ensures
            hit == self@.hits(player@),
            hit <==> player.x == self.x && (player.y < self.gap_y - self.size / 2 || player.y
                > self.gap_y + self.size / 2),
            player.x != self.x ==> !hit,
    {
        let half_size: i32 = self.size / 2;
        let does_x_match = player.x == self.x;
        let player_above_gap = player.y < self.gap_y - half_size;
        let player_below_gap = player.y > self.gap_y + half_size;
        does_x_match && (player_above_gap || player_below_gap)
    }
}

} // verus!
