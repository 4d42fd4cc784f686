//! Obstacles: a fixed world column with a randomly centered gap whose size
//! shrinks as the score grows, collision against the player, and the bar of
//! glyphs the obstacle paints.

use vstd::prelude::*;
use crate::draw::{Color, DrawCmd, SCREEN_HEIGHT};
use crate::player::Player;

verus! {

/// Gap centers are drawn uniformly from `GAP_MIN .. GAP_MAX` hundredths of
/// a row (rows 10 to 40 of the screen).
pub const GAP_MIN: i32 = 1000;

pub const GAP_MAX: i32 = 4000;

/// bracket_lib's random number generator; the game draws each obstacle's
/// gap center from it. Opaque to the verifier.
#[verifier::external_type_specification]
#[verifier::external_body]
pub struct ExRandomNumberGenerator(bracket_lib::random::RandomNumberGenerator);

/// Relies on bracket_lib's `RandomNumberGenerator::range`, documented to
/// return a value inclusive of the lower bound and exclusive of the upper
/// one; on an empty range it panics, which the precondition rules out.
#[verifier::external_body]
pub(crate) fn roll_in(rng: &mut bracket_lib::random::RandomNumberGenerator, lo: i32, hi: i32) -> (r: i32)
    requires
        lo < hi,
    ensures
        lo <= r < hi,
{
    rng.range(lo, hi)
}

/// An obstacle: a world column `x` (in player steps), the center of its gap
/// `gap_y` (hundredths of a row), and the gap's total height `size` (rows).
#[derive(Clone, Copy, Debug, PartialEq, Eq, Structural)]
pub struct Obstacle {
    pub x: u32,
    pub gap_y: i32,
    pub size: u32,
}

impl Obstacle {
    /// The gap height an obstacle gets when built at score `score`: it
    /// narrows by one row per point, with a floor of two rows.
    pub open spec fn size_for(score: int) -> int {
        if 20 - score < 2 {
            2
        } else {
            20 - score
        }
    }

    /// The gap center lies in its fixed range and the gap height between
    /// its floor and its score-zero maximum.
    pub open spec fn wf(self) -> bool {
        &&& GAP_MIN <= self.gap_y < GAP_MAX
        &&& 2 <= self.size <= 20
    }

    /// Half the gap's height, in hundredths of a row.
    pub open spec fn half_gap(self) -> int {
        self.size * 50
    }

    /// The player collides with this obstacle exactly when it stands in the
    /// obstacle's column and its `y` lies strictly outside the gap.
    pub open spec fn hit(self, p: Player) -> bool {
        &&& p.x == self.x
        &&& (p.y < self.gap_y - self.half_gap() || p.y > self.gap_y + self.half_gap())
    }

    pub fn with_gap(x: u32, score: u32, gap_y: i32) -> (ob: Obstacle)
        requires
            GAP_MIN <= gap_y < GAP_MAX,
        ensures
            ob == (Obstacle { x, gap_y, size: Self::size_for(score as int) as u32 }),
            ob.wf(),
    {
        let size: u32 = if score >= 18 {
            2
        } else {
            20 - score
        };
        Obstacle { x, gap_y, size }
    }

    /// A fresh obstacle at column `x`: its gap center is drawn from `rng`,
    /// its gap height comes from the score at creation time.
    pub fn new(x: u32, score: u32, rng: &mut bracket_lib::random::RandomNumberGenerator) -> (ob: Obstacle)
        ensures
            ob.x == x,
            ob.size == Self::size_for(score as int),
            ob.wf(),
    {
        let gap_y = roll_in(rng, GAP_MIN, GAP_MAX);
        Obstacle::with_gap(x, score, gap_y)
    }

    pub fn hit_obstacle(&self, player: &Player) -> (r: bool)
        requires
            self.wf(),
        ensures
            r == self.hit(*player),
    {
        let half_size: i32 = (self.size as i32) * 50;
        let does_x_match = player.x == self.x;
        let player_above_gap = player.y < self.gap_y - half_size;
        let player_below_gap = player.y > self.gap_y + half_size;

        does_x_match && (player_above_gap || player_below_gap)
    }

    /// The obstacle's screen column, relative to the player.
    pub open spec fn screen_col(self, player_x: u32) -> int {
        self.x - player_x
    }

    /// The top edge of the gap, as a grid row.
    pub open spec fn gap_top_row(self) -> int {
        self.gap_y / 100 - self.size / 2
    }

    /// The bottom edge of the gap, as a grid row.
    pub open spec fn gap_bottom_row(self) -> int {
        self.gap_y / 100 + self.size / 2
    }

    /// The bar of glyphs this obstacle paints: every grid row from the top
    /// of the screen down to the gap, and from the gap's bottom edge down
    /// to the bottom of the screen, at the obstacle's screen column.
    pub open spec fn bar_cmds(self, player_x: u32) -> Seq<DrawCmd> {
        Seq::new(
            self.gap_top_row() as nat,
            |i: int| DrawCmd::Glyph {
                col: self.screen_col(player_x) as i32,
                row: i as i32,
                glyph: '|',
                fg: Color::Red,
                bg: Color::Black,
            },
        ) + Seq::new(
            (SCREEN_HEIGHT - self.gap_bottom_row()) as nat,
            |i: int| DrawCmd::Glyph {
                col: self.screen_col(player_x) as i32,
                row: (self.gap_bottom_row() + i) as i32,
                glyph: '|',
                fg: Color::Red,
                bg: Color::Black,
            },
        )
    }

    #[verifier::loop_isolation(false)]
    pub fn render(&self, out: &mut Vec<DrawCmd>, player_x: u32)
        requires
            self.wf(),
            i32::MIN <= self.x - player_x <= i32::MAX,
        ensures
            final(out)@ == old(out)@ + self.bar_cmds(player_x),
    {
        let screen_x: i32 = (self.x as i64 - player_x as i64) as i32;
        let gap_row: i32 = self.gap_y / 100;
        let half_size: i32 = (self.size / 2) as i32;
        let top: i32 = gap_row - half_size;
        let bot: i32 = gap_row + half_size;
        let ghost pre = out@;

        let mut row: i32 = 0;
        while row < top
            invariant
                0 <= row <= top,
                out@ == pre + Seq::new(
                    row as nat,
                    |i: int| DrawCmd::Glyph {
                        col: self.screen_col(player_x) as i32,
                        row: i as i32,
                        glyph: '|',
                        fg: Color::Red,
                        bg: Color::Black,
                    },
                ),
            decreases top - row,
        {
            out.push(DrawCmd::Glyph {
                col: screen_x,
                row,
                glyph: '|',
                fg: Color::Red,
                bg: Color::Black,
            });
            row = row + 1;
            assert(out@ =~= pre + Seq::new(
                row as nat,
                |i: int| DrawCmd::Glyph {
                    col: self.screen_col(player_x) as i32,
                    row: i as i32,
                    glyph: '|',
                    fg: Color::Red,
                    bg: Color::Black,
                },
            ));
        }

        let ghost mid = out@;
        let mut row2: i32 = bot;
        while row2 < SCREEN_HEIGHT
            invariant
                bot <= row2 <= SCREEN_HEIGHT,
                out@ == mid + Seq::new(
                    (row2 - bot) as nat,
                    |i: int| DrawCmd::Glyph {
                        col: self.screen_col(player_x) as i32,
                        row: (self.gap_bottom_row() + i) as i32,
                        glyph: '|',
                        fg: Color::Red,
                        bg: Color::Black,
                    },
                ),
            decreases SCREEN_HEIGHT - row2,
        {
            out.push(DrawCmd::Glyph {
                col: screen_x,
                row: row2,
                glyph: '|',
                fg: Color::Red,
                bg: Color::Black,
            });
            row2 = row2 + 1;
            assert(out@ =~= mid + Seq::new(
                (row2 - bot) as nat,
                |i: int| DrawCmd::Glyph {
                    col: self.screen_col(player_x) as i32,
                    row: (self.gap_bottom_row() + i) as i32,
                    glyph: '|',
                    fg: Color::Red,
                    bg: Color::Black,
                },
            ));
        }

        assert(out@ =~= pre + self.bar_cmds(player_x));
    }

    /// Law: an obstacle built at score `s` gets the larger of 2 and
    /// `20 - s` as its gap height; from score 18 on the floor of two rows
    /// is reached.
    pub proof fn lemma_size_formula(s: int)
        requires
            s >= 0,
        ensures
            Self::size_for(s) == (if 20 - s >= 2 { 20 - s } else { 2 }),
            Self::size_for(s) >= 2,
            s >= 18 ==> Self::size_for(s) == 2,
    {
    }

    /// Law: the player passes unharmed whenever its column differs from the
    /// obstacle's, wherever it stands vertically.
    pub proof fn lemma_no_hit_when_x_differs(self, p: Player)
        requires
            p.x != self.x,
        ensures
            !self.hit(p),
    {
    }

    /// Law: in the obstacle's column, the player collides exactly when its
    /// `y` lies strictly above or strictly below the gap; anywhere within
    /// the gap, edges included, it does not.
    pub proof fn lemma_hit_edges(self, p: Player)
        requires
            p.x == self.x,
        ensures
            p.y < self.gap_y - self.half_gap() ==> self.hit(p),
            p.y > self.gap_y + self.half_gap() ==> self.hit(p),
            self.gap_y - self.half_gap() <= p.y <= self.gap_y + self.half_gap() ==> !self.hit(p),
    {
    }
}

} // verus!
