//! The game session and its mode state machine: menu, playing, dead. One
//! `tick` runs per driver frame; it consumes the elapsed time and the key
//! pressed this frame, steps the simulation, and appends this frame's draw
//! commands.

use vstd::prelude::*;
use crate::draw::{Color, DrawCmd, Msg, SCREEN_HEIGHT, SCREEN_WIDTH};
use crate::obstacle::Obstacle;
use crate::player::Player;

verus! {

/// Accumulated real time (hundredths of a millisecond) that must elapse
/// before one simulated step fires: 75 ms.
pub const FRAME_DURATION: u64 = 7500;

/// The player's fixed starting column (world steps).
pub const START_X: u32 = 5;

/// The player's fixed starting row, in hundredths of a row (row 25).
pub const START_Y: i32 = 2500;

/// The key press handed to the core each tick, already reduced to the keys
/// the game reacts to; every other key arrives as `Other`.
#[derive(Clone, Copy, Debug, PartialEq, Eq, Structural)]
pub enum Key {
    Space,
    P,
    Q,
    Other,
}

/// Which screen the game is on.
#[derive(Clone, Copy, Debug, PartialEq, Eq, Structural)]
pub enum GameMode {
    Menu,
    Playing,
    End,
}

/// One game session: the player, exactly two obstacle slots, the score, the
/// simulated-step accumulator, the current mode, and the random number
/// generator the obstacles' gap centers are drawn from.
pub struct State {
    pub player: Player,
    pub frame_time: u64,
    pub obstacle1: Obstacle,
    pub obstacle2: Obstacle,
    pub mode: GameMode,
    pub score: u32,
    pub rng: bracket_lib::random::RandomNumberGenerator,
}

impl State {
    /// Session validity: the parts are well formed, the step accumulator
    /// never rests above its threshold, while playing the player is on
    /// screen, and each obstacle lies between the player's column and one
    /// screen width ahead of it.
    pub open spec fn wf(self) -> bool {
        &&& self.player.wf()
        &&& self.obstacle1.wf()
        &&& self.obstacle2.wf()
        &&& self.frame_time <= FRAME_DURATION
        &&& self.mode is Playing ==> self.player.y <= SCREEN_HEIGHT * 100
        &&& self.player.x <= self.obstacle1.x <= self.player.x + SCREEN_WIDTH
        &&& self.player.x <= self.obstacle2.x <= self.player.x + SCREEN_WIDTH
    }

    /// A freshly (re)started playing session: player back at the start with
    /// zero velocity, score and accumulator cleared, both obstacles rebuilt
    /// at score zero, half and one screen width into the world.
    pub open spec fn is_reset(post: State) -> bool {
        &&& post.player == (Player { x: START_X, y: START_Y, velocity: 0 })
        &&& post.frame_time == 0
        &&& post.score == 0
        &&& post.mode is Playing
        &&& post.obstacle1.x == SCREEN_WIDTH / 2
        &&& post.obstacle1.size == Obstacle::size_for(0)
        &&& post.obstacle1.wf()
        &&& post.obstacle2.x == SCREEN_WIDTH
        &&& post.obstacle2.size == Obstacle::size_for(0)
        &&& post.obstacle2.wf()
    }

    /// What a static screen (menu or death screen) does with the key: `P`
    /// restarts the session, `Q` asks the process to quit, anything else
    /// changes nothing.
    pub open spec fn static_screen_step(pre: State, key: Option<Key>, post: State, quit: bool) -> bool {
        match key {
            Some(Key::P) => !quit && State::is_reset(post),
            Some(Key::Q) => quit && post == pre,
            _ => !quit && post == pre,
        }
    }

    /// The player after the step accumulator is applied: one simulated step
    /// fires exactly when the accumulated time passes the threshold.
    pub open spec fn stepped_player(pre: State, elapsed: u64) -> Player {
        if pre.frame_time + elapsed > FRAME_DURATION {
            pre.player.advanced()
        } else {
            pre.player
        }
    }

    /// The player after this tick's step and flap: a flap applies on the
    /// space key immediately, whether or not a step fired.
    pub open spec fn moved_player(pre: State, elapsed: u64, key: Option<Key>) -> Player {
        let p1 = State::stepped_player(pre, elapsed);
        if key == Some(Key::Space) {
            p1.flapped()
        } else {
            p1
        }
    }

    /// One playing-mode tick, from `pre` to `post`: the accumulator gates
    /// one simulated step; a flap applies immediately; each obstacle the
    /// player has passed scores one point and is rebuilt one screen width
    /// ahead at the just-incremented score; the mode falls to `End` exactly
    /// when the player is below the screen or collides with an obstacle.
    pub open spec fn play_step(pre: State, elapsed: u64, key: Option<Key>, post: State) -> bool {
        let p = State::moved_player(pre, elapsed, key);
        let pass1 = p.x > pre.obstacle1.x;
        let score1: int = if pass1 { pre.score + 1 } else { pre.score as int };
        let pass2 = p.x > pre.obstacle2.x;
        let score2: int = if pass2 { score1 + 1 } else { score1 };
        &&& post.player == p
        &&& post.frame_time == (if pre.frame_time + elapsed > FRAME_DURATION { 0 as int } else { pre.frame_time + elapsed })
        &&& post.score == score2
        &&& (if pass1 {
            &&& post.obstacle1.x == p.x + SCREEN_WIDTH
            &&& post.obstacle1.size == Obstacle::size_for(score1)
            &&& post.obstacle1.wf()
        } else {
            post.obstacle1 == pre.obstacle1
        })
        &&& (if pass2 {
            &&& post.obstacle2.x == p.x + SCREEN_WIDTH
            &&& post.obstacle2.size == Obstacle::size_for(score2)
            &&& post.obstacle2.wf()
        } else {
            post.obstacle2 == pre.obstacle2
        })
        &&& post.mode == (if p.y > SCREEN_HEIGHT * 100 || post.obstacle1.hit(p) || post.obstacle2.hit(p) {
            GameMode::End
        } else {
            GameMode::Playing
        })
    }

    /// The draw commands of one menu tick.
    pub open spec fn menu_cmds() -> Seq<DrawCmd> {
        seq![
            DrawCmd::ClearScreen,
            DrawCmd::CenteredText { row: 3, msg: Msg::Stars },
            DrawCmd::CenteredText { row: 5, msg: Msg::Welcome },
            DrawCmd::CenteredText { row: 7, msg: Msg::Stars },
            DrawCmd::CenteredText { row: 9, msg: Msg::PlayOption },
            DrawCmd::CenteredText { row: 10, msg: Msg::QuitOption },
            DrawCmd::CenteredText { row: 44, msg: Msg::Stars },
            DrawCmd::CenteredText { row: 46, msg: Msg::Credit },
            DrawCmd::CenteredText { row: 48, msg: Msg::Stars },
        ]
    }

    /// The draw commands of one death-screen tick, showing the final score.
    pub open spec fn dead_cmds(score: u32) -> Seq<DrawCmd> {
        seq![
            DrawCmd::ClearScreen,
            DrawCmd::CenteredText { row: 5, msg: Msg::DeadTitle },
            DrawCmd::CenteredScoreText { row: 6, score },
            DrawCmd::CenteredText { row: 8, msg: Msg::PlayAgainOption },
            DrawCmd::CenteredText { row: 9, msg: Msg::QuitOption },
        ]
    }

    /// The draw commands of one playing tick: background, the player where
    /// it now stands, the hint and score lines, then both obstacles' bars,
    /// drawn before any passed obstacle is replaced.
    pub open spec fn play_cmds(pre: State, elapsed: u64, key: Option<Key>) -> Seq<DrawCmd> {
        let p = State::moved_player(pre, elapsed, key);
        seq![
            DrawCmd::ClearBackground(Color::Navy),
            p.glyph_cmd(),
            DrawCmd::Text { col: 0, row: 0, msg: Msg::FlapHint },
            DrawCmd::ScoreText { col: 0, row: 1, score: pre.score },
        ] + pre.obstacle1.bar_cmds(p.x) + pre.obstacle2.bar_cmds(p.x)
    }

    /// A fresh session on the menu screen, with the injected random number
    /// generator the obstacles will draw their gap centers from.
    pub fn new(rng: bracket_lib::random::RandomNumberGenerator) -> (s: State)
        ensures
            s.mode is Menu,
            s.score == 0,
            s.frame_time == 0,
            s.player == (Player { x: START_X, y: START_Y, velocity: 0 }),
            s.obstacle1.x == SCREEN_WIDTH / 2,
            s.obstacle1.size == Obstacle::size_for(0),
            s.obstacle2.x == SCREEN_WIDTH,
            s.obstacle2.size == Obstacle::size_for(0),
            s.wf(),
    {
        let mut rng = rng;
        let player = Player::new(START_X, START_Y);
        let obstacle1 = Obstacle::new(SCREEN_WIDTH / 2, 0, &mut rng);
        let obstacle2 = Obstacle::new(SCREEN_WIDTH, 0, &mut rng);
        State {
            player,
            frame_time: 0,
            obstacle1,
            obstacle2,
            mode: GameMode::Menu,
            score: 0,
            rng,
        }
    }

    /// Reset the session and enter playing mode.
    pub fn restart(&mut self)
        ensures
            State::is_reset(*final(self)),
            final(self).wf(),
    {
        self.player = Player::new(START_X, START_Y);
        self.frame_time = 0;
        self.obstacle1 = Obstacle::new(SCREEN_WIDTH / 2, 0, &mut self.rng);
        self.obstacle2 = Obstacle::new(SCREEN_WIDTH, 0, &mut self.rng);
        self.mode = GameMode::Playing;
        self.score = 0;
    }

    /// One menu tick: draw the menu, then react to the key.
    pub fn main_menu(&mut self, key: Option<Key>, out: &mut Vec<DrawCmd>) -> (quit: bool)
        requires
            old(self).wf(),
        ensures
            final(self).wf(),
            final(out)@ == old(out)@ + State::menu_cmds(),
            State::static_screen_step(*old(self), key, *final(self), quit),
    {
        out.push(DrawCmd::ClearScreen);
        out.push(DrawCmd::CenteredText { row: 3, msg: Msg::Stars });
        out.push(DrawCmd::CenteredText { row: 5, msg: Msg::Welcome });
        out.push(DrawCmd::CenteredText { row: 7, msg: Msg::Stars });
        out.push(DrawCmd::CenteredText { row: 9, msg: Msg::PlayOption });
        out.push(DrawCmd::CenteredText { row: 10, msg: Msg::QuitOption });
        out.push(DrawCmd::CenteredText { row: 44, msg: Msg::Stars });
        out.push(DrawCmd::CenteredText { row: 46, msg: Msg::Credit });
        out.push(DrawCmd::CenteredText { row: 48, msg: Msg::Stars });
        proof {
            assert(out@ =~= old(out)@ + State::menu_cmds());
        }
        let mut quit = false;
        match key {
            Some(Key::P) => self.restart(),
            Some(Key::Q) => quit = true,
            _ => {},
        }
        quit
    }

    /// One death-screen tick: draw the score screen, then react to the key.
    pub fn dead(&mut self, key: Option<Key>, out: &mut Vec<DrawCmd>) -> (quit: bool)
        requires
            old(self).wf(),
        ensures
            final(self).wf(),
            final(out)@ == old(out)@ + State::dead_cmds(old(self).score),
            State::static_screen_step(*old(self), key, *final(self), quit),
    {
        out.push(DrawCmd::ClearScreen);
        out.push(DrawCmd::CenteredText { row: 5, msg: Msg::DeadTitle });
        out.push(DrawCmd::CenteredScoreText { row: 6, score: self.score });
        out.push(DrawCmd::CenteredText { row: 8, msg: Msg::PlayAgainOption });
        out.push(DrawCmd::CenteredText { row: 9, msg: Msg::QuitOption });
        proof {
            assert(out@ =~= old(out)@ + State::dead_cmds(old(self).score));
        }
        let mut quit = false;
        match key {
            Some(Key::P) => self.restart(),
            Some(Key::Q) => quit = true,
            _ => {},
        }
        quit
    }

    /// One playing tick. The bounds on the player's column and the score
    /// only keep the step count and the score within the machine integers.
    pub fn play(&mut self, elapsed: u64, key: Option<Key>, out: &mut Vec<DrawCmd>) -> (quit: bool)
        requires
            old(self).wf(),
            old(self).mode is Playing,
            elapsed <= u64::MAX - FRAME_DURATION,
            old(self).player.x <= u32::MAX - SCREEN_WIDTH - 1,
            old(self).score <= u32::MAX - 2,
        ensures
            final(self).wf(),
            !quit,
            State::play_step(*old(self), elapsed, key, *final(self)),
            final(out)@ == old(out)@ + State::play_cmds(*old(self), elapsed, key),
    {
        out.push(DrawCmd::ClearBackground(Color::Navy));
        self.frame_time = self.frame_time + elapsed;

        if self.frame_time > FRAME_DURATION {
            self.frame_time = 0;
            self.player.gravity_and_move();
        }

        if let Some(Key::Space) = key {
            self.player.flap();
        }

        self.player.render(out);

        out.push(DrawCmd::Text { col: 0, row: 0, msg: Msg::FlapHint });
        out.push(DrawCmd::ScoreText { col: 0, row: 1, score: self.score });

        self.obstacle1.render(out, self.player.x);
        self.obstacle2.render(out, self.player.x);
        proof {
            assert(out@ =~= old(out)@ + State::play_cmds(*old(self), elapsed, key));
        }

        if self.player.x > self.obstacle1.x {
            self.score = self.score + 1;
            self.obstacle1 = Obstacle::new(self.player.x + SCREEN_WIDTH, self.score, &mut self.rng);
        }

        if self.player.x > self.obstacle2.x {
            self.score = self.score + 1;
            self.obstacle2 = Obstacle::new(self.player.x + SCREEN_WIDTH, self.score, &mut self.rng);
        }

        let hit1 = self.obstacle1.hit_obstacle(&self.player);
        let hit2 = self.obstacle2.hit_obstacle(&self.player);
        if self.player.y > SCREEN_HEIGHT * 100 || hit1 || hit2 {
            self.mode = GameMode::End;
        }

        false
    }

    /// One driver tick: dispatch to the active mode's handler and say
    /// whether the quit command was received.
    pub fn tick(&mut self, elapsed: u64, key: Option<Key>, out: &mut Vec<DrawCmd>) -> (quit: bool)
        requires
            old(self).wf(),
            elapsed <= u64::MAX - FRAME_DURATION,
            old(self).player.x <= u32::MAX - SCREEN_WIDTH - 1,
            old(self).score <= u32::MAX - 2,
        ensures
            final(self).wf(),
            old(self).mode is Menu ==> State::static_screen_step(*old(self), key, *final(self), quit)
                && final(out)@ == old(out)@ + State::menu_cmds(),
            old(self).mode is End ==> State::static_screen_step(*old(self), key, *final(self), quit)
                && final(out)@ == old(out)@ + State::dead_cmds(old(self).score),
            old(self).mode is Playing ==> !quit
                && State::play_step(*old(self), elapsed, key, *final(self))
                && final(out)@ == old(out)@ + State::play_cmds(*old(self), elapsed, key),
    {
        match self.mode {
            GameMode::Menu => self.main_menu(key, out),
            GameMode::End => self.dead(key, out),
            GameMode::Playing => self.play(elapsed, key, out),
        }
    }
}

} // verus!
