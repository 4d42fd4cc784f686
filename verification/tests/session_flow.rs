use flappy_core::draw::{Color, DrawCmd, Msg};
use flappy_core::session::{GameMode, Key, State};

fn fresh(seed: u64) -> State {
    State::new(bracket_lib::random::RandomNumberGenerator::seeded(seed))
}

#[test]
fn new_session_starts_on_menu() {
    let s = fresh(1);
    assert_eq!(s.mode, GameMode::Menu);
    assert_eq!(s.score, 0);
    assert_eq!(s.frame_time, 0);
    assert_eq!(s.player.x, 5);
    assert_eq!(s.player.y, 2500);
    assert_eq!(s.player.velocity, 0);
    assert_eq!(s.obstacle1.x, 40);
    assert_eq!(s.obstacle1.size, 20);
    assert!(s.obstacle1.gap_y >= 1000 && s.obstacle1.gap_y < 4000);
    assert_eq!(s.obstacle2.x, 80);
    assert_eq!(s.obstacle2.size, 20);
    assert!(s.obstacle2.gap_y >= 1000 && s.obstacle2.gap_y < 4000);
}

#[test]
fn menu_draws_its_screen() {
    let mut s = fresh(1);
    let mut out: Vec<DrawCmd> = Vec::new();
    let quit = s.tick(0, None, &mut out);
    assert!(!quit);
    assert_eq!(s.mode, GameMode::Menu);
    assert_eq!(
        out,
        vec![
            DrawCmd::ClearScreen,
            DrawCmd::CenteredText { row: 3, msg: Msg::Stars },
            DrawCmd::CenteredText { row: 5, msg: Msg::Welcome },
            DrawCmd::CenteredText { row: 7, msg: Msg::Stars },
            DrawCmd::CenteredText { row: 9, msg: Msg::PlayOption },
            DrawCmd::CenteredText { row: 10, msg: Msg::QuitOption },
            DrawCmd::CenteredText { row: 44, msg: Msg::Stars },
            DrawCmd::CenteredText { row: 46, msg: Msg::Credit },
            DrawCmd::CenteredText { row: 48, msg: Msg::Stars },
        ]
    );
}

#[test]
fn menu_play_command_resets_session() {
    let mut s = fresh(2);
    s.score = 9;
    let mut out: Vec<DrawCmd> = Vec::new();
    let quit = s.tick(0, Some(Key::P), &mut out);
    assert!(!quit);
    assert_eq!(s.mode, GameMode::Playing);
    assert_eq!(s.score, 0);
    assert_eq!(s.frame_time, 0);
    assert_eq!(s.player.x, 5);
    assert_eq!(s.player.y, 2500);
    assert_eq!(s.player.velocity, 0);
    assert_eq!(s.obstacle1.x, 40);
    assert_eq!(s.obstacle2.x, 80);
    assert_eq!(s.obstacle1.size, 20);
}

#[test]
fn menu_quit_command_requests_exit() {
    let mut s = fresh(3);
    let mut out: Vec<DrawCmd> = Vec::new();
    let quit = s.tick(0, Some(Key::Q), &mut out);
    assert!(quit);
    assert_eq!(s.mode, GameMode::Menu);
}

#[test]
fn menu_ignores_other_keys() {
    let mut s = fresh(4);
    let mut out: Vec<DrawCmd> = Vec::new();
    assert!(!s.tick(0, Some(Key::Space), &mut out));
    assert_eq!(s.mode, GameMode::Menu);
    assert!(!s.tick(0, Some(Key::Other), &mut out));
    assert_eq!(s.mode, GameMode::Menu);
}

#[test]
fn dead_screen_shows_score_and_restarts() {
    let mut s = fresh(5);
    s.mode = GameMode::End;
    s.score = 3;
    let mut out: Vec<DrawCmd> = Vec::new();
    let quit = s.tick(0, None, &mut out);
    assert!(!quit);
    assert_eq!(s.mode, GameMode::End);
    assert_eq!(
        out,
        vec![
            DrawCmd::ClearScreen,
            DrawCmd::CenteredText { row: 5, msg: Msg::DeadTitle },
            DrawCmd::CenteredScoreText { row: 6, score: 3 },
            DrawCmd::CenteredText { row: 8, msg: Msg::PlayAgainOption },
            DrawCmd::CenteredText { row: 9, msg: Msg::QuitOption },
        ]
    );

    let mut out2: Vec<DrawCmd> = Vec::new();
    assert!(!s.tick(0, Some(Key::P), &mut out2));
    assert_eq!(s.mode, GameMode::Playing);
    assert_eq!(s.score, 0);
    assert_eq!(s.player.y, 2500);

    s.mode = GameMode::End;
    let mut out3: Vec<DrawCmd> = Vec::new();
    assert!(s.tick(0, Some(Key::Q), &mut out3));
}

#[test]
fn frame_time_gates_simulated_steps() {
    let mut s = fresh(6);
    s.restart();
    let mut out: Vec<DrawCmd> = Vec::new();
    s.tick(4000, None, &mut out);
    assert_eq!(s.frame_time, 4000);
    assert_eq!(s.player.x, 5, "step fired before the threshold");
    assert_eq!(s.player.velocity, 0);
    s.tick(4000, None, &mut out);
    assert_eq!(s.frame_time, 0, "accumulator not reset by the step");
    assert_eq!(s.player.x, 6, "step did not fire past the threshold");
    assert_eq!(s.player.velocity, 35);
}

#[test]
fn flap_applies_immediately_without_a_step() {
    let mut s = fresh(7);
    s.restart();
    let mut out: Vec<DrawCmd> = Vec::new();
    s.tick(10, Some(Key::Space), &mut out);
    assert_eq!(s.player.velocity, -200);
    assert_eq!(s.player.x, 5);
    assert_eq!(s.player.y, 2500);
    assert_eq!(s.frame_time, 10);
}

#[test]
fn playing_tick_draw_commands() {
    let mut s = fresh(8);
    s.restart();
    let gap1 = s.obstacle1.gap_y;
    let gap2 = s.obstacle2.gap_y;
    let mut out: Vec<DrawCmd> = Vec::new();
    s.tick(7600, None, &mut out);
    // One step fired: the player now sits at x 6, y 2535 (row 25).
    assert_eq!(out.len(), 64);
    assert_eq!(out[0], DrawCmd::ClearBackground(Color::Navy));
    assert_eq!(
        out[1],
        DrawCmd::Glyph { col: 0, row: 25, glyph: '@', fg: Color::Yellow, bg: Color::Black }
    );
    assert_eq!(out[2], DrawCmd::Text { col: 0, row: 0, msg: Msg::FlapHint });
    assert_eq!(out[3], DrawCmd::ScoreText { col: 0, row: 1, score: 0 });
    // Obstacle bars: 30 glyphs each at screen columns 40-6 and 80-6, skipping
    // each obstacle's gap rows.
    let top1 = gap1 / 100 - 10;
    let bot1 = gap1 / 100 + 10;
    for i in 0..30 {
        let row = if i < top1 { i } else { bot1 + (i - top1) };
        assert_eq!(
            out[4 + i as usize],
            DrawCmd::Glyph { col: 34, row, glyph: '|', fg: Color::Red, bg: Color::Black }
        );
    }
    let top2 = gap2 / 100 - 10;
    let bot2 = gap2 / 100 + 10;
    for i in 0..30 {
        let row = if i < top2 { i } else { bot2 + (i - top2) };
        assert_eq!(
            out[34 + i as usize],
            DrawCmd::Glyph { col: 74, row, glyph: '|', fg: Color::Red, bg: Color::Black }
        );
    }
}

#[test]
fn falling_without_flaps_ends_the_game_scoreless() {
    let mut s = fresh(9);
    s.restart();
    let mut steps = 0;
    let mut prev_velocity = s.player.velocity;
    while s.mode == GameMode::Playing && steps < 35 {
        let mut out: Vec<DrawCmd> = Vec::new();
        s.tick(7600, None, &mut out);
        assert!(s.player.velocity >= prev_velocity);
        assert!(s.player.velocity <= 200);
        prev_velocity = s.player.velocity;
        steps += 1;
    }
    assert_eq!(s.mode, GameMode::End, "falling player never died");
    assert_eq!(s.score, 0);
    assert_eq!(s.player.velocity, 200, "velocity was not capped while falling");
    assert!(steps < 35, "the fall should end well before 35 steps");
}

#[test]
fn reaching_the_obstacle_column_outside_the_gap_hits() {
    // Kinematics alone: 35 unflapped steps from the start carry the player
    // to column 40 with velocity long since capped, far below the gap.
    let mut s = fresh(10);
    s.restart();
    let mut p = s.player;
    for _ in 0..35 {
        p.gravity_and_move();
    }
    assert_eq!(p.x, 40);
    assert_eq!(p.velocity, 200);
    assert!(p.y > s.obstacle1.gap_y + 1000);
    assert!(s.obstacle1.hit_obstacle(&p));
}

#[test]
fn passing_an_obstacle_scores_and_relocates_it() {
    let mut s = fresh(11);
    s.restart();
    // Put the player at the first obstacle's column, centered in its gap.
    s.player.x = 40;
    s.player.y = s.obstacle1.gap_y;
    s.player.velocity = 0;
    let ob2 = s.obstacle2;
    let mut out: Vec<DrawCmd> = Vec::new();
    s.tick(7600, None, &mut out);
    assert_eq!(s.player.x, 41);
    assert_eq!(s.mode, GameMode::Playing);
    assert_eq!(s.score, 1);
    assert_eq!(s.obstacle1.x, 121, "obstacle not rebuilt one screen ahead");
    assert_eq!(s.obstacle1.size, 19, "rebuilt obstacle not sized by the new score");
    assert!(s.obstacle1.gap_y >= 1000 && s.obstacle1.gap_y < 4000);
    assert_eq!(s.obstacle2, ob2);
}

#[test]
fn colliding_with_an_obstacle_ends_the_game() {
    let mut s = fresh(13);
    s.restart();
    s.obstacle1 = flappy_core::obstacle::Obstacle::with_gap(40, 0, 2500);
    // Next step reaches the obstacle's column far above its gap.
    s.player.x = 39;
    s.player.y = 100;
    s.player.velocity = 0;
    let mut out: Vec<DrawCmd> = Vec::new();
    s.tick(7600, None, &mut out);
    assert_eq!(s.player.x, 40);
    assert_eq!(s.player.y, 135);
    assert_eq!(s.mode, GameMode::End);
    assert_eq!(s.score, 0);
}

#[test]
fn dropping_below_the_screen_ends_the_game() {
    let mut s = fresh(12);
    s.restart();
    // Next step computes y just past the bottom of the 50-row screen.
    s.player.y = 4900;
    s.player.velocity = 165;
    let mut out: Vec<DrawCmd> = Vec::new();
    s.tick(7600, None, &mut out);
    assert_eq!(s.player.y, 5100);
    assert_eq!(s.mode, GameMode::End);
    assert_eq!(s.score, 0);
}
