//! Draw commands: the output half of the display-driver boundary.
//!
//! The core never renders anything itself. Each tick it appends commands to
//! a `Vec<DrawCmd>`; the driver replays them onto its 80 x 50 character grid.

use vstd::prelude::*;

verus! {

/// Width of the character grid, in columns; also the world distance, in
/// player steps, by which a fresh obstacle is placed ahead of the player.
pub const SCREEN_WIDTH: u32 = 80;

/// Height of the character grid, in rows.
pub const SCREEN_HEIGHT: i32 = 50;

/// The palette the game uses.
#[derive(Clone, Copy, Debug, PartialEq, Eq, Structural)]
pub enum Color {
    Yellow,
    Black,
    Red,
    Navy,
}

/// The fixed text lines the game prints, named so that draw commands stay
/// plain data; `text` gives the wording the driver should print.
#[derive(Clone, Copy, Debug, PartialEq, Eq, Structural)]
pub enum Msg {
    FlapHint,
    Stars,
    Welcome,
    PlayOption,
    QuitOption,
    Credit,
    DeadTitle,
    PlayAgainOption,
}

impl Msg {
    /// The wording of this message line.
    pub fn text(&self) -> (r: &'static str)
        ensures
            self is FlapHint ==> r@ == "Press SPACE to flap."@,
            self is Stars ==> r@ == "********************************************************************************"@,
            self is Welcome ==> r@ == "Welcome to Flappy Rust"@,
            self is PlayOption ==> r@ == "(P) Play Game"@,
            self is QuitOption ==> r@ == "(Q) Quit Game"@,
            self is Credit ==> r@ == "A game by Michael F\u{fc}rstenberg"@,
            self is DeadTitle ==> r@ == "You are dead!"@,
            self is PlayAgainOption ==> r@ == "(P) Play Again"@,
    {
        match self {
            Msg::FlapHint => "Press SPACE to flap.",
            Msg::Stars => "********************************************************************************",
            Msg::Welcome => "Welcome to Flappy Rust",
            Msg::PlayOption => "(P) Play Game",
            Msg::QuitOption => "(Q) Quit Game",
            Msg::Credit => "A game by Michael F\u{fc}rstenberg",
            Msg::DeadTitle => "You are dead!",
            Msg::PlayAgainOption => "(P) Play Again",
        }
    }
}

/// One instruction to the display driver.
///
/// `Glyph` rows and columns are grid cells; a column may be negative when an
/// obstacle has just been passed and sits one cell left of the screen.
/// `ScoreText` asks the driver to print the line `Score: {score}`, and
/// `CenteredScoreText` the line `You earned {score} points`; the number is
/// kept as data so the whole command stays comparable value by value.
#[derive(Clone, Copy, Debug, PartialEq, Eq, Structural)]
pub enum DrawCmd {
    ClearScreen,
    ClearBackground(Color),
    Glyph { col: i32, row: i32, glyph: char, fg: Color, bg: Color },
    Text { col: i32, row: i32, msg: Msg },
    CenteredText { row: i32, msg: Msg },
    ScoreText { col: i32, row: i32, score: u32 },
    CenteredScoreText { row: i32, score: u32 },
}

} // verus!
