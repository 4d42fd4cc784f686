//! Core logic of a small "flappy"-style arcade game: a player falls under
//! gravity, flaps upward on input, and must pass through gapped obstacles.
//!
//! The library is pure state and arithmetic. Each tick it takes the elapsed
//! time and the pressed key as plain values and returns the next session
//! state together with the sequence of draw commands for the display driver;
//! the driver (window, keyboard, glyph grid) lives outside the library.
//!
//! Vertical positions and velocities are held in hundredths of a screen row,
//! so the per-step gravity increment of 0.35 rows is the exact integer 35.
//! Horizontal positions are integer step counts, so the "player has reached
//! an obstacle" comparison is exact.

pub mod draw;
pub mod obstacle;
pub mod player;
pub mod session;
