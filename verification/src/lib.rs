//! A small 2D sprite engine and a sample game on top of it.
//!
//! The engine: `slot` hands out reusable handles, `table` keeps component
//! values by handle and state singletons, `sprite` and `pool` hold animation
//! clips and the sprites that play them, `collision` tests axis-aligned
//! rectangles for overlap.
//!
//! The game: `motion`, `camera`, `input` and `player` hold its rules, `game`
//! its table of states, `setup` and `frame` its setup and its update, and
//! `driver` the frame driver's part of a tick.
//!
//! All quantities are whole numbers. Lengths and speeds are counted in
//! micro-units, a millionth of a world unit; times in microseconds.
//! `fixed` holds the arithmetic.

pub mod camera;
pub mod collision;
pub mod driver;
pub mod error;
pub mod fixed;
pub mod frame;
pub mod game;
pub mod input;
pub mod motion;
pub mod player;
pub mod pool;
pub mod setup;
pub mod slot;
pub mod sprite;
pub mod table;
pub mod text;
