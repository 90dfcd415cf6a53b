//! A sprite benchmark's simulation core: a population of bunnies that fall,
//! bounce and multiply inside a window, advanced at a fixed tick rate and
//! drawn either one by one or as a single batch.
//!
//! All coordinates and speeds are fixed-point integers, [`units::SUBPIXELS`]
//! to the pixel, so that every rule of the simulation is exact and proved.
//! The caller owns the window: it hands in elapsed time, pointer position
//! and input events, and carries out the draw calls that it gets back.
//!
//! - [`units`]: subpixels, points and vectors, the window's size.
//! - [`random`]: the random source.
//! - [`bunny`]: one bunny, its launch and its motion.
//! - [`population`]: adding, deleting and moving bunnies tick by tick.
//! - [`clock`]: the fixed-timestep clock.
//! - [`input`]: keys, buttons and the flags they set.
//! - [`render`]: the two drawing strategies and the window title.
//! - [`game`]: the whole state and its event handlers.

pub mod units;
pub mod random;
pub mod bunny;
pub mod population;
pub mod clock;
pub mod input;
pub mod render;
pub mod game;
