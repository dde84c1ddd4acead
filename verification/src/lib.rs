//! Core of a text-driven interactive fiction engine: a world graph of rooms
//! and exits, an action resolver gated by skill checks, a branching dialog
//! engine, and the session state machine that dispatches player commands.
//!
//! All console I/O stays outside this crate; the functions here take already
//! read lines (or words) and return structured replies for a caller to render.

pub mod actions;
pub mod adventures;
pub mod callbacks;
pub mod conversation;
pub mod charactersheet;
pub mod dialog;
pub mod menu;
pub mod game;
pub mod person;
pub mod rng;
pub mod setup;
pub mod room;
pub mod stat_bonus;
pub mod text;
pub mod world;
