//! Core of a two-screen terminal chat client: a configuration record, an
//! append-only transcript, single-line editor buffers, the screen state
//! machine that drives them, and a pure render layer producing a drawing
//! plan. Terminal, network and file plumbing live outside this crate.
pub mod config;
pub mod editor;
pub mod laws;
pub mod render;
pub mod state;
pub mod text;
