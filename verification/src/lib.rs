//! Chord detection and substitution for a keyboard remapper.
//!
//! Raw key-down and key-up events are gathered into chords, sets of keys
//! pressed together and released together. A chord that has a configured
//! replacement is answered with the key events that erase what was typed and
//! type the replacement instead.

pub mod engine;
pub mod gesture;
pub mod history;
pub mod keyboard;
pub mod mappings;
