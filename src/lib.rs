//! Emulation of a 36-bit, word-addressed, sign-magnitude machine: its word
//! formats, its accumulator, its instruction format, its fetch-execute cycle
//! and its magnetic tape units.
pub mod accumulator;
pub mod emulator;
pub mod error;
pub mod instruction;
pub mod tape;
pub mod word;
