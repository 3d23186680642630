//! Verified core of a save-file editor for a turn-based monster-collecting
//! game.
//!
//! The library owns the binary save format: a fixed-size byte buffer with a
//! party, a grid of storage boxes and five item pockets at fixed offsets.
//! Each creature record is a fixed-size block whose four data sub-blocks are
//! stored in one of 24 orders selected by the record's personality value, and
//! whose 16-bit checksum covers the data region.  Decoding, encoding,
//! checksums, the block shuffle, pocket slot rules and the editing session's
//! state transitions are all verified; file dialogs and disk access live in
//! the unverified shell around the library.

pub mod bytes;
pub mod checksum;
pub mod error;
pub mod input;
pub mod pocket;
pub mod record;
pub mod savefile;
pub mod session;
pub mod shuffle;

pub use error::Error;
