//! Morse-code (CW) audio training: text-to-keying encoding, a resumable
//! keyed-tone stream cursor, practice prompt sources, and the session engine
//! that drives timed lessons.
use vstd::prelude::*;

pub mod text;
mod random;
pub mod morse;
pub mod cw_audio;
pub mod lesson;
pub mod session;
pub mod bot;
pub mod neko;

