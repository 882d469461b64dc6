//! The core of a music player for the terminal: the tracks and their
//! metadata, the library cache engine with its sorted and filtered views,
//! the playback controller, and what the keyboard and the mouse do to the
//! state. Everything works on plain values; reading the disk, playing the
//! audio and drawing the screen are left to the program around it.
pub mod app;
pub mod canvas;
pub mod config;
pub mod error;
pub mod format;
pub mod library;
pub mod model;
pub mod player;
pub mod song;
pub mod text;
pub mod utils;

use vstd::prelude::*;
use crate::config::Config;
use crate::error::Error;

verus! {

/// A part of the application that is set up from the configuration.
pub trait Launch {
    /// Whether `config` holds what this part is set up from.
    spec fn accepts(&self, config: &Config) -> bool;

    /// Sets this part up from `config`.
    fn bootstrap(&mut self, config: &Config) -> Result<(), Error>
        requires
            old(self).accepts(config),
    ;
}

} // verus!
