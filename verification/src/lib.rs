//! Core of a terminal music browser and player: a catalog of tracks scanned
//! from configured sources, fuzzy ranking of the catalog against a live query,
//! a playback queue kept consistent with a single audio sink, ephemeral
//! notifications, and the mode-driven session state machine that ties them
//! together.  Terminal rendering, the audio device and all file I/O live
//! outside this crate; the session core is specified and verified here.

pub mod config;
pub mod indexer;
pub mod notify;
pub mod player;
pub mod search;
pub mod search_utils;
pub mod session;
pub mod song;
