//! A desktop music player library: the playback queue and transport state
//! machine at its core, the track/playlist data model around it, and the
//! pure computations of the scanning and persistence layers.

pub mod engine;
pub mod ids;
pub mod laws;
pub mod models;
pub mod playlist;
pub mod scan;
pub mod track;
pub mod utils;
