//! Copies the songs that a Subsonic (Navidrome) user starred from a local
//! mirror of the music library into a destination directory, converting
//! them to a chosen audio format where needed, and copies their lyric files.
//!
//! The library holds the decisions: configuration checking, request
//! preparation, response interpretation, path planning, format selection,
//! conflict resolution, the ffmpeg command line and the per-song transfer
//! protocol. The program around it performs the I/O.
pub mod api;
pub mod cli;
pub mod config;
pub mod models;
pub mod paths;
pub mod sync;
pub mod text;
