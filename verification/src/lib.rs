//! Decision logic of a concurrent, resumable bulk downloader.
//!
//! Nothing here touches the network or the disk. A driver does that work
//! and asks this library what to do next: `downloader` decides each step of
//! one download, `retry` whether a failed download is tried again, and
//! `orchestrator` which lines of the input start a transfer, what is logged
//! and counted, and how the run ends. `pool` bounds how many transfers run
//! at once. `protocol` holds the model that the download steps are held
//! to, with the laws proved of it.

pub mod downloader;
pub mod error;
pub mod file_link;
pub mod headers;
pub mod notice;
pub mod orchestrator;
pub mod pool;
pub mod protocol;
pub mod resume;
pub mod retry;
pub mod text;
