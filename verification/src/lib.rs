//! Core logic of a terminal music player for YouTube Music: the playback and
//! navigation reducer, search-result ranking, the on-disk library and
//! playlist bookkeeping, key bindings and the player actor's state machine.
//! Everything that touches the terminal, the audio device, the disk or the
//! `yt-dlp` subprocess lives outside this crate and talks to it through plain
//! values.

pub mod models;
pub mod text;
pub mod playlist;
pub mod state;
pub mod msg;
pub mod update;
pub mod laws;
pub mod ytdlp;
pub mod library;
pub mod keys;
pub mod action;
pub mod audio;
pub mod messages;
pub mod task;
pub mod labels;
pub mod order;
pub mod artwork;
