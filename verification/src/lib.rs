//! Shared types of the terminal music player: the messages that flow between
//! the actors of the TUI, the component identifiers, the daemon update that is
//! exchanged with the server over gRPC, and the paging state of a YouTube search.
//!
//! The top-level `Msg`, and the messages of the configuration editor
//! (`ConfigEditorMsg`), of the podcast view (`PCMsg`) and of the lyric search
//! (`SearchLyricState`), are not defined here: they carry the colour,
//! key-binding, podcast and song-tag types of the player's other modules.

pub mod player;
pub mod types;
pub mod launch;
