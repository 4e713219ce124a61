//! A safety facade over a playlist-based audio playback engine.
//!
//! The engine behind this library tolerates only one in-flight call at a
//! time and speaks a narrow wire interface of raw codewords and byte
//! buffers. This crate puts a verified facade in front of it: a typed
//! playback state machine, an all-or-nothing playlist marshaller, a closed
//! error taxonomy in place of raw result codes, and a lock that serializes
//! every engine call.

mod abi;
mod engine;
mod errors;
mod player;
mod playlist;
mod rate;
mod session;
mod state;

pub use abi::{MAX_PLAYLIST_LEN, RESULT_OK, STATUS_PAUSED, STATUS_PLAYING, STATUS_STOPPED};
pub use engine::Engine;
pub use errors::{map_result, PlayerError};
pub use player::Player;
pub use playlist::{encode_playlist, path_ok, playlist_ok, EncodedPlaylist};
pub use rate::SampleRate;
pub use session::Session;
pub use state::{after_pause, after_play, after_stop, PlaybackState};
