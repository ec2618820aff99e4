//! The logic of a desktop application that shows lyrics in step with what
//! Spotify plays.
//!
//! - `spotify` reads what the player reports and gives every track a key;
//!   `reply` and `identifier` say where fields and identifiers stand.
//! - `lrc` and `lyrics` read lyrics; `spotify_official`, `totp` and
//!   `official_fetch` get those that Spotify serves, and `round_trip` shows that
//!   nothing is lost on the way.
//! - `storage` and `config` hold settings and kept lyrics.
//! - `state` and `fetching` hold what is shown and what is being fetched.
//! - `markup`, `status` and `window` say what the user sees.
//! - `text` and `digits` are the texts and numerals below all of them.
//! - What holds of them beyond the contract of each function is proved in
//!   `player_laws`, `lyric_laws`, `state_laws`, `official_laws`,
//!   `keeping_laws`, `showing_laws` and `text_laws`.

pub mod config;
pub mod digits;
pub mod fetching;
pub mod identifier;
pub mod keeping_laws;
pub mod lrc;
pub mod lyric_laws;
pub mod lyrics;
pub mod markup;
pub mod official_fetch;
pub mod official_laws;
pub mod player_laws;
pub mod reply;
pub mod round_trip;
pub mod showing_laws;
pub mod spotify;
pub mod spotify_official;
pub mod state;
pub mod state_laws;
pub mod status;
pub mod storage;
pub mod text;
pub mod text_laws;
pub mod totp;
pub mod window;
