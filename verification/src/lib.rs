//! A portable playlist container: a manifest of track references with an
//! optional cover image, bundled in one archive, together with the rules that
//! decide whether a playlist is well formed.

pub mod archive;
pub mod beatmap;
pub mod error;
pub mod json;
pub mod laws;
pub mod legacy;
pub mod ordering;
pub mod playlist;
pub mod round_trip;
pub mod time;
pub mod utils;
pub mod validation;

pub use crate::beatmap::Beatmap;
pub use crate::error::BlistError;
pub use crate::playlist::Playlist;
