//! The playback source: where the music plays and what it reports.

use vstd::prelude::*;
use crate::structs::Meta;

pub mod spotify;

verus! {

/// A report of the playback source at one moment: how far into the track it
/// is, where it says so, and whether it is playing.
#[derive(Clone, Copy, Debug, PartialEq, Eq)]
pub struct PlaybackInfo {
    pub position: Option<u64>,
    pub playing: bool,
}

/// A playback source that is asked, never listened to.
///
/// Nothing is promised of what an implementation answers: a caller has to
/// cope with every answer.
pub trait Client: Sized {
    /// Connects to the source.
    fn init() -> Self;

    /// The current position and play state, or `None` when nothing plays.
    fn get_pos(&self) -> Option<PlaybackInfo>;

    /// The track that plays, or `None` when none can be named.
    fn get_metadata(&self) -> Option<Meta>;
}

} // verus!
