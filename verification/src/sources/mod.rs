//! Where lyrics come from.

use vstd::prelude::*;
use crate::structs::{Lyrics, Meta};

pub mod xmlyr;

verus! {

/// A service that finds the lyrics of a track.
///
/// Nothing is promised of what an implementation finds.
pub trait LyricsSource {
    /// The lyrics of the track that `metadata` describes, or `None` when the
    /// service has none.
    fn get(metadata: Meta) -> Option<Lyrics>;
}

} // verus!
