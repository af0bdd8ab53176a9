//! The lyric data that a session is loaded with.
//!
//! All times are whole nanoseconds counted from the start of the track.

use vstd::prelude::*;

verus! {

/// One timed lyric line.
#[derive(Clone, Debug, PartialEq, Eq)]
pub struct LyricLine {
    pub line: String,
    pub start: u64,
    pub end: Option<u64>,
}

/// Who a set of lyrics belongs to.
#[derive(Clone, Debug, PartialEq, Eq)]
pub struct LyricsMetadata {
    pub title: Option<String>,
    pub artist: Option<String>,
}

/// The lines of one track, in the order in which they are sung.
#[derive(Clone, Debug, PartialEq, Eq)]
pub struct Lyrics {
    pub lines: Vec<LyricLine>,
    pub metadata: LyricsMetadata,
}

/// What a playback source reports about the track it is playing.
#[derive(Clone, Debug, PartialEq, Eq)]
pub struct Meta {
    pub title: Option<String>,
    pub artist: Option<String>,
    pub spotify_uri: Option<String>,
}

/// The characters of an optional string; `None` stays `None`.
pub open spec fn text_of(s: Option<String>) -> Option<Seq<char>> {
    match s {
        Some(t) => Some(t@),
        None => None,
    }
}

impl Lyrics {
    /// The `(text, start)` pair of every line, in order. This is all that the
    /// choice of the lines to show depends on.
    pub open spec fn cues(&self) -> Seq<(Seq<char>, nat)> {
        Seq::new(self.lines@.len(), |i: int| (self.lines@[i].line@, self.lines@[i].start as nat))
    }

    /// No line starts before the line in front of it.
    pub open spec fn sorted(&self) -> bool {
        starts_ascend(self.cues())
    }
}

/// The start times never decrease along the sequence.
pub open spec fn starts_ascend(cues: Seq<(Seq<char>, nat)>) -> bool {
    forall|i: int, j: int| 0 <= i <= j < cues.len() ==> cues[i].1 <= cues[j].1
}

} // verus!
