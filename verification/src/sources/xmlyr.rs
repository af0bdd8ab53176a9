//! The lyrics service that is addressed by Spotify URI.

use vstd::prelude::*;
use crate::structs::{text_of, LyricLine, Lyrics, LyricsMetadata, Meta};

verus! {

/// The service: what to ask it, and what to make of its answer.
pub struct XmLyrSource {}

/// The address under `domain` of the lyrics of the track `uri`.
pub open spec fn address_of(domain: Seq<char>, uri: Seq<char>) -> Seq<char> {
    domain + seq!['/'] + uri
}

impl XmLyrSource {
    /// The address to ask for the lyrics of the track that `metadata`
    /// describes. A track without a Spotify URI has none.
    pub fn request_url(domain: &str, metadata: &Meta) -> (url: Option<String>)
        ensures
            match metadata.spotify_uri {
                Some(uri) => text_of(url) == Some(address_of(domain@, uri@)),
                None => url is None,
            },
    {
        match &metadata.spotify_uri {
            Some(uri) => {
                proof {
                    reveal_strlit("/");
                }
                let url = String::from_str(domain).concat("/").concat(uri.as_str());
                assert(url@ =~= address_of(domain@, uri@));
                Some(url)
            },
            None => None,
        }
    }

    /// The lyrics that the service's answer amounts to: a line for each
    /// `(text, start)` pair, in the order given and without an end, under the
    /// title and the artist of `metadata`, the track that was asked for.
    pub fn lyrics_from(synced: Vec<(String, u64)>, metadata: Meta) -> (lyrics: Lyrics)
        ensures
            lyrics.lines@.len() == synced@.len(),
            forall|i: int|
                0 <= i < synced@.len() ==> {
                    &&& (#[trigger] lyrics.lines@[i]).line@ == synced@[i].0@
                    &&& lyrics.lines@[i].start == synced@[i].1
                    &&& lyrics.lines@[i].end is None
                },
            lyrics.metadata.title == metadata.title,
            lyrics.metadata.artist == metadata.artist,
    {
        let mut lines: Vec<LyricLine> = Vec::new();
        let mut i: usize = 0;
        while i < synced.len()
            invariant
                i <= synced@.len(),
                lines@.len() == i,
                forall|j: int|
                    0 <= j < i ==> {
                        &&& (#[trigger] lines@[j]).line@ == synced@[j].0@
                        &&& lines@[j].start == synced@[j].1
                        &&& lines@[j].end is None
                    },
            decreases synced@.len() - i,
        {
            let timed = &synced[i];
            lines.push(LyricLine { line: timed.0.clone(), start: timed.1, end: None });
            i += 1;
        }
        Lyrics { lines, metadata: LyricsMetadata { title: metadata.title, artist: metadata.artist } }
    }
}

} // verus!
