//! What a Spotify answer says about the track that plays.

use vstd::prelude::*;
use crate::structs::{text_of, Meta};

verus! {

/// The item that Spotify reports as playing, reduced to what the lyrics
/// depend on.
#[derive(Clone, Debug, PartialEq, Eq)]
pub enum NowPlaying {
    /// A music track: its name, the names of the artists of its album, and
    /// its Spotify URI where it has one.
    Track { name: String, album_artists: Vec<String>, uri: Option<String> },
    /// A podcast episode. Episodes have no lyrics.
    Episode,
}

/// The first of a list of names, if there is one.
pub open spec fn first_name(names: Seq<String>) -> Option<Seq<char>> {
    if names.len() > 0 {
        Some(names[0]@)
    } else {
        None
    }
}

/// The metadata of what plays: that of a track, titled by its name and
/// credited to the first artist of its album; none for an episode or when
/// nothing plays.
pub fn track_metadata(playing: Option<NowPlaying>) -> (meta: Option<Meta>)
    ensures
        match playing {
            Some(NowPlaying::Track { name, album_artists, uri }) => {
                &&& meta matches Some(m)
                &&& text_of(m.title) == Some(name@)
                &&& text_of(m.artist) == first_name(album_artists@)
                &&& text_of(m.spotify_uri) == text_of(uri)
            },
            _ => meta is None,
        },
{
    match playing {
        Some(NowPlaying::Track { name, album_artists, uri }) => {
            let artist = if album_artists.len() > 0 {
                Some(album_artists[0].clone())
            } else {
                None
            };
            Some(Meta { title: Some(name), artist, spotify_uri: uri })
        },
        _ => None,
    }
}

} // verus!
