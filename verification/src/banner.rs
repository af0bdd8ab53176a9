//! The heading above the lyrics: which song this is.

use vstd::prelude::*;

verus! {

/// The text of `name`, or nothing where there is no name.
pub open spec fn or_empty(name: Option<String>) -> Seq<char> {
    match name {
        Some(n) => n@,
        None => Seq::empty(),
    }
}

/// What separates title and artist: a dash, unless both are empty.
pub open spec fn separator(title: Seq<char>, artist: Seq<char>) -> Seq<char> {
    if title.len() == 0 && artist.len() == 0 {
        Seq::empty()
    } else {
        seq!['-']
    }
}

/// The heading for a song: title, separator and artist with a blank between
/// them.
pub open spec fn heading(title: Seq<char>, artist: Seq<char>) -> Seq<char> {
    title + seq![' '] + separator(title, artist) + seq![' '] + artist
}

/// The names to show for a track: its title, and its artist if it has a
/// title. A missing name shows as nothing, and without a title the artist is
/// not shown either.
pub fn shown_names(title: &Option<String>, artist: &Option<String>) -> (names: (String, String))
    ensures
        names.0@ == or_empty(*title),
        names.1@ == if or_empty(*title).len() == 0 {
            Seq::<char>::empty()
        } else {
            or_empty(*artist)
        },
{
    let shown_title = match title {
        Some(t) => t.clone(),
        None => String::new(),
    };
    let shown_artist = match artist {
        Some(a) => if shown_title.as_str().is_empty() {
            String::new()
        } else {
            a.clone()
        },
        None => String::new(),
    };
    (shown_title, shown_artist)
}

/// The heading line for `title` and `artist`.
pub fn song_line(title: &str, artist: &str) -> (line: String)
    ensures
        line@ == heading(title@, artist@),
{
    proof {
        reveal_strlit(" ");
        reveal_strlit("-");
        reveal_strlit("");
    }
    let dash = if title.is_empty() && artist.is_empty() {
        ""
    } else {
        "-"
    };
    let line = String::from_str(title).concat(" ").concat(dash).concat(" ").concat(artist);
    assert(line@ =~= heading(title@, artist@));
    line
}

} // verus!
