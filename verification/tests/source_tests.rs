use lyric_sync::banner::{shown_names, song_line};
use lyric_sync::clients::spotify::{track_metadata, NowPlaying};
use lyric_sync::sources::xmlyr::XmLyrSource;
use lyric_sync::structs::{LyricLine, LyricsMetadata, Meta};

fn meta(title: Option<&str>, artist: Option<&str>, uri: Option<&str>) -> Meta {
    Meta {
        title: title.map(str::to_string),
        artist: artist.map(str::to_string),
        spotify_uri: uri.map(str::to_string),
    }
}

#[test]
fn track_gives_its_name_first_artist_and_uri() {
    let playing = NowPlaying::Track {
        name: "Harmony Hall".to_string(),
        album_artists: vec!["Vampire Weekend".to_string(), "Guest".to_string()],
        uri: Some("spotify:track:1".to_string()),
    };
    assert_eq!(
        track_metadata(Some(playing)),
        Some(meta(Some("Harmony Hall"), Some("Vampire Weekend"), Some("spotify:track:1")))
    );
}

#[test]
fn track_without_artist_or_uri_still_has_a_title() {
    let playing = NowPlaying::Track { name: "x".to_string(), album_artists: vec![], uri: None };
    assert_eq!(track_metadata(Some(playing)), Some(meta(Some("x"), None, None)));
}

#[test]
fn episodes_and_silence_have_no_metadata() {
    assert_eq!(track_metadata(Some(NowPlaying::Episode)), None);
    assert_eq!(track_metadata(None), None);
}

#[test]
fn request_url_joins_domain_and_uri() {
    let m = meta(Some("t"), None, Some("spotify:track:42"));
    assert_eq!(
        XmLyrSource::request_url("https://lyrics.example", &m),
        Some("https://lyrics.example/spotify:track:42".to_string())
    );
    assert_eq!(XmLyrSource::request_url("", &m), Some("/spotify:track:42".to_string()));
}

#[test]
fn request_url_needs_a_uri() {
    assert_eq!(XmLyrSource::request_url("https://lyrics.example", &meta(Some("t"), None, None)), None);
}

#[test]
fn lyrics_keep_the_order_and_take_the_metadata_of_the_track() {
    let synced = vec![("one".to_string(), 10), ("two".to_string(), 5), ("".to_string(), u64::MAX)];
    let lyrics = XmLyrSource::lyrics_from(synced, meta(Some("t"), Some("a"), Some("u")));
    assert_eq!(
        lyrics.lines,
        vec![
            LyricLine { line: "one".to_string(), start: 10, end: None },
            LyricLine { line: "two".to_string(), start: 5, end: None },
            LyricLine { line: "".to_string(), start: u64::MAX, end: None },
        ]
    );
    assert_eq!(
        lyrics.metadata,
        LyricsMetadata { title: Some("t".to_string()), artist: Some("a".to_string()) }
    );
}

#[test]
fn lyrics_of_an_empty_answer_are_empty() {
    let lyrics = XmLyrSource::lyrics_from(vec![], meta(None, None, None));
    assert!(lyrics.lines.is_empty());
    assert_eq!(lyrics.metadata, LyricsMetadata { title: None, artist: None });
}

#[test]
fn heading_joins_title_and_artist_with_a_dash() {
    assert_eq!(song_line("Title", "Artist"), "Title - Artist");
    assert_eq!(song_line("Title", ""), "Title - ");
    assert_eq!(song_line("", "Artist"), " - Artist");
    assert_eq!(song_line("", ""), "  ");
}

#[test]
fn artist_is_only_shown_with_a_title() {
    let some = |s: &str| Some(s.to_string());
    assert_eq!(shown_names(&some("t"), &some("a")), ("t".to_string(), "a".to_string()));
    assert_eq!(shown_names(&some("t"), &None), ("t".to_string(), "".to_string()));
    assert_eq!(shown_names(&None, &some("a")), ("".to_string(), "".to_string()));
    assert_eq!(shown_names(&some(""), &some("a")), ("".to_string(), "".to_string()));
    assert_eq!(shown_names(&None, &None), ("".to_string(), "".to_string()));
}
