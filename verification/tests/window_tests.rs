use lyric_sync::structs::{LyricLine, Lyrics, LyricsMetadata};
use lyric_sync::window::{update, DisplayWindow, LeadIn, WindowLine};

const MS: u64 = 1_000_000;

fn lyrics(lines: &[(&str, u64)]) -> Lyrics {
    Lyrics {
        lines: lines
            .iter()
            .map(|(text, start)| LyricLine { line: text.to_string(), start: *start, end: None })
            .collect(),
        metadata: LyricsMetadata { title: Some("song".to_string()), artist: None },
    }
}

fn abc() -> Lyrics {
    lyrics(&[("a", 0), ("b", 1000 * MS), ("c", 2000 * MS)])
}

fn window(lines: &[(&str, u64)], active_index: usize, marked: bool) -> DisplayWindow {
    DisplayWindow {
        lines: lines
            .iter()
            .map(|(text, start)| WindowLine { text: text.to_string(), start: *start })
            .collect(),
        active_index,
        marked,
    }
}

#[test]
fn window_in_the_middle_of_the_song() {
    let w = update(&abc(), 1500 * MS, 5, LeadIn::Plain);
    assert_eq!(w, window(&[("a", 0), ("b", 1000 * MS), ("c", 2000 * MS)], 1, true));
    assert_eq!(w.lines[w.active_index].text, "b");
}

#[test]
fn window_at_time_zero_without_marker() {
    let w = update(&abc(), 0, 5, LeadIn::Plain);
    assert_eq!(w, window(&[("a", 0), ("b", 1000 * MS), ("c", 2000 * MS)], 0, false));
}

#[test]
fn window_at_time_zero_with_marker_on_upcoming_line() {
    let w = update(&abc(), 0, 5, LeadIn::MarkUpcoming);
    assert_eq!(w, window(&[("a", 0), ("b", 1000 * MS), ("c", 2000 * MS)], 0, true));
}

#[test]
fn lead_in_only_matters_before_the_first_line() {
    for t in [1, 1000 * MS, 1500 * MS, 5000 * MS] {
        assert_eq!(
            update(&abc(), t, 5, LeadIn::Plain),
            update(&abc(), t, 5, LeadIn::MarkUpcoming)
        );
    }
}

#[test]
fn line_becomes_active_just_after_its_start() {
    // A line counts as started once the time is past its start, not at it.
    let at = update(&abc(), 1000 * MS, 5, LeadIn::Plain);
    assert_eq!(at, window(&[("a", 0), ("b", 1000 * MS), ("c", 2000 * MS)], 0, true));
    assert_eq!(at.lines[at.active_index].text, "a");
    let after = update(&abc(), 1000 * MS + 1, 5, LeadIn::Plain);
    assert_eq!(after.active_index, 1);
    assert_eq!(after.lines[after.active_index].text, "b");
}

#[test]
fn first_line_active_has_no_trailing_context() {
    let w = update(&abc(), 1, 5, LeadIn::Plain);
    assert_eq!(w, window(&[("a", 0), ("b", 1000 * MS), ("c", 2000 * MS)], 0, true));
}

#[test]
fn last_line_active_closes_the_window() {
    let w = update(&abc(), 2000 * MS + 1, 5, LeadIn::Plain);
    assert_eq!(w, window(&[("b", 1000 * MS), ("c", 2000 * MS)], 1, true));
    let late = update(&abc(), u64::MAX, 5, LeadIn::Plain);
    assert_eq!(late, w);
}

#[test]
fn time_at_the_start_of_the_last_line_keeps_the_line_before_active() {
    let w = update(&abc(), 2000 * MS, 5, LeadIn::Plain);
    assert_eq!(w, window(&[("a", 0), ("b", 1000 * MS), ("c", 2000 * MS)], 1, true));
    assert_eq!(w.lines[w.active_index].text, "b");
}

#[test]
fn capacity_limits_the_upcoming_lines() {
    let ly = lyrics(&[("a", 0), ("b", 10), ("c", 20), ("d", 30), ("e", 40), ("f", 50)]);
    // Two lines have started: context, active, and capacity - 2 upcoming.
    assert_eq!(update(&ly, 15, 3, LeadIn::Plain), window(&[("a", 0), ("b", 10), ("c", 20)], 1, true));
    assert_eq!(update(&ly, 15, 2, LeadIn::Plain), window(&[("a", 0), ("b", 10)], 1, true));
    assert_eq!(
        update(&ly, 15, 4, LeadIn::Plain),
        window(&[("a", 0), ("b", 10), ("c", 20), ("d", 30)], 1, true)
    );
    // Before the first line only the upcoming lines are there.
    assert_eq!(update(&ly, 0, 4, LeadIn::Plain), window(&[("a", 0), ("b", 10)], 0, false));
}

#[test]
fn capacity_below_two_shows_no_upcoming_lines() {
    let ly = lyrics(&[("a", 0), ("b", 10), ("c", 20)]);
    for capacity in [0, 1] {
        assert_eq!(update(&ly, 15, capacity, LeadIn::Plain), window(&[("a", 0), ("b", 10)], 1, true));
        assert_eq!(update(&ly, 5, capacity, LeadIn::Plain), window(&[("a", 0)], 0, true));
        assert_eq!(update(&ly, 0, capacity, LeadIn::Plain), window(&[], 0, false));
    }
}

#[test]
fn huge_capacity_does_not_overflow() {
    let w = update(&abc(), 1500 * MS, usize::MAX, LeadIn::Plain);
    assert_eq!(w, window(&[("a", 0), ("b", 1000 * MS), ("c", 2000 * MS)], 1, true));
}

#[test]
fn empty_lyrics_give_an_empty_window() {
    let ly = lyrics(&[]);
    for t in [0, 1, 1000 * MS, u64::MAX] {
        assert_eq!(update(&ly, t, 5, LeadIn::Plain), window(&[], 0, false));
        assert_eq!(update(&ly, t, 5, LeadIn::MarkUpcoming), window(&[], 0, true));
    }
}

#[test]
fn update_is_deterministic() {
    let ly = abc();
    for t in [0, 1, 999 * MS, 1500 * MS, 2500 * MS] {
        for capacity in [0, 2, 3, 5] {
            assert_eq!(
                update(&ly, t, capacity, LeadIn::Plain),
                update(&ly, t, capacity, LeadIn::Plain)
            );
        }
    }
}

#[test]
fn cursor_counts_the_started_lines() {
    let ly = abc();
    assert_eq!(ly.cursor_at(0), 0);
    assert_eq!(ly.cursor_at(1), 1);
    assert_eq!(ly.cursor_at(1000 * MS), 1);
    assert_eq!(ly.cursor_at(1000 * MS + 1), 2);
    assert_eq!(ly.cursor_at(2000 * MS + 1), 3);
    assert_eq!(ly.cursor_at(u64::MAX), 3);
}

#[test]
fn cursor_never_moves_back_as_time_moves_forward() {
    let ly = lyrics(&[("a", 5), ("b", 5), ("c", 9), ("d", 20)]);
    let mut last = 0;
    for t in 0..30 {
        let k = ly.cursor_at(t);
        assert!(k >= last);
        last = k;
    }
    assert_eq!(last, 4);
}

#[test]
fn cursor_stops_at_the_first_line_that_has_not_started() {
    // Lyrics out of order: only the started lines at the front count.
    let ly = lyrics(&[("a", 10), ("b", 50), ("c", 20)]);
    assert_eq!(ly.cursor_at(30), 1);
    assert_eq!(ly.cursor_at(60), 3);
}
