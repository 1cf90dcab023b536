use bova_playback::playlist::Playlist;
use bova_playback::text::format_time;

fn names(v: &[&str]) -> Vec<String> {
    v.iter().map(|s| s.to_string()).collect()
}

fn reference_clock(ms: i64) -> String {
    let s = (ms / 1000) % 60;
    let m = (ms / 60000) % 60;
    let h = ms / 3600000;
    if h > 0 {
        format!("{h}:{m:02}:{s:02}")
    } else {
        format!("{m}:{s:02}")
    }
}

#[test]
fn clock_readings() {
    assert_eq!(format_time(0), "0:00");
    assert_eq!(format_time(999), "0:00");
    assert_eq!(format_time(1000), "0:01");
    assert_eq!(format_time(83_000), "1:23");
    assert_eq!(format_time(600_000), "10:00");
    assert_eq!(format_time(3_599_999), "59:59");
    assert_eq!(format_time(3_600_000), "1:00:00");
    assert_eq!(format_time(3_723_000), "1:02:03");
    assert_eq!(format_time(360_000_000), "100:00:00");
}

#[test]
fn clock_reading_matches_the_formatting_of_its_parts() {
    let samples = [
        0,
        1,
        59_999,
        60_000,
        3_599_999,
        3_600_000,
        86_399_000,
        i64::MAX,
        -1,
        -500,
        -5_000,
        -61_000,
        -3_600_000,
        -7_325_000,
        i64::MIN,
    ];
    for ms in samples {
        assert_eq!(format_time(ms), reference_clock(ms), "for {ms}");
    }
    for ms in (-200_000..200_000).step_by(777) {
        assert_eq!(format_time(ms), reference_clock(ms), "for {ms}");
    }
}

#[test]
fn played_file_becomes_the_most_recent() {
    let mut list = Playlist::new();
    list.remember_file("a".to_string());
    list.remember_file("b".to_string());
    list.remember_file("c".to_string());
    assert_eq!(list.mru, names(&["c", "b", "a"]));
    list.remember_file("a".to_string());
    assert_eq!(list.mru, names(&["a", "c", "b"]));
    list.remember_file("a".to_string());
    assert_eq!(list.mru, names(&["a", "c", "b"]));
}

#[test]
fn only_ten_recent_files_are_kept() {
    let mut list = Playlist::new();
    for n in 0..12 {
        list.remember_file(format!("f{n}"));
    }
    assert_eq!(list.mru.len(), 10);
    assert_eq!(list.mru[0], "f11");
    assert_eq!(list.mru[9], "f2");
    list.remember_file("f5".to_string());
    assert_eq!(list.mru.len(), 10);
    assert_eq!(list.mru[0], "f5");
    assert_eq!(list.mru[9], "f2");
    assert_eq!(list.playlist.len(), 12);
}

#[test]
fn new_files_join_the_playlist_and_become_current() {
    let mut list = Playlist::new();
    list.remember_file("a".to_string());
    assert_eq!((list.playlist.clone(), list.playlist_index), (names(&["a"]), 0));
    list.remember_file("b".to_string());
    assert_eq!((list.playlist.clone(), list.playlist_index), (names(&["a", "b"]), 1));
    list.remember_file("a".to_string());
    assert_eq!((list.playlist.clone(), list.playlist_index), (names(&["a", "b"]), 1));
}

#[test]
fn playlist_goes_round_in_both_directions() {
    let mut list = Playlist::new();
    assert_eq!(list.playlist_next(), None);
    assert_eq!(list.playlist_prev(), None);
    for n in ["a", "b", "c"] {
        list.remember_file(n.to_string());
    }
    assert_eq!(list.playlist_index, 2);
    assert_eq!(list.playlist_next(), Some("a".to_string()));
    assert_eq!(list.playlist_next(), Some("b".to_string()));
    assert_eq!(list.playlist_prev(), Some("a".to_string()));
    assert_eq!(list.playlist_prev(), Some("c".to_string()));
    assert_eq!(list.playlist_index, 2);
    assert_eq!(list.playlist_next(), Some("a".to_string()));
    assert_eq!(list.mru, names(&["c", "b", "a"]));
}
