use osmp_audio::models::Track;
use osmp_audio::playlist_io::{
    append_decimal, assemble_m3u_entries, has_audio_extension, is_audio_extension, m3u_text,
    parse_m3u_line, parse_m3u_lines, M3uLine,
};

fn track(path: &str, title: Option<&str>, artist: Option<&str>, duration: Option<i64>) -> Track {
    Track {
        id: 1,
        file_path: path.to_string(),
        title: title.map(|s| s.to_string()),
        artist: artist.map(|s| s.to_string()),
        album: None,
        duration,
        year: None,
        genre: None,
        track_number: None,
        file_size: 0,
        file_format: "mp3".to_string(),
        last_modified: 0,
        metadata_fetched: false,
        release_mbid: None,
        created_at: 0,
    }
}

fn decimal(n: i64) -> String {
    let mut s = String::new();
    append_decimal(n, &mut s);
    s
}

#[test]
fn decimal_text_of_integers() {
    assert_eq!(decimal(0), "0");
    assert_eq!(decimal(7), "7");
    assert_eq!(decimal(1234), "1234");
    assert_eq!(decimal(-1), "-1");
    assert_eq!(decimal(i64::MAX), "9223372036854775807");
    assert_eq!(decimal(i64::MIN), "-9223372036854775808");
}

#[test]
fn export_text_lists_every_track() {
    let tracks = vec![
        track("/music/a.mp3", Some("Song"), Some("Band"), Some(180)),
        track("/music/b.flac", None, None, None),
    ];
    assert_eq!(
        m3u_text("Road Trip", &tracks),
        "#EXTM3U\n#PLAYLIST:Road Trip\n#EXTINF:180,Band - Song\n/music/a.mp3\n#EXTINF:-1,Unknown - Unknown\n/music/b.flac\n"
    );
}

#[test]
fn export_text_of_empty_playlist() {
    assert_eq!(m3u_text("Empty", &[]), "#EXTM3U\n#PLAYLIST:Empty\n");
}

#[test]
fn extinf_line_gives_duration_and_title() {
    match parse_m3u_line("  #EXTINF: 215 , Artist - Title  ") {
        Some(M3uLine::Info { duration, title }) => {
            assert_eq!(duration, Some(215));
            assert_eq!(title, "Artist - Title");
        }
        other => panic!("unexpected {:?}", other),
    }
    match parse_m3u_line("#EXTINF:-1,Only Title") {
        Some(M3uLine::Info { duration, title }) => {
            assert_eq!(duration, Some(-1));
            assert_eq!(title, "Only Title");
        }
        other => panic!("unexpected {:?}", other),
    }
}

#[test]
fn extinf_with_bad_duration_keeps_title() {
    match parse_m3u_line("#EXTINF:abc,Name") {
        Some(M3uLine::Info { duration, title }) => {
            assert_eq!(duration, None);
            assert_eq!(title, "Name");
        }
        other => panic!("unexpected {:?}", other),
    }
}

#[test]
fn header_comments_and_blank_lines_are_skipped() {
    assert!(parse_m3u_line("#EXTM3U").is_none());
    assert!(parse_m3u_line("   ").is_none());
    assert!(parse_m3u_line("").is_none());
    assert!(parse_m3u_line("#PLAYLIST:Mine").is_none());
    assert!(parse_m3u_line("# a comment").is_none());
    assert!(parse_m3u_line("#EXTINF:100").is_none());
}

#[test]
fn other_lines_are_paths() {
    match parse_m3u_line("  songs/a b.mp3\r") {
        Some(M3uLine::Path(p)) => assert_eq!(p, "songs/a b.mp3"),
        other => panic!("unexpected {:?}", other),
    }
}

#[test]
fn lines_keep_only_meaningful_ones() {
    let lines: Vec<String> = vec!["#EXTM3U", "#PLAYLIST:x", "#EXTINF:3,T", "", "a.mp3"]
        .into_iter()
        .map(String::from)
        .collect();
    let parsed = parse_m3u_lines(&lines);
    assert_eq!(parsed.len(), 2);
    assert!(matches!(parsed[0], M3uLine::Info { duration: Some(3), .. }));
    assert!(matches!(parsed[1], M3uLine::Path(ref p) if p == "a.mp3"));
}

#[test]
fn audio_extensions_in_any_case() {
    assert!(is_audio_extension("opus"));
    assert!(!is_audio_extension("MP3"));
    assert!(!is_audio_extension("txt"));
    assert!(has_audio_extension("/x/a.MP3"));
    assert!(has_audio_extension("/x/b.Flac"));
    assert!(has_audio_extension("/x/c.wma"));
    assert!(!has_audio_extension("/x/a.txt"));
    assert!(!has_audio_extension("/x/.mp3"));
    assert!(!has_audio_extension("/x/noext"));
}

#[test]
fn pending_title_waits_for_an_entry() {
    let lines = vec![
        M3uLine::Info { duration: Some(100), title: "A".to_string() },
        M3uLine::Path("missing.mp3".to_string()),
        M3uLine::Path("b.mp3".to_string()),
        M3uLine::Path("again.mp3".to_string()),
        M3uLine::Info { duration: Some(5), title: "C".to_string() },
        M3uLine::Path("c.txt".to_string()),
        M3uLine::Path("d.ogg".to_string()),
    ];
    let resolved = vec![
        None,
        None,
        Some("/m/b.mp3".to_string()),
        Some("/m/again.mp3".to_string()),
        None,
        Some("/m/c.txt".to_string()),
        Some("/m/d.ogg".to_string()),
    ];
    let entries = assemble_m3u_entries(&lines, &resolved);
    assert_eq!(entries.len(), 3);
    assert_eq!(entries[0].path, "/m/b.mp3");
    assert_eq!(entries[0].title.as_deref(), Some("A"));
    assert_eq!(entries[0].duration, Some(100));
    assert_eq!(entries[1].path, "/m/again.mp3");
    assert_eq!(entries[1].title, None);
    assert_eq!(entries[1].duration, None);
    assert_eq!(entries[2].path, "/m/d.ogg");
    assert_eq!(entries[2].title.as_deref(), Some("C"));
    assert_eq!(entries[2].duration, Some(5));
}
