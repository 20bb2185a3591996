use osmp_audio::duplicates::{group_duplicates, is_duplicate_of};
use osmp_audio::models::Track;

fn track(id: i64, title: Option<&str>, artist: Option<&str>, duration: Option<i64>) -> Track {
    Track {
        id,
        file_path: format!("/music/{}.mp3", id),
        title: title.map(|s| s.to_string()),
        artist: artist.map(|s| s.to_string()),
        album: None,
        duration,
        year: None,
        genre: None,
        track_number: None,
        file_size: 0,
        file_format: "mp3".to_string(),
        last_modified: 0,
        metadata_fetched: false,
        release_mbid: None,
        created_at: 0,
    }
}

fn ids(groups: &[Vec<Track>]) -> Vec<Vec<i64>> {
    groups.iter().map(|g| g.iter().map(|t| t.id).collect()).collect()
}

#[test]
fn duplicates_ignore_case_and_small_duration_gaps() {
    let a = track(1, Some("Song"), Some("Band"), Some(180));
    assert!(is_duplicate_of(&a, &track(2, Some("SONG"), Some("band"), Some(182))));
    assert!(is_duplicate_of(&a, &track(3, Some("song"), Some("Band"), Some(178))));
    assert!(!is_duplicate_of(&a, &track(4, Some("song"), Some("Band"), Some(183))));
    assert!(!is_duplicate_of(&a, &track(5, Some("Song 2"), Some("Band"), Some(180))));
    assert!(!is_duplicate_of(&a, &track(6, Some("Song"), None, Some(180))));
    assert!(is_duplicate_of(&a, &track(7, Some("Song"), Some("Band"), None)));
}

#[test]
fn extreme_durations_do_not_overflow() {
    let a = track(1, Some("S"), None, Some(i64::MAX));
    let b = track(2, Some("S"), None, Some(i64::MIN));
    assert!(!is_duplicate_of(&a, &b));
}

#[test]
fn runs_of_duplicates_become_groups() {
    let tracks = vec![
        track(1, Some("Alpha"), Some("X"), Some(100)),
        track(2, Some("alpha"), Some("x"), Some(101)),
        track(3, Some("Beta"), Some("Y"), Some(200)),
        track(4, Some("Gamma"), Some("Z"), Some(50)),
        track(5, Some("gamma"), Some("z"), None),
        track(6, Some("GAMMA"), Some("Z"), Some(52)),
    ];
    assert_eq!(ids(&group_duplicates(tracks)), vec![vec![1, 2], vec![4, 5, 6]]);
}

#[test]
fn members_are_compared_with_the_first_of_the_run() {
    let tracks = vec![
        track(1, Some("T"), None, Some(100)),
        track(2, Some("T"), None, Some(102)),
        track(3, Some("T"), None, Some(104)),
    ];
    assert_eq!(ids(&group_duplicates(tracks)), vec![vec![1, 2]]);
}

#[test]
fn no_duplicates_no_groups() {
    assert!(group_duplicates(Vec::new()).is_empty());
    let tracks = vec![track(1, Some("A"), None, None), track(2, Some("B"), None, None)];
    assert!(group_duplicates(tracks).is_empty());
}
