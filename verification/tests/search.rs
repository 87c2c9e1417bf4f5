use rrplay::search::{rank, RankedSong};
use rrplay::song::{SearchBy, Song};

fn song(path: &str, name: &str, title: &str, artist: &str, album: &str) -> Song {
    Song {
        file_path: path.to_string(),
        file_type: path.rsplit('.').next().unwrap_or("").to_string(),
        file_name: name.to_string(),
        is_valid: true,
        title: title.to_string(),
        artist: artist.to_string(),
        album: album.to_string(),
        genre: "Rock".to_string(),
        duration: 180,
    }
}

fn names(results: &[RankedSong]) -> Vec<String> {
    results.iter().map(|r| r.song.file_name.clone()).collect()
}

#[test]
fn empty_query_yields_no_results() {
    let catalog = vec![
        song("/m/A.mp3", "A.mp3", "Alpha", "X", "Demo"),
        song("/m/B.flac", "B.flac", "Beta", "X", "Demo"),
    ];
    let results = rank(&catalog, &String::new(), &SearchBy::Title);
    assert!(results.is_empty());
}

#[test]
fn empty_catalog_yields_no_results() {
    let catalog: Vec<Song> = Vec::new();
    let results = rank(&catalog, &"anything".to_string(), &SearchBy::Title);
    assert!(results.is_empty());
}

#[test]
fn artist_query_scenario() {
    // Three tracks, two by artist "X": the query "X" on the artist field
    // keeps exactly those two, in catalog order (equal scores), and
    // excludes the third.
    let catalog = vec![
        song("/music/A.mp3", "A.mp3", "First", "X", "One"),
        song("/music/B.flac", "B.flac", "Second", "X", "Two"),
        song("/music/C.wav", "C.wav", "Third", "Y", "Three"),
    ];
    let results = rank(&catalog, &"X".to_string(), &SearchBy::Artist);
    assert_eq!(names(&results), vec!["A.mp3".to_string(), "B.flac".to_string()]);
    assert_eq!(results[0].cat_idx, 0);
    assert_eq!(results[1].cat_idx, 1);
}

#[test]
fn scores_positive_and_descending() {
    let catalog = vec![
        song("/m/long.mp3", "long.mp3", "a stairway to heaven cover", "A", "L"),
        song("/m/exact.mp3", "exact.mp3", "stairway", "B", "L"),
        song("/m/other.mp3", "other.mp3", "something else entirely", "C", "L"),
    ];
    let results = rank(&catalog, &"stairway".to_string(), &SearchBy::Title);
    assert!(!results.is_empty());
    for r in &results {
        assert!(r.score > 0);
    }
    for pair in results.windows(2) {
        assert!(
            pair[0].score > pair[1].score
                || (pair[0].score == pair[1].score && pair[0].cat_idx < pair[1].cat_idx)
        );
    }
}

#[test]
fn ties_keep_catalog_order() {
    // Identical field text gives identical scores; the ranking must then
    // keep catalog order.
    let catalog = vec![
        song("/m/one.mp3", "one.mp3", "Same Title", "A", "L"),
        song("/m/two.mp3", "two.mp3", "Same Title", "B", "L"),
        song("/m/three.mp3", "three.mp3", "Same Title", "C", "L"),
    ];
    let results = rank(&catalog, &"Same".to_string(), &SearchBy::Title);
    assert_eq!(results.len(), 3);
    assert_eq!(
        names(&results),
        vec!["one.mp3".to_string(), "two.mp3".to_string(), "three.mp3".to_string()]
    );
}

#[test]
fn non_matching_tracks_are_excluded() {
    let catalog = vec![
        song("/m/rock.mp3", "rock.mp3", "Guitar", "A", "L"),
        song("/m/jazz.mp3", "jazz.mp3", "Saxophone", "B", "L"),
    ];
    let results = rank(&catalog, &"zzz".to_string(), &SearchBy::Title);
    assert!(results.is_empty());
}

#[test]
fn field_selector_controls_the_match() {
    let catalog = vec![
        song("/m/a.mp3", "a.mp3", "Harvest", "Neil", "Gold"),
        song("/m/b.mp3", "b.mp3", "Gold", "Harvest", "Neil"),
    ];
    let by_title = rank(&catalog, &"Harvest".to_string(), &SearchBy::Title);
    assert_eq!(names(&by_title), vec!["a.mp3".to_string()]);
    let by_artist = rank(&catalog, &"Harvest".to_string(), &SearchBy::Artist);
    assert_eq!(names(&by_artist), vec!["b.mp3".to_string()]);
    let by_album = rank(&catalog, &"Gold".to_string(), &SearchBy::Album);
    assert_eq!(names(&by_album), vec!["a.mp3".to_string()]);
}

#[test]
fn path_matching_sees_the_whole_path() {
    let catalog = vec![
        song("/library/metal/a.mp3", "a.mp3", "One", "A", "L"),
        song("/library/pop/b.mp3", "b.mp3", "Two", "B", "L"),
    ];
    let results = rank(&catalog, &"metal".to_string(), &SearchBy::FilePath);
    assert_eq!(names(&results), vec!["a.mp3".to_string()]);
}
