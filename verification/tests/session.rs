use rrplay::indexer::{FileMeta, TagMeta};
use rrplay::notify::NotifStyle;
use rrplay::player::Transport;
use rrplay::session::{App, AppEvent, KeyInput, Mode};
use rrplay::song::{SearchBy, Song};

fn song(path: &str, title: &str, album: &str) -> Song {
    Song {
        file_path: path.to_string(),
        file_type: "mp3".to_string(),
        file_name: path.rsplit('/').next().unwrap_or(path).to_string(),
        is_valid: true,
        title: title.to_string(),
        artist: "Band".to_string(),
        album: album.to_string(),
        genre: "Rock".to_string(),
        duration: 120,
    }
}

fn apply_all(app: &mut App, evs: Vec<AppEvent>) {
    for ev in evs {
        match ev {
            AppEvent::AddSingle
            | AppEvent::AddAlbum
            | AppEvent::MoveForward
            | AppEvent::MoveBackward
            | AppEvent::RefreshCache => {}
            _ => app.apply_event(&ev),
        }
    }
}

#[test]
fn search_type_and_cancel_returns_to_sitback() {
    // Start idle, open the search, type a query, then cancel: the session
    // is back in sitback mode with the query gone and no results.
    let mut app = App::init(None, None);
    assert_eq!(app.mode, Mode::Sitback);

    let evs = app.handle_key_events(KeyInput::Char('/'));
    assert_eq!(evs, vec![AppEvent::Search]);
    apply_all(&mut app, evs);
    assert_eq!(app.mode, Mode::Search);

    for c in ['a', 'b', 'c'] {
        let evs = app.handle_key_events(KeyInput::Char(c));
        assert_eq!(evs, vec![AppEvent::RefreshResults]);
        apply_all(&mut app, evs);
    }
    assert_eq!(app.query, "abc");

    let evs = app.handle_key_events(KeyInput::Esc);
    assert_eq!(evs, vec![AppEvent::Escape]);
    apply_all(&mut app, evs);
    assert_eq!(app.mode, Mode::Sitback);
    assert!(app.query.is_empty());
    assert!(app.search_results.is_empty());
}

#[test]
fn selection_moves_are_clamped_to_the_results() {
    // Five ranked results with the selection on the tail: moving up is a
    // no-op at the bound, and four moves down reach index zero.
    let mut app = App::init(None, None);
    app.search_cache = (0..5).map(|i| song(&format!("/m/{i}.mp3"), "Demo Song", "L")).collect();
    app.query = "Demo".to_string();
    app.mode = Mode::Search;
    app.search_by = SearchBy::Title;
    app.refresh_results();
    assert_eq!(app.search_results.len(), 5);

    app.select();
    assert_eq!(app.mode, Mode::Select);
    assert_eq!(app.select_index, 4);

    app.move_up();
    assert_eq!(app.select_index, 4);

    for _ in 0..4 {
        app.move_down();
    }
    assert_eq!(app.select_index, 0);
    app.move_down();
    assert_eq!(app.select_index, 0);
}

#[test]
fn selection_resolves_from_the_tail() {
    let mut app = App::init(None, None);
    app.search_cache = vec![
        song("/m/a.mp3", "Demo One", "L"),
        song("/m/b.mp3", "Demo One", "L"),
        song("/m/c.mp3", "Demo One", "L"),
    ];
    app.query = "Demo".to_string();
    app.mode = Mode::Search;
    app.search_by = SearchBy::Title;
    app.refresh_results();
    assert_eq!(app.search_results.len(), 3);

    // Selection index 0 names the tail of the result list.
    app.select_index = 0;
    assert_eq!(app.selected_song().unwrap().file_path, "/m/c.mp3");
    app.select_index = 2;
    assert_eq!(app.selected_song().unwrap().file_path, "/m/a.mp3");
}

#[test]
fn enqueue_album_spans_directories_and_marks_unreadable_members() {
    // The album "Demo" spreads over two directories; one member cannot be
    // decoded.  Enqueueing the album commits the readable members in
    // catalog order and only marks the unreadable one invalid.
    let mut app = App::init(None, None);
    app.search_cache = vec![
        song("/one/a.mp3", "First", "Demo"),
        song("/two/b.mp3", "Second", "Demo"),
        song("/three/c.mp3", "Third", "Other"),
    ];
    app.query = "First".to_string();
    app.mode = Mode::Search;
    app.search_by = SearchBy::Title;
    app.refresh_results();
    assert_eq!(app.search_results.len(), 1);
    app.select();

    let decode_ok = vec![true, false, true];
    app.add_album(&decode_ok);

    let queued: Vec<&str> = app.player.queue.iter().map(|s| s.file_path.as_str()).collect();
    assert_eq!(queued, vec!["/one/a.mp3"]);
    assert!(app.search_cache[0].is_valid);
    assert!(!app.search_cache[1].is_valid);
    assert!(app.search_cache[2].is_valid);
    // The enqueue stacked one notification.
    assert_eq!(app.popup_notif.len(), 1);
    assert_eq!(app.popup_notif[0].message, "Added album to the queue");
}

#[test]
fn enqueue_single_failure_marks_the_selected_result() {
    let mut app = App::init(None, None);
    app.search_cache = vec![song("/m/a.mp3", "Demo", "L"), song("/m/b.mp3", "Demo", "L")];
    app.query = "Demo".to_string();
    app.mode = Mode::Search;
    app.search_by = SearchBy::Title;
    app.refresh_results();
    app.select();
    assert_eq!(app.select_index, 1);

    app.add_single(false);
    assert_eq!(app.player.queue.len(), 0);
    // The selection resolves to results[len - 1 - index] = results[0].
    assert!(!app.search_results[0].song.is_valid);
    assert!(app.search_results[1].song.is_valid);

    app.add_single(true);
    assert_eq!(app.player.queue.len(), 1);
}

#[test]
fn confirm_without_results_stays_in_search() {
    let mut app = App::init(None, None);
    app.mode = Mode::Search;
    app.select();
    assert_eq!(app.mode, Mode::Search);
}

#[test]
fn escape_from_select_pops_one_level() {
    let mut app = App::init(None, None);
    app.search_cache = vec![song("/m/a.mp3", "Demo", "L")];
    app.query = "Demo".to_string();
    app.mode = Mode::Search;
    app.search_by = SearchBy::Title;
    app.refresh_results();
    app.select();
    assert_eq!(app.mode, Mode::Select);
    app.escape();
    assert_eq!(app.mode, Mode::Search);
    // The query survives the first pop.
    assert_eq!(app.query, "Demo");
    app.escape();
    assert_eq!(app.mode, Mode::Sitback);
    assert!(app.query.is_empty());
}

#[test]
fn open_popup_swallows_everything_but_its_dismissal() {
    let mut app = App::init(None, None);
    app.help_desk();
    assert!(app.popup_manual.is_some());
    let evs = app.handle_key_events(KeyInput::Char('/'));
    assert!(evs.is_empty());
    let evs = app.handle_key_events(KeyInput::Esc);
    assert_eq!(evs, vec![AppEvent::Escape]);
    apply_all(&mut app, evs);
    assert!(app.popup_manual.is_none());
    // The mode did not change underneath the popup.
    assert_eq!(app.mode, Mode::Sitback);
}

#[test]
fn help_desk_lists_sources_with_their_reachability() {
    let sources = vec![("/media/music".to_string(), true), ("/gone".to_string(), false)];
    let mut app = App::init(Some(sources), None);
    app.help_desk();
    let popup = app.popup_manual.as_ref().unwrap();
    assert_eq!(popup.title, "Help desk");
    assert_eq!(popup.border_color, NotifStyle::White);
    assert_eq!(popup.message.len(), 3);
    assert_eq!(popup.message[0].0, "Sources:");
    assert_eq!(popup.message[1].0, "/media/music");
    assert_eq!(popup.message[1].1, NotifStyle::Green);
    assert_eq!(popup.message[2].0, "/gone");
    assert_eq!(popup.message[2].1, NotifStyle::Red);
}

#[test]
fn help_desk_without_sources_names_the_config_file() {
    let mut app = App::init(None, Some("/home/u/.config/rrplay/config.txt".to_string()));
    app.help_desk();
    let popup = app.popup_manual.as_ref().unwrap();
    assert_eq!(popup.border_color, NotifStyle::Red);
    assert_eq!(popup.message.len(), 4);
    assert_eq!(popup.message[0].0, "No sources found...");
    assert_eq!(popup.message[3].0, "/home/u/.config/rrplay/config.txt");
}

#[test]
fn digits_retarget_the_match_field() {
    let mut app = App::init(None, None);
    let evs = app.handle_key_events(KeyInput::Char('3'));
    assert_eq!(app.search_by, SearchBy::Artist);
    assert_eq!(evs, vec![AppEvent::RefreshResults]);
    let evs = app.handle_key_events(KeyInput::Char('5'));
    assert_eq!(app.search_by, SearchBy::Genre);
    assert_eq!(evs, vec![AppEvent::RefreshResults]);
}

#[test]
fn clear_key_clears_queue_and_stacks_a_notification() {
    let mut app = App::init(None, None);
    app.search_cache = vec![song("/m/a.mp3", "Demo", "L")];
    app.query = "Demo".to_string();
    app.mode = Mode::Search;
    app.search_by = SearchBy::Title;
    app.refresh_results();
    app.select();
    app.add_single(true);
    assert_eq!(app.player.queue.len(), 1);
    app.escape();
    app.escape();
    assert_eq!(app.mode, Mode::Sitback);

    let evs = app.handle_key_events(KeyInput::Char('c'));
    assert_eq!(evs, vec![AppEvent::ClearQueue]);
    assert_eq!(app.popup_notif.len(), 1);
    assert_eq!(app.popup_notif[0].message, "Cleared the queue");
    assert_eq!(app.popup_notif[0].style, NotifStyle::Yellow);
    apply_all(&mut app, evs);
    assert_eq!(app.player.queue.len(), 0);
    assert_eq!(app.player.transport, Transport::Stopped);
}

#[test]
fn ctrl_c_quits() {
    let mut app = App::init(None, None);
    let evs = app.handle_key_events(KeyInput::CtrlChar('c'));
    assert_eq!(evs, vec![AppEvent::Quit]);
    apply_all(&mut app, evs);
    assert!(!app.running);
}

#[test]
fn backspace_that_empties_the_query_drops_the_results() {
    let mut app = App::init(None, None);
    app.search_cache = vec![song("/m/a.mp3", "a", "L")];
    app.mode = Mode::Search;
    app.search_by = SearchBy::Title;
    let evs = app.handle_key_events(KeyInput::Char('a'));
    apply_all(&mut app, evs);
    assert_eq!(app.search_results.len(), 1);

    let evs = app.handle_key_events(KeyInput::Backspace);
    assert!(evs.is_empty());
    assert!(app.query.is_empty());
    assert!(app.search_results.is_empty());
}

#[test]
fn alt_backspace_clears_the_whole_query() {
    let mut app = App::init(None, None);
    app.mode = Mode::Search;
    for c in ['r', 'o', 'c', 'k'] {
        let evs = app.handle_key_events(KeyInput::Char(c));
        apply_all(&mut app, evs);
    }
    assert_eq!(app.query, "rock");
    let evs = app.handle_key_events(KeyInput::AltBackspace);
    assert!(evs.is_empty());
    assert!(app.query.is_empty());
    assert!(app.search_results.is_empty());
}

#[test]
fn pause_key_toggles_against_the_transport() {
    let mut app = App::init(None, None);
    let evs = app.handle_key_events(KeyInput::Char('p'));
    assert_eq!(evs, vec![AppEvent::Pause]);
    apply_all(&mut app, evs);
    assert_eq!(app.player.transport, Transport::Paused);
    let evs = app.handle_key_events(KeyInput::Char('p'));
    assert_eq!(evs, vec![AppEvent::Resume]);
    apply_all(&mut app, evs);
    assert_eq!(app.player.transport, Transport::Playing);
}

#[test]
fn enter_in_select_mode_commits_and_resumes() {
    let mut app = App::init(None, None);
    app.search_cache = vec![song("/m/a.mp3", "Demo", "L")];
    app.query = "Demo".to_string();
    app.mode = Mode::Search;
    app.search_by = SearchBy::Title;
    app.refresh_results();
    app.select();
    let evs = app.handle_key_events(KeyInput::Enter);
    assert_eq!(evs, vec![AppEvent::AddSingle, AppEvent::Resume]);
}

#[test]
fn tick_reconciles_queue_and_ages_notifications() {
    let mut app = App::init(None, None);
    app.search_cache = vec![song("/m/a.mp3", "Demo", "L"), song("/m/b.mp3", "Demo Two", "L")];
    app.query = "Demo".to_string();
    app.mode = Mode::Search;
    app.search_by = SearchBy::Title;
    app.refresh_results();
    app.select_index = app.search_results.len() - 1;
    app.add_single(true);
    app.move_down();
    app.add_single(true);
    assert_eq!(app.player.queue.len(), 2);

    let evs = app.handle_key_events(KeyInput::Esc);
    apply_all(&mut app, evs);
    let evs = app.handle_key_events(KeyInput::Esc);
    apply_all(&mut app, evs);
    let evs = app.handle_key_events(KeyInput::Char('c'));
    assert_eq!(app.popup_notif.len(), 1);
    let ttl_before = app.popup_notif[0].ttl_ticks;
    apply_all(&mut app, evs);

    // The sink reports one source left while two tracks are queued: the
    // finished head leaves the queue.
    app.player.queue = vec![song("/m/a.mp3", "Demo", "L"), song("/m/b.mp3", "Demo Two", "L")];
    app.tick(1);
    assert_eq!(app.player.queue.len(), 1);
    assert_eq!(app.player.queue[0].file_path, "/m/b.mp3");
    assert_eq!(app.popup_notif[0].ttl_ticks, ttl_before - 1);
}

#[test]
fn refresh_cache_replaces_the_catalog_wholesale() {
    let mut app = App::init(None, None);
    app.search_cache = vec![song("/old/gone.mp3", "Old", "L")];
    let files = vec![FileMeta {
        file_path: "/new/a.mp3".to_string(),
        file_name: "a.mp3".to_string(),
        extension: "mp3".to_string(),
        tag: Some(TagMeta {
            title: Some("Fresh".to_string()),
            artist: None,
            album: None,
            genre: None,
        }),
        duration: 60,
    }];
    app.refresh_cache(&files);
    assert_eq!(app.search_cache.len(), 1);
    assert_eq!(app.search_cache[0].file_path, "/new/a.mp3");
    assert_eq!(app.search_cache[0].title, "Fresh");
    assert_eq!(app.search_cache[0].artist, "N/A");
}

#[test]
fn quit_event_stops_the_loop() {
    let mut app = App::init(None, None);
    let evs = app.handle_key_events(KeyInput::Char('q'));
    assert_eq!(evs, vec![AppEvent::Quit]);
    apply_all(&mut app, evs);
    assert!(!app.running);
}

#[test]
fn volume_keys_step_the_controller() {
    let mut app = App::init(None, None);
    let evs = app.handle_key_events(KeyInput::Char('v'));
    assert_eq!(evs, vec![AppEvent::VolumeDown]);
    apply_all(&mut app, evs);
    assert_eq!(app.player.volume, 95);
    let evs = app.handle_key_events(KeyInput::Char('V'));
    assert_eq!(evs, vec![AppEvent::VolumeUp]);
    apply_all(&mut app, evs);
    assert_eq!(app.player.volume, 100);
}
