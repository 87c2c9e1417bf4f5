use rrplay::player::{
    run_cmd, PlaybackController, PlayerCommand, PlayerMode, Transport, MAX_VOLUME,
};
use rrplay::song::Song;

fn song(path: &str, duration: u64) -> Song {
    Song {
        file_path: path.to_string(),
        file_type: "mp3".to_string(),
        file_name: path.to_string(),
        is_valid: true,
        title: path.to_string(),
        artist: "Band".to_string(),
        album: "Album".to_string(),
        genre: "Rock".to_string(),
        duration,
    }
}

#[test]
fn pause_twice_equals_pause_once() {
    let mut p = PlaybackController::init();
    p.pause();
    let after_one = p.transport;
    p.pause();
    assert_eq!(p.transport, after_one);
    assert_eq!(p.transport, Transport::Paused);
}

#[test]
fn play_twice_equals_play_once() {
    let mut p = PlaybackController::init();
    p.play();
    let after_one = p.transport;
    p.play();
    assert_eq!(p.transport, after_one);
    assert_eq!(p.transport, Transport::Playing);
}

#[test]
fn toggle_pause_alternates() {
    let mut p = PlaybackController::init();
    p.toggle_pause();
    assert_eq!(p.transport, Transport::Paused);
    p.toggle_pause();
    assert_eq!(p.transport, Transport::Playing);
    p.toggle_pause();
    assert_eq!(p.transport, Transport::Paused);
}

#[test]
fn volume_never_leaves_its_range() {
    let mut p = PlaybackController::init();
    assert_eq!(p.volume, MAX_VOLUME);
    for _ in 0..30 {
        p.volume_up();
        assert!(p.volume <= MAX_VOLUME);
    }
    assert_eq!(p.volume, MAX_VOLUME);
    for _ in 0..30 {
        p.volume_down();
        assert!(p.volume <= MAX_VOLUME);
    }
    assert_eq!(p.volume, 0);
    p.volume_up();
    assert_eq!(p.volume, 5);
}

#[test]
fn seek_backward_clamps_to_exactly_zero() {
    let mut p = PlaybackController::init();
    let _ = p.enqueue_single(song("/m/a.mp3", 300), true);
    // Elapsed time smaller than the step: the target is exactly zero.
    assert_eq!(p.seek_backward(3), Some(0));
    assert_eq!(p.seek_backward(5), Some(0));
    assert_eq!(p.seek_backward(0), Some(0));
    // Otherwise it steps back by the fixed amount.
    assert_eq!(p.seek_backward(12), Some(7));
}

#[test]
fn seek_backward_needs_a_playing_track() {
    let p = PlaybackController::init();
    assert_eq!(p.seek_backward(10), None);
}

#[test]
fn seek_forward_stays_inside_the_track() {
    let mut p = PlaybackController::init();
    let _ = p.enqueue_single(song("/m/a.mp3", 100), true);
    assert_eq!(p.seek_forward(10), Some(15));
    // The step would reach or pass the end: no seek.
    assert_eq!(p.seek_forward(95), None);
    assert_eq!(p.seek_forward(96), None);
    assert_eq!(p.seek_forward(94), Some(99));
}

#[test]
fn clear_empties_queue_and_sink_together() {
    let mut p = PlaybackController::init();
    let _ = p.enqueue_single(song("/m/a.mp3", 100), true);
    let _ = p.enqueue_single(song("/m/b.mp3", 100), true);
    p.play();
    p.clear();
    assert_eq!(p.queue.len(), 0);
    assert_eq!(p.transport, Transport::Stopped);
}

#[test]
fn enqueue_failure_leaves_no_partial_state() {
    let mut p = PlaybackController::init();
    let enqueued = p.enqueue_single(song("/m/bad.mp3", 100), false);
    assert!(!enqueued);
    assert_eq!(p.queue.len(), 0);
}

#[test]
fn reconcile_pops_one_head_when_sink_reports_fewer() {
    let mut p = PlaybackController::init();
    let _ = p.enqueue_single(song("/m/a.mp3", 100), true);
    let _ = p.enqueue_single(song("/m/b.mp3", 100), true);
    p.reconcile(1);
    assert_eq!(p.queue.len(), 1);
    assert_eq!(p.queue[0].file_path, "/m/b.mp3");
    // Matching counts leave the queue alone.
    p.reconcile(1);
    assert_eq!(p.queue.len(), 1);
    p.reconcile(0);
    assert_eq!(p.queue.len(), 0);
}

#[test]
fn audio_cmd_drives_the_controller() {
    let mut p = PlaybackController::init();
    let _ = p.enqueue_single(song("/m/a.mp3", 100), true);
    assert!(!p.audio_cmd(PlayerCommand::Resume));
    assert_eq!(p.transport, Transport::Playing);
    assert!(!p.audio_cmd(PlayerCommand::TogglePause));
    assert_eq!(p.transport, Transport::Paused);
    assert!(!p.audio_cmd(PlayerCommand::VolumeDown));
    assert_eq!(p.volume, MAX_VOLUME - 5);
    assert!(!p.audio_cmd(PlayerCommand::ClearQueue));
    assert_eq!(p.queue.len(), 0);
    assert_eq!(p.transport, Transport::Stopped);
    assert!(p.audio_cmd(PlayerCommand::Quit));
}

#[test]
fn run_cmd_parses_the_command_line() {
    assert_eq!(
        run_cmd(&PlayerMode::Command, &Some(":q".to_string())),
        Ok(PlayerCommand::Quit)
    );
    assert_eq!(
        run_cmd(&PlayerMode::Command, &Some(":h".to_string())),
        Ok(PlayerCommand::Help)
    );
    assert_eq!(
        run_cmd(&PlayerMode::Command, &Some(":help".to_string())),
        Ok(PlayerCommand::Help)
    );
    assert_eq!(run_cmd(&PlayerMode::Command, &Some(":x".to_string())), Err(()));
    assert_eq!(run_cmd(&PlayerMode::Command, &None), Err(()));
    assert_eq!(run_cmd(&PlayerMode::Sitback, &Some(":q".to_string())), Err(()));
}
