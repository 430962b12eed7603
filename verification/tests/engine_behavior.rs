use player::engine::{
    Action, BaseSource, Command, DurationBar, Direction, Message, Player, SavedState,
};
use player::playlist::Playlist;
use player::track::Track;

fn track(id: u128, name: &str, secs: u64) -> Track {
    Track {
        uuid: id,
        name: name.to_string(),
        duration_str: format!("{}:{}", secs / 60, secs % 60),
        duration: secs * 1000,
        path: format!("/music/{}.mp3", name),
        playlists: None,
    }
}

fn three_track_player() -> Player {
    let mut p = Player::new();
    p.load_state(SavedState {
        tracks: vec![track(1, "one", 1), track(2, "two", 1), track(3, "three", 1)],
        playlists: vec![],
    });
    p
}

#[test]
fn choose_track_splits_queue() {
    let mut p = three_track_player();
    let act = p.choose_track(1, 100);
    match act {
        Some(Action::SendCommand(Command::Play(path))) => {
            assert_eq!(path, "/music/two.mp3");
        }
        _ => panic!("expected a play command"),
    }
    assert_eq!(p.current_track.as_ref().unwrap().uuid, 2);
    assert_eq!(p.queue.len(), 1);
    assert_eq!(p.queue[0].uuid, 3);
    assert_eq!(p.backward_queue.len(), 1);
    assert_eq!(p.backward_queue[0].uuid, 1);
    assert_eq!(p.current_pos, 0);
    assert!(matches!(p.timer, DurationBar::Ticking { last_tick: 100 }));
}

#[test]
fn enqueue_does_not_interrupt() {
    let mut p = three_track_player();
    p.choose_track(1, 100);
    let cmd = p.enqueue_priority(0, 150);
    assert!(cmd.is_none());
    assert_eq!(p.prio_queue.len(), 1);
    assert_eq!(p.prio_queue[0].uuid, 1);
    assert_eq!(p.current_track.as_ref().unwrap().uuid, 2);
}

#[test]
fn advance_twice_rewraps() {
    let mut p = three_track_player();
    p.choose_track(1, 100);
    let cmd = p.advance(Direction::Next, 200);
    assert!(matches!(cmd, Some(Command::Play(ref path)) if path == "/music/three.mp3"));
    assert_eq!(p.current_track.as_ref().unwrap().uuid, 3);
    assert_eq!(p.backward_queue.len(), 2);
    assert_eq!(p.backward_queue[0].uuid, 1);
    assert_eq!(p.backward_queue[1].uuid, 2);
    let cmd = p.advance(Direction::Next, 300);
    assert!(matches!(cmd, Some(Command::Play(ref path)) if path == "/music/one.mp3"));
    assert_eq!(p.current_track.as_ref().unwrap().uuid, 1);
    assert!(p.backward_queue.is_empty());
    assert_eq!(p.queue.len(), 2);
    assert_eq!(p.queue[0].uuid, 2);
    assert_eq!(p.queue[1].uuid, 3);
}

#[test]
fn tick_past_duration_advances() {
    let mut p = three_track_player();
    p.choose_track(1, 100);
    // duration is 1000 ms; the elapsed time 1100 ms reaches past its end
    let cmd = p.tick(1200);
    assert!(matches!(cmd, Some(Command::Play(ref path)) if path == "/music/three.mp3"));
    assert_eq!(p.current_track.as_ref().unwrap().uuid, 3);
    assert_eq!(p.current_pos, 0);
}

#[test]
fn tick_within_duration_moves_position() {
    let mut p = three_track_player();
    p.choose_track(1, 100);
    let cmd = p.tick(400);
    assert!(cmd.is_none());
    assert_eq!(p.current_track.as_ref().unwrap().uuid, 2);
    assert_eq!(p.current_pos, 300);
    assert!(matches!(p.timer, DurationBar::Ticking { last_tick: 400 }));
}

#[test]
fn clock_going_backward_counts_nothing() {
    let mut p = three_track_player();
    p.choose_track(1, 100);
    let cmd = p.tick(50);
    assert!(cmd.is_none());
    assert_eq!(p.current_pos, 0);
    assert!(matches!(p.timer, DurationBar::Ticking { last_tick: 50 }));
}

#[test]
fn tick_while_paused_changes_nothing() {
    let mut p = three_track_player();
    p.choose_track(1, 100);
    p.toggle_pause(150);
    let cmd = p.tick(5000);
    assert!(cmd.is_none());
    assert_eq!(p.current_pos, 0);
    assert!(matches!(p.timer, DurationBar::Paused));
}

#[test]
fn priority_queue_wins_over_forward_queue() {
    let mut p = three_track_player();
    p.choose_track(0, 100);
    p.enqueue_priority(2, 150);
    let cmd = p.advance(Direction::Next, 200);
    assert!(matches!(cmd, Some(Command::Play(ref path)) if path == "/music/three.mp3"));
    assert_eq!(p.current_track.as_ref().unwrap().uuid, 3);
    // the forward queue was not touched
    assert_eq!(p.queue.len(), 2);
    assert_eq!(p.queue[0].uuid, 2);
    assert_eq!(p.queue[1].uuid, 3);
    assert!(p.prio_queue.is_empty());
}

#[test]
fn enqueue_with_nothing_current_starts_playback() {
    let mut p = three_track_player();
    let cmd = p.enqueue_priority(1, 100);
    assert!(matches!(cmd, Some(Command::Play(ref path)) if path == "/music/two.mp3"));
    assert_eq!(p.current_track.as_ref().unwrap().uuid, 2);
    assert!(p.prio_queue.is_empty());
    assert_eq!(p.current_pos, 0);
}

#[test]
fn loop_closure_visits_every_base_track_once() {
    let mut p = three_track_player();
    p.choose_track(0, 100);
    let mut seen = vec![p.current_track.as_ref().unwrap().uuid];
    for step in 0..3 {
        p.advance(Direction::Next, 200 + step);
        seen.push(p.current_track.as_ref().unwrap().uuid);
    }
    // starting from track 1, three advances visit 2 and 3 once each and
    // only then revisit 1
    assert_eq!(seen, vec![1, 2, 3, 1]);
}

#[test]
fn position_resets_on_every_current_change() {
    let mut p = three_track_player();
    p.choose_track(0, 100);
    p.current_pos = 700;
    p.advance(Direction::Next, 800);
    assert_eq!(p.current_pos, 0);
    p.current_pos = 300;
    p.advance(Direction::Prev, 900);
    assert_eq!(p.current_pos, 0);
}

#[test]
fn idle_exactly_when_nothing_current() {
    let p = Player::new();
    assert!(p.current_track.is_none());
    assert!(matches!(p.timer, DurationBar::Idle));
    assert_eq!(p.current_pos, 0);

    let mut p = three_track_player();
    p.choose_track(0, 100);
    assert!(p.current_track.is_some());
    assert!(matches!(p.timer, DurationBar::Ticking { .. }));

    // with the library emptied under it, advancing has nothing to play and
    // the engine goes idle again
    p.load_state(SavedState { tracks: vec![], playlists: vec![] });
    let cmd = p.advance(Direction::Next, 200);
    assert!(cmd.is_none());
    assert!(p.current_track.is_none());
    assert!(matches!(p.timer, DurationBar::Idle));
    assert_eq!(p.current_pos, 0);
}

#[test]
fn prev_then_next_returns_to_same_track() {
    let mut p = three_track_player();
    p.choose_track(1, 100);
    assert_eq!(p.current_track.as_ref().unwrap().uuid, 2);
    p.advance(Direction::Prev, 200);
    assert_eq!(p.current_track.as_ref().unwrap().uuid, 1);
    p.advance(Direction::Next, 300);
    assert_eq!(p.current_track.as_ref().unwrap().uuid, 2);
}

#[test]
fn prev_from_exhausted_history_wraps_to_end() {
    let mut p = three_track_player();
    p.choose_track(0, 100);
    assert!(p.backward_queue.is_empty());
    let cmd = p.advance(Direction::Prev, 200);
    assert!(matches!(cmd, Some(Command::Play(ref path)) if path == "/music/three.mp3"));
    assert_eq!(p.current_track.as_ref().unwrap().uuid, 3);
    assert!(p.queue.is_empty());
    assert_eq!(p.backward_queue.len(), 2);
}

#[test]
fn out_of_range_choice_is_rejected() {
    let mut p = three_track_player();
    let act = p.update(
        Message::SetQueue(Ok(vec![track(1, "one", 1)]), 5),
        100,
    );
    assert!(matches!(act, Some(Action::Rejected)));
    assert!(p.current_track.is_none());
}

#[test]
fn advancing_with_nothing_current_is_rejected() {
    let mut p = three_track_player();
    let act = p.update(Message::JumpToNext, 100);
    assert!(matches!(act, Some(Action::Rejected)));
    let act = p.update(Message::JumpToPrev, 100);
    assert!(matches!(act, Some(Action::Rejected)));
}

#[test]
fn toggle_pause_flips_and_sends_command() {
    let mut p = three_track_player();
    p.choose_track(0, 100);
    let cmd = p.toggle_pause(200);
    assert!(matches!(cmd, Some(Command::ToggleTrack)));
    assert!(matches!(p.timer, DurationBar::Paused));
    let cmd = p.toggle_pause(300);
    assert!(matches!(cmd, Some(Command::ToggleTrack)));
    assert!(matches!(p.timer, DurationBar::Ticking { last_tick: 300 }));
    // pausing changes neither track nor position
    assert_eq!(p.current_track.as_ref().unwrap().uuid, 1);
}

#[test]
fn toggle_pause_idle_is_noop() {
    let mut p = Player::new();
    let cmd = p.toggle_pause(100);
    assert!(cmd.is_none());
    assert!(matches!(p.timer, DurationBar::Idle));
}

#[test]
fn selecting_playlist_asks_for_its_tracks() {
    let mut p = three_track_player();
    p.playlists = vec![Playlist { uuid: 77, title: "Liked".to_string(), tracks: vec![1, 3] }];
    let act = p.update(
        Message::PlaylistMessage(0, 77, player::playlist::PlaylistMessage::SelectPlaylist),
        100,
    );
    assert!(matches!(act, Some(Action::FetchBaseTracks { playlist: 77 })));
    assert!(matches!(p.base_source, BaseSource::Playlist(77)));
    // choosing a row now needs the playlist's tracks resolved first
    let act = p.update(
        Message::TrackMessage(0, 1, player::track::TrackMessage::ChooseTrack),
        150,
    );
    assert!(matches!(
        act,
        Some(Action::FetchPlaylistTracks { playlist: 77, index: 0 })
    ));
    // selecting the same playlist again falls back to the whole library
    let act = p.update(
        Message::PlaylistMessage(0, 77, player::playlist::PlaylistMessage::SelectPlaylist),
        200,
    );
    assert!(act.is_none());
    assert!(matches!(p.base_source, BaseSource::All));
    assert_eq!(p.queue.len(), 3);
    assert!(p.backward_queue.is_empty());
}

#[test]
fn set_base_keeps_current_and_transport() {
    let mut p = three_track_player();
    p.choose_track(1, 100);
    p.set_base(vec![track(8, "eight", 2), track(9, "nine", 2)]);
    assert_eq!(p.current_track.as_ref().unwrap().uuid, 2);
    assert!(matches!(p.timer, DurationBar::Ticking { last_tick: 100 }));
    assert_eq!(p.init_queue.len(), 2);
    assert_eq!(p.queue.len(), 2);
    assert!(p.backward_queue.is_empty());
}

#[test]
fn open_and_close_playlist_menu() {
    let mut p = three_track_player();
    p.playlists = vec![Playlist { uuid: 4, title: "Liked".to_string(), tracks: vec![] }];
    let act = p.update(
        Message::TrackMessage(1, 2, player::track::TrackMessage::OpenPlaylistMenu(vec![])),
        100,
    );
    assert!(act.is_none());
    let menu = p.init_queue[1].playlists.as_ref().unwrap();
    assert_eq!(menu.len(), 1);
    assert_eq!(menu[0].uuid, 4);
    let act = p.update(
        Message::TrackMessage(1, 2, player::track::TrackMessage::ClosePlaylistMenu),
        150,
    );
    assert!(act.is_none());
    assert!(p.init_queue[1].playlists.is_none());
}
