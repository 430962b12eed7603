use player::engine::{Action, Message, Player, SavedState};
use player::models::playlist_model::PlaylistModel;
use player::models::track_model::TrackModel;
use player::playlist::Playlist;
use player::scan::{is_audio_path, is_hidden_name, missing_paths};
use player::track::Track;
use player::utils::{duration_text, file_name_of, path_buf_vec_to_string};

const U1: &str = "00000000-0000-0000-0000-000000000001";
const U2: &str = "00000000-0000-0000-0000-000000000002";

#[test]
fn playlist_model_round_trip() {
    let playlist = Playlist { uuid: 1, title: "Liked".to_string(), tracks: vec![2, 3] };
    let model = playlist.to_model();
    // the record holds real hyphenated and encoded texts, not echoes
    assert_eq!(model.uuid, U1);
    assert_eq!(
        model.tracks,
        format!("[\"{}\",\"00000000-0000-0000-0000-000000000003\"]", U2)
    );
    let back = Playlist::from_model(&model).unwrap();
    assert_eq!(back.uuid, 1);
    assert_eq!(back.title, "Liked");
    assert_eq!(back.tracks, vec![2, 3]);
}

#[test]
fn playlist_from_handwritten_record() {
    let model = PlaylistModel {
        uuid: U1.to_string(),
        title: "mix".to_string(),
        tracks: format!("[\"{}\"]", U2),
    };
    let p = Playlist::from_model(&model).unwrap();
    assert_eq!(p.uuid, 1);
    assert_eq!(p.tracks, vec![2]);
}

#[test]
fn playlist_from_bad_record_is_nothing() {
    let bad_uuid = PlaylistModel {
        uuid: "not-a-uuid".to_string(),
        title: "x".to_string(),
        tracks: "[]".to_string(),
    };
    assert!(Playlist::from_model(&bad_uuid).is_none());
    let bad_list = PlaylistModel {
        uuid: U1.to_string(),
        title: "x".to_string(),
        tracks: "{broken".to_string(),
    };
    assert!(Playlist::from_model(&bad_list).is_none());
    let bad_member = PlaylistModel {
        uuid: U1.to_string(),
        title: "x".to_string(),
        tracks: "[\"zz\"]".to_string(),
    };
    assert!(Playlist::from_model(&bad_member).is_none());
}

#[test]
fn toggling_membership_twice_restores_the_playlist() {
    let playlist = Playlist { uuid: 9, title: "Liked".to_string(), tracks: vec![5] };
    let with_new = playlist.toggled(7);
    assert_eq!(with_new.tracks, vec![5, 7]);
    let without = with_new.toggled(7);
    assert_eq!(without.tracks, vec![5]);
}

#[test]
fn membership_test_matches_contents() {
    let playlist = Playlist { uuid: 9, title: "x".to_string(), tracks: vec![5, 7] };
    assert!(playlist.contains_track(5));
    assert!(playlist.contains_track(7));
    assert!(!playlist.contains_track(6));
}

#[test]
fn toggling_removes_first_occurrence_only() {
    let playlist = Playlist { uuid: 9, title: "x".to_string(), tracks: vec![5, 7, 5] };
    let toggled = playlist.toggled(5);
    assert_eq!(toggled.tracks, vec![7, 5]);
}

#[test]
fn membership_toggle_renders_persistable_record() {
    let liked = Playlist { uuid: 1, title: "Liked".to_string(), tracks: vec![] };
    let (updated, model) = player::engine::toggle_playlist_membership(&liked, 2);
    assert_eq!(updated.tracks, vec![2]);
    assert_eq!(model.uuid, U1);
    assert_eq!(model.title, "Liked");
    assert_eq!(model.tracks, format!("[\"{}\"]", U2));
    let (removed, model) = player::engine::toggle_playlist_membership(&updated, 2);
    assert_eq!(removed.tracks, Vec::<u128>::new());
    assert_eq!(model.tracks, "[]");
}

#[test]
fn membership_edit_flows_through_update() {
    let mut p = Player::new();
    p.load_state(SavedState {
        tracks: vec![Track {
            uuid: 2,
            name: "two".to_string(),
            duration_str: "0:1".to_string(),
            duration: 1000,
            path: "/music/two.mp3".to_string(),
            playlists: None,
        }],
        playlists: vec![],
    });
    let liked = Playlist { uuid: 1, title: "Liked".to_string(), tracks: vec![] };
    let act = p.update(
        Message::TrackMessage(0, 2, player::track::TrackMessage::ToggleInPlaylist(liked)),
        100,
    );
    let model = match act {
        Some(Action::UpdatePlaylist { model }) => model,
        _ => panic!("expected a persistence request"),
    };
    let updated = Playlist::from_model(&model).unwrap();
    assert_eq!(updated.uuid, 1);
    assert_eq!(updated.tracks, vec![2]);
    // toggling again with the updated playlist removes the track
    let act = p.update(
        Message::TrackMessage(0, 2, player::track::TrackMessage::ToggleInPlaylist(updated)),
        150,
    );
    let model = match act {
        Some(Action::UpdatePlaylist { model }) => model,
        _ => panic!("expected a persistence request"),
    };
    assert_eq!(Playlist::from_model(&model).unwrap().tracks, Vec::<u128>::new());
}

#[test]
fn track_from_record_builds_name_and_duration() {
    let model = TrackModel {
        uuid: "00000000-0000-0000-0000-000000000005".to_string(),
        path: "/music/deep/song.mp3".to_string(),
        play_count: 0,
    };
    let t = Track::from_model(&model, 61_000).unwrap();
    assert_eq!(t.uuid, 5);
    assert_eq!(t.name, "song.mp3");
    assert_eq!(t.duration_str, "1:1");
    assert_eq!(t.duration, 61_000);
    assert_eq!(t.path, "/music/deep/song.mp3");
    assert!(t.playlists.is_none());
}

#[test]
fn track_from_bad_record_is_nothing() {
    let model = TrackModel {
        uuid: "garbage".to_string(),
        path: "/music/x.mp3".to_string(),
        play_count: 0,
    };
    assert!(Track::from_model(&model, 1000).is_none());
}

#[test]
fn loading_skips_bad_records_only() {
    let good = TrackModel {
        uuid: U1.to_string(),
        path: "/music/a.mp3".to_string(),
        play_count: 0,
    };
    let bad = TrackModel {
        uuid: "broken".to_string(),
        path: "/music/b.mp3".to_string(),
        play_count: 0,
    };
    let good_list = PlaylistModel {
        uuid: U2.to_string(),
        title: "Liked".to_string(),
        tracks: "[]".to_string(),
    };
    let bad_list = PlaylistModel {
        uuid: U2.to_string(),
        title: "x".to_string(),
        tracks: "nonsense".to_string(),
    };
    let state = SavedState::from_models(
        &vec![good, bad],
        &vec![2000, 3000],
        &vec![good_list, bad_list],
    );
    assert_eq!(state.tracks.len(), 1);
    assert_eq!(state.tracks[0].uuid, 1);
    assert_eq!(state.tracks[0].name, "a.mp3");
    assert_eq!(state.playlists.len(), 1);
    assert_eq!(state.playlists[0].uuid, 2);
}

#[test]
fn quoted_path_list_for_queries() {
    let paths = vec!["/m/a.mp3".to_string(), "/m/b.mp3".to_string()];
    assert_eq!(path_buf_vec_to_string(&paths), "'/m/a.mp3', '/m/b.mp3'");
    assert_eq!(path_buf_vec_to_string(&[]), "");
    assert_eq!(path_buf_vec_to_string(&["x".to_string()]), "'x'");
}

#[test]
fn duration_rendering() {
    assert_eq!(duration_text(185), "3:5");
    assert_eq!(duration_text(59), "0:59");
    assert_eq!(duration_text(0), "0:0");
    assert_eq!(duration_text(600), "10:0");
}

#[test]
fn file_names_from_paths() {
    assert_eq!(file_name_of("/music/deep/song.mp3"), "song.mp3");
    assert_eq!(file_name_of("plain"), "plain");
    assert_eq!(file_name_of("/trailing/"), "");
    assert_eq!(file_name_of(""), "");
}

#[test]
fn scan_filters() {
    assert!(is_hidden_name(".config"));
    assert!(!is_hidden_name("song.mp3"));
    assert!(!is_hidden_name(""));
    assert!(is_audio_path("/m/a.mp3"));
    assert!(!is_audio_path("/m/a.flac"));
    assert!(!is_audio_path("mp3"));
}

#[test]
fn sync_plan_inserts_only_new_paths() {
    let stored = vec!["/m/a.mp3".to_string(), "/m/b.mp3".to_string()];
    let found = vec!["/m/b.mp3".to_string(), "/m/c.mp3".to_string()];
    assert_eq!(missing_paths(&stored, &found), vec!["/m/c.mp3".to_string()]);
    assert_eq!(
        missing_paths(&Vec::new(), &found),
        vec!["/m/b.mp3".to_string(), "/m/c.mp3".to_string()]
    );
}

#[test]
fn track_row_menu_state() {
    let mut t = Track {
        uuid: 1,
        name: "one".to_string(),
        duration_str: "0:1".to_string(),
        duration: 1000,
        path: "/m/one.mp3".to_string(),
        playlists: None,
    };
    let lists = vec![Playlist { uuid: 3, title: "Liked".to_string(), tracks: vec![] }];
    t.update(player::track::TrackMessage::OpenPlaylistMenu(lists));
    assert_eq!(t.playlists.as_ref().unwrap().len(), 1);
    t.update(player::track::TrackMessage::ChooseTrack);
    assert!(t.playlists.is_some());
    t.update(player::track::TrackMessage::ClosePlaylistMenu);
    assert!(t.playlists.is_none());
}
