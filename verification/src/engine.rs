use vstd::prelude::*;

use std::collections::VecDeque;

use crate::models::playlist_model::PlaylistModel;
use crate::models::track_model::TrackModel;
use crate::playlist::{playlist_of_model, toggled_tracks, Playlist, PlaylistMessage, PlaylistV};
use crate::track::{current_track_view, playlist_views, track_of_model, track_views, Track, TrackMessage, TrackV};
use crate::ids::{parsed_id_list, uuid_parsed};

verus! {

broadcast use crate::track::group_view_maps;

/// A command for the transport worker: start playing the file at a path, or
/// flip the pause state of the current source.
#[derive(Debug)]
pub enum Command {
    Play(String),
    ToggleTrack,
}

/// The transport state: nothing loaded, paused, or playing since the last
/// recorded tick.
#[derive(Clone, Copy, Debug)]
pub enum DurationBar {
    Idle,
    Paused,
    Ticking { last_tick: u64 },
}

/// The two directions of queue navigation.
#[derive(Clone, Copy, Debug)]
pub enum Direction {
    Next,
    Prev,
}

/// What drives the base queue: the whole track library, or one playlist.
#[derive(Clone, Copy, Debug)]
pub enum BaseSource {
    All,
    Playlist(u128),
}

/// Why loading the saved session state failed.
#[derive(Clone, Copy, Debug)]
pub enum LoadError {
    File,
    Format,
}

/// The session state handed to the engine on start: the known tracks and
/// playlists.
pub struct SavedState {
    pub tracks: Vec<Track>,
    pub playlists: Vec<Playlist>,
}

/// The images of the tracks read from stored records and their probed
/// durations in milliseconds, one per record; a record whose identifier text
/// does not parse is skipped.
pub open spec fn loaded_tracks(ms: Seq<TrackModel>, ds: Seq<u64>) -> Seq<TrackV>
    decreases ms.len(),
{
    if ms.len() == 0 {
        Seq::empty()
    } else {
        let rest = loaded_tracks(ms.drop_last(), ds.drop_last());
        match track_of_model(ms.last(), ds.last()) {
            Option::None => rest,
            Option::Some(t) => rest.push(t),
        }
    }
}

/// The images of the playlists read from stored records; a record whose
/// texts do not parse is skipped.
pub open spec fn loaded_playlists(ms: Seq<PlaylistModel>) -> Seq<PlaylistV>
    decreases ms.len(),
{
    if ms.len() == 0 {
        Seq::empty()
    } else {
        let rest = loaded_playlists(ms.drop_last());
        match playlist_of_model(ms.last()) {
            Option::None => rest,
            Option::Some(p) => rest.push(p),
        }
    }
}

impl SavedState {
    /// Build the session state from stored records and probed durations in
    /// milliseconds, one per track record. A record that does not parse is
    /// skipped: a bad record costs one entry, never the whole load.
    pub fn from_models(
        track_models: &Vec<TrackModel>,
        durations: &Vec<u64>,
        playlist_models: &Vec<PlaylistModel>,
    ) -> (r: SavedState)
        requires
            durations@.len() == track_models@.len(),
        ensures
            track_views(r.tracks@) == loaded_tracks(track_models@, durations@),
            playlist_views(r.playlists@) == loaded_playlists(playlist_models@),
    {
        let mut tracks: Vec<Track> = Vec::new();
        let mut i: usize = 0;
        proof {
            assert(track_models@.subrange(0, 0) =~= Seq::<TrackModel>::empty());
            assert(track_views(tracks@) =~= loaded_tracks(
                track_models@.subrange(0, 0),
                durations@.subrange(0, 0),
            ));
        }
        while i < track_models.len()
            invariant
                i <= track_models@.len(),
                durations@.len() == track_models@.len(),
                track_views(tracks@) == loaded_tracks(
                    track_models@.subrange(0, i as int),
                    durations@.subrange(0, i as int),
                ),
            decreases track_models@.len() - i,
        {
            let ghost t0 = track_views(tracks@);
            match Track::from_model(&track_models[i], durations[i]) {
                Some(t) => {
                    tracks.push(t);
                    proof {
                        assert(track_views(tracks@) =~= t0.push(t@));
                    }
                }
                None => {}
            }
            i = i + 1;
            proof {
                let mp = track_models@.subrange(0, i as int);
                let dp = durations@.subrange(0, i as int);
                assert(mp.drop_last() =~= track_models@.subrange(0, i - 1));
                assert(dp.drop_last() =~= durations@.subrange(0, i - 1));
            }
        }
        let mut playlists: Vec<Playlist> = Vec::new();
        let mut j: usize = 0;
        proof {
            assert(playlist_models@.subrange(0, 0) =~= Seq::<PlaylistModel>::empty());
            assert(playlist_views(playlists@) =~= loaded_playlists(
                playlist_models@.subrange(0, 0),
            ));
        }
        while j < playlist_models.len()
            invariant
                j <= playlist_models@.len(),
                playlist_views(playlists@) == loaded_playlists(
                    playlist_models@.subrange(0, j as int),
                ),
            decreases playlist_models@.len() - j,
        {
            let ghost p0 = playlist_views(playlists@);
            match Playlist::from_model(&playlist_models[j]) {
                Some(p) => {
                    proof {
                        assert(playlist_of_model(playlist_models@[j as int]) == Some(p@));
                    }
                    playlists.push(p);
                    proof {
                        assert(playlist_views(playlists@) =~= p0.push(p@));
                    }
                }
                None => {}
            }
            j = j + 1;
            proof {
                let mp = playlist_models@.subrange(0, j as int);
                assert(mp.drop_last() =~= playlist_models@.subrange(0, j - 1));
            }
        }
        proof {
            assert(track_models@.subrange(0, track_models@.len() as int) =~= track_models@);
            assert(durations@.subrange(0, durations@.len() as int) =~= durations@);
            assert(playlist_models@.subrange(0, playlist_models@.len() as int)
                =~= playlist_models@);
        }
        SavedState { tracks, playlists }
    }
}

/// An event for the queue engine: a user intent, a timer tick, or the result
/// of an outside request coming back.
pub enum Message {
    Loaded(Result<SavedState, LoadError>),
    LoadPlaylist(Vec<Playlist>),
    TrackMessage(usize, u128, TrackMessage),
    PlaylistMessage(usize, u128, PlaylistMessage),
    PlayTrack,
    ToggleTrack,
    JumpToNext,
    JumpToPrev,
    SetQueue(Result<Vec<Track>, String>, usize),
    SetBase(Result<Vec<Track>, String>),
    Tick,
    Error(Result<(), String>),
}

/// What the engine asks its surroundings to do after an event: send a
/// transport command, resolve a playlist into tracks, persist an updated
/// playlist record, or nothing — `Rejected` reports an event for which no
/// state transition exists.
pub enum Action {
    SendCommand(Command),
    FetchPlaylistTracks { playlist: u128, index: usize },
    FetchBaseTracks { playlist: u128 },
    UpdatePlaylist { model: PlaylistModel },
    Rejected,
}

/// The queue engine: the single authority for what is playing, what plays
/// next, and how far into it playback is.
pub struct Player {
    /// Every track known to the player, in discovery order.
    pub tracks: Vec<Track>,
    /// The resolved base sequence currently on display.
    pub init_queue: Vec<Track>,
    /// The forward queue: what plays after the current track.
    pub queue: VecDeque<Track>,
    /// Tracks the user queued; drained strictly before the forward queue.
    pub prio_queue: VecDeque<Track>,
    /// Previously played tracks, most recent last.
    pub backward_queue: Vec<Track>,
    /// The track playing or paused now, if any.
    pub current_track: Option<Track>,
    /// Every playlist known to the player.
    pub playlists: Vec<Playlist>,
    /// What the base queue is resolved from.
    pub base_source: BaseSource,
    /// Elapsed playback of the current track, in milliseconds.
    pub current_pos: u64,
    /// The transport state.
    pub timer: DurationBar,
}

/// Mathematical image of the engine state.
#[verifier::ext_equal]
pub struct PlayerV {
    pub tracks: Seq<TrackV>,
    pub init_queue: Seq<TrackV>,
    pub queue: Seq<TrackV>,
    pub prio_queue: Seq<TrackV>,
    pub backward_queue: Seq<TrackV>,
    pub current_track: Option<TrackV>,
    pub playlists: Seq<PlaylistV>,
    pub base_source: BaseSource,
    pub current_pos: u64,
    pub timer: DurationBar,
}

impl View for Player {
    type V = PlayerV;

    open spec fn view(&self) -> PlayerV {
        PlayerV {
            tracks: track_views(self.tracks@),
            init_queue: track_views(self.init_queue@),
            queue: track_views(self.queue@),
            prio_queue: track_views(self.prio_queue@),
            backward_queue: track_views(self.backward_queue@),
            current_track: current_track_view(self.current_track),
            playlists: playlist_views(self.playlists@),
            base_source: self.base_source,
            current_pos: self.current_pos,
            timer: self.timer,
        }
    }
}

/// The engine invariant. With no current track the transport is idle and
/// the position is zero — and only then; with a current track the position
/// never passes its duration.
pub open spec fn inv(v: PlayerV) -> bool {
    &&& (v.current_track is None <==> v.timer is Idle)
    &&& (v.current_track is None ==> v.current_pos == 0)
    &&& (v.current_track matches Some(t) ==> v.current_pos <= t.duration)
}

/// The transport state right after starting playback.
pub open spec fn playing_from(now: u64) -> DurationBar {
    DurationBar::Ticking { last_tick: now }
}

/// The engine state before anything was loaded.
pub open spec fn initial_view() -> PlayerV {
    PlayerV {
        tracks: Seq::empty(),
        init_queue: Seq::empty(),
        queue: Seq::empty(),
        prio_queue: Seq::empty(),
        backward_queue: Seq::empty(),
        current_track: None,
        playlists: Seq::empty(),
        base_source: BaseSource::All,
        current_pos: 0,
        timer: DurationBar::Idle,
    }
}

/// Advancing forward: the current track joins the history; the next current
/// track comes from the priority queue if it holds anything, else from the
/// forward queue, else — looping playback — from the start of the base
/// sequence, clearing the history. With nothing anywhere to play the engine
/// goes idle. Every new current track starts at position zero.
pub open spec fn step_next(v: PlayerV, now: u64) -> PlayerV {
    match v.current_track {
        Option::None => v,
        Option::Some(cur) => {
            let hist = v.backward_queue.push(cur);
            if v.prio_queue.len() > 0 {
                PlayerV {
                    prio_queue: v.prio_queue.drop_first(),
                    backward_queue: hist,
                    current_track: Some(v.prio_queue[0]),
                    current_pos: 0,
                    timer: playing_from(now),
                    ..v
                }
            } else if v.queue.len() > 0 {
                PlayerV {
                    queue: v.queue.drop_first(),
                    backward_queue: hist,
                    current_track: Some(v.queue[0]),
                    current_pos: 0,
                    timer: playing_from(now),
                    ..v
                }
            } else if v.init_queue.len() > 0 {
                PlayerV {
                    queue: v.init_queue.drop_first(),
                    backward_queue: Seq::empty(),
                    current_track: Some(v.init_queue[0]),
                    current_pos: 0,
                    timer: playing_from(now),
                    ..v
                }
            } else {
                PlayerV {
                    queue: Seq::empty(),
                    backward_queue: Seq::empty(),
                    current_track: None,
                    current_pos: 0,
                    timer: DurationBar::Idle,
                    ..v
                }
            }
        }
    }
}

/// Advancing backward: the current track returns to the front of the forward
/// queue; the new current track is the most recent of the history, or — when
/// the history is exhausted — the last of the base sequence, with the forward
/// queue cleared so that "previous" from the start loops to the end.
pub open spec fn step_prev(v: PlayerV, now: u64) -> PlayerV {
    match v.current_track {
        Option::None => v,
        Option::Some(cur) => {
            if v.backward_queue.len() > 0 {
                PlayerV {
                    queue: seq![cur] + v.queue,
                    backward_queue: v.backward_queue.drop_last(),
                    current_track: Some(v.backward_queue.last()),
                    current_pos: 0,
                    timer: playing_from(now),
                    ..v
                }
            } else if v.init_queue.len() > 0 {
                PlayerV {
                    queue: Seq::empty(),
                    backward_queue: v.init_queue.drop_last(),
                    current_track: Some(v.init_queue.last()),
                    current_pos: 0,
                    timer: playing_from(now),
                    ..v
                }
            } else {
                PlayerV {
                    queue: Seq::empty(),
                    backward_queue: Seq::empty(),
                    current_track: None,
                    current_pos: 0,
                    timer: DurationBar::Idle,
                    ..v
                }
            }
        }
    }
}

/// Choosing position `index` of a resolved sequence: the sequence becomes the
/// base, everything before the index becomes history, the indexed track
/// becomes current from position zero, and the rest is the forward queue.
/// An out-of-range index changes nothing.
pub open spec fn step_set_queue(v: PlayerV, tracks: Seq<TrackV>, index: int, now: u64) -> PlayerV {
    if !(0 <= index < tracks.len()) {
        v
    } else {
        PlayerV {
            init_queue: tracks,
            backward_queue: tracks.subrange(0, index),
            queue: tracks.subrange(index + 1, tracks.len() as int),
            current_track: Some(tracks[index]),
            current_pos: 0,
            timer: playing_from(now),
            ..v
        }
    }
}

/// Selecting a base sequence: the forward queue is reset to its start and
/// the history cleared; the current track and the transport state stay.
pub open spec fn step_set_base(v: PlayerV, tracks: Seq<TrackV>) -> PlayerV {
    PlayerV { init_queue: tracks, queue: tracks, backward_queue: Seq::empty(), ..v }
}

/// Loading the session state: the track library and playlists are replaced,
/// the base queue becomes the whole library, and the queues reset.
pub open spec fn step_load(v: PlayerV, tracks: Seq<TrackV>, playlists: Seq<PlaylistV>) -> PlayerV {
    PlayerV {
        tracks: tracks,
        playlists: playlists,
        init_queue: tracks,
        queue: Seq::empty(),
        backward_queue: Seq::empty(),
        base_source: BaseSource::All,
        ..v
    }
}

/// Queueing the track at `index` of the displayed sequence: it joins the back
/// of the priority queue without interrupting the current track; with nothing
/// current, the front of the priority queue starts playing at once.
pub open spec fn step_enqueue(v: PlayerV, index: int, now: u64) -> PlayerV {
    if !(0 <= index < v.init_queue.len()) {
        v
    } else {
        let pq = v.prio_queue.push(v.init_queue[index]);
        if v.current_track is None {
            PlayerV {
                prio_queue: pq.drop_first(),
                current_track: Some(pq[0]),
                current_pos: 0,
                timer: playing_from(now),
                ..v
            }
        } else {
            PlayerV { prio_queue: pq, ..v }
        }
    }
}

/// Flipping pause: playing becomes paused and paused becomes playing; with
/// nothing current, nothing changes.
pub open spec fn step_toggle_pause(v: PlayerV, now: u64) -> PlayerV {
    match v.current_track {
        Option::None => v,
        Option::Some(_) => match v.timer {
            DurationBar::Paused => PlayerV { timer: playing_from(now), ..v },
            DurationBar::Ticking { .. } => PlayerV { timer: DurationBar::Paused, ..v },
            DurationBar::Idle => v,
        },
    }
}

/// Restarting the current track: position zero, playing; with nothing
/// current, nothing changes.
pub open spec fn step_play(v: PlayerV, now: u64) -> PlayerV {
    match v.current_track {
        Option::None => v,
        Option::Some(_) => PlayerV { current_pos: 0, timer: playing_from(now), ..v },
    }
}

/// The time elapsed between the last recorded tick and `now`; a clock that
/// runs backward counts as no elapsed time.
pub open spec fn tick_delta(last_tick: u64, now: u64) -> u64 {
    if now >= last_tick {
        (now - last_tick) as u64
    } else {
        0
    }
}

/// Whether a tick at `now` completes the current track: the elapsed time
/// reaches from the position to the end of its duration.
pub open spec fn tick_fires(v: PlayerV, now: u64) -> bool {
    &&& v.timer matches DurationBar::Ticking { last_tick }
        && v.current_track matches Some(c)
        && c.duration - v.current_pos <= tick_delta(last_tick, now)
}

/// A timer tick. Only while playing: if the elapsed time completes the
/// current track the engine advances forward instead of moving the position
/// past the duration; otherwise the position grows by the elapsed time.
pub open spec fn step_tick(v: PlayerV, now: u64) -> PlayerV {
    match v.timer {
        DurationBar::Ticking { last_tick } => match v.current_track {
            Option::None => v,
            Option::Some(c) => {
                let delta = tick_delta(last_tick, now);
                if c.duration - v.current_pos <= delta {
                    step_next(v, now)
                } else {
                    PlayerV {
                        current_pos: (v.current_pos + delta) as u64,
                        timer: playing_from(now),
                        ..v
                    }
                }
            }
        },
        _ => v,
    }
}

/// The engine with the playlists replaced.
pub open spec fn with_playlists(v: PlayerV, playlists: Seq<PlaylistV>) -> PlayerV {
    PlayerV { playlists: playlists, ..v }
}

/// The engine with the playlist menu of the displayed row `i` set to `menu`.
pub open spec fn with_row_menu(v: PlayerV, i: int, menu: Option<Seq<PlaylistV>>) -> PlayerV {
    PlayerV {
        init_queue: v.init_queue.update(i, TrackV { playlists: menu, ..v.init_queue[i] }),
        ..v
    }
}

/// What a track-row event does to the engine state.
pub open spec fn step_track_row(v: PlayerV, i: int, tm: TrackMessage, now: u64) -> PlayerV {
    if !(0 <= i < v.init_queue.len()) {
        v
    } else {
        match tm {
            TrackMessage::ChooseTrack => if v.base_source is All {
                step_set_queue(v, v.tracks, i, now)
            } else {
                v
            },
            TrackMessage::AddToQueue => step_enqueue(v, i, now),
            TrackMessage::OpenPlaylistMenu(_ps) => with_row_menu(v, i, Some(v.playlists)),
            TrackMessage::ClosePlaylistMenu => with_row_menu(v, i, None),
            TrackMessage::ToggleInPlaylist(_p) => with_row_menu(v, i, Some(v.playlists)),
            TrackMessage::TrackEnd(_r) => v,
        }
    }
}

/// What a playlist-row event does to the engine state: selecting the selected
/// playlist again deselects it and the whole library becomes the base at
/// once; selecting another records it as the base source, whose tracks the
/// surroundings then resolve.
pub open spec fn step_playlist_row(v: PlayerV, i: int, uuid: u128, pm: PlaylistMessage) -> PlayerV {
    match pm {
        PlaylistMessage::SelectPlaylist => {
            if v.base_source matches BaseSource::Playlist(u) && u == uuid {
                step_set_base(PlayerV { base_source: BaseSource::All, ..v }, v.tracks)
            } else if 0 <= i < v.playlists.len() {
                PlayerV { base_source: BaseSource::Playlist(v.playlists[i].uuid), ..v }
            } else {
                v
            }
        }
        _ => v,
    }
}

/// Toggle a track's membership in a playlist and render the record to
/// persist: if the track is a member its first occurrence leaves, else it is
/// appended. This is the engine's read-modify-write against the persistence
/// service; the refreshed playlist set returns later as an ordinary event,
/// so a failed write is never reflected in engine state.
pub fn toggle_playlist_membership(playlist: &Playlist, track_uuid: u128) -> (r: (
    Playlist,
    PlaylistModel,
))
    ensures
        r.0.uuid == playlist.uuid,
        r.0.title@ == playlist.title@,
        r.0@.tracks == toggled_tracks(playlist@.tracks, track_uuid),
        uuid_parsed(r.1.uuid@) == Some(playlist.uuid),
        r.1.title@ == playlist.title@,
        parsed_id_list(r.1.tracks@) == Some(toggled_tracks(playlist@.tracks, track_uuid)),
{
    let updated = playlist.toggled(track_uuid);
    let model = updated.to_model();
    (updated, model)
}

/// Whether `act` is exactly the command to start playing the current track
/// of `v`.
pub open spec fn sends_play(act: Option<Action>, v: PlayerV) -> bool {
    &&& act matches Some(Action::SendCommand(Command::Play(p)))
        && v.current_track matches Some(t)
        && p@ == t.path
}

/// What any event does to the engine state.
pub open spec fn step_message(v: PlayerV, message: Message, now: u64) -> PlayerV {
    match message {
        Message::Loaded(res) => match res {
            Ok(state) => step_load(
                v,
                track_views(state.tracks@),
                playlist_views(state.playlists@),
            ),
            Err(_) => v,
        },
        Message::LoadPlaylist(ps) => with_playlists(v, playlist_views(ps@)),
        Message::TrackMessage(i, _uuid, tm) => step_track_row(v, i as int, tm, now),
        Message::PlaylistMessage(i, uuid, pm) => step_playlist_row(v, i as int, uuid, pm),
        Message::PlayTrack => step_play(v, now),
        Message::ToggleTrack => step_toggle_pause(v, now),
        Message::JumpToNext => step_next(v, now),
        Message::JumpToPrev => step_prev(v, now),
        Message::SetQueue(res, idx) => match res {
            Ok(tracks) => step_set_queue(v, track_views(tracks@), idx as int, now),
            Err(_) => v,
        },
        Message::SetBase(res) => match res {
            Ok(tracks) => step_set_base(v, track_views(tracks@)),
            Err(_) => v,
        },
        Message::Tick => step_tick(v, now),
        Message::Error(_) => v,
    }
}

/// What an advance in either direction answers: a rejection with nothing
/// current, the command for the new current track, and nothing when the
/// engine ran out of tracks and went idle.
pub open spec fn advance_act(act: Option<Action>, before: PlayerV, after: PlayerV) -> bool {
    if before.current_track is None {
        act == Some(Action::Rejected)
    } else if after.current_track is Some {
        sends_play(act, after)
    } else {
        act is None
    }
}

/// What any event answers.
pub open spec fn message_act(
    act: Option<Action>,
    before: PlayerV,
    after: PlayerV,
    message: Message,
    now: u64,
) -> bool {
    match message {
        Message::Loaded(_) => act is None,
        Message::LoadPlaylist(_) => act is None,
        Message::PlayTrack => if before.current_track is Some {
            sends_play(act, after)
        } else {
            act == Some(Action::Rejected)
        },
        Message::ToggleTrack => if before.current_track is Some {
            act == Some(Action::SendCommand(Command::ToggleTrack))
        } else {
            act is None
        },
        Message::JumpToNext => advance_act(act, before, after),
        Message::JumpToPrev => advance_act(act, before, after),
        Message::SetQueue(res, idx) => match res {
            Ok(tracks) => if idx < tracks@.len() {
                sends_play(act, after)
            } else {
                act == Some(Action::Rejected)
            },
            Err(_) => act is None,
        },
        Message::SetBase(_) => act is None,
        Message::Tick => if tick_fires(before, now) && after.current_track is Some {
            sends_play(act, after)
        } else {
            act is None
        },
        Message::Error(_) => act is None,
        Message::TrackMessage(i, _uuid, tm) => if i >= before.init_queue.len() {
            act == Some(Action::Rejected)
        } else {
            match tm {
                TrackMessage::ChooseTrack => match before.base_source {
                    BaseSource::All => if i < before.tracks.len() {
                        sends_play(act, after)
                    } else {
                        act == Some(Action::Rejected)
                    },
                    BaseSource::Playlist(id) => act == Some(
                        Action::FetchPlaylistTracks { playlist: id, index: i },
                    ),
                },
                TrackMessage::AddToQueue => if before.current_track is None {
                    sends_play(act, after)
                } else {
                    act is None
                },
                TrackMessage::ToggleInPlaylist(p) => {
                    &&& act matches Some(Action::UpdatePlaylist { model })
                        && uuid_parsed(model.uuid@) == Some(p.uuid)
                        && model.title@ == p.title@
                        && parsed_id_list(model.tracks@) == Some(
                        toggled_tracks(p@.tracks, before.init_queue[i as int].uuid),
                    )
                },
                TrackMessage::OpenPlaylistMenu(_) => act is None,
                TrackMessage::ClosePlaylistMenu => act is None,
                TrackMessage::TrackEnd(_) => act is None,
            }
        },
        Message::PlaylistMessage(i, uuid, pm) => match pm {
            PlaylistMessage::SelectPlaylist => if before.base_source matches BaseSource::Playlist(
                u,
            ) && u == uuid {
                act is None
            } else if i < before.playlists.len() {
                act == Some(
                    Action::FetchBaseTracks { playlist: before.playlists[i as int].uuid },
                )
            } else {
                act == Some(Action::Rejected)
            },
            _ => act is None,
        },
    }
}

/// Every step preserves the engine invariant.
pub proof fn lemma_steps_preserve_inv(v: PlayerV, now: u64)
    requires
        inv(v),
    ensures
        inv(step_next(v, now)),
        inv(step_prev(v, now)),
        inv(step_tick(v, now)),
        inv(step_play(v, now)),
        inv(step_toggle_pause(v, now)),
{
}

/// Clone a vector of tracks, keeping the images.
fn clone_tracks(v: &Vec<Track>) -> (r: Vec<Track>)
    ensures
        track_views(r@) == track_views(v@),
{
    let r = v.clone();
    proof {
        assert forall|i: int| 0 <= i < r@.len() implies r@[i]@ == v@[i]@ by {
            assert(cloned::<Track>(v@[i], r@[i]));
        }
        assert(track_views(r@) =~= track_views(v@));
    }
    r
}

/// Clone a vector of playlists, keeping the images.
fn clone_playlists(v: &Vec<Playlist>) -> (r: Vec<Playlist>)
    ensures
        playlist_views(r@) == playlist_views(v@),
        r.deep_view() == playlist_views(v@),
{
    let r = v.clone();
    proof {
        assert forall|i: int| 0 <= i < r@.len() implies r@[i]@ == v@[i]@ by {
            assert(cloned::<Playlist>(v@[i], r@[i]));
        }
        assert(playlist_views(r@) =~= playlist_views(v@));
        assert(r.deep_view() =~= playlist_views(v@));
    }
    r
}

/// Clone a vector of tracks into a queue, keeping the images.
fn vec_to_deque(v: &Vec<Track>) -> (q: VecDeque<Track>)
    ensures
        track_views(q@) == track_views(v@),
{
    let mut q: VecDeque<Track> = VecDeque::new();
    let mut i: usize = 0;
    while i < v.len()
        invariant
            i <= v@.len(),
            q@.len() == i,
            forall|k: int| 0 <= k < i ==> (#[trigger] q@[k])@ == v@[k]@,
        decreases v@.len() - i,
    {
        q.push_back(v[i].clone());
        i = i + 1;
    }
    proof {
        assert(track_views(q@) =~= track_views(v@));
    }
    q
}

impl Player {
    /// The engine before anything was loaded: nothing known, nothing queued,
    /// nothing current, transport idle.
    pub fn new() -> (p: Player)
        ensures
            p@ == initial_view(),
            inv(p@),
    {
        let p = Player {
            tracks: Vec::new(),
            init_queue: Vec::new(),
            queue: VecDeque::new(),
            prio_queue: VecDeque::new(),
            backward_queue: Vec::new(),
            current_track: None,
            playlists: Vec::new(),
            base_source: BaseSource::All,
            current_pos: 0,
            timer: DurationBar::Idle,
        };
        proof {
            assert(p@ =~= initial_view());
        }
        p
    }

    /// Load the session state: replace the library and playlists, make the
    /// whole library the base, and reset the queues.
    pub fn load_state(&mut self, state: SavedState)
        requires
            inv(old(self)@),
        ensures
            final(self)@ == step_load(
                old(self)@,
                track_views(state.tracks@),
                playlist_views(state.playlists@),
            ),
            inv(final(self)@),
    {
        let ghost v0 = self@;
        let SavedState { tracks, playlists } = state;
        self.init_queue = clone_tracks(&tracks);
        self.tracks = tracks;
        self.playlists = playlists;
        self.backward_queue = Vec::new();
        self.queue = VecDeque::new();
        self.base_source = BaseSource::All;
        proof {
            assert(track_views(Seq::<Track>::empty()) =~= Seq::<TrackV>::empty());
            assert(self@ =~= step_load(v0, track_views(state.tracks@), playlist_views(
                state.playlists@,
            )));
        }
    }

    /// Select a resolved base sequence: the forward queue restarts from its
    /// beginning, the history clears; current track and transport stay.
    pub fn set_base(&mut self, tracks: Vec<Track>)
        requires
            inv(old(self)@),
        ensures
            final(self)@ == step_set_base(old(self)@, track_views(tracks@)),
            inv(final(self)@),
    {
        let ghost v0 = self@;
        self.queue = vec_to_deque(&tracks);
        self.init_queue = tracks;
        self.backward_queue = Vec::new();
        proof {
            assert(track_views(Seq::<Track>::empty()) =~= Seq::<TrackV>::empty());
            assert(self@ =~= step_set_base(v0, track_views(tracks@)));
        }
    }

    /// Choose position `index` of the resolved sequence `tracks`: the
    /// sequence becomes the base, the indexed track plays from position zero,
    /// and the command to play it is returned. An out-of-range index is a
    /// rejected transition: no state change, no command.
    pub fn set_queue(&mut self, tracks: Vec<Track>, index: usize, now: u64) -> (cmd: Option<
        Command,
    >)
        requires
            inv(old(self)@),
        ensures
            final(self)@ == step_set_queue(old(self)@, track_views(tracks@), index as int, now),
            inv(final(self)@),
            cmd is Some <==> index < tracks@.len(),
            cmd matches Some(c) ==> c matches Command::Play(p) && p@ == tracks@[index as int]@.path,
            final(self)@.current_track != old(self)@.current_track ==> final(self)@.current_pos == 0,
    {
        if index >= tracks.len() {
            return None;
        }
        let ghost v0 = self@;
        let ghost tv = track_views(tracks@);
        let mut backward: Vec<Track> = Vec::new();
        let mut i: usize = 0;
        while i < index
            invariant
                i <= index,
                index < tracks@.len(),
                backward@.len() == i,
                forall|k: int| 0 <= k < i ==> (#[trigger] backward@[k])@ == tracks@[k]@,
            decreases index - i,
        {
            backward.push(tracks[i].clone());
            i = i + 1;
        }
        let current = tracks[index].clone();
        let path = current.path.clone();
        let mut rest: VecDeque<Track> = VecDeque::new();
        let mut j: usize = index + 1;
        while j < tracks.len()
            invariant
                index + 1 <= j <= tracks@.len(),
                rest@.len() == j - index - 1,
                forall|k: int|
                    0 <= k < j - index - 1 ==> (#[trigger] rest@[k])@ == tracks@[index + 1 + k]@,
            decreases tracks@.len() - j,
        {
            rest.push_back(tracks[j].clone());
            j = j + 1;
        }
        proof {
            assert(track_views(backward@) =~= tv.subrange(0, index as int));
            assert(track_views(rest@) =~= tv.subrange(index + 1, tv.len() as int));
        }
        self.init_queue = tracks;
        self.backward_queue = backward;
        self.queue = rest;
        self.current_track = Some(current);
        self.current_pos = 0;
        self.timer = DurationBar::Ticking { last_tick: now };
        proof {
            assert(self@ =~= step_set_queue(v0, tv, index as int, now));
        }
        Some(Command::Play(path))
    }

    /// Queue the track at `index` of the displayed sequence behind every
    /// earlier user request; with nothing current, the front of the priority
    /// queue starts playing at once and its command is returned.
    pub fn enqueue_priority(&mut self, index: usize, now: u64) -> (cmd: Option<Command>)
        requires
            inv(old(self)@),
        ensures
            final(self)@ == step_enqueue(old(self)@, index as int, now),
            inv(final(self)@),
            cmd is Some <==> (index < old(self)@.init_queue.len() && old(self)@.current_track is None),
            cmd matches Some(c) ==> c matches Command::Play(p) && final(self)@.current_track matches Some(t) && p@ == t.path,
            final(self)@.current_track != old(self)@.current_track ==> final(self)@.current_pos == 0,
    {
        let ghost v0 = self@;
        if index >= self.init_queue.len() {
            return None;
        }
        let t = self.init_queue[index].clone();
        self.prio_queue.push_back(t);
        if self.current_track.is_none() {
            let front = self.prio_queue.pop_front().unwrap();
            let path = front.path.clone();
            self.current_track = Some(front);
            self.current_pos = 0;
            self.timer = DurationBar::Ticking { last_tick: now };
            proof {
                assert(track_views(self.prio_queue@) =~= v0.prio_queue.push(
                    v0.init_queue[index as int],
                ).drop_first());
                assert(self@ =~= step_enqueue(v0, index as int, now));
            }
            Some(Command::Play(path))
        } else {
            proof {
                assert(track_views(self.prio_queue@) =~= v0.prio_queue.push(
                    v0.init_queue[index as int],
                ));
                assert(self@ =~= step_enqueue(v0, index as int, now));
            }
            None
        }
    }

    /// Flip between playing and paused and return the transport command;
    /// with nothing current this is a plain no-op.
    pub fn toggle_pause(&mut self, now: u64) -> (cmd: Option<Command>)
        requires
            inv(old(self)@),
        ensures
            final(self)@ == step_toggle_pause(old(self)@, now),
            inv(final(self)@),
            cmd is Some <==> old(self)@.current_track is Some,
            cmd matches Some(c) ==> c is ToggleTrack,
            final(self)@.current_track == old(self)@.current_track,
    {
        let ghost v0 = self@;
        if self.current_track.is_none() {
            return None;
        }
        match self.timer {
            DurationBar::Paused => {
                self.timer = DurationBar::Ticking { last_tick: now };
            }
            DurationBar::Ticking { last_tick: _ } => {
                self.timer = DurationBar::Paused;
            }
            DurationBar::Idle => {}
        }
        proof {
            assert(self@ =~= step_toggle_pause(v0, now));
        }
        Some(Command::ToggleTrack)
    }

    /// Restart the current track from position zero and return the command
    /// to play it; with nothing current the transition is rejected.
    pub fn play_current(&mut self, now: u64) -> (cmd: Option<Command>)
        requires
            inv(old(self)@),
        ensures
            final(self)@ == step_play(old(self)@, now),
            inv(final(self)@),
            cmd is Some <==> old(self)@.current_track is Some,
            sends_play(
                match cmd {
                    Some(c) => Some(Action::SendCommand(c)),
                    None => None,
                },
                final(self)@,
            ) <==> old(self)@.current_track is Some,
    {
        let ghost v0 = self@;
        let path = match &self.current_track {
            None => {
                return None;
            }
            Some(t) => t.path.clone(),
        };
        self.current_pos = 0;
        self.timer = DurationBar::Ticking { last_tick: now };
        proof {
            assert(self@ =~= step_play(v0, now));
        }
        Some(Command::Play(path))
    }

    /// Advance one track forward or backward and return the command to play
    /// the new current track; with nothing current the transition is
    /// rejected, and with nothing left to play at all the engine goes idle.
    pub fn advance(&mut self, direction: Direction, now: u64) -> (cmd: Option<Command>)
        requires
            inv(old(self)@),
        ensures
            direction is Next ==> final(self)@ == step_next(old(self)@, now),
            direction is Prev ==> final(self)@ == step_prev(old(self)@, now),
            inv(final(self)@),
            cmd is Some <==> (old(self)@.current_track is Some && final(self)@.current_track is Some),
            cmd matches Some(c) ==> c matches Command::Play(p) && final(self)@.current_track matches Some(t) && p@ == t.path,
            final(self)@.current_track != old(self)@.current_track ==> final(self)@.current_pos == 0,
    {
        let ghost v0 = self@;
        if self.current_track.is_none() {
            return None;
        }
        let cur = self.current_track.take().unwrap();
        match direction {
            Direction::Next => {
                self.backward_queue.push(cur);
                if self.prio_queue.len() > 0 {
                    let t = self.prio_queue.pop_front().unwrap();
                    let path = t.path.clone();
                    self.current_track = Some(t);
                    self.current_pos = 0;
                    self.timer = DurationBar::Ticking { last_tick: now };
                    proof {
                        assert(track_views(self.prio_queue@) =~= v0.prio_queue.drop_first());
                        assert(track_views(self.backward_queue@) =~= v0.backward_queue.push(
                            v0.current_track->0,
                        ));
                        assert(self@ =~= step_next(v0, now));
                    }
                    Some(Command::Play(path))
                } else {
                    if self.queue.len() == 0 {
                        self.queue = vec_to_deque(&self.init_queue);
                        self.backward_queue = Vec::new();
                    }
                    match self.queue.pop_front() {
                        Some(t) => {
                            let path = t.path.clone();
                            self.current_track = Some(t);
                            self.current_pos = 0;
                            self.timer = DurationBar::Ticking { last_tick: now };
                            proof {
                                if v0.queue.len() > 0 {
                                    assert(track_views(self.queue@) =~= v0.queue.drop_first());
                                    assert(track_views(self.backward_queue@)
                                        =~= v0.backward_queue.push(v0.current_track->0));
                                } else {
                                    assert(track_views(self.queue@) =~= v0.init_queue.drop_first());
                                    assert(track_views(self.backward_queue@) =~= Seq::<
                                        TrackV,
                                    >::empty());
                                }
                                assert(self@ =~= step_next(v0, now));
                            }
                            Some(Command::Play(path))
                        }
                        None => {
                            self.current_pos = 0;
                            self.timer = DurationBar::Idle;
                            proof {
                                assert(track_views(self.queue@) =~= Seq::<TrackV>::empty());
                                assert(track_views(self.backward_queue@) =~= Seq::<
                                    TrackV,
                                >::empty());
                                assert(self@ =~= step_next(v0, now));
                            }
                            None
                        }
                    }
                }
            }
            Direction::Prev => {
                self.queue.push_front(cur);
                if self.backward_queue.len() == 0 {
                    self.backward_queue = clone_tracks(&self.init_queue);
                    self.queue = VecDeque::new();
                }
                match self.backward_queue.pop() {
                    Some(t) => {
                        let path = t.path.clone();
                        self.current_track = Some(t);
                        self.current_pos = 0;
                        self.timer = DurationBar::Ticking { last_tick: now };
                        proof {
                            if v0.backward_queue.len() > 0 {
                                assert(track_views(self.queue@) =~= seq![v0.current_track->0]
                                    + v0.queue);
                                assert(track_views(self.backward_queue@)
                                    =~= v0.backward_queue.drop_last());
                            } else {
                                assert(track_views(self.queue@) =~= Seq::<TrackV>::empty());
                                assert(track_views(self.backward_queue@)
                                    =~= v0.init_queue.drop_last());
                            }
                            assert(self@ =~= step_prev(v0, now));
                        }
                        Some(Command::Play(path))
                    }
                    None => {
                        self.current_pos = 0;
                        self.timer = DurationBar::Idle;
                        proof {
                            assert(track_views(self.queue@) =~= Seq::<TrackV>::empty());
                            assert(track_views(self.backward_queue@) =~= Seq::<TrackV>::empty());
                            assert(self@ =~= step_prev(v0, now));
                        }
                        None
                    }
                }
            }
        }
    }

    /// A timer tick at `now`. Only while playing: when the elapsed time
    /// completes the current track, advance forward and return the command
    /// for the new track; otherwise move the position.
    pub fn tick(&mut self, now: u64) -> (cmd: Option<Command>)
        requires
            inv(old(self)@),
        ensures
            final(self)@ == step_tick(old(self)@, now),
            inv(final(self)@),
            cmd is Some <==> (tick_fires(old(self)@, now) && final(self)@.current_track is Some),
            cmd matches Some(c) ==> c matches Command::Play(p) && final(self)@.current_track matches Some(t) && p@ == t.path,
            final(self)@.current_track != old(self)@.current_track ==> final(self)@.current_pos == 0,
    {
        let ghost v0 = self@;
        match self.timer {
            DurationBar::Ticking { last_tick } => {
                let duration = match &self.current_track {
                    None => {
                        return None;
                    }
                    Some(t) => t.duration,
                };
                let delta = if now >= last_tick {
                    now - last_tick
                } else {
                    0
                };
                if duration - self.current_pos <= delta {
                    let cmd = self.advance(Direction::Next, now);
                    proof {
                        assert(final(self)@ == step_tick(v0, now));
                    }
                    cmd
                } else {
                    self.current_pos = self.current_pos + delta;
                    self.timer = DurationBar::Ticking { last_tick: now };
                    proof {
                        assert(self@ =~= step_tick(v0, now));
                    }
                    None
                }
            }
            DurationBar::Idle => None,
            DurationBar::Paused => None,
        }
    }

    /// Choose the track at `index` of the displayed sequence. With the whole
    /// library as base the choice takes effect at once; with a playlist as
    /// base the engine asks for the playlist's tracks to be resolved first.
    pub fn choose_track(&mut self, index: usize, now: u64) -> (act: Option<Action>)
        requires
            inv(old(self)@),
        ensures
            inv(final(self)@),
            old(self)@.base_source is All ==> final(self)@ == step_set_queue(
                old(self)@,
                old(self)@.tracks,
                index as int,
                now,
            ),
            old(self)@.base_source is All ==> (if index < old(self)@.tracks.len() {
                sends_play(act, final(self)@)
            } else {
                act == Some(Action::Rejected)
            }),
            old(self)@.base_source matches BaseSource::Playlist(id) ==> final(self)@ == old(self)@
                && act == (Some(Action::FetchPlaylistTracks { playlist: id, index })),
            final(self)@.current_track != old(self)@.current_track ==> final(self)@.current_pos == 0,
    {
        match self.base_source {
            BaseSource::All => {
                let tracks = clone_tracks(&self.tracks);
                match self.set_queue(tracks, index, now) {
                    Some(c) => Some(Action::SendCommand(c)),
                    None => Some(Action::Rejected),
                }
            }
            BaseSource::Playlist(id) => Some(Action::FetchPlaylistTracks { playlist: id, index }),
        }
    }

    /// Replace the playlist menu of the displayed row `index`.
    fn set_row_menu(&mut self, index: usize, message: TrackMessage)
        requires
            index < old(self)@.init_queue.len(),
            message matches TrackMessage::OpenPlaylistMenu(ps) && ps.deep_view() == old(self)@.playlists || message is ClosePlaylistMenu,
        ensures
            final(self)@ == with_row_menu(
                old(self)@,
                index as int,
                match message {
                    TrackMessage::OpenPlaylistMenu(_) => Some(old(self)@.playlists),
                    _ => None,
                },
            ),
    {
        let ghost v0 = self@;
        let mut row = self.init_queue[index].clone();
        row.update(message);
        self.init_queue[index] = row;
        proof {
            assert(track_views(self.init_queue@) =~= v0.init_queue.update(
                index as int,
                TrackV {
                    playlists: match message {
                        TrackMessage::OpenPlaylistMenu(_) => Some(v0.playlists),
                        _ => None,
                    },
                    ..v0.init_queue[index as int]
                },
            ));
            assert(self@ =~= with_row_menu(
                v0,
                index as int,
                match message {
                    TrackMessage::OpenPlaylistMenu(_) => Some(v0.playlists),
                    _ => None,
                },
            ));
        }
    }

    /// Process one event: apply its state transition and answer with what
    /// the surroundings should do. An event for which no transition exists
    /// leaves the state as it is and answers `Rejected`.
    pub fn update(&mut self, message: Message, now: u64) -> (act: Option<Action>)
        requires
            inv(old(self)@),
        ensures
            final(self)@ == step_message(old(self)@, message, now),
            inv(final(self)@),
            message_act(act, old(self)@, final(self)@, message, now),
            final(self)@.current_track != old(self)@.current_track ==> final(self)@.current_pos == 0,
    {
        let ghost v0 = self@;
        match message {
            Message::Loaded(res) => match res {
                Ok(state) => {
                    self.load_state(state);
                    None
                }
                Err(_err) => None,
            },
            Message::LoadPlaylist(playlists) => {
                self.playlists = playlists;
                proof {
                    assert(self@ =~= with_playlists(v0, playlist_views(playlists@)));
                }
                None
            }
            Message::TrackMessage(i, _uuid, track_message) => {
                if i >= self.init_queue.len() {
                    return Some(Action::Rejected);
                }
                match track_message {
                    TrackMessage::ChooseTrack => self.choose_track(i, now),
                    TrackMessage::AddToQueue => match self.enqueue_priority(i, now) {
                        Some(c) => Some(Action::SendCommand(c)),
                        None => None,
                    },
                    TrackMessage::OpenPlaylistMenu(_playlists) => {
                        let ps = clone_playlists(&self.playlists);
                        self.set_row_menu(i, TrackMessage::OpenPlaylistMenu(ps));
                        None
                    }
                    TrackMessage::ClosePlaylistMenu => {
                        self.set_row_menu(i, TrackMessage::ClosePlaylistMenu);
                        None
                    }
                    TrackMessage::ToggleInPlaylist(playlist) => {
                        let track_uuid = self.init_queue[i].uuid;
                        let (_updated, model) = toggle_playlist_membership(&playlist, track_uuid);
                        let ps = clone_playlists(&self.playlists);
                        self.set_row_menu(i, TrackMessage::OpenPlaylistMenu(ps));
                        Some(Action::UpdatePlaylist { model })
                    }
                    TrackMessage::TrackEnd(_res) => None,
                }
            }
            Message::PlaylistMessage(i, uuid, playlist_message) => match playlist_message {
                PlaylistMessage::SelectPlaylist => {
                    let deselect = match self.base_source {
                        BaseSource::Playlist(u) => u == uuid,
                        BaseSource::All => false,
                    };
                    if deselect {
                        self.base_source = BaseSource::All;
                        let tracks = clone_tracks(&self.tracks);
                        self.set_base(tracks);
                        None
                    } else if i < self.playlists.len() {
                        let id = self.playlists[i].uuid;
                        self.base_source = BaseSource::Playlist(id);
                        proof {
                            assert(self@ =~= (PlayerV {
                                base_source: BaseSource::Playlist(v0.playlists[i as int].uuid),
                                ..v0
                            }));
                        }
                        Some(Action::FetchBaseTracks { playlist: id })
                    } else {
                        Some(Action::Rejected)
                    }
                }
                PlaylistMessage::DiscardPlaylist => None,
                PlaylistMessage::AddPlaylist => None,
                PlaylistMessage::RemovePlaylist => None,
            },
            Message::PlayTrack => match self.play_current(now) {
                Some(c) => Some(Action::SendCommand(c)),
                None => Some(Action::Rejected),
            },
            Message::ToggleTrack => match self.toggle_pause(now) {
                Some(c) => Some(Action::SendCommand(c)),
                None => None,
            },
            Message::JumpToNext => {
                let had_current = self.current_track.is_some();
                match self.advance(Direction::Next, now) {
                    Some(c) => Some(Action::SendCommand(c)),
                    None => if had_current {
                        None
                    } else {
                        Some(Action::Rejected)
                    },
                }
            }
            Message::JumpToPrev => {
                let had_current = self.current_track.is_some();
                match self.advance(Direction::Prev, now) {
                    Some(c) => Some(Action::SendCommand(c)),
                    None => if had_current {
                        None
                    } else {
                        Some(Action::Rejected)
                    },
                }
            }
            Message::SetQueue(res, idx) => match res {
                Ok(tracks) => match self.set_queue(tracks, idx, now) {
                    Some(c) => Some(Action::SendCommand(c)),
                    None => Some(Action::Rejected),
                },
                Err(_err) => None,
            },
            Message::SetBase(res) => match res {
                Ok(tracks) => {
                    self.set_base(tracks);
                    None
                }
                Err(_err) => None,
            },
            Message::Tick => match self.tick(now) {
                Some(c) => Some(Action::SendCommand(c)),
                None => None,
            },
            Message::Error(_res) => None,
        }
    }
}

} // verus!
