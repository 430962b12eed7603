use vstd::prelude::*;

use crate::ids::{parse_uuid, uuid_parsed};
use crate::models::track_model::TrackModel;
use crate::playlist::{Playlist, PlaylistV};
use crate::utils::{duration_display, duration_text, file_name, file_name_of};

verus! {

/// A track known to the player: an identifier, a display name, the rendered
/// duration, the duration in milliseconds, the file path, and — while the
/// playlist menu for this row is open — the playlists on display.
pub struct Track {
    pub uuid: u128,
    pub name: String,
    pub duration_str: String,
    pub duration: u64,
    pub path: String,
    pub playlists: Option<Vec<Playlist>>,
}

/// Mathematical image of a `Track`.
#[verifier::ext_equal]
pub struct TrackV {
    pub uuid: u128,
    pub name: Seq<char>,
    pub duration_str: Seq<char>,
    pub duration: u64,
    pub path: Seq<char>,
    pub playlists: Option<Seq<PlaylistV>>,
}

impl View for Track {
    type V = TrackV;

    open spec fn view(&self) -> TrackV {
        TrackV {
            uuid: self.uuid,
            name: self.name@,
            duration_str: self.duration_str@,
            duration: self.duration,
            path: self.path@,
            playlists: match self.playlists {
                Option::None => None,
                Option::Some(ps) => Some(ps.deep_view()),
            },
        }
    }
}

impl DeepView for Track {
    type V = TrackV;

    open spec fn deep_view(&self) -> TrackV {
        self.view()
    }
}

impl Clone for Track {
    fn clone(&self) -> (r: Self)
        ensures
            r@ == self@,
    {
        let playlists = match &self.playlists {
            None => None,
            Some(ps) => {
                let c = ps.clone();
                proof {
                    assert forall|i: int| 0 <= i < c@.len() implies c@[i]@ == ps@[i]@ by {
                        assert(cloned::<Playlist>(ps@[i], c@[i]));
                    }
                    assert(c.deep_view() =~= ps.deep_view());
                }
                Some(c)
            }
        };
        Track {
            uuid: self.uuid,
            name: self.name.clone(),
            duration_str: self.duration_str.clone(),
            duration: self.duration,
            path: self.path.clone(),
            playlists,
        }
    }
}

/// The images of a sequence of tracks.
pub open spec fn track_views(s: Seq<Track>) -> Seq<TrackV> {
    s.map_values(|t: Track| t@)
}

/// The images of a sequence of playlists.
pub open spec fn playlist_views(s: Seq<Playlist>) -> Seq<PlaylistV> {
    s.map_values(|p: Playlist| p@)
}

/// Taking images keeps the length.
pub broadcast proof fn lemma_track_views_len(s: Seq<Track>)
    ensures
        (#[trigger] track_views(s)).len() == s.len(),
{
}

/// Taking images commutes with indexing.
pub broadcast proof fn lemma_track_views_index(s: Seq<Track>, i: int)
    requires
        0 <= i < s.len(),
    ensures
        #[trigger] track_views(s)[i] == s[i]@,
{
}

/// Taking images keeps the length.
pub broadcast proof fn lemma_playlist_views_len(s: Seq<Playlist>)
    ensures
        (#[trigger] playlist_views(s)).len() == s.len(),
{
}

/// Taking images commutes with indexing.
pub broadcast proof fn lemma_playlist_views_index(s: Seq<Playlist>, i: int)
    requires
        0 <= i < s.len(),
    ensures
        #[trigger] playlist_views(s)[i] == s[i]@,
{
}

/// The pointwise facts about image sequences.
pub broadcast group group_view_maps {
    lemma_track_views_len,
    lemma_track_views_index,
    lemma_playlist_views_len,
    lemma_playlist_views_index,
}

/// User intents that the presentation layer can raise on a track row.
pub enum TrackMessage {
    ChooseTrack,
    OpenPlaylistMenu(Vec<Playlist>),
    ClosePlaylistMenu,
    ToggleInPlaylist(Playlist),
    AddToQueue,
    TrackEnd(Result<(), String>),
}

/// What a track message does to the track row itself: opening the playlist
/// menu records the playlists on display, closing it clears them, and every
/// other intent is interpreted by the queue engine, not here.
pub open spec fn track_step(t: TrackV, message: TrackMessage) -> TrackV {
    match message {
        TrackMessage::OpenPlaylistMenu(ps) => TrackV { playlists: Some(ps.deep_view()), ..t },
        TrackMessage::ClosePlaylistMenu => TrackV { playlists: None, ..t },
        _ => t,
    }
}

/// The image of the track read from a stored record and its probed duration
/// in milliseconds; nothing if the identifier text does not parse.
pub open spec fn track_of_model(m: TrackModel, duration_ms: u64) -> Option<TrackV> {
    match uuid_parsed(m.uuid@) {
        Option::None => None,
        Option::Some(id) => Some(
            TrackV {
                uuid: id,
                name: file_name(m.path@),
                duration_str: duration_display((duration_ms / 1000) as nat),
                duration: duration_ms,
                path: m.path@,
                playlists: None,
            },
        ),
    }
}

impl Track {
    /// Read a track from its stored record and its probed duration in
    /// milliseconds: the identifier from its hyphenated text, the display
    /// name from the last path component, the rendered duration from the
    /// whole seconds. Nothing if the identifier text does not parse.
    pub fn from_model(model: &TrackModel, duration_ms: u64) -> (r: Option<Track>)
        ensures
            current_track_view(r) == track_of_model(*model, duration_ms),
    {
        match parse_uuid(model.uuid.as_str()) {
            None => None,
            Some(uuid) => {
                let name = file_name_of(model.path.as_str());
                let duration_str = duration_text(duration_ms / 1000);
                let t = Track {
                    uuid,
                    name,
                    duration_str,
                    duration: duration_ms,
                    path: model.path.clone(),
                    playlists: None,
                };
                proof {
                    assert(t@ =~= track_of_model(*model, duration_ms)->0);
                }
                Some(t)
            }
        }
    }
}

/// The image of an optional track.
pub open spec fn current_track_view(c: Option<Track>) -> Option<TrackV> {
    match c {
        Option::None => None,
        Option::Some(t) => Some(t@),
    }
}

impl Track {
    /// Apply a track message to this row.
    pub fn update(&mut self, message: TrackMessage)
        ensures
            final(self)@ == track_step(old(self)@, message),
    {
        match message {
            TrackMessage::OpenPlaylistMenu(ps) => {
                self.playlists = Some(ps);
            }
            TrackMessage::ClosePlaylistMenu => {
                self.playlists = None;
            }
            TrackMessage::ChooseTrack => {}
            TrackMessage::ToggleInPlaylist(_playlist) => {}
            TrackMessage::AddToQueue => {}
            TrackMessage::TrackEnd(_result) => {}
        }
    }
}

} // verus!
