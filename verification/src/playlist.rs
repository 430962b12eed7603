use vstd::prelude::*;

use crate::ids::{
    format_uuid, parse_id_list, parse_uuid, parsed_id_list, render_id_list, uuid_parsed, uuid_text,
};
use crate::models::playlist_model::PlaylistModel;

verus! {

/// A playlist: an identifier, a display title, and the identifiers of its
/// member tracks, in order and without duplicates.
pub struct Playlist {
    pub uuid: u128,
    pub title: String,
    pub tracks: Vec<u128>,
}

/// Mathematical image of a `Playlist`.
#[verifier::ext_equal]
pub struct PlaylistV {
    pub uuid: u128,
    pub title: Seq<char>,
    pub tracks: Seq<u128>,
}

impl View for Playlist {
    type V = PlaylistV;

    open spec fn view(&self) -> PlaylistV {
        PlaylistV { uuid: self.uuid, title: self.title@, tracks: self.tracks@ }
    }
}

impl DeepView for Playlist {
    type V = PlaylistV;

    open spec fn deep_view(&self) -> PlaylistV {
        self.view()
    }
}

impl Clone for Playlist {
    fn clone(&self) -> (r: Self)
        ensures
            r@ == self@,
    {
        let tracks = self.tracks.clone();
        proof {
            assert(tracks@ =~= self.tracks@);
        }
        Playlist { uuid: self.uuid, title: self.title.clone(), tracks }
    }
}

/// The member list with the first occurrence of `x` removed; the list as it
/// is if `x` is no member.
pub open spec fn remove_first(s: Seq<u128>, x: u128) -> Seq<u128>
    decreases s.len(),
{
    if s.len() == 0 {
        s
    } else if s[0] == x {
        s.drop_first()
    } else {
        seq![s[0]] + remove_first(s.drop_first(), x)
    }
}

/// The member list after toggling `x`: its first occurrence removed if it is
/// a member, `x` appended if it is not.
pub open spec fn toggled_tracks(s: Seq<u128>, x: u128) -> Seq<u128> {
    if s.contains(x) {
        remove_first(s, x)
    } else {
        s.push(x)
    }
}

/// Removing the first occurrence of `x`, found at position `k`, keeps
/// everything before and after `k`.
pub proof fn lemma_remove_first_at(s: Seq<u128>, x: u128, k: int)
    requires
        0 <= k < s.len(),
        s[k] == x,
        forall|j: int| 0 <= j < k ==> s[j] != x,
    ensures
        remove_first(s, x) == s.subrange(0, k) + s.subrange(k + 1, s.len() as int),
    decreases k,
{
    if k == 0 {
        assert(s.drop_first() =~= s.subrange(0, 0) + s.subrange(1, s.len() as int));
    } else {
        assert(s[0] != x);
        lemma_remove_first_at(s.drop_first(), x, k - 1);
        assert(s.drop_first().subrange(0, k - 1) =~= s.subrange(1, k));
        assert(s.drop_first().subrange(k, s.drop_first().len() as int) =~= s.subrange(
            k + 1,
            s.len() as int,
        ));
        assert(seq![s[0]] + (s.subrange(1, k) + s.subrange(k + 1, s.len() as int)) =~= s.subrange(
            0,
            k,
        ) + s.subrange(k + 1, s.len() as int));
    }
}

/// Toggling a non-member in and then toggling it again leaves the member
/// list as it was: the toggle is its own inverse on non-members.
pub proof fn lemma_toggle_twice(s: Seq<u128>, x: u128)
    requires
        !s.contains(x),
    ensures
        toggled_tracks(toggled_tracks(s, x), x) == s,
{
    let t = s.push(x);
    assert(t[s.len() as int] == x);
    assert(t.contains(x));
    assert(forall|j: int| 0 <= j < s.len() ==> t[j] == s[j] && t[j] != x);
    lemma_remove_first_at(t, x, s.len() as int);
    assert(t.subrange(0, s.len() as int) =~= s);
    assert(t.subrange(s.len() as int + 1, t.len() as int) =~= Seq::<u128>::empty());
    assert(s + Seq::<u128>::empty() =~= s);
}

/// The image of the playlist read from a stored record; nothing if the
/// identifier text or the member list text does not parse.
pub open spec fn playlist_of_model(m: PlaylistModel) -> Option<PlaylistV> {
    match uuid_parsed(m.uuid@) {
        Option::None => None,
        Option::Some(id) => match parsed_id_list(m.tracks@) {
            Option::None => None,
            Option::Some(ids) => Some(PlaylistV { uuid: id, title: m.title@, tracks: ids }),
        },
    }
}

/// User intents that the presentation layer can raise on a playlist row.
pub enum PlaylistMessage {
    SelectPlaylist,
    DiscardPlaylist,
    AddPlaylist,
    RemovePlaylist,
}

impl Playlist {
    /// Whether `track_uuid` is a member of this playlist.
    pub fn contains_track(&self, track_uuid: u128) -> (r: bool)
        ensures
            r == self@.tracks.contains(track_uuid),
    {
        let mut i: usize = 0;
        while i < self.tracks.len()
            invariant
                i <= self.tracks.len(),
                forall|j: int| 0 <= j < i ==> self.tracks@[j] != track_uuid,
            decreases self.tracks.len() - i,
        {
            if self.tracks[i] == track_uuid {
                proof {
                    assert(self@.tracks[i as int] == track_uuid);
                }
                return true;
            }
            i = i + 1;
        }
        false
    }

    /// The playlist with `track_uuid` toggled: removed if it was a member,
    /// appended if it was not. Identifier and title stay as they are.
    pub fn toggled(&self, track_uuid: u128) -> (r: Playlist)
        ensures
            r.uuid == self.uuid,
            r.title@ == self.title@,
            r@.tracks == toggled_tracks(self@.tracks, track_uuid),
    {
        let ghost s = self@.tracks;
        let mut out: Vec<u128> = Vec::new();
        let mut i: usize = 0;
        while i < self.tracks.len()
            invariant
                i <= self.tracks.len(),
                s == self@.tracks,
                out@ =~= s.subrange(0, i as int),
                forall|j: int| 0 <= j < i ==> s[j] != track_uuid,
            decreases self.tracks.len() - i,
        {
            if self.tracks[i] == track_uuid {
                // A member: drop this first occurrence and keep the rest.
                proof {
                    assert(s.contains(track_uuid));
                }
                let mut k: usize = i + 1;
                while k < self.tracks.len()
                    invariant
                        i < k <= self.tracks.len(),
                        s == self@.tracks,
                        s[i as int] == track_uuid,
                        out@ =~= s.subrange(0, i as int) + s.subrange(i as int + 1, k as int),
                    decreases self.tracks.len() - k,
                {
                    out.push(self.tracks[k]);
                    k = k + 1;
                    proof {
                        assert(out@ =~= s.subrange(0, i as int)
                            + s.subrange(i as int + 1, k as int));
                    }
                }
                proof {
                    lemma_remove_first_at(s, track_uuid, i as int);
                    assert(out@ =~= remove_first(s, track_uuid));
                }
                return Playlist { uuid: self.uuid, title: self.title.clone(), tracks: out };
            }
            out.push(self.tracks[i]);
            i = i + 1;
            proof {
                assert(out@ =~= s.subrange(0, i as int));
            }
        }
        // Not a member: append it.
        proof {
            assert(!s.contains(track_uuid));
            assert(out@ =~= s);
        }
        out.push(track_uuid);
        Playlist { uuid: self.uuid, title: self.title.clone(), tracks: out }
    }

    /// Read a playlist from its stored record: the identifier from its
    /// hyphenated text, the members from the encoded list text. Nothing if
    /// either text does not parse.
    pub fn from_model(model: &PlaylistModel) -> (r: Option<Playlist>)
        ensures
            r matches Some(p) ==> {
                &&& uuid_parsed(model.uuid@) == Some(p.uuid)
                &&& p.title@ == model.title@
                &&& parsed_id_list(model.tracks@) == Some(p@.tracks)
            },
            r is None <==> (uuid_parsed(model.uuid@) is None || parsed_id_list(
                model.tracks@,
            ) is None),
    {
        match parse_uuid(model.uuid.as_str()) {
            None => None,
            Some(uuid) => match parse_id_list(model.tracks.as_str()) {
                None => None,
                Some(tracks) => Some(
                    Playlist { uuid, title: model.title.clone(), tracks },
                ),
            },
        }
    }

    /// Render this playlist as its stored record; the produced texts parse
    /// back to the very same identifier and members.
    pub fn to_model(&self) -> (m: PlaylistModel)
        ensures
            m.uuid@ == uuid_text(self.uuid),
            uuid_parsed(m.uuid@) == Some(self.uuid),
            m.title@ == self.title@,
            parsed_id_list(m.tracks@) == Some(self@.tracks),
    {
        PlaylistModel {
            uuid: format_uuid(self.uuid),
            title: self.title.clone(),
            tracks: render_id_list(&self.tracks),
        }
    }

    /// A playlist message changes no playlist state by itself; the queue
    /// engine interprets the intent.
    pub fn update(&mut self, message: PlaylistMessage)
        ensures
            *final(self) == *old(self),
    {
        match message {
            PlaylistMessage::SelectPlaylist => {}
            PlaylistMessage::DiscardPlaylist => {}
            PlaylistMessage::AddPlaylist => {}
            PlaylistMessage::RemovePlaylist => {}
        }
    }
}

} // verus!
