use vstd::prelude::*;

verus! {

/// A playlist record as the persistence service stores it: the identifier in
/// its hyphenated text form, the title, and the member track identifiers as
/// one text holding an encoded list.
pub struct PlaylistModel {
    pub uuid: String,
    pub title: String,
    pub tracks: String,
}

impl Clone for PlaylistModel {
    fn clone(&self) -> (r: Self)
        ensures
            r.uuid@ == self.uuid@,
            r.title@ == self.title@,
            r.tracks@ == self.tracks@,
    {
        PlaylistModel {
            uuid: self.uuid.clone(),
            title: self.title.clone(),
            tracks: self.tracks.clone(),
        }
    }
}

} // verus!
