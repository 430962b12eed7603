use vstd::prelude::*;

verus! {

/// A track record as the persistence service stores it: the identifier in
/// its hyphenated text form, the file path, and how often it was played.
pub struct TrackModel {
    pub uuid: String,
    pub path: String,
    pub play_count: i64,
}

impl Clone for TrackModel {
    fn clone(&self) -> (r: Self)
        ensures
            r.uuid@ == self.uuid@,
            r.path@ == self.path@,
            r.play_count == self.play_count,
    {
        TrackModel {
            uuid: self.uuid.clone(),
            path: self.path.clone(),
            play_count: self.play_count,
        }
    }
}

} // verus!
