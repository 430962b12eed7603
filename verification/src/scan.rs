use vstd::prelude::*;

use vstd::string::StrSliceExecFns;

use crate::utils::{group_text_views, text_views};

verus! {

/// Whether a directory entry name is hidden: it starts with a dot.
pub open spec fn spec_is_hidden(name: Seq<char>) -> bool {
    name.len() > 0 && name[0] == '.'
}

/// Whether the scan skips a directory entry with this name.
pub fn is_hidden_name(name: &str) -> (r: bool)
    ensures
        r == spec_is_hidden(name@),
{
    if name.unicode_len() == 0 {
        return false;
    }
    name.get_char(0) == '.'
}

/// Whether a path names an audio file the player accepts: it ends in the
/// mp3 suffix.
pub open spec fn spec_is_audio_path(path: Seq<char>) -> bool {
    path.len() >= 4 && path.subrange(path.len() - 4, path.len() as int) == seq!['.', 'm', 'p', '3']
}

/// Whether the scan keeps a file with this path.
pub fn is_audio_path(path: &str) -> (r: bool)
    ensures
        r == spec_is_audio_path(path@),
{
    let n = path.unicode_len();
    if n < 4 {
        return false;
    }
    let r = path.get_char(n - 4) == '.' && path.get_char(n - 3) == 'm' && path.get_char(n - 2)
        == 'p' && path.get_char(n - 1) == '3';
    proof {
        let sub = path@.subrange(path@.len() - 4, path@.len() as int);
        assert(sub[0] == path@[path@.len() - 4]);
        assert(sub[1] == path@[path@.len() - 3]);
        assert(sub[2] == path@[path@.len() - 2]);
        assert(sub[3] == path@[path@.len() - 1]);
        if r {
            assert(sub =~= seq!['.', 'm', 'p', '3']);
        }
    }
    r
}

/// The discovered paths that the store does not hold yet, in discovery
/// order: what a full sync inserts.
pub open spec fn spec_missing(stored: Seq<Seq<char>>, found: Seq<Seq<char>>) -> Seq<Seq<char>>
    decreases found.len(),
{
    if found.len() == 0 {
        Seq::empty()
    } else {
        let rest = spec_missing(stored, found.drop_last());
        if stored.contains(found.last()) {
            rest
        } else {
            rest.push(found.last())
        }
    }
}

/// Whether the store holds this path.
fn contains_text(stored: &Vec<String>, x: &String) -> (r: bool)
    ensures
        r == text_views(stored@).contains(x@),
{
    broadcast use group_text_views;

    let mut i: usize = 0;
    while i < stored.len()
        invariant
            i <= stored@.len(),
            forall|j: int| 0 <= j < i ==> stored@[j]@ != x@,
        decreases stored@.len() - i,
    {
        if stored[i].eq(x) {
            proof {
                assert(text_views(stored@)[i as int] == x@);
            }
            return true;
        }
        i = i + 1;
    }
    proof {
        assert forall|k: int| 0 <= k < text_views(stored@).len() implies text_views(stored@)[k]
            != x@ by {
            assert(text_views(stored@)[k] == stored@[k]@);
        }
    }
    false
}

/// The discovered paths without stored records, in discovery order.
pub fn missing_paths(stored: &Vec<String>, found: &Vec<String>) -> (r: Vec<String>)
    ensures
        text_views(r@) == spec_missing(text_views(stored@), text_views(found@)),
{
    broadcast use group_text_views;

    let ghost sv = text_views(stored@);
    let ghost fv = text_views(found@);
    let mut r: Vec<String> = Vec::new();
    let mut i: usize = 0;
    proof {
        assert(fv.subrange(0, 0) =~= Seq::<Seq<char>>::empty());
        assert(text_views(r@) =~= spec_missing(sv, fv.subrange(0, 0)));
    }
    while i < found.len()
        invariant
            i <= found@.len(),
            sv == text_views(stored@),
            fv == text_views(found@),
            fv.len() == found@.len(),
            text_views(r@) == spec_missing(sv, fv.subrange(0, i as int)),
        decreases found@.len() - i,
    {
        let ghost r0 = text_views(r@);
        if !contains_text(stored, &found[i]) {
            r.push(found[i].clone());
            proof {
                assert(text_views(r@) =~= r0.push(fv[i as int]));
            }
        }
        i = i + 1;
        proof {
            let cur = fv.subrange(0, i as int);
            assert(cur.drop_last() =~= fv.subrange(0, i - 1));
            assert(cur.last() == fv[i - 1]);
        }
    }
    proof {
        assert(fv.subrange(0, fv.len() as int) =~= fv);
    }
    r
}

} // verus!
