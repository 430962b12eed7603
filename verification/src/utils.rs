use vstd::prelude::*;

use vstd::string::{StrSliceExecFns, StringExecFns};

verus! {

/// The images of a sequence of strings.
pub open spec fn text_views(s: Seq<String>) -> Seq<Seq<char>> {
    s.map_values(|t: String| t@)
}

/// Taking images keeps the length.
pub broadcast proof fn lemma_text_views_len(s: Seq<String>)
    ensures
        (#[trigger] text_views(s)).len() == s.len(),
{
}

/// Taking images commutes with indexing.
pub broadcast proof fn lemma_text_views_index(s: Seq<String>, i: int)
    requires
        0 <= i < s.len(),
    ensures
        #[trigger] text_views(s)[i] == s[i]@,
{
}

/// The pointwise facts about string image sequences.
pub broadcast group group_text_views {
    lemma_text_views_len,
    lemma_text_views_index,
}

/// A path wrapped in single quotes.
pub open spec fn quoted(path: Seq<char>) -> Seq<char> {
    seq!['\''] + path + seq!['\'']
}

/// Paths joined for a query's list: each single-quoted, separated by a comma
/// and a space.
pub open spec fn quoted_join(paths: Seq<Seq<char>>) -> Seq<char>
    decreases paths.len(),
{
    if paths.len() == 0 {
        Seq::empty()
    } else if paths.len() == 1 {
        quoted(paths[0])
    } else {
        quoted_join(paths.drop_last()) + seq![',', ' '] + quoted(paths.last())
    }
}

/// Render a list of paths as a quoted, comma-separated list.
pub fn path_buf_vec_to_string(paths: &[String]) -> (res: String)
    ensures
        res@ == quoted_join(text_views(paths@)),
{
    broadcast use group_text_views;

    let ghost pv = text_views(paths@);
    let mut res = String::new();
    let mut i: usize = 0;
    proof {
        reveal_strlit("'");
        reveal_strlit(", ");
        assert(pv.subrange(0, 0) =~= Seq::<Seq<char>>::empty());
    }
    while i < paths.len()
        invariant
            i <= paths@.len(),
            pv == text_views(paths@),
            pv.len() == paths@.len(),
            res@ == quoted_join(pv.subrange(0, i as int)),
        decreases paths@.len() - i,
    {
        proof {
            reveal_strlit("'");
            reveal_strlit(", ");
        }
        if i > 0 {
            res.append(", ");
        }
        res.append("'");
        res.append(paths[i].as_str());
        res.append("'");
        i = i + 1;
        proof {
            let pre = pv.subrange(0, i - 1);
            let cur = pv.subrange(0, i as int);
            assert(cur.drop_last() =~= pre);
            assert(cur.last() == paths@[i - 1]@);
            assert("'"@ =~= seq!['\'']);
            assert(", "@ =~= seq![',', ' ']);
            if i == 1 {
                assert(res@ =~= quoted(pv[0]));
            } else {
                assert(res@ =~= quoted_join(pre) + seq![',', ' '] + quoted(cur.last()));
            }
        }
    }
    proof {
        assert(pv.subrange(0, pv.len() as int) =~= pv);
    }
    res
}

/// The decimal digit character for a value below ten.
pub open spec fn dec_digit(d: int) -> char {
    if d == 0 {
        '0'
    } else if d == 1 {
        '1'
    } else if d == 2 {
        '2'
    } else if d == 3 {
        '3'
    } else if d == 4 {
        '4'
    } else if d == 5 {
        '5'
    } else if d == 6 {
        '6'
    } else if d == 7 {
        '7'
    } else if d == 8 {
        '8'
    } else {
        '9'
    }
}

/// The decimal rendering of a number, most significant digit first, without
/// leading zeros (a lone zero for zero).
pub open spec fn dec_str(n: nat) -> Seq<char>
    decreases n,
{
    if n < 10 {
        seq![dec_digit(n as int)]
    } else {
        dec_str(n / 10) + seq![dec_digit((n % 10) as int)]
    }
}

/// The text of a single decimal digit.
fn digit_text(d: u64) -> (r: &'static str)
    requires
        d < 10,
    ensures
        r@ == seq![dec_digit(d as int)],
{
    let r: &'static str = if d == 0 {
        "0"
    } else if d == 1 {
        "1"
    } else if d == 2 {
        "2"
    } else if d == 3 {
        "3"
    } else if d == 4 {
        "4"
    } else if d == 5 {
        "5"
    } else if d == 6 {
        "6"
    } else if d == 7 {
        "7"
    } else if d == 8 {
        "8"
    } else {
        "9"
    };
    proof {
        reveal_strlit("0");
        reveal_strlit("1");
        reveal_strlit("2");
        reveal_strlit("3");
        reveal_strlit("4");
        reveal_strlit("5");
        reveal_strlit("6");
        reveal_strlit("7");
        reveal_strlit("8");
        reveal_strlit("9");
        assert("0"@ =~= seq!['0']);
        assert("1"@ =~= seq!['1']);
        assert("2"@ =~= seq!['2']);
        assert("3"@ =~= seq!['3']);
        assert("4"@ =~= seq!['4']);
        assert("5"@ =~= seq!['5']);
        assert("6"@ =~= seq!['6']);
        assert("7"@ =~= seq!['7']);
        assert("8"@ =~= seq!['8']);
        assert("9"@ =~= seq!['9']);
    }
    r
}

/// Append the decimal rendering of `n`.
fn push_dec(s: &mut String, n: u64)
    ensures
        final(s)@ == old(s)@ + dec_str(n as nat),
    decreases n,
{
    if n >= 10 {
        push_dec(s, n / 10);
        let d = digit_text(n % 10);
        s.append(d);
        proof {
            assert(s@ =~= old(s)@ + dec_str(n as nat));
        }
    } else {
        let d = digit_text(n);
        s.append(d);
        proof {
            assert(s@ =~= old(s)@ + dec_str(n as nat));
        }
    }
}

/// The rendered duration: whole minutes, a colon, and the leftover seconds.
pub open spec fn duration_display(total_secs: nat) -> Seq<char> {
    dec_str(total_secs / 60) + seq![':'] + dec_str(total_secs % 60)
}

/// Render a duration given in whole seconds as minutes and seconds.
pub fn duration_text(total_secs: u64) -> (r: String)
    ensures
        r@ == duration_display(total_secs as nat),
{
    let mut r = String::new();
    push_dec(&mut r, total_secs / 60);
    r.append(":");
    push_dec(&mut r, total_secs % 60);
    proof {
        reveal_strlit(":");
        assert(":"@ =~= seq![':']);
        assert(r@ =~= duration_display(total_secs as nat));
    }
    r
}

/// The last component of a path: everything after its last separator, the
/// whole path if it has none, and nothing for a path that ends in one.
pub open spec fn file_name(path: Seq<char>) -> Seq<char>
    decreases path.len(),
{
    if path.len() == 0 {
        path
    } else if path.last() == '/' {
        Seq::empty()
    } else {
        file_name(path.drop_last()).push(path.last())
    }
}

/// The suffix after the last separator is the file name.
proof fn lemma_file_name_suffix(p: Seq<char>, cut: int)
    requires
        0 <= cut <= p.len(),
        cut == 0 || p[cut - 1] == '/',
        forall|j: int| cut <= j < p.len() ==> p[j] != '/',
    ensures
        file_name(p) == p.subrange(cut, p.len() as int),
    decreases p.len(),
{
    if p.len() == 0 {
        assert(p.subrange(0, 0) =~= p);
    } else if cut == p.len() {
        assert(p.last() == '/');
        assert(p.subrange(cut, p.len() as int) =~= Seq::<char>::empty());
    } else {
        assert(p.last() != '/');
        lemma_file_name_suffix(p.drop_last(), cut);
        assert(p.drop_last().subrange(cut, p.len() - 1).push(p.last()) =~= p.subrange(
            cut,
            p.len() as int,
        ));
    }
}

/// The last component of a path, as the display name of a file.
pub fn file_name_of(path: &str) -> (r: String)
    ensures
        r@ == file_name(path@),
{
    let n = path.unicode_len();
    let mut cut: usize = n;
    loop
        invariant_except_break
            cut <= n,
            n == path@.len(),
            forall|j: int| cut <= j < n ==> path@[j] != '/',
        ensures
            cut <= n,
            n == path@.len(),
            cut == 0 || path@[cut - 1] == '/',
            forall|j: int| cut <= j < n ==> path@[j] != '/',
        decreases cut,
    {
        if cut == 0 {
            break ;
        }
        if path.get_char(cut - 1) == '/' {
            break ;
        }
        cut = cut - 1;
    }
    proof {
        lemma_file_name_suffix(path@, cut as int);
    }
    let tail = path.substring_char(cut, n);
    tail.to_owned()
}

} // verus!
