use vstd::prelude::*;

verus! {

// Track and playlist identifiers are 128-bit values; the persistence service
// stores them in their hyphenated text form, and playlist membership as one
// text holding an encoded list of such texts. The two text forms are the
// results of outside calls, so they are named rather than written out.

/// The identifier, if any, that the hyphenated-text parser reads from `s`.
pub uninterp spec fn uuid_parsed(s: Seq<char>) -> Option<u128>;

/// The hyphenated text of the identifier `id`.
pub uninterp spec fn uuid_text(id: u128) -> Seq<char>;

/// The encoded list text for a list of identifier texts.
pub uninterp spec fn id_list_text(texts: Seq<Seq<char>>) -> Seq<char>;

/// The list of texts, if any, that the list decoder reads from `s`.
pub uninterp spec fn id_list_parsed(s: Seq<char>) -> Option<Seq<Seq<char>>>;

/// Relies on uuid::Uuid::try_parse, whose result depends on the characters
/// alone, and on uuid::Uuid::as_u128, which reads the sixteen parsed bytes
/// as one big-endian value.
#[verifier::external_body]
pub fn parse_uuid(s: &str) -> (r: Option<u128>)
    ensures
        r == uuid_parsed(s@),
{
    match uuid::Uuid::try_parse(s) {
        Ok(u) => Some(u.as_u128()),
        Err(_) => None,
    }
}

/// Relies on uuid::Uuid::from_u128 and uuid::Uuid::to_string: the hyphenated
/// text depends on the value alone, and uuid::Uuid::try_parse reads the very
/// same value back from it.
#[verifier::external_body]
pub fn format_uuid(id: u128) -> (r: String)
    ensures
        r@ == uuid_text(id),
        uuid_parsed(r@) == Some(id),
{
    uuid::Uuid::from_u128(id).to_string()
}

/// Relies on serde_json::to_string, whose result depends on the list alone
/// and which cannot fail for a list of strings, and on serde_json::from_str
/// reading the produced text back unchanged.
#[verifier::external_body]
pub fn encode_id_list(texts: &Vec<String>) -> (r: String)
    ensures
        r@ == id_list_text(texts.deep_view()),
        id_list_parsed(r@) == Some(texts.deep_view()),
{
    serde_json::to_string(texts).unwrap()
}

/// Relies on serde_json::from_str for a list of strings: the result depends
/// on the text alone.
#[verifier::external_body]
pub fn decode_id_list(s: &str) -> (r: Option<Vec<String>>)
    ensures
        r matches Some(texts) ==> id_list_parsed(s@) == Some(texts.deep_view()),
        r is None ==> id_list_parsed(s@) is None,
{
    serde_json::from_str::<Vec<String>>(s).ok()
}

/// The identifiers read from a list of texts: one per text, in order, and
/// none at all if any single text fails to parse.
pub open spec fn ids_of_texts(texts: Seq<Seq<char>>) -> Option<Seq<u128>>
    decreases texts.len(),
{
    if texts.len() == 0 {
        Some(Seq::empty())
    } else {
        match ids_of_texts(texts.drop_last()) {
            None => None,
            Some(rest) => match uuid_parsed(texts.last()) {
                None => None,
                Some(id) => Some(rest.push(id)),
            },
        }
    }
}

/// The identifiers read from an encoded list text, if both the list and
/// every element parse.
pub open spec fn parsed_id_list(s: Seq<char>) -> Option<Seq<u128>> {
    match id_list_parsed(s) {
        None => None,
        Some(texts) => ids_of_texts(texts),
    }
}

/// A list of texts that parse pointwise to `ids` parses as a whole to `ids`.
pub proof fn lemma_ids_of_texts_pointwise(texts: Seq<Seq<char>>, ids: Seq<u128>)
    requires
        texts.len() == ids.len(),
        forall|j: int| 0 <= j < texts.len() ==> uuid_parsed(texts[j]) == Some(ids[j]),
    ensures
        ids_of_texts(texts) == Some(ids),
    decreases texts.len(),
{
    if texts.len() == 0 {
        assert(ids =~= Seq::<u128>::empty());
    } else {
        lemma_ids_of_texts_pointwise(texts.drop_last(), ids.drop_last());
        assert(uuid_parsed(texts.last()) == Some(ids.last()));
        assert(ids.drop_last().push(ids.last()) =~= ids);
    }
}

/// Decode an encoded list text into identifiers: the whole list, or nothing
/// if the text or any element of it does not parse.
pub fn parse_id_list(s: &str) -> (r: Option<Vec<u128>>)
    ensures
        r matches Some(ids) ==> parsed_id_list(s@) == Some(ids@),
        r is None <==> parsed_id_list(s@) is None,
{
    match decode_id_list(s) {
        None => None,
        Some(texts) => {
            let ghost tv = texts.deep_view();
            let mut ids: Vec<u128> = Vec::new();
            let mut i: usize = 0;
            while i < texts.len()
                invariant
                    i <= texts.len(),
                    tv == texts.deep_view(),
                    tv.len() == texts@.len(),
                    id_list_parsed(s@) == Some(tv),
                    ids@.len() == i,
                    forall|j: int| 0 <= j < i ==> uuid_parsed(#[trigger] tv[j]) == Some(ids@[j]),
                decreases texts.len() - i,
            {
                proof {
                    assert(tv[i as int] == texts@[i as int]@);
                }
                let parsed = parse_uuid(texts[i].as_str());
                match parsed {
                    Some(id) => {
                        ids.push(id);
                    }
                    None => {
                        proof {
                            assert(uuid_parsed(tv[i as int]) is None);
                            lemma_ids_of_texts_prefix_none(tv, i as int);
                            assert(id_list_parsed(s@) == Some(tv));
                            assert(parsed_id_list(s@) is None);
                        }
                        return None;
                    }
                }
                i = i + 1;
            }
            proof {
                lemma_ids_of_texts_pointwise(tv, ids@);
            }
            Some(ids)
        }
    }
}

/// If one text in the list fails to parse, the whole list fails.
proof fn lemma_ids_of_texts_prefix_none(texts: Seq<Seq<char>>, k: int)
    requires
        0 <= k < texts.len(),
        uuid_parsed(texts[k]) is None,
    ensures
        ids_of_texts(texts) is None,
    decreases texts.len(),
{
    if texts.len() > 0 {
        if k == texts.len() - 1 {
        } else {
            lemma_ids_of_texts_prefix_none(texts.drop_last(), k);
        }
    }
}

/// Encode identifiers as a list text that decodes back to the very same
/// identifiers.
pub fn render_id_list(ids: &Vec<u128>) -> (r: String)
    ensures
        parsed_id_list(r@) == Some(ids@),
{
    let mut texts: Vec<String> = Vec::new();
    let mut i: usize = 0;
    while i < ids.len()
        invariant
            i <= ids.len(),
            texts@.len() == i,
            forall|j: int| 0 <= j < i ==> uuid_parsed((#[trigger] texts@[j])@) == Some(ids@[j]),
        decreases ids.len() - i,
    {
        texts.push(format_uuid(ids[i]));
        i = i + 1;
    }
    proof {
        assert forall|j: int| 0 <= j < texts.deep_view().len() implies uuid_parsed(
            #[trigger] texts.deep_view()[j],
        ) == Some(ids@[j]) by {
            assert(texts.deep_view()[j] == texts@[j]@);
        }
        lemma_ids_of_texts_pointwise(texts.deep_view(), ids@);
    }
    encode_id_list(&texts)
}

} // verus!
