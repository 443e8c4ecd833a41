use vstd::prelude::*;

use crate::error::RepoError;
use crate::post::{Post, PostKind};
use crate::requests::{is_query_for, Matching, QuerySpec};

verus! {

/// The highlighted fragments of one field of a hit.
#[derive(Clone, Debug, PartialEq, Eq)]
pub struct HighlightEntry {
    pub field: String,
    pub fragments: Vec<String>,
}

/// A hit as the engine returned it: its stored document, if that could be
/// decoded, and its highlight data, if the engine sent any.
#[derive(Clone, Debug, PartialEq, Eq)]
pub struct RawHit {
    pub source: Option<Post>,
    pub highlight: Option<Vec<HighlightEntry>>,
}

/// A document found by a search, with the fragments that matched.
#[derive(Clone, Debug, PartialEq, Eq)]
pub struct PostResult {
    pub post: Post,
    pub highlight: Vec<HighlightEntry>,
}

pub open spec fn all_decoded(hits: Seq<RawHit>) -> bool {
    forall|k: int| 0 <= k < hits.len() ==> (#[trigger] hits[k]).source is Some
}

/// `r` is hit `h` projected: its document, and its highlight data or none.
pub open spec fn projects(r: PostResult, h: RawHit) -> bool {
    &&& h.source == Some(r.post)
    &&& match h.highlight {
        Some(entries) => r.highlight == entries,
        None => r.highlight@.len() == 0,
    }
}

fn first_undecoded(hits: &Vec<RawHit>) -> (r: Option<usize>)
    ensures
        r is None <==> all_decoded(hits@),
        r matches Some(k) ==> k < hits@.len() && hits@[k as int].source is None,
{
    let mut k: usize = 0;
    while k < hits.len()
        invariant
            k <= hits@.len(),
            forall|j: int| 0 <= j < k ==> (#[trigger] hits@[j]).source is Some,
        decreases hits@.len() - k,
    {
        if hits[k].source.is_none() {
            return Some(k);
        }
        k = k + 1;
    }
    None
}

/// Pairs each hit's document with its highlight fragments, in order. A hit
/// without highlight data gets none; a hit whose document could not be decoded
/// fails the whole search.
pub fn project(hits: Vec<RawHit>) -> (r: Result<Vec<PostResult>, RepoError>)
    ensures
        r is Ok <==> all_decoded(hits@),
        r matches Err(e) ==> e is Malformed,
        r matches Ok(v) ==> v@.len() == hits@.len() && forall|k: int|
            0 <= k < v@.len() ==> projects(#[trigger] v@[k], hits@[k]),
{
    if first_undecoded(&hits).is_some() {
        return Err(RepoError::Malformed(String::from_str("a hit holds no readable document")));
    }
    let ghost all = hits@;
    let mut rest = hits;
    let mut out: Vec<PostResult> = Vec::new();
    while rest.len() > 0
        invariant
            all_decoded(all),
            out@.len() + rest@.len() == all.len(),
            rest@ == all.subrange(out@.len() as int, all.len() as int),
            forall|k: int| 0 <= k < out@.len() ==> projects(#[trigger] out@[k], all[k]),
        decreases rest@.len(),
    {
        let hit = rest.remove(0);
        assert(hit == all[out@.len() as int]);
        let RawHit { source, highlight } = hit;
        let post = match source {
            Some(p) => p,
            None => {
                assert(false);
                return Err(RepoError::Malformed(String::new()));
            },
        };
        let highlight = match highlight {
            Some(entries) => entries,
            None => Vec::new(),
        };
        out.push(PostResult { post, highlight });
        assert(rest@ =~= all.subrange(out@.len() as int, all.len() as int));
    }
    Ok(out)
}

/// An empty text asks for every document without highlighting; a non-empty
/// text asks for highlighting on exactly the fields it searches; and each
/// projected result carries its hit's highlight data unchanged, or none.
pub proof fn lemma_highlight_passthrough(
    q: QuerySpec,
    k: Option<PostKind>,
    text: Seq<char>,
    hits: Seq<RawHit>,
    results: Seq<PostResult>,
)
    requires
        is_query_for(q, k, text),
        results.len() == hits.len(),
        forall|i: int| 0 <= i < hits.len() ==> projects(#[trigger] results[i], hits[i]),
    ensures
        text.len() == 0 ==> q.matching == Matching::All && q.highlight is None,
        text.len() > 0 ==> (q.highlight matches Some(h) && q.matching matches Matching::CrossFields {
            fields,
            ..
        } && h.fields@ == fields@ && fields@.len() > 0),
        forall|i: int|
            0 <= i < hits.len() && (#[trigger] hits[i]).highlight is Some ==> results[i].highlight
                == hits[i].highlight->Some_0,
        forall|i: int|
            0 <= i < hits.len() && (#[trigger] hits[i]).highlight is None
                ==> results[i].highlight@.len() == 0,
{
    assert forall|i: int|
        0 <= i < hits.len() && (#[trigger] hits[i]).highlight is Some implies results[i].highlight
        == hits[i].highlight->Some_0 by {
        assert(projects(results[i], hits[i]));
    }
    assert forall|i: int|
        0 <= i < hits.len() && (#[trigger] hits[i]).highlight is None implies results[i].highlight@.len()
        == 0 by {
        assert(projects(results[i], hits[i]));
    }
}

} // verus!
