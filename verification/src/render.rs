//! The page that shows the matches of a search.

use vstd::prelude::*;
use vstd::string::*;
use crate::store::{SearchHit, SearchHitView};

verus! {

/// The fragment that shows one match: its displayed payload inside a `div`
/// element.
pub open spec fn fragment(payload: Seq<char>) -> Seq<char> {
    "<div>"@ + payload + "</div>"@
}

/// The fragments of `hits`: one for each match, in the order of the matches.
pub open spec fn fragments(hits: Seq<SearchHitView>) -> Seq<Seq<char>> {
    Seq::new(hits.len(), |i: int| fragment(hits[i].payload))
}

/// The page for `hits`: their fragments, one after the other.
pub open spec fn page(hits: Seq<SearchHitView>) -> Seq<char> {
    fragments(hits).flatten()
}

/// Renders the fragment for one displayed payload.
pub fn render_fragment(payload: &str) -> (text: String)
    ensures
        text@ == fragment(payload@),
{
    "<div>".to_owned().concat(payload).concat("</div>")
}

/// Renders the page for `hits`. Every match is shown, in the order in which the
/// store returned it.
pub fn render_page(hits: &Vec<SearchHit>) -> (body: String)
    ensures
        body@ == page(hits.deep_view()),
{
    let ghost all = hits.deep_view();
    let mut body = String::new();
    let mut i: usize = 0;
    assert(fragments(all.take(0)) =~= Seq::<Seq<char>>::empty());
    while i < hits.len()
        invariant
            all == hits.deep_view(),
            i <= hits.len(),
            body@ == page(all.take(i as int)),
        decreases hits.len() - i,
    {
        let piece = render_fragment(hits[i].payload.as_str());
        proof {
            let before = fragments(all.take(i as int));
            assert(fragments(all.take(i + 1)) =~= before.push(piece@));
            before.lemma_flatten_push(piece@);
        }
        body.append(piece.as_str());
        i += 1;
    }
    assert(all.take(i as int) =~= all);
    body
}

} // verus!
