//! The search engine: ranked, case-insensitive substring search over an
//! already-obtained tree. It works purely on the data model and is shared by
//! every transport.
//!
//! A node matches when its key, case-folded, contains the case-folded query
//! as a substring. An exact match ranks highest, then a prefix match, then
//! any other containment. Results are ordered by rank, non-increasing; among
//! results of one rank the depth-first traversal order of the tree is kept.
//! An empty query matches every node.

use crate::irmin::types::clone_node;
use crate::irmin::types::IrminNode;
use crate::irmin::types::NodeView;
use crate::irmin::types::Relevance;
use crate::irmin::types::SearchResult;
use crate::irmin::types::SearchResultView;
use crate::irmin::text::contains_seq;
use crate::irmin::text::contains_str;
use crate::irmin::text::occurs_at;
use crate::irmin::text::occurs_here;
use crate::irmin::text::str_eq_content;
use vstd::prelude::*;
use vstd::string::StrSliceExecFns;
use vstd::string::StringExecFns;

verus! {

/// The case-folded image of a character sequence, as `str::to_lowercase`
/// computes it. The image depends on the characters alone.
pub uninterp spec fn lower_of(s: Seq<char>) -> Seq<char>;

/// Relies on `str::to_lowercase`: the result is a function of the characters
/// alone, and an empty string folds to an empty string.
#[verifier::external_body]
fn lowercase(s: &str) -> (r: String)
    ensures
        r@ == lower_of(s@),
        s@.len() == 0 ==> r@.len() == 0,
{
    s.to_lowercase()
}

/// The scoring rule, on the case-folded key and query: equality ranks as an
/// exact match, a prefix below it, any other containment below that, and a
/// key that does not contain the query does not match.
pub open spec fn match_tier(key_folded: Seq<char>, query_folded: Seq<char>) -> Option<
    Relevance,
> {
    if key_folded == query_folded {
        Some(Relevance::Exact)
    } else if query_folded.len() <= key_folded.len() && key_folded.subrange(
        0,
        query_folded.len() as int,
    ) == query_folded {
        Some(Relevance::Prefix)
    } else if contains_seq(key_folded, query_folded) {
        Some(Relevance::Substring)
    } else {
        None
    }
}

/// An empty query matches every key, as the empty sequence is contained in
/// every sequence.
pub proof fn lemma_empty_query_matches(key_folded: Seq<char>)
    ensures
        match_tier(key_folded, Seq::<char>::empty()) is Some,
{
    if key_folded != Seq::<char>::empty() {
        assert(key_folded.subrange(0, 0) =~= Seq::<char>::empty());
    }
}

/// Ranks an already-folded key against an already-folded query. This is the
/// whole scoring rule; feeding it the folded forms of key and query yields
/// the tier the search assigns.
pub fn tier_of_folded(key_folded: &str, query_folded: &str) -> (r: Option<Relevance>)
    ensures
        r == match_tier(key_folded@, query_folded@),
{
    let kl = key_folded.unicode_len();
    let ql = query_folded.unicode_len();
    if str_eq_content(key_folded, query_folded) {
        Some(Relevance::Exact)
    } else if ql <= kl && occurs_here(key_folded, query_folded, 0) {
        Some(Relevance::Prefix)
    } else if contains_str(key_folded, query_folded) {
        Some(Relevance::Substring)
    } else {
        None
    }
}

/// Folds a raw key and ranks it against the already-folded query.
pub fn score_key(key: &str, query_folded: &str) -> (r: Option<Relevance>)
    ensures
        r == match_tier(lower_of(key@), query_folded@),
{
    let key_folded = lowercase(key);
    tier_of_folded(key_folded.as_str(), query_folded)
}

/// Slash-joined path of a node whose parent path is `prefix`; at the root the
/// path is the node's own key.
pub open spec fn path_of(prefix: Seq<char>, key: Seq<char>) -> Seq<char> {
    if prefix.len() == 0 {
        key
    } else {
        prefix + "/"@ + key
    }
}

/// All matches in the subtree rooted at `v`, in depth-first order: the node
/// itself first if its key matches, then the matches of each child subtree in
/// turn. `prefix` is the path of `v`'s parent.
pub open spec fn subtree_matches(
    v: NodeView,
    prefix: Seq<char>,
    query_folded: Seq<char>,
) -> Seq<SearchResultView>
    decreases v, 0int,
{
    let p = path_of(prefix, v.key);
    let own = match match_tier(lower_of(v.key), query_folded) {
        Some(t) => seq![SearchResultView { path: p, node: v, relevance_score: t }],
        None => Seq::<SearchResultView>::empty(),
    };
    own + children_matches(v.children, p, query_folded, 0)
}

/// Matches of the subtrees `cs[i..]`, whose parent path is `prefix`.
pub open spec fn children_matches(
    cs: Seq<NodeView>,
    prefix: Seq<char>,
    query_folded: Seq<char>,
    i: int,
) -> Seq<SearchResultView>
    decreases cs, cs.len() - i,
{
    if i < 0 || i >= cs.len() {
        Seq::<SearchResultView>::empty()
    } else {
        subtree_matches(cs[i], prefix, query_folded) + children_matches(
            cs,
            prefix,
            query_folded,
            i + 1,
        )
    }
}

/// The views of a sequence of search results.
pub open spec fn results_view(s: Seq<SearchResult>) -> Seq<SearchResultView> {
    s.map_values(|r: SearchResult| r@)
}

proof fn lemma_results_view_push(s: Seq<SearchResult>, x: SearchResult)
    ensures
        results_view(s.push(x)) == results_view(s).push(x@),
{
    assert(results_view(s.push(x)) =~= results_view(s).push(x@));
}

/// Joins a parent path and a key with a slash; an empty parent path yields
/// the key alone.
fn join_path(prefix: &str, key: &str) -> (r: String)
    ensures
        r@ == path_of(prefix@, key@),
{
    if prefix.is_empty() {
        String::from_str(key)
    } else {
        let mut s = String::from_str(prefix);
        s.append("/");
        s.append(key);
        proof {
            assert(s@ =~= path_of(prefix@, key@));
        }
        s
    }
}

/// Appends the matches of the subtree rooted at `node` to `out`, in
/// depth-first order.
fn collect_matches(node: &IrminNode, prefix: &str, query_folded: &str, out: &mut Vec<
    SearchResult,
>)
    ensures
        results_view(final(out)@) == results_view(old(out)@) + subtree_matches(
            node@,
            prefix@,
            query_folded@,
        ),
    decreases *node,
{
    broadcast use crate::irmin::types::lemma_node_view_children;

    let ghost base = results_view(old(out)@);
    let ghost total = subtree_matches(node@, prefix@, query_folded@);
    let path = join_path(prefix, node.key.as_str());
    match score_key(node.key.as_str(), query_folded) {
        Some(t) => {
            let owned = clone_node(node);
            let hit = SearchResult { path: path.clone(), node: owned, relevance_score: t };
            proof {
                lemma_results_view_push(out@, hit);
            }
            out.push(hit);
            proof {
                let own = seq![
                    SearchResultView {
                        path: path_of(prefix@, node@.key),
                        node: node@,
                        relevance_score: t,
                    },
                ];
                assert(results_view(out@) =~= base + own);
            }
        },
        None => {
            proof {
                assert(results_view(out@) =~= base + Seq::<SearchResultView>::empty());
            }
        },
    }
    let mut i: usize = 0;
    while i < node.children.len()
        invariant
            i <= node.children.len(),
            node@.children.len() == node.children@.len(),
            path@ == path_of(prefix@, node@.key),
            results_view(out@) + children_matches(node@.children, path@, query_folded@, i as int)
                == base + total,
        decreases node.children.len() - i,
    {
        proof {
            assert(decreases_to!(*node => node.children));
            assert(decreases_to!(node.children => node.children@));
            assert(decreases_to!(node.children@ => node.children@[i as int]));
        }
        let ghost before = results_view(out@);
        collect_matches(&node.children[i], path.as_str(), query_folded, out);
        proof {
            crate::irmin::types::lemma_node_view_children(*node);
            let cs = node@.children;
            let sm = subtree_matches(cs[i as int], path@, query_folded@);
            let rest = children_matches(cs, path@, query_folded@, i as int + 1);
            assert(node.children@[i as int]@ == cs[i as int]);
            assert((before + sm) + rest =~= before + (sm + rest));
        }
        i += 1;
    }
    proof {
        assert(children_matches(node@.children, path@, query_folded@, node.children@.len() as int)
            =~= Seq::<SearchResultView>::empty());
        assert(results_view(out@) =~= base + total);
    }
}

/// Matches of one relevance tier, in their original order.
pub open spec fn tier_only(s: Seq<SearchResultView>, t: Relevance) -> Seq<SearchResultView> {
    s.filter(|r: SearchResultView| r.relevance_score == t)
}

/// Stable ordering by tier: exact matches first, then prefix matches, then
/// other substring matches; inside one tier the original order is kept.
pub open spec fn ranked(s: Seq<SearchResultView>) -> Seq<SearchResultView> {
    tier_only(s, Relevance::Exact) + tier_only(s, Relevance::Prefix) + tier_only(
        s,
        Relevance::Substring,
    )
}

/// What `search_tree` returns, as a function of the tree and the folded query.
pub open spec fn search_spec(v: NodeView, query_folded: Seq<char>) -> Seq<SearchResultView> {
    ranked(subtree_matches(v, Seq::<char>::empty(), query_folded))
}

proof fn lemma_filter_single(x: SearchResultView, pred: spec_fn(SearchResultView) -> bool)
    ensures
        seq![x].filter(pred) == if pred(x) {
            seq![x]
        } else {
            Seq::<SearchResultView>::empty()
        },
{
    reveal_with_fuel(Seq::filter, 2);
    assert(seq![x].drop_last() =~= Seq::<SearchResultView>::empty());
    if pred(x) {
        assert(seq![x].filter(pred) =~= seq![x]);
    } else {
        assert(seq![x].filter(pred) =~= Seq::<SearchResultView>::empty());
    }
}

/// Every element of a filtered sequence satisfies the predicate and stems
/// from the original sequence.
proof fn lemma_filter_elements(s: Seq<SearchResultView>, pred: spec_fn(SearchResultView) -> bool)
    ensures
        forall|i: int|
            0 <= i < s.filter(pred).len() ==> pred(#[trigger] s.filter(pred)[i]) && s.contains(
                s.filter(pred)[i],
            ),
    decreases s.len(),
{
    broadcast use vstd::seq_lib::group_seq_lib_default;

    if s.len() == 0 {
        reveal_with_fuel(Seq::filter, 1);
    } else {
        let u = s.drop_last();
        let x = s.last();
        lemma_filter_elements(u, pred);
        lemma_filter_single(x, pred);
        assert(s =~= u + seq![x]);
        assert((u + seq![x]).filter(pred) == u.filter(pred) + seq![x].filter(pred));
        assert forall|i: int|
            0 <= i < s.filter(pred).len() implies pred(#[trigger] s.filter(pred)[i])
            && s.contains(s.filter(pred)[i]) by {
            if i < u.filter(pred).len() {
                assert(s.filter(pred)[i] == u.filter(pred)[i]);
                let j = choose|j: int| 0 <= j < u.len() && u[j] == u.filter(pred)[i];
                assert(s[j] == s.filter(pred)[i]);
            } else {
                assert(s.filter(pred)[i] == x);
                assert(s[s.len() - 1] == x);
            }
        }
    }
}

/// Sorts results into tier order, stably.
fn rank_results(v: Vec<SearchResult>) -> (r: Vec<SearchResult>)
    ensures
        results_view(r@) == ranked(results_view(v@)),
{
    broadcast use vstd::seq_lib::group_seq_lib_default;

    let ghost orig = results_view(v@);
    let mut exact: Vec<SearchResult> = Vec::new();
    let mut prefixed: Vec<SearchResult> = Vec::new();
    let mut contained: Vec<SearchResult> = Vec::new();
    let mut i: usize = 0;
    while i < v.len()
        invariant
            i <= v.len(),
            orig == results_view(v@),
            orig.len() == v@.len(),
            results_view(exact@) == tier_only(orig.take(i as int), Relevance::Exact),
            results_view(prefixed@) == tier_only(orig.take(i as int), Relevance::Prefix),
            results_view(contained@) == tier_only(orig.take(i as int), Relevance::Substring),
        decreases v.len() - i,
    {
        broadcast use vstd::seq_lib::group_seq_lib_default;

        let x = clone_result(&v[i]);
        proof {
            assert(orig.take(i as int + 1) =~= orig.take(i as int) + seq![orig[i as int]]);
            assert(x@ == orig[i as int]);
            lemma_filter_single(x@, |r: SearchResultView| r.relevance_score == Relevance::Exact);
            lemma_filter_single(x@, |r: SearchResultView| r.relevance_score == Relevance::Prefix);
            lemma_filter_single(
                x@,
                |r: SearchResultView| r.relevance_score == Relevance::Substring,
            );
            lemma_results_view_push(exact@, x);
            lemma_results_view_push(prefixed@, x);
            lemma_results_view_push(contained@, x);
        }
        match x.relevance_score {
            Relevance::Exact => {
                exact.push(x);
            },
            Relevance::Prefix => {
                prefixed.push(x);
            },
            Relevance::Substring => {
                contained.push(x);
            },
        }
        proof {
            assert(results_view(exact@) =~= tier_only(orig.take(i as int + 1), Relevance::Exact));
            assert(results_view(prefixed@) =~= tier_only(
                orig.take(i as int + 1),
                Relevance::Prefix,
            ));
            assert(results_view(contained@) =~= tier_only(
                orig.take(i as int + 1),
                Relevance::Substring,
            ));
        }
        i += 1;
    }
    proof {
        assert(orig.take(v@.len() as int) =~= orig);
    }
    let mut out = exact;
    out.append(&mut prefixed);
    out.append(&mut contained);
    proof {
        assert(results_view(out@) =~= ranked(orig));
    }
    out
}

/// Copy of one search result; the copy has the same view.
fn clone_result(x: &SearchResult) -> (r: SearchResult)
    ensures
        r@ == x@,
{
    SearchResult {
        path: x.path.clone(),
        node: clone_node(&x.node),
        relevance_score: x.relevance_score,
    }
}

/// The result's tier is exactly what the scoring rule assigns to its node's
/// key and the query.
pub open spec fn follows_rule(r: SearchResultView, query_folded: Seq<char>) -> bool {
    match_tier(lower_of(r.node.key), query_folded) == Some(r.relevance_score)
}

/// Every listed result follows the scoring rule.
pub open spec fn all_follow_rule(s: Seq<SearchResultView>, query_folded: Seq<char>) -> bool {
    forall|i: int| 0 <= i < s.len() ==> follows_rule(#[trigger] s[i], query_folded)
}

/// Relevance never increases along the sequence.
pub open spec fn sorted_by_relevance(s: Seq<SearchResultView>) -> bool {
    forall|i: int, j: int|
        0 <= i <= j < s.len() ==> (#[trigger] s[i]).relevance_score.spec_score_percent() >= (
        #[trigger] s[j]).relevance_score.spec_score_percent()
}

proof fn lemma_subtree_matches_rule(v: NodeView, prefix: Seq<char>, query_folded: Seq<char>)
    ensures
        all_follow_rule(subtree_matches(v, prefix, query_folded), query_folded),
    decreases v, 0int,
{
    let p = path_of(prefix, v.key);
    lemma_children_matches_rule(v.children, p, query_folded, 0);
}

proof fn lemma_children_matches_rule(
    cs: Seq<NodeView>,
    prefix: Seq<char>,
    query_folded: Seq<char>,
    i: int,
)
    ensures
        all_follow_rule(children_matches(cs, prefix, query_folded, i), query_folded),
    decreases cs, cs.len() - i,
{
    if 0 <= i < cs.len() {
        lemma_subtree_matches_rule(cs[i], prefix, query_folded);
        lemma_children_matches_rule(cs, prefix, query_folded, i + 1);
    }
}

proof fn lemma_ranked_follow_rule(s: Seq<SearchResultView>, query_folded: Seq<char>)
    requires
        all_follow_rule(s, query_folded),
    ensures
        all_follow_rule(ranked(s), query_folded),
{
    lemma_filter_elements(s, |r: SearchResultView| r.relevance_score == Relevance::Exact);
    lemma_filter_elements(s, |r: SearchResultView| r.relevance_score == Relevance::Prefix);
    lemma_filter_elements(s, |r: SearchResultView| r.relevance_score == Relevance::Substring);
    assert forall|i: int| 0 <= i < ranked(s).len() implies follows_rule(
        #[trigger] ranked(s)[i],
        query_folded,
    ) by {
        let x = ranked(s)[i];
        assert(s.contains(x));
        let j = choose|j: int| 0 <= j < s.len() && s[j] == x;
        assert(follows_rule(s[j], query_folded));
    }
}

proof fn lemma_ranked_sorted(s: Seq<SearchResultView>)
    ensures
        sorted_by_relevance(ranked(s)),
{
    lemma_filter_elements(s, |r: SearchResultView| r.relevance_score == Relevance::Exact);
    lemma_filter_elements(s, |r: SearchResultView| r.relevance_score == Relevance::Prefix);
    lemma_filter_elements(s, |r: SearchResultView| r.relevance_score == Relevance::Substring);
    let e = tier_only(s, Relevance::Exact);
    let p = tier_only(s, Relevance::Prefix);
    let c = tier_only(s, Relevance::Substring);
    assert forall|i: int, j: int| 0 <= i <= j < ranked(s).len() implies (#[trigger] ranked(
        s,
    )[i]).relevance_score.spec_score_percent() >= (#[trigger] ranked(
        s,
    )[j]).relevance_score.spec_score_percent() by {
        if i < e.len() {
            assert(ranked(s)[i] == e[i]);
        } else if i < e.len() + p.len() {
            assert(ranked(s)[i] == p[i - e.len()]);
        } else {
            assert(ranked(s)[i] == c[i - e.len() - p.len()]);
        }
        if j < e.len() {
            assert(ranked(s)[j] == e[j]);
        } else if j < e.len() + p.len() {
            assert(ranked(s)[j] == p[j - e.len()]);
        } else {
            assert(ranked(s)[j] == c[j - e.len() - p.len()]);
        }
    }
}

/// Every listed result carries a well-formed node.
pub open spec fn all_nodes_wf(s: Seq<SearchResultView>) -> bool {
    forall|i: int| 0 <= i < s.len() ==> (#[trigger] s[i]).node.wf()
}

proof fn lemma_subtree_matches_wf(v: NodeView, prefix: Seq<char>, query_folded: Seq<char>)
    requires
        v.wf(),
    ensures
        all_nodes_wf(subtree_matches(v, prefix, query_folded)),
    decreases v, 0int,
{
    let p = path_of(prefix, v.key);
    lemma_children_matches_wf(v.children, p, query_folded, 0);
}

proof fn lemma_children_matches_wf(
    cs: Seq<NodeView>,
    prefix: Seq<char>,
    query_folded: Seq<char>,
    i: int,
)
    requires
        crate::irmin::types::wf_children(cs, i),
    ensures
        all_nodes_wf(children_matches(cs, prefix, query_folded, i)),
    decreases cs, cs.len() - i,
{
    if 0 <= i < cs.len() {
        lemma_subtree_matches_wf(cs[i], prefix, query_folded);
        lemma_children_matches_wf(cs, prefix, query_folded, i + 1);
    }
}

proof fn lemma_ranked_nodes_wf(s: Seq<SearchResultView>)
    requires
        all_nodes_wf(s),
    ensures
        all_nodes_wf(ranked(s)),
{
    lemma_filter_elements(s, |r: SearchResultView| r.relevance_score == Relevance::Exact);
    lemma_filter_elements(s, |r: SearchResultView| r.relevance_score == Relevance::Prefix);
    lemma_filter_elements(s, |r: SearchResultView| r.relevance_score == Relevance::Substring);
    assert forall|i: int| 0 <= i < ranked(s).len() implies (#[trigger] ranked(
        s,
    )[i]).node.wf() by {
        let x = ranked(s)[i];
        assert(s.contains(x));
        let j = choose|j: int| 0 <= j < s.len() && s[j] == x;
        assert(s[j].node.wf());
    }
}

/// One listed node of a tree: its slash-joined path and its view.
pub open spec fn subtree_entries(v: NodeView, prefix: Seq<char>) -> Seq<(Seq<char>, NodeView)>
    decreases v, 0int,
{
    seq![(path_of(prefix, v.key), v)] + children_entries(
        v.children,
        path_of(prefix, v.key),
        0,
    )
}

/// Entries of the subtrees `cs[i..]`, whose parent path is `prefix`.
pub open spec fn children_entries(cs: Seq<NodeView>, prefix: Seq<char>, i: int) -> Seq<
    (Seq<char>, NodeView),
>
    decreases cs, cs.len() - i,
{
    if i < 0 || i >= cs.len() {
        Seq::<(Seq<char>, NodeView)>::empty()
    } else {
        subtree_entries(cs[i], prefix) + children_entries(cs, prefix, i + 1)
    }
}

/// Paths and nodes of a sequence of results.
pub open spec fn entries_of(s: Seq<SearchResultView>) -> Seq<(Seq<char>, NodeView)> {
    s.map_values(|r: SearchResultView| (r.path, r.node))
}

proof fn lemma_empty_query_lists_all(v: NodeView, prefix: Seq<char>)
    ensures
        entries_of(subtree_matches(v, prefix, Seq::<char>::empty())) == subtree_entries(v, prefix),
    decreases v, 0int,
{
    let p = path_of(prefix, v.key);
    lemma_empty_query_matches(lower_of(v.key));
    lemma_empty_children_list_all(v.children, p, 0);
    assert(entries_of(subtree_matches(v, prefix, Seq::<char>::empty())) =~= subtree_entries(
        v,
        prefix,
    ));
}

proof fn lemma_empty_children_list_all(cs: Seq<NodeView>, prefix: Seq<char>, i: int)
    ensures
        entries_of(children_matches(cs, prefix, Seq::<char>::empty(), i)) == children_entries(
            cs,
            prefix,
            i,
        ),
    decreases cs, cs.len() - i,
{
    if 0 <= i < cs.len() {
        lemma_empty_query_lists_all(cs[i], prefix);
        lemma_empty_children_list_all(cs, prefix, i + 1);
        assert(entries_of(children_matches(cs, prefix, Seq::<char>::empty(), i))
            =~= children_entries(cs, prefix, i));
    } else {
        assert(entries_of(children_matches(cs, prefix, Seq::<char>::empty(), i))
            =~= children_entries(cs, prefix, i));
    }
}

/// `x` occurs somewhere in `results`.
pub open spec fn appears_result(results: Seq<SearchResultView>, x: SearchResultView) -> bool {
    exists|i: int| 0 <= i < results.len() && #[trigger] results[i] == x
}

/// The path and node of `pn` occur together somewhere in `results`.
pub open spec fn appears_entry(
    results: Seq<SearchResultView>,
    pn: (Seq<char>, NodeView),
) -> bool {
    exists|i: int|
        0 <= i < results.len() && (#[trigger] results[i]).path == pn.0 && results[i].node == pn.1
}

/// Every entry of `entries` appears among `results`.
pub open spec fn lists_every_entry(
    results: Seq<SearchResultView>,
    entries: Seq<(Seq<char>, NodeView)>,
) -> bool {
    forall|k: int| 0 <= k < entries.len() ==> appears_entry(results, #[trigger] entries[k])
}

proof fn lemma_ranked_complete(s: Seq<SearchResultView>)
    ensures
        forall|j: int| 0 <= j < s.len() ==> appears_result(ranked(s), #[trigger] s[j]),
{
    broadcast use vstd::seq_lib::group_filter_ensures;

    let e = tier_only(s, Relevance::Exact);
    let p = tier_only(s, Relevance::Prefix);
    let c = tier_only(s, Relevance::Substring);
    assert forall|j: int| 0 <= j < s.len() implies appears_result(ranked(s), #[trigger] s[j]) by {
        let x = s[j];
        match x.relevance_score {
            Relevance::Exact => {
                assert(e.contains(x));
                let k = choose|k: int| 0 <= k < e.len() && e[k] == x;
                assert(ranked(s)[k] == x);
            },
            Relevance::Prefix => {
                assert(p.contains(x));
                let k = choose|k: int| 0 <= k < p.len() && p[k] == x;
                assert(ranked(s)[e.len() + k] == x);
            },
            Relevance::Substring => {
                assert(c.contains(x));
                let k = choose|k: int| 0 <= k < c.len() && c[k] == x;
                assert(ranked(s)[e.len() + p.len() + k] == x);
            },
        }
    }
}

/// Ranked, case-insensitive substring search over a tree.
///
/// Every returned result's tier follows the scoring rule for its node's key;
/// results come in non-increasing relevance order, depth-first traversal
/// order within one tier; an empty query lists every node of the tree; and a
/// well-formed tree yields only well-formed nodes.
pub fn search_tree(root: &IrminNode, query: &str) -> (r: Vec<SearchResult>)
    ensures
        results_view(r@) == search_spec(root@, lower_of(query@)),
        all_follow_rule(results_view(r@), lower_of(query@)),
        sorted_by_relevance(results_view(r@)),
        root@.wf() ==> all_nodes_wf(results_view(r@)),
        query@.len() == 0 ==> lists_every_entry(
            results_view(r@),
            subtree_entries(root@, Seq::<char>::empty()),
        ),
{
    let query_folded = lowercase(query);
    let mut collected: Vec<SearchResult> = Vec::new();
    collect_matches(root, "", query_folded.as_str(), &mut collected);
    let ghost qf = lower_of(query@);
    proof {
        reveal_strlit("");
        assert(""@ =~= Seq::<char>::empty());
        assert(results_view(collected@) =~= subtree_matches(root@, Seq::<char>::empty(), qf));
    }
    let r = rank_results(collected);
    proof {
        let m = subtree_matches(root@, Seq::<char>::empty(), qf);
        lemma_subtree_matches_rule(root@, Seq::<char>::empty(), qf);
        lemma_ranked_follow_rule(m, qf);
        lemma_ranked_sorted(m);
        if root@.wf() {
            lemma_subtree_matches_wf(root@, Seq::<char>::empty(), qf);
            lemma_ranked_nodes_wf(m);
        }
        if query@.len() == 0 {
            assert(qf =~= Seq::<char>::empty());
            lemma_empty_query_lists_all(root@, Seq::<char>::empty());
            lemma_ranked_complete(m);
            let entries = subtree_entries(root@, Seq::<char>::empty());
            assert forall|k: int| 0 <= k < entries.len() implies appears_entry(
                results_view(r@),
                #[trigger] entries[k],
            ) by {
                assert(entries[k] == entries_of(m)[k]);
                assert(entries_of(m)[k] == (m[k].path, m[k].node));
                assert(appears_result(ranked(m), m[k]));
                let i = choose|i: int| 0 <= i < ranked(m).len() && #[trigger] ranked(m)[i] == m[k];
                assert(results_view(r@)[i] == m[k]);
                assert(results_view(r@)[i].path == entries[k].0);
            }
        }
    }
    r
}

} // verus!

