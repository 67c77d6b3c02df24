//! The command surface over the Store Client. Each command takes the outcome
//! of the one transport attempt and applies the fallback policy: under
//! fallback a failed fetch is answered with synthetic data, so the caller
//! observes success either way; in strict mode the failure is surfaced as an
//! error that names the operation, carries the diagnostic, and adds guidance
//! that the store may be unreachable. The two modes are never mixed within
//! one call.

use crate::irmin::integration::IrminConfig;
use crate::irmin::mock_data::branch_views;
use crate::irmin::mock_data::commit_views;
use crate::irmin::mock_data::generate_mock_branches;
use crate::irmin::mock_data::generate_mock_commits;
use crate::irmin::mock_data::generate_mock_diff;
use crate::irmin::mock_data::generate_mock_tree;
use crate::irmin::mock_data::is_mock_branches;
use crate::irmin::mock_data::is_mock_commits;
use crate::irmin::mock_data::is_mock_tree;
use crate::irmin::mock_data::spec_mock_diff;
use crate::irmin::mock_data::spec_mock_tree;
use crate::irmin::search::all_follow_rule;
use crate::irmin::search::lower_of;
use crate::irmin::search::results_view;
use crate::irmin::search::search_spec;
use crate::irmin::search::search_tree;
use crate::irmin::search::sorted_by_relevance;
use crate::irmin::types::IrminBranch;
use crate::irmin::types::IrminCommit;
use crate::irmin::types::IrminDiff;
use crate::irmin::types::IrminNode;
use crate::irmin::types::SearchResult;
use crate::irmin::types::StoreError;
use vstd::prelude::*;
use vstd::string::StringExecFns;

verus! {

/// The strict-mode failure text: the operation's own prefix, the transport's
/// diagnostic, and guidance that the store may be unreachable.
pub open spec fn spec_failure_message(prefix: Seq<char>, diag: Seq<char>) -> Seq<char> {
    prefix + diag + ". Please ensure Irmin server is running."@
}

fn failure_message(prefix: &str, error: &StoreError) -> (r: String)
    ensures
        r@ == spec_failure_message(prefix@, error.spec_message()),
{
    let mut m = String::from_str(prefix);
    m.append(error.message());
    m.append(". Please ensure Irmin server is running.");
    proof {
        assert(m@ =~= spec_failure_message(prefix@, error.spec_message()));
    }
    m
}

/// Resolves a tree fetch. A fetched tree is returned unmodified; on failure,
/// strict mode surfaces the error — never synthetic data — and fallback mode
/// answers with the synthetic tree.
pub fn get_tree(config: &IrminConfig, fetched: Result<IrminNode, StoreError>) -> (r: Result<
    IrminNode,
    String,
>)
    ensures
        fetched matches Ok(t) ==> (r matches Ok(n) && n@ == t@),
        (fetched is Err && config.fallback_enabled) ==> (r matches Ok(n) && is_mock_tree(n@)
            && n@.wf()),
        fetched matches Err(e) ==> !config.fallback_enabled ==> (r matches Err(m) && m@
            == spec_failure_message(
            "Failed to get tree from Irmin store: "@,
            e.spec_message(),
        )),
{
    match fetched {
        Ok(t) => Ok(t),
        Err(e) => {
            if config.fallback_enabled {
                Ok(generate_mock_tree())
            } else {
                Err(failure_message("Failed to get tree from Irmin store: ", &e))
            }
        },
    }
}

/// Resolves a commit-history fetch, under the same fallback policy.
pub fn get_commits(config: &IrminConfig, fetched: Result<Vec<IrminCommit>, StoreError>) -> (r:
    Result<Vec<IrminCommit>, String>)
    ensures
        fetched matches Ok(cs) ==> (r matches Ok(out) && commit_views(out@) == commit_views(cs@)),
        (fetched is Err && config.fallback_enabled) ==> (r matches Ok(out) && is_mock_commits(
            commit_views(out@),
        )),
        fetched matches Err(e) ==> !config.fallback_enabled ==> (r matches Err(m) && m@
            == spec_failure_message(
            "Failed to get commits from Irmin store: "@,
            e.spec_message(),
        )),
{
    match fetched {
        Ok(cs) => Ok(cs),
        Err(e) => {
            if config.fallback_enabled {
                Ok(generate_mock_commits())
            } else {
                Err(failure_message("Failed to get commits from Irmin store: ", &e))
            }
        },
    }
}

/// Resolves a branch-list fetch, under the same fallback policy.
pub fn get_branches(config: &IrminConfig, fetched: Result<Vec<IrminBranch>, StoreError>) -> (r:
    Result<Vec<IrminBranch>, String>)
    ensures
        fetched matches Ok(bs) ==> (r matches Ok(out) && branch_views(out@) == branch_views(bs@)),
        (fetched is Err && config.fallback_enabled) ==> (r matches Ok(out) && is_mock_branches(
            branch_views(out@),
        )),
        fetched matches Err(e) ==> !config.fallback_enabled ==> (r matches Err(m) && m@
            == spec_failure_message(
            "Failed to get branches from Irmin store: "@,
            e.spec_message(),
        )),
{
    match fetched {
        Ok(bs) => Ok(bs),
        Err(e) => {
            if config.fallback_enabled {
                Ok(generate_mock_branches())
            } else {
                Err(failure_message("Failed to get branches from Irmin store: ", &e))
            }
        },
    }
}

/// Resolves a diff fetch between the two given commit identifiers, under the
/// same fallback policy; the synthetic diff is stamped with those very
/// identifiers.
pub fn get_commit_diff(
    config: &IrminConfig,
    from_commit: &str,
    to_commit: &str,
    fetched: Result<IrminDiff, StoreError>,
) -> (r: Result<IrminDiff, String>)
    ensures
        fetched matches Ok(d) ==> (r matches Ok(out) && out@ == d@),
        (fetched is Err && config.fallback_enabled) ==> (r matches Ok(out) && out@
            == spec_mock_diff(from_commit@, to_commit@)),
        fetched matches Err(e) ==> !config.fallback_enabled ==> (r matches Err(m) && m@
            == spec_failure_message(
            "Failed to get diff from Irmin store: "@,
            e.spec_message(),
        )),
{
    match fetched {
        Ok(d) => Ok(d),
        Err(e) => {
            if config.fallback_enabled {
                Ok(generate_mock_diff(from_commit, to_commit))
            } else {
                Err(failure_message("Failed to get diff from Irmin store: ", &e))
            }
        },
    }
}

/// Resolves a search: the query is ranked against the fetched tree, or — on a
/// failed fetch under fallback — against the synthetic tree; strict mode
/// surfaces the failure. Results are always sorted by relevance and follow
/// the scoring rule.
pub fn search_keys(
    config: &IrminConfig,
    query: &str,
    fetched: Result<IrminNode, StoreError>,
) -> (r: Result<Vec<SearchResult>, String>)
    ensures
        fetched matches Ok(t) ==> (r matches Ok(out) && results_view(out@) == search_spec(
            t@,
            lower_of(query@),
        )),
        (fetched is Err && config.fallback_enabled) ==> (r matches Ok(out) && exists|tm: int|
            results_view(out@) == search_spec(spec_mock_tree(tm), lower_of(query@))),
        fetched matches Err(e) ==> !config.fallback_enabled ==> (r matches Err(m) && m@
            == spec_failure_message(
            "Failed to search in Irmin store: "@,
            e.spec_message(),
        )),
        r matches Ok(out) ==> sorted_by_relevance(results_view(out@)),
        r matches Ok(out) ==> all_follow_rule(results_view(out@), lower_of(query@)),
{
    match fetched {
        Ok(t) => Ok(search_tree(&t, query)),
        Err(e) => {
            if config.fallback_enabled {
                let tree = generate_mock_tree();
                let out = search_tree(&tree, query);
                proof {
                    let tm = choose|tm: int| tree@ == spec_mock_tree(tm);
                    assert(results_view(out@) == search_spec(spec_mock_tree(tm), lower_of(query@)));
                }
                Ok(out)
            } else {
                Err(failure_message("Failed to search in Irmin store: ", &e))
            }
        },
    }
}

/// The connect report: a success message naming the store location, or a
/// failure message carrying the probe's diagnostic.
pub fn connect_to_irmin_store(store_path: &str, probe: Result<(), StoreError>) -> (r: Result<
    String,
    String,
>)
    ensures
        r is Ok <==> probe is Ok,
        probe is Ok ==> r->Ok_0@ == "Successfully connected to Irmin store at: "@ + store_path@,
        probe matches Err(e) ==> r->Err_0@ == "Failed to connect to Irmin store: "@
            + e.spec_message(),
{
    match probe {
        Ok(_) => {
            let mut m = String::from_str("Successfully connected to Irmin store at: ");
            m.append(store_path);
            Ok(m)
        },
        Err(e) => {
            let mut m = String::from_str("Failed to connect to Irmin store: ");
            m.append(e.message());
            Err(m)
        },
    }
}

/// Whether the store is reachable: every failure collapses to `false`, never
/// to an error.
pub fn check_irmin_availability(probe: Result<(), StoreError>) -> (r: bool)
    ensures
        r == (probe is Ok),
{
    match probe {
        Ok(_) => true,
        Err(_) => false,
    }
}

} // verus!
