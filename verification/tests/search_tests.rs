use irmin_view::irmin::mock_data;
use irmin_view::irmin::search;
use irmin_view::irmin::types::IrminNode;
use irmin_view::irmin::types::Relevance;

fn count_nodes(n: &IrminNode) -> usize {
    1 + n.children.iter().map(count_nodes).sum::<usize>()
}

#[test]
fn search_empty_query_lists_every_node() {
    let tree = mock_data::generate_mock_tree();
    let results = search::search_tree(&tree, "");
    assert_eq!(results.len(), count_nodes(&tree));
    assert_eq!(results.len(), 8);
    assert!(results.iter().any(|r| r.path == "/"));
    assert!(results.iter().any(|r| r.path == "//config.json"));
    assert!(results.iter().any(|r| r.path == "//README.md"));
    assert!(results.iter().any(|r| r.path == "//users"));
    assert!(results.iter().any(|r| r.path == "//users/alice.json"));
    assert!(results.iter().any(|r| r.path == "//users/bob.json"));
    assert!(results.iter().any(|r| r.path == "//logs"));
    assert!(results.iter().any(|r| r.path == "//logs/app.log"));
}

#[test]
fn search_scores_are_fixed_tiers() {
    let tree = mock_data::generate_mock_tree();
    for query in ["", "json", "users", "read", "a", "zzz"] {
        for r in search::search_tree(&tree, query) {
            let score = r.relevance_score.score_percent();
            assert!(score == 100 || score == 80 || score == 50);
        }
    }
}

#[test]
fn search_exact_match_scores_highest() {
    let tree = mock_data::generate_mock_tree();
    let results = search::search_tree(&tree, "users");
    assert_eq!(results.len(), 1);
    assert_eq!(results[0].path, "//users");
    assert_eq!(results[0].relevance_score, Relevance::Exact);
    assert_eq!(results[0].relevance_score.score_percent(), 100);
}

#[test]
fn search_prefix_match_scores_below_exact() {
    let tree = mock_data::generate_mock_tree();
    let results = search::search_tree(&tree, "read");
    assert_eq!(results.len(), 1);
    assert_eq!(results[0].path, "//README.md");
    assert_eq!(results[0].relevance_score, Relevance::Prefix);
    assert_eq!(results[0].relevance_score.score_percent(), 80);
}

#[test]
fn search_results_sorted_by_relevance() {
    let tree = mock_data::generate_mock_tree();
    for query in ["", "a", "json", "log"] {
        let results = search::search_tree(&tree, query);
        let scores: Vec<u32> = results.iter().map(|r| r.relevance_score.score_percent()).collect();
        for pair in scores.windows(2) {
            assert!(pair[0] >= pair[1]);
        }
    }
}

#[test]
fn search_mixed_tiers_ordered() {
    let tree = mock_data::generate_mock_tree();
    // "a" is a prefix of alice.json and app.log, and sits inside README.md.
    let results = search::search_tree(&tree, "a");
    assert_eq!(results.len(), 3);
    assert_eq!(results[0].relevance_score, Relevance::Prefix);
    assert_eq!(results[1].relevance_score, Relevance::Prefix);
    assert_eq!(results[2].relevance_score, Relevance::Substring);
    assert_eq!(results[2].path, "//README.md");
}

#[test]
fn search_json_finds_config_as_substring() {
    let tree = mock_data::generate_mock_tree();
    let results = search::search_tree(&tree, "json");
    let config = results.iter().find(|r| r.path.ends_with("config.json")).unwrap();
    assert_eq!(config.relevance_score, Relevance::Substring);
    assert_eq!(config.relevance_score.score_percent(), 50);
}

#[test]
fn search_alice_in_users_subtree() {
    let tree = mock_data::generate_mock_tree();
    let users = tree.child("users").unwrap();
    let results = search::search_tree(users, "alice");
    assert_eq!(results.len(), 1);
    assert_eq!(results[0].path, "users/alice.json");
    // "alice" is a prefix of the key "alice.json", so the scoring rule
    // assigns the prefix tier.
    assert_eq!(results[0].relevance_score, Relevance::Prefix);
    assert_eq!(results[0].relevance_score.score_percent(), 80);
}

#[test]
fn search_is_case_insensitive() {
    let tree = mock_data::generate_mock_tree();
    let results = search::search_tree(&tree, "JSON");
    assert_eq!(results.len(), 3);
    assert!(results.iter().any(|r| r.path == "//config.json"));
    assert!(results.iter().any(|r| r.path == "//users/alice.json"));
    assert!(results.iter().any(|r| r.path == "//users/bob.json"));
}

#[test]
fn search_no_match_yields_empty() {
    let tree = mock_data::generate_mock_tree();
    let results = search::search_tree(&tree, "does-not-exist");
    assert!(results.is_empty());
}

#[test]
fn search_result_owns_matched_node() {
    let tree = mock_data::generate_mock_tree();
    let results = search::search_tree(&tree, "config");
    assert_eq!(results.len(), 1);
    let node = &results[0].node;
    assert_eq!(node.key, "config.json");
    assert!(node.value.is_some());
}

#[test]
fn tier_of_folded_follows_scoring_rule() {
    assert_eq!(search::tier_of_folded("users", "users"), Some(Relevance::Exact));
    assert_eq!(search::tier_of_folded("username", "user"), Some(Relevance::Prefix));
    assert_eq!(search::tier_of_folded("config.json", "json"), Some(Relevance::Substring));
    assert_eq!(search::tier_of_folded("logs", "json"), None);
    assert_eq!(search::tier_of_folded("anything", ""), Some(Relevance::Prefix));
    assert_eq!(search::tier_of_folded("", ""), Some(Relevance::Exact));
}
