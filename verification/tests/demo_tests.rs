use irmin_view::irmin::demo;
use irmin_view::irmin::search;
use irmin_view::irmin::types::NodeType;

#[test]
fn demo_tree_has_store_bookkeeping_layout() {
    let tree = demo::generate_demo_irmin_tree();
    assert_eq!(tree.key, "root");
    assert_eq!(tree.node_type, NodeType::Directory);
    assert!(tree.child("users.json").is_some());
    assert!(tree.child("config.toml").is_some());
    let data = tree.child("data").unwrap();
    assert_eq!(data.node_type, NodeType::Directory);
    assert!(data.child("store_info.json").is_some());
    assert!(data.child("keys.txt").is_some());
}

#[test]
fn demo_commits_form_a_linear_main_history() {
    let commits = demo::generate_demo_irmin_commits();
    assert_eq!(commits.len(), 3);
    assert!(commits.iter().all(|c| c.branch == "main"));
    // The first commit is the root; each later one names its parent.
    assert!(commits[0].parents.is_empty());
    assert_eq!(commits[1].parents, vec![commits[0].hash.clone()]);
    assert_eq!(commits[2].parents, vec![commits[1].hash.clone()]);
}

#[test]
fn demo_branches_point_at_demo_commits() {
    let branches = demo::generate_demo_irmin_branches();
    assert_eq!(branches.len(), 2);
    let main = branches.iter().find(|b| b.name == "main").unwrap();
    assert_eq!(main.commit_count, 3);
    let commits = demo::generate_demo_irmin_commits();
    assert!(commits.iter().any(|c| c.hash == main.head_commit));
}

#[test]
fn demo_tree_structure_is_deterministic() {
    let a = demo::generate_demo_irmin_tree();
    let b = demo::generate_demo_irmin_tree();
    assert_eq!(a.key, b.key);
    let a_keys: Vec<&String> = a.children.iter().map(|c| &c.key).collect();
    let b_keys: Vec<&String> = b.children.iter().map(|c| &c.key).collect();
    assert_eq!(a_keys, b_keys);
}

#[test]
fn search_with_unicode_query_finds_nothing_in_ascii_tree() {
    let tree = demo::generate_demo_irmin_tree();
    let results = search::search_tree(&tree, "schlüssel");
    assert!(results.is_empty());
}

#[test]
fn search_demo_tree_for_json_keys() {
    let tree = demo::generate_demo_irmin_tree();
    let results = search::search_tree(&tree, "json");
    assert_eq!(results.len(), 2);
    assert!(results.iter().any(|r| r.path == "root/users.json"));
    assert!(results.iter().any(|r| r.path == "root/data/store_info.json"));
}
