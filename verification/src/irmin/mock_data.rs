//! Synthetic demo data: one small tree, a linear history with one feature
//! branch, two branches, and a three-change diff. The shape of the data is
//! fixed; only the timestamps depend on the instant of generation.

use crate::irmin::clock::now_unix_seconds;
use crate::irmin::types::change_wf;
use crate::irmin::types::diff_wf;
use crate::irmin::types::dir_node;
use crate::irmin::types::file_node;
use crate::irmin::types::spec_dir_node;
use crate::irmin::types::spec_file_node;
use crate::irmin::types::BranchView;
use crate::irmin::types::ChangeType;
use crate::irmin::types::CommitView;
use crate::irmin::types::DiffChange;
use crate::irmin::types::DiffChangeView;
use crate::irmin::types::DiffView;
use crate::irmin::types::IrminBranch;
use crate::irmin::types::IrminCommit;
use crate::irmin::types::IrminDiff;
use crate::irmin::types::IrminNode;
use crate::irmin::types::NodeView;
use vstd::prelude::*;
use vstd::string::StringExecFns;

verus! {

/// The synthetic tree as generated at instant `now` (seconds since the epoch).
pub open spec fn spec_mock_tree(now: int) -> NodeView {
    spec_dir_node(
        "/"@,
        seq![
            spec_file_node(
                "config.json"@,
                "{\"database\": {\"host\": \"localhost\", \"port\": 5432}}"@,
                now - 86400,
                45,
                "644"@,
            ),
            spec_file_node(
                "README.md"@,
                "# Irmin Store\n\nThis is a sample Irmin store with demo data."@,
                now - 7200,
                58,
                "644"@,
            ),
            spec_dir_node(
                "users"@,
                seq![
                    spec_file_node(
                        "alice.json"@,
                        "{\"name\": \"Alice\", \"email\": \"alice@example.com\", \"role\": \"admin\"}"@,
                        now - 21600,
                        65,
                        "644"@,
                    ),
                    spec_file_node(
                        "bob.json"@,
                        "{\"name\": \"Bob\", \"email\": \"bob@example.com\", \"role\": \"user\"}"@,
                        now - 14400,
                        62,
                        "644"@,
                    ),
                ],
                now - 14400,
                "755"@,
            ),
            spec_dir_node(
                "logs"@,
                seq![
                    spec_file_node(
                        "app.log"@,
                        "2023-01-01 10:00:00 INFO Application started\n2023-01-01 10:05:00 INFO User logged in"@,
                        now - 1800,
                        85,
                        "644"@,
                    ),
                ],
                now - 1800,
                "755"@,
            ),
        ],
        now,
        "755"@,
    )
}

/// Some instant stamps this tree as the synthetic one.
pub open spec fn is_mock_tree(v: NodeView) -> bool {
    exists|t: int| v == spec_mock_tree(t)
}

/// Builds the synthetic tree stamped with generation instant `now`.
pub fn mock_tree_at(now: i64) -> (r: IrminNode)
    requires
        i64::MIN + 86_400 <= now,
    ensures
        r@ == spec_mock_tree(now as int),
{
    let config = file_node(
        "config.json",
        "{\"database\": {\"host\": \"localhost\", \"port\": 5432}}",
        now - 86400,
        45,
        "644",
    );
    let readme = file_node(
        "README.md",
        "# Irmin Store\n\nThis is a sample Irmin store with demo data.",
        now - 7200,
        58,
        "644",
    );
    let alice = file_node(
        "alice.json",
        "{\"name\": \"Alice\", \"email\": \"alice@example.com\", \"role\": \"admin\"}",
        now - 21600,
        65,
        "644",
    );
    let bob = file_node(
        "bob.json",
        "{\"name\": \"Bob\", \"email\": \"bob@example.com\", \"role\": \"user\"}",
        now - 14400,
        62,
        "644",
    );
    let ghost alice_v = alice@;
    let ghost bob_v = bob@;
    let mut users_children: Vec<IrminNode> = Vec::new();
    users_children.push(alice);
    users_children.push(bob);
    proof {
        assert(crate::irmin::types::node_views(users_children@) =~= seq![alice_v, bob_v]);
    }
    let users = dir_node("users", users_children, now - 14400, "755");
    let app_log = file_node(
        "app.log",
        "2023-01-01 10:00:00 INFO Application started\n2023-01-01 10:05:00 INFO User logged in",
        now - 1800,
        85,
        "644",
    );
    let ghost app_log_v = app_log@;
    let mut logs_children: Vec<IrminNode> = Vec::new();
    logs_children.push(app_log);
    proof {
        assert(crate::irmin::types::node_views(logs_children@) =~= seq![app_log_v]);
    }
    let logs = dir_node("logs", logs_children, now - 1800, "755");
    let ghost config_v = config@;
    let ghost readme_v = readme@;
    let ghost users_v = users@;
    let ghost logs_v = logs@;
    let mut root_children: Vec<IrminNode> = Vec::new();
    root_children.push(config);
    root_children.push(readme);
    root_children.push(users);
    root_children.push(logs);
    proof {
        assert(crate::irmin::types::node_views(root_children@) =~= seq![
            config_v,
            readme_v,
            users_v,
            logs_v,
        ]);
    }
    let root = dir_node("/", root_children, now, "755");
    proof {
        assert(root@ =~= spec_mock_tree(now as int));
    }
    root
}

/// Generates the synthetic tree, stamped with the current instant.
pub fn generate_mock_tree() -> (r: IrminNode)
    ensures
        is_mock_tree(r@),
        r@.wf(),
{
    let now = now_unix_seconds();
    let r = mock_tree_at(now);
    proof {
        assert(r@ == spec_mock_tree(now as int));
        lemma_mock_tree_wf(now as int);
    }
    r
}

/// The synthetic tree is well-formed: directories carry no payload, files
/// carry no children, and sibling keys are unique throughout.
pub proof fn lemma_mock_tree_wf(now: int)
    ensures
        spec_mock_tree(now).wf(),
{
    broadcast use vstd::string::group_string_axioms;

    reveal_strlit("config.json");
    reveal_strlit("README.md");
    reveal_strlit("users");
    reveal_strlit("logs");
    reveal_strlit("alice.json");
    reveal_strlit("bob.json");
    assert("config.json"@.len() == 11);
    assert("README.md"@.len() == 9);
    assert("users"@.len() == 5);
    assert("logs"@.len() == 4);
    assert("alice.json"@.len() == 10);
    assert("bob.json"@.len() == 8);
    let v = spec_mock_tree(now);
    let users = v.children[2];
    let logs = v.children[3];
    assert(v.children[0].wf());
    assert(v.children[1].wf());
    assert(users.children[0].wf());
    assert(users.children[1].wf());
    assert(logs.children[0].wf());
    crate::irmin::types::lemma_two_distinct_keys(users.children);
    assert(crate::irmin::types::wf_children(users.children, 2));
    assert(crate::irmin::types::wf_children(users.children, 1));
    assert(crate::irmin::types::wf_children(users.children, 0));
    assert(users.wf());
    assert(crate::irmin::types::wf_children(logs.children, 1));
    assert(crate::irmin::types::wf_children(logs.children, 0));
    assert(logs.wf());
    crate::irmin::types::lemma_four_distinct_keys(v.children);
    assert(crate::irmin::types::wf_children(v.children, 4));
    assert(crate::irmin::types::wf_children(v.children, 3));
    assert(crate::irmin::types::wf_children(v.children, 2));
    assert(crate::irmin::types::wf_children(v.children, 1));
    assert(crate::irmin::types::wf_children(v.children, 0));
    assert(v.wf());
}

/// Mock tree generation is deterministic in structure: any two generation
/// instants yield trees with the same keys and node kinds; only timestamps
/// and the other metadata may differ.
pub proof fn lemma_mock_tree_structure_deterministic(t1: int, t2: int)
    ensures
        crate::irmin::types::shape_of(spec_mock_tree(t1)) == crate::irmin::types::shape_of(
            spec_mock_tree(t2),
        ),
{
    let a = spec_mock_tree(t1);
    let b = spec_mock_tree(t2);
    assert forall|i: int| 0 <= i < a.children.len() implies crate::irmin::types::shape_of(
        #[trigger] a.children[i],
    ) == crate::irmin::types::shape_of(b.children[i]) by {
        if i == 2 || i == 3 {
            let ac = a.children[i];
            let bc = b.children[i];
            assert forall|j: int| 0 <= j < ac.children.len() implies crate::irmin::types::shape_of(
                #[trigger] ac.children[j],
            ) == crate::irmin::types::shape_of(bc.children[j]) by {
                crate::irmin::types::lemma_shape_congruent(ac.children[j], bc.children[j]);
            }
            crate::irmin::types::lemma_shape_congruent(ac, bc);
        } else {
            crate::irmin::types::lemma_shape_congruent(a.children[i], b.children[i]);
        }
    }
    crate::irmin::types::lemma_shape_congruent(a, b);
}

/// The synthetic history as generated at instant `now`: three commits on
/// `main` and one on a feature branch.
pub open spec fn spec_mock_commits(now: int) -> Seq<CommitView> {
    seq![
        (CommitView {
            hash: "a1b2c3d4e5f6"@,
            message: "Add user management system"@,
            author: "Alice <alice@example.com>"@,
            timestamp: now - 7200,
            parents: seq!["f6e5d4c3b2a1"@],
            branch: "main"@,
        }),
        (CommitView {
            hash: "f6e5d4c3b2a1"@,
            message: "Update configuration schema"@,
            author: "Bob <bob@example.com>"@,
            timestamp: now - 21600,
            parents: seq!["b2a1f6e5d4c3"@],
            branch: "main"@,
        }),
        (CommitView {
            hash: "b2a1f6e5d4c3"@,
            message: "Initial commit with basic structure"@,
            author: "Admin <admin@example.com>"@,
            timestamp: now - 86400,
            parents: Seq::<Seq<char>>::empty(),
            branch: "main"@,
        }),
        (CommitView {
            hash: "d4c3b2a1f6e5"@,
            message: "Add logging functionality"@,
            author: "Charlie <charlie@example.com>"@,
            timestamp: now - 3600,
            parents: seq!["a1b2c3d4e5f6"@],
            branch: "feature/logging"@,
        }),
    ]
}

/// Some instant stamps these commits as the synthetic history.
pub open spec fn is_mock_commits(s: Seq<CommitView>) -> bool {
    exists|t: int| s == spec_mock_commits(t)
}

/// The views of a sequence of commits.
pub open spec fn commit_views(s: Seq<IrminCommit>) -> Seq<CommitView> {
    s.map_values(|c: IrminCommit| c@)
}

fn mock_commit(
    hash: &str,
    message: &str,
    author: &str,
    ts: i64,
    parents: Vec<String>,
    branch: &str,
) -> (r: IrminCommit)
    ensures
        r@ == (CommitView {
            hash: hash@,
            message: message@,
            author: author@,
            timestamp: ts as int,
            parents: parents@.map_values(|p: String| p@),
            branch: branch@,
        }),
{
    IrminCommit {
        hash: String::from_str(hash),
        message: String::from_str(message),
        author: String::from_str(author),
        timestamp: ts,
        parents,
        branch: String::from_str(branch),
    }
}

/// Builds the synthetic history stamped with generation instant `now`.
pub fn mock_commits_at(now: i64) -> (r: Vec<IrminCommit>)
    requires
        i64::MIN + 86_400 <= now,
    ensures
        commit_views(r@) == spec_mock_commits(now as int),
{
    let mut parents1: Vec<String> = Vec::new();
    parents1.push(String::from_str("f6e5d4c3b2a1"));
    let c1 = mock_commit(
        "a1b2c3d4e5f6",
        "Add user management system",
        "Alice <alice@example.com>",
        now - 7200,
        parents1,
        "main",
    );
    let mut parents2: Vec<String> = Vec::new();
    parents2.push(String::from_str("b2a1f6e5d4c3"));
    let c2 = mock_commit(
        "f6e5d4c3b2a1",
        "Update configuration schema",
        "Bob <bob@example.com>",
        now - 21600,
        parents2,
        "main",
    );
    let c3 = mock_commit(
        "b2a1f6e5d4c3",
        "Initial commit with basic structure",
        "Admin <admin@example.com>",
        now - 86400,
        Vec::new(),
        "main",
    );
    let mut parents4: Vec<String> = Vec::new();
    parents4.push(String::from_str("a1b2c3d4e5f6"));
    let c4 = mock_commit(
        "d4c3b2a1f6e5",
        "Add logging functionality",
        "Charlie <charlie@example.com>",
        now - 3600,
        parents4,
        "feature/logging",
    );
    let ghost c1v = c1@;
    let ghost c2v = c2@;
    let ghost c3v = c3@;
    let ghost c4v = c4@;
    let mut r: Vec<IrminCommit> = Vec::new();
    r.push(c1);
    r.push(c2);
    r.push(c3);
    r.push(c4);
    proof {
        assert(c1v.parents =~= seq!["f6e5d4c3b2a1"@]);
        assert(c2v.parents =~= seq!["b2a1f6e5d4c3"@]);
        assert(c3v.parents =~= Seq::<Seq<char>>::empty());
        assert(c4v.parents =~= seq!["a1b2c3d4e5f6"@]);
        assert(commit_views(r@) =~= spec_mock_commits(now as int));
    }
    r
}

/// Generates the synthetic history, stamped with the current instant.
pub fn generate_mock_commits() -> (r: Vec<IrminCommit>)
    ensures
        is_mock_commits(commit_views(r@)),
{
    let now = now_unix_seconds();
    let r = mock_commits_at(now);
    proof {
        assert(commit_views(r@) == spec_mock_commits(now as int));
    }
    r
}

/// The synthetic branches as generated at instant `now`: `main` ahead with
/// three commits, and a feature branch with one.
pub open spec fn spec_mock_branches(now: int) -> Seq<BranchView> {
    seq![
        (BranchView {
            name: "main"@,
            head_commit: "a1b2c3d4e5f6"@,
            last_updated: now - 7200,
            commit_count: 3,
        }),
        (BranchView {
            name: "feature/logging"@,
            head_commit: "d4c3b2a1f6e5"@,
            last_updated: now - 3600,
            commit_count: 1,
        }),
    ]
}

/// Some instant stamps these branches as the synthetic ones.
pub open spec fn is_mock_branches(s: Seq<BranchView>) -> bool {
    exists|t: int| s == spec_mock_branches(t)
}

/// The views of a sequence of branches.
pub open spec fn branch_views(s: Seq<IrminBranch>) -> Seq<BranchView> {
    s.map_values(|b: IrminBranch| b@)
}

/// Builds the synthetic branches stamped with generation instant `now`.
pub fn mock_branches_at(now: i64) -> (r: Vec<IrminBranch>)
    requires
        i64::MIN + 86_400 <= now,
    ensures
        branch_views(r@) == spec_mock_branches(now as int),
{
    let main = IrminBranch {
        name: String::from_str("main"),
        head_commit: String::from_str("a1b2c3d4e5f6"),
        last_updated: now - 7200,
        commit_count: 3,
    };
    let feature = IrminBranch {
        name: String::from_str("feature/logging"),
        head_commit: String::from_str("d4c3b2a1f6e5"),
        last_updated: now - 3600,
        commit_count: 1,
    };
    let mut r: Vec<IrminBranch> = Vec::new();
    r.push(main);
    r.push(feature);
    proof {
        assert(branch_views(r@) =~= spec_mock_branches(now as int));
    }
    r
}

/// Generates the synthetic branches, stamped with the current instant.
pub fn generate_mock_branches() -> (r: Vec<IrminBranch>)
    ensures
        is_mock_branches(branch_views(r@)),
{
    let now = now_unix_seconds();
    let r = mock_branches_at(now);
    proof {
        assert(branch_views(r@) == spec_mock_branches(now as int));
    }
    r
}

/// The synthetic diff stamped with the given commit identifiers: one added
/// file, one modified file with both values, one deleted file.
pub open spec fn spec_mock_diff(from: Seq<char>, to: Seq<char>) -> DiffView {
    DiffView {
        from_commit: from,
        to_commit: to,
        changes: seq![
            (DiffChangeView {
                path: "/users/alice.json"@,
                change_type: ChangeType::Added,
                old_value: None,
                new_value: Some(
                    "{\"name\": \"Alice\", \"email\": \"alice@example.com\", \"role\": \"admin\"}"@,
                ),
            }),
            (DiffChangeView {
                path: "/config.json"@,
                change_type: ChangeType::Modified,
                old_value: Some("{\"database\": {\"host\": \"localhost\", \"port\": 5432}}"@),
                new_value: Some(
                    "{\"database\": {\"host\": \"localhost\", \"port\": 5432}, \"version\": \"1.0\"}"@,
                ),
            }),
            (DiffChangeView {
                path: "/old_file.txt"@,
                change_type: ChangeType::Deleted,
                old_value: Some("This file was removed"@),
                new_value: None,
            }),
        ],
    }
}

/// Every change of the synthetic diff carries values as its kind demands.
pub proof fn lemma_mock_diff_respects_change_rules(from: Seq<char>, to: Seq<char>)
    ensures
        diff_wf(spec_mock_diff(from, to)),
{
    let d = spec_mock_diff(from, to);
    assert forall|i: int| 0 <= i < d.changes.len() implies change_wf(#[trigger] d.changes[i]) by {
        if i == 0 {
            assert(change_wf(d.changes[0]));
        } else if i == 1 {
            assert(change_wf(d.changes[1]));
        } else {
            assert(change_wf(d.changes[2]));
        }
    }
}

/// Generates the synthetic diff between the two given commit identifiers,
/// which are passed through verbatim: exactly three changes, one added, one
/// modified, one deleted.
pub fn generate_mock_diff(from: &str, to: &str) -> (r: IrminDiff)
    ensures
        r@ == spec_mock_diff(from@, to@),
        r@.from_commit == from@,
        r@.to_commit == to@,
        r@.changes.len() == 3,
        r@.changes[0].change_type == ChangeType::Added,
        r@.changes[1].change_type == ChangeType::Modified,
        r@.changes[2].change_type == ChangeType::Deleted,
        diff_wf(r@),
{
    let added = DiffChange {
        path: String::from_str("/users/alice.json"),
        change_type: ChangeType::Added,
        old_value: None,
        new_value: Some(
            String::from_str(
                "{\"name\": \"Alice\", \"email\": \"alice@example.com\", \"role\": \"admin\"}",
            ),
        ),
    };
    let modified = DiffChange {
        path: String::from_str("/config.json"),
        change_type: ChangeType::Modified,
        old_value: Some(
            String::from_str("{\"database\": {\"host\": \"localhost\", \"port\": 5432}}"),
        ),
        new_value: Some(
            String::from_str(
                "{\"database\": {\"host\": \"localhost\", \"port\": 5432}, \"version\": \"1.0\"}",
            ),
        ),
    };
    let deleted = DiffChange {
        path: String::from_str("/old_file.txt"),
        change_type: ChangeType::Deleted,
        old_value: Some(String::from_str("This file was removed")),
        new_value: None,
    };
    let mut changes: Vec<DiffChange> = Vec::new();
    changes.push(added);
    changes.push(modified);
    changes.push(deleted);
    let r = IrminDiff {
        from_commit: String::from_str(from),
        to_commit: String::from_str(to),
        changes,
    };
    proof {
        assert(r@.changes =~= spec_mock_diff(from@, to@).changes);
        assert(r@ =~= spec_mock_diff(from@, to@));
        lemma_mock_diff_respects_change_rules(from@, to@);
    }
    r
}

} // verus!
