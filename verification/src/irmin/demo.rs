//! A second synthetic dataset, shaped like the output of a live store: a
//! tree with store bookkeeping files, a three-commit history and two
//! branches. As with the mock data, only timestamps vary between calls.

use crate::irmin::clock::now_unix_seconds;
use crate::irmin::mock_data::branch_views;
use crate::irmin::mock_data::commit_views;
use crate::irmin::types::dir_node;
use crate::irmin::types::file_node;
use crate::irmin::types::spec_dir_node;
use crate::irmin::types::spec_file_node;
use crate::irmin::types::BranchView;
use crate::irmin::types::CommitView;
use crate::irmin::types::IrminBranch;
use crate::irmin::types::IrminCommit;
use crate::irmin::types::IrminNode;
use crate::irmin::types::NodeView;
use vstd::prelude::*;
use vstd::string::StringExecFns;

verus! {

/// The demo tree as generated at instant `now` (seconds since the epoch).
pub open spec fn spec_demo_tree(now: int) -> NodeView {
    spec_dir_node(
        "root"@,
        seq![
            spec_file_node(
                "users.json"@,
                "{\"admin\": {\"name\": \"Administrator\", \"role\": \"admin\"}, \"user1\": {\"name\": \"John Doe\", \"role\": \"user\"}}"@,
                now - 172800,
                98,
                "644"@,
            ),
            spec_file_node(
                "config.toml"@,
                "[database]\nhost = \"localhost\"\nport = 5432\n[cache]\nttl = 3600"@,
                now - 43200,
                56,
                "644"@,
            ),
            spec_dir_node(
                "data"@,
                seq![
                    spec_file_node(
                        "store_info.json"@,
                        "{\"format\": \"irmin-git\", \"version\": \"3.9.0\", \"created\": \"2024-01-15T10:30:00Z\"}"@,
                        now - 2592000,
                        78,
                        "644"@,
                    ),
                    spec_file_node(
                        "keys.txt"@,
                        "users/alice\nusers/bob\nconfig/settings\ndata/metrics"@,
                        now - 21600,
                        45,
                        "644"@,
                    ),
                ],
                now - 86400,
                "755"@,
            ),
        ],
        now,
        "755"@,
    )
}

/// Some instant stamps this tree as the demo one.
pub open spec fn is_demo_tree(v: NodeView) -> bool {
    exists|t: int| v == spec_demo_tree(t)
}

/// Builds the demo tree stamped with generation instant `now`.
pub fn demo_tree_at(now: i64) -> (r: IrminNode)
    requires
        i64::MIN + 2_592_000 <= now,
    ensures
        r@ == spec_demo_tree(now as int),
{
    let users = file_node(
        "users.json",
        "{\"admin\": {\"name\": \"Administrator\", \"role\": \"admin\"}, \"user1\": {\"name\": \"John Doe\", \"role\": \"user\"}}",
        now - 172800,
        98,
        "644",
    );
    let config = file_node(
        "config.toml",
        "[database]\nhost = \"localhost\"\nport = 5432\n[cache]\nttl = 3600",
        now - 43200,
        56,
        "644",
    );
    let store_info = file_node(
        "store_info.json",
        "{\"format\": \"irmin-git\", \"version\": \"3.9.0\", \"created\": \"2024-01-15T10:30:00Z\"}",
        now - 2592000,
        78,
        "644",
    );
    let keys = file_node(
        "keys.txt",
        "users/alice\nusers/bob\nconfig/settings\ndata/metrics",
        now - 21600,
        45,
        "644",
    );
    let ghost store_info_v = store_info@;
    let ghost keys_v = keys@;
    let mut data_children: Vec<IrminNode> = Vec::new();
    data_children.push(store_info);
    data_children.push(keys);
    proof {
        assert(crate::irmin::types::node_views(data_children@) =~= seq![store_info_v, keys_v]);
    }
    let data = dir_node("data", data_children, now - 86400, "755");
    let ghost users_v = users@;
    let ghost config_v = config@;
    let ghost data_v = data@;
    let mut root_children: Vec<IrminNode> = Vec::new();
    root_children.push(users);
    root_children.push(config);
    root_children.push(data);
    proof {
        assert(crate::irmin::types::node_views(root_children@) =~= seq![
            users_v,
            config_v,
            data_v,
        ]);
    }
    let root = dir_node("root", root_children, now, "755");
    proof {
        assert(root@ =~= spec_demo_tree(now as int));
    }
    root
}

/// The demo tree is well-formed: directories carry no payload, files carry no
/// children, and sibling keys are unique throughout.
pub proof fn lemma_demo_tree_wf(now: int)
    ensures
        spec_demo_tree(now).wf(),
{
    broadcast use vstd::string::group_string_axioms;

    reveal_strlit("users.json");
    reveal_strlit("config.toml");
    reveal_strlit("data");
    reveal_strlit("store_info.json");
    reveal_strlit("keys.txt");
    assert("users.json"@.len() == 10);
    assert("config.toml"@.len() == 11);
    assert("data"@.len() == 4);
    assert("store_info.json"@.len() == 15);
    assert("keys.txt"@.len() == 8);
    let v = spec_demo_tree(now);
    let data = v.children[2];
    assert(v.children[0].wf());
    assert(v.children[1].wf());
    assert(data.children[0].wf());
    assert(data.children[1].wf());
    crate::irmin::types::lemma_two_distinct_keys(data.children);
    assert(crate::irmin::types::wf_children(data.children, 2));
    assert(crate::irmin::types::wf_children(data.children, 1));
    assert(crate::irmin::types::wf_children(data.children, 0));
    assert(data.wf());
    crate::irmin::types::lemma_three_distinct_keys(v.children);
    assert(crate::irmin::types::wf_children(v.children, 3));
    assert(crate::irmin::types::wf_children(v.children, 2));
    assert(crate::irmin::types::wf_children(v.children, 1));
    assert(crate::irmin::types::wf_children(v.children, 0));
    assert(v.wf());
}

/// Generates the demo tree, stamped with the current instant.
pub fn generate_demo_irmin_tree() -> (r: IrminNode)
    ensures
        is_demo_tree(r@),
        r@.wf(),
{
    let now = now_unix_seconds();
    let r = demo_tree_at(now);
    proof {
        assert(r@ == spec_demo_tree(now as int));
        lemma_demo_tree_wf(now as int);
    }
    r
}

/// The demo history as generated at instant `now`: three commits on `main`.
pub open spec fn spec_demo_commits(now: int) -> Seq<CommitView> {
    seq![
        (CommitView {
            hash: "f47ac10b58cc4372a5670e02b2c3d479"@,
            message: "Initial Irmin store setup with user data"@,
            author: "System <system@irminview.com>"@,
            timestamp: now - 2592000,
            parents: Seq::<Seq<char>>::empty(),
            branch: "main"@,
        }),
        (CommitView {
            hash: "6ba7b810-9dad-11d1-80b4-00c04fd430c8"@,
            message: "Add configuration management"@,
            author: "Admin <admin@irminview.com>"@,
            timestamp: now - 1296000,
            parents: seq!["f47ac10b58cc4372a5670e02b2c3d479"@],
            branch: "main"@,
        }),
        (CommitView {
            hash: "550e8400-e29b-41d4-a716-446655440000"@,
            message: "Update user permissions and add new store keys"@,
            author: "Developer <dev@irminview.com>"@,
            timestamp: now - 21600,
            parents: seq!["6ba7b810-9dad-11d1-80b4-00c04fd430c8"@],
            branch: "main"@,
        }),
    ]
}

/// Some instant stamps these commits as the demo history.
pub open spec fn is_demo_commits(s: Seq<CommitView>) -> bool {
    exists|t: int| s == spec_demo_commits(t)
}

/// Builds the demo history stamped with generation instant `now`.
pub fn demo_commits_at(now: i64) -> (r: Vec<IrminCommit>)
    requires
        i64::MIN + 2_592_000 <= now,
    ensures
        commit_views(r@) == spec_demo_commits(now as int),
{
    let c1 = IrminCommit {
        hash: String::from_str("f47ac10b58cc4372a5670e02b2c3d479"),
        message: String::from_str("Initial Irmin store setup with user data"),
        author: String::from_str("System <system@irminview.com>"),
        timestamp: now - 2592000,
        parents: Vec::new(),
        branch: String::from_str("main"),
    };
    let mut parents2: Vec<String> = Vec::new();
    parents2.push(String::from_str("f47ac10b58cc4372a5670e02b2c3d479"));
    let c2 = IrminCommit {
        hash: String::from_str("6ba7b810-9dad-11d1-80b4-00c04fd430c8"),
        message: String::from_str("Add configuration management"),
        author: String::from_str("Admin <admin@irminview.com>"),
        timestamp: now - 1296000,
        parents: parents2,
        branch: String::from_str("main"),
    };
    let mut parents3: Vec<String> = Vec::new();
    parents3.push(String::from_str("6ba7b810-9dad-11d1-80b4-00c04fd430c8"));
    let c3 = IrminCommit {
        hash: String::from_str("550e8400-e29b-41d4-a716-446655440000"),
        message: String::from_str("Update user permissions and add new store keys"),
        author: String::from_str("Developer <dev@irminview.com>"),
        timestamp: now - 21600,
        parents: parents3,
        branch: String::from_str("main"),
    };
    let ghost c1v = c1@;
    let ghost c2v = c2@;
    let ghost c3v = c3@;
    let mut r: Vec<IrminCommit> = Vec::new();
    r.push(c1);
    r.push(c2);
    r.push(c3);
    proof {
        assert(c1v.parents =~= Seq::<Seq<char>>::empty());
        assert(c2v.parents =~= seq!["f47ac10b58cc4372a5670e02b2c3d479"@]);
        assert(c3v.parents =~= seq!["6ba7b810-9dad-11d1-80b4-00c04fd430c8"@]);
        assert(commit_views(r@) =~= spec_demo_commits(now as int));
    }
    r
}

/// Generates the demo history, stamped with the current instant.
pub fn generate_demo_irmin_commits() -> (r: Vec<IrminCommit>)
    ensures
        is_demo_commits(commit_views(r@)),
{
    let now = now_unix_seconds();
    let r = demo_commits_at(now);
    proof {
        assert(commit_views(r@) == spec_demo_commits(now as int));
    }
    r
}

/// The demo branches as generated at instant `now`.
pub open spec fn spec_demo_branches(now: int) -> Seq<BranchView> {
    seq![
        (BranchView {
            name: "main"@,
            head_commit: "550e8400-e29b-41d4-a716-446655440000"@,
            last_updated: now - 21600,
            commit_count: 3,
        }),
        (BranchView {
            name: "development"@,
            head_commit: "6ba7b810-9dad-11d1-80b4-00c04fd430c8"@,
            last_updated: now - 1296000,
            commit_count: 2,
        }),
    ]
}

/// Some instant stamps these branches as the demo ones.
pub open spec fn is_demo_branches(s: Seq<BranchView>) -> bool {
    exists|t: int| s == spec_demo_branches(t)
}

/// Builds the demo branches stamped with generation instant `now`.
pub fn demo_branches_at(now: i64) -> (r: Vec<IrminBranch>)
    requires
        i64::MIN + 2_592_000 <= now,
    ensures
        branch_views(r@) == spec_demo_branches(now as int),
{
    let main = IrminBranch {
        name: String::from_str("main"),
        head_commit: String::from_str("550e8400-e29b-41d4-a716-446655440000"),
        last_updated: now - 21600,
        commit_count: 3,
    };
    let development = IrminBranch {
        name: String::from_str("development"),
        head_commit: String::from_str("6ba7b810-9dad-11d1-80b4-00c04fd430c8"),
        last_updated: now - 1296000,
        commit_count: 2,
    };
    let mut r: Vec<IrminBranch> = Vec::new();
    r.push(main);
    r.push(development);
    proof {
        assert(branch_views(r@) =~= spec_demo_branches(now as int));
    }
    r
}

/// Generates the demo branches, stamped with the current instant.
pub fn generate_demo_irmin_branches() -> (r: Vec<IrminBranch>)
    ensures
        is_demo_branches(branch_views(r@)),
{
    let now = now_unix_seconds();
    let r = demo_branches_at(now);
    proof {
        assert(branch_views(r@) == spec_demo_branches(now as int));
    }
    r
}

} // verus!
