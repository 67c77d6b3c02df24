//! The shared data model: tree nodes, commits, branches, diffs and search
//! results, together with the mathematical views that contracts speak of.
//!
//! Every instant is held as whole seconds since the Unix epoch, so that
//! contracts can reason about it as a plain integer.

use vstd::prelude::*;
use vstd::string::StringExecFns;

verus! {

/// Kind of a tree entry.
#[derive(Clone, Copy, Debug, PartialEq, Eq, Structural)]
pub enum NodeType {
    Directory,
    File,
    Link,
}

/// Metadata attached to a tree entry.
#[derive(Debug)]
pub struct NodeMetadata {
    /// Seconds since the Unix epoch.
    pub last_modified: i64,
    /// Byte size; present only for file-like entries.
    pub size: Option<u64>,
    /// Permission string such as `"644"`.
    pub permissions: Option<String>,
}

/// Mathematical image of a `NodeMetadata`.
#[verifier::ext_equal]
pub struct NodeMetadataView {
    pub last_modified: int,
    pub size: Option<u64>,
    pub permissions: Option<Seq<char>>,
}

impl View for NodeMetadata {
    type V = NodeMetadataView;

    open spec fn view(&self) -> NodeMetadataView {
        NodeMetadataView {
            last_modified: self.last_modified as int,
            size: self.size,
            permissions: match self.permissions {
                Some(p) => Some(p@),
                None => None,
            },
        }
    }
}

/// A tree entry. `key` is the entry's own segment name, not a full path.
/// Children are held in a vector; their order is the insertion order, and a
/// well-formed node never carries two children with the same key.
#[derive(Debug)]
pub struct IrminNode {
    pub key: String,
    /// Payload; present only for file-like entries.
    pub value: Option<String>,
    pub node_type: NodeType,
    pub children: Vec<IrminNode>,
    pub metadata: NodeMetadata,
}

/// Mathematical image of an `IrminNode`.
#[verifier::ext_equal]
pub struct NodeView {
    pub key: Seq<char>,
    pub value: Option<Seq<char>>,
    pub node_type: NodeType,
    pub children: Seq<NodeView>,
    pub metadata: NodeMetadataView,
}

pub open spec fn node_view(n: IrminNode) -> NodeView
    decreases n, 0int,
    via node_view_decreases
{
    NodeView {
        key: n.key@,
        value: match n.value {
            Some(v) => Some(v@),
            None => None,
        },
        node_type: n.node_type,
        children: child_views(n.children@, 0),
        metadata: n.metadata@,
    }
}

#[via_fn]
proof fn node_view_decreases(n: IrminNode) {
    assert(decreases_to!(n => n.children));
    assert(decreases_to!(n.children => n.children@));
}

pub open spec fn child_views(cs: Seq<IrminNode>, i: int) -> Seq<NodeView>
    decreases cs, cs.len() - i,
{
    if i < 0 || i >= cs.len() {
        Seq::empty()
    } else {
        seq![node_view(cs[i])] + child_views(cs, i + 1)
    }
}

proof fn lemma_child_views(cs: Seq<IrminNode>, i: int)
    requires
        0 <= i <= cs.len(),
    ensures
        child_views(cs, i).len() == cs.len() - i,
        forall|j: int|
            0 <= j < cs.len() - i ==> #[trigger] child_views(cs, i)[j] == node_view(cs[i + j]),
    decreases cs.len() - i,
{
    if i < cs.len() {
        lemma_child_views(cs, i + 1);
    }
}

/// A node's view has one child view per child, in order.
pub broadcast proof fn lemma_node_view_children(n: IrminNode)
    ensures
        (#[trigger] node_view(n)).children.len() == n.children@.len(),
        forall|i: int|
            0 <= i < n.children@.len() ==> node_view(n).children[i] == node_view(
                n.children@[i],
            ),
{
    lemma_child_views(n.children@, 0);
}

impl View for IrminNode {
    type V = NodeView;

    open spec fn view(&self) -> NodeView {
        node_view(*self)
    }
}

impl NodeView {
    /// Some child carries this key.
    pub open spec fn has_child_key(self, key: Seq<char>) -> bool {
        exists|i: int| 0 <= i < self.children.len() && (#[trigger] self.children[i]).key == key
    }

    /// No two children of one node share a key.
    pub open spec fn children_keys_unique(self) -> bool {
        forall|i: int, j: int|
            0 <= i < self.children.len() && 0 <= j < self.children.len() && i != j
                ==> #[trigger] self.children[i].key != #[trigger] self.children[j].key
    }

    /// Well-formedness of a node: a directory carries no payload, a file has
    /// no children, and sibling keys are unique, recursively.
    pub open spec fn wf(self) -> bool
        decreases self, 0int,
    {
        &&& (self.node_type is Directory ==> self.value is None)
        &&& (self.node_type is File ==> self.children.len() == 0)
        &&& self.children_keys_unique()
        &&& wf_children(self.children, 0)
    }
}

pub open spec fn wf_children(cs: Seq<NodeView>, i: int) -> bool
    decreases cs, cs.len() - i,
{
    if i < 0 || i >= cs.len() {
        true
    } else {
        cs[i].wf() && wf_children(cs, i + 1)
    }
}

/// Two children with distinct keys have pairwise distinct keys.
pub proof fn lemma_two_distinct_keys(cs: Seq<NodeView>)
    requires
        cs.len() == 2,
        cs[0].key != cs[1].key,
    ensures
        forall|i: int, j: int|
            0 <= i < cs.len() && 0 <= j < cs.len() && i != j ==> #[trigger] cs[i].key != #[trigger] cs[j].key,
{
    assert forall|i: int, j: int|
        0 <= i < cs.len() && 0 <= j < cs.len() && i != j implies cs[i].key != cs[j].key by {
        if i == 0 {
            assert(cs[i] == cs[0]);
        } else {
            assert(cs[i] == cs[1]);
        }
        if j == 0 {
            assert(cs[j] == cs[0]);
        } else {
            assert(cs[j] == cs[1]);
        }
    }
}

/// Three children with pairwise distinct keys, spelled out.
pub proof fn lemma_three_distinct_keys(cs: Seq<NodeView>)
    requires
        cs.len() == 3,
        cs[0].key != cs[1].key,
        cs[0].key != cs[2].key,
        cs[1].key != cs[2].key,
    ensures
        forall|i: int, j: int|
            0 <= i < cs.len() && 0 <= j < cs.len() && i != j ==> #[trigger] cs[i].key != #[trigger] cs[j].key,
{
    assert forall|i: int, j: int|
        0 <= i < cs.len() && 0 <= j < cs.len() && i != j implies cs[i].key != cs[j].key by {
        if i == 0 {
            assert(cs[i] == cs[0]);
        } else if i == 1 {
            assert(cs[i] == cs[1]);
        } else {
            assert(cs[i] == cs[2]);
        }
        if j == 0 {
            assert(cs[j] == cs[0]);
        } else if j == 1 {
            assert(cs[j] == cs[1]);
        } else {
            assert(cs[j] == cs[2]);
        }
    }
}

/// Four children with pairwise distinct keys, spelled out.
pub proof fn lemma_four_distinct_keys(cs: Seq<NodeView>)
    requires
        cs.len() == 4,
        cs[0].key != cs[1].key,
        cs[0].key != cs[2].key,
        cs[0].key != cs[3].key,
        cs[1].key != cs[2].key,
        cs[1].key != cs[3].key,
        cs[2].key != cs[3].key,
    ensures
        forall|i: int, j: int|
            0 <= i < cs.len() && 0 <= j < cs.len() && i != j ==> #[trigger] cs[i].key != #[trigger] cs[j].key,
{
    assert forall|i: int, j: int|
        0 <= i < cs.len() && 0 <= j < cs.len() && i != j implies cs[i].key != cs[j].key by {
        if i == 0 {
            assert(cs[i] == cs[0]);
        } else if i == 1 {
            assert(cs[i] == cs[1]);
        } else if i == 2 {
            assert(cs[i] == cs[2]);
        } else {
            assert(cs[i] == cs[3]);
        }
        if j == 0 {
            assert(cs[j] == cs[0]);
        } else if j == 1 {
            assert(cs[j] == cs[1]);
        } else if j == 2 {
            assert(cs[j] == cs[2]);
        } else {
            assert(cs[j] == cs[3]);
        }
    }
}

/// Deep copy of a node; the copy has the same view as the original.
pub fn clone_node(n: &IrminNode) -> (r: IrminNode)
    ensures
        r@ == n@,
    decreases *n,
{
    let key = n.key.clone();
    let value = match &n.value {
        Some(v) => Some(v.clone()),
        None => None,
    };
    let metadata = NodeMetadata {
        last_modified: n.metadata.last_modified,
        size: n.metadata.size,
        permissions: match &n.metadata.permissions {
            Some(p) => Some(p.clone()),
            None => None,
        },
    };
    let mut children: Vec<IrminNode> = Vec::new();
    let mut i: usize = 0;
    while i < n.children.len()
        invariant
            i <= n.children.len(),
            children@.len() == i as int,
            forall|k: int| 0 <= k < i as int ==> #[trigger] children@[k]@ == n.children@[k]@,
        decreases n.children.len() - i,
    {
        proof {
            assert(decreases_to!(*n => n.children));
            assert(decreases_to!(n.children => n.children@));
            assert(decreases_to!(n.children@ => n.children@[i as int]));
        }
        let c = clone_node(&n.children[i]);
        children.push(c);
        i += 1;
    }
    let r = IrminNode { key, value, node_type: n.node_type, children, metadata };
    proof {
        lemma_node_view_children(r);
        lemma_node_view_children(*n);
        assert(r.children@ == children@);
        assert forall|k: int| 0 <= k < n.children@.len() implies r@.children[k]
            == n@.children[k] by {
            assert(children@[k]@ == n.children@[k]@);
        }
        assert(r@.children =~= n@.children);
        assert(r@ =~= n@);
    }
    r
}

impl IrminNode {
    /// The first child carrying the given key, if any.
    pub fn child(&self, key: &str) -> (r: Option<&IrminNode>)
        ensures
            r is Some <==> self@.has_child_key(key@),
            r matches Some(c) ==> c@.key == key@ && self@.children.contains(c@),
    {
        proof {
            lemma_node_view_children(*self);
        }
        let mut i: usize = 0;
        while i < self.children.len()
            invariant
                i <= self.children.len(),
                self@.children.len() == self.children@.len(),
                forall|k: int|
                    0 <= k < i as int ==> (#[trigger] self@.children[k]).key != key@,
            decreases self.children.len() - i,
        {
            proof {
                lemma_node_view_children(*self);
            }
            if crate::irmin::text::str_eq_content(self.children[i].key.as_str(), key) {
                proof {
                    assert(self@.children[i as int].key == key@);
                }
                return Some(&self.children[i]);
            }
            i += 1;
        }
        None
    }
}

impl Clone for IrminNode {
    /// Cloning preserves the view.
    fn clone(&self) -> (r: Self)
        ensures
            r@ == self@,
    {
        clone_node(self)
    }
}

/// The views of a sequence of nodes.
pub open spec fn node_views(s: Seq<IrminNode>) -> Seq<NodeView> {
    s.map_values(|n: IrminNode| n@)
}

/// The key-and-kind skeleton of a tree: what stays fixed when only payloads,
/// sizes or timestamps change.
#[verifier::ext_equal]
pub struct NodeShape {
    pub key: Seq<char>,
    pub node_type: NodeType,
    pub children: Seq<NodeShape>,
}

/// The skeleton of a tree.
pub open spec fn shape_of(v: NodeView) -> NodeShape
    decreases v, 0int,
{
    NodeShape { key: v.key, node_type: v.node_type, children: shapes_of(v.children, 0) }
}

/// The skeletons of the subtrees `cs[i..]`.
pub open spec fn shapes_of(cs: Seq<NodeView>, i: int) -> Seq<NodeShape>
    decreases cs, cs.len() - i,
{
    if i < 0 || i >= cs.len() {
        Seq::<NodeShape>::empty()
    } else {
        seq![shape_of(cs[i])] + shapes_of(cs, i + 1)
    }
}

proof fn lemma_shapes_of_index(cs: Seq<NodeView>, i: int)
    requires
        0 <= i <= cs.len(),
    ensures
        shapes_of(cs, i).len() == cs.len() - i,
        forall|j: int|
            0 <= j < cs.len() - i ==> #[trigger] shapes_of(cs, i)[j] == shape_of(cs[i + j]),
    decreases cs.len() - i,
{
    if i < cs.len() {
        lemma_shapes_of_index(cs, i + 1);
    }
}

/// Nodes with equal keys and kinds whose children have pointwise equal
/// skeletons have equal skeletons.
pub proof fn lemma_shape_congruent(a: NodeView, b: NodeView)
    requires
        a.key == b.key,
        a.node_type == b.node_type,
        a.children.len() == b.children.len(),
        forall|i: int|
            0 <= i < a.children.len() ==> shape_of(#[trigger] a.children[i]) == shape_of(
                b.children[i],
            ),
    ensures
        shape_of(a) == shape_of(b),
{
    lemma_shapes_of_index(a.children, 0);
    lemma_shapes_of_index(b.children, 0);
    assert(shapes_of(a.children, 0) =~= shapes_of(b.children, 0));
    assert(shape_of(a) =~= shape_of(b));
}

/// View of a file-kind node with the given key, payload, timestamp, byte size
/// and permission string.
pub open spec fn spec_file_node(
    key: Seq<char>,
    value: Seq<char>,
    ts: int,
    size: u64,
    perms: Seq<char>,
) -> NodeView {
    NodeView {
        key,
        value: Some(value),
        node_type: NodeType::File,
        children: Seq::<NodeView>::empty(),
        metadata: NodeMetadataView { last_modified: ts, size: Some(size), permissions: Some(perms) },
    }
}

/// View of a directory-kind node over the given children.
pub open spec fn spec_dir_node(
    key: Seq<char>,
    children: Seq<NodeView>,
    ts: int,
    perms: Seq<char>,
) -> NodeView {
    NodeView {
        key,
        value: None,
        node_type: NodeType::Directory,
        children,
        metadata: NodeMetadataView { last_modified: ts, size: None, permissions: Some(perms) },
    }
}

/// Builds a file-kind node: a payload, no children.
pub fn file_node(key: &str, value: &str, ts: i64, size: u64, perms: &str) -> (r: IrminNode)
    ensures
        r@ == spec_file_node(key@, value@, ts as int, size, perms@),
{
    let r = IrminNode {
        key: String::from_str(key),
        value: Some(String::from_str(value)),
        node_type: NodeType::File,
        children: Vec::new(),
        metadata: NodeMetadata {
            last_modified: ts,
            size: Some(size),
            permissions: Some(String::from_str(perms)),
        },
    };
    proof {
        assert(r@ =~= spec_file_node(key@, value@, ts as int, size, perms@));
    }
    r
}

/// Builds a directory-kind node over the given children: no payload, no size.
pub fn dir_node(key: &str, children: Vec<IrminNode>, ts: i64, perms: &str) -> (r: IrminNode)
    ensures
        r@ == spec_dir_node(key@, node_views(children@), ts as int, perms@),
{
    let r = IrminNode {
        key: String::from_str(key),
        value: None,
        node_type: NodeType::Directory,
        children,
        metadata: NodeMetadata {
            last_modified: ts,
            size: None,
            permissions: Some(String::from_str(perms)),
        },
    };
    proof {
        lemma_node_view_children(r);
        assert(r@.children =~= node_views(r.children@));
        assert(r@ =~= spec_dir_node(key@, node_views(r.children@), ts as int, perms@));
    }
    r
}

/// An immutable historical record of the store.
#[derive(Debug)]
pub struct IrminCommit {
    /// Opaque identifier; uniqueness is not enforced by this layer.
    pub hash: String,
    pub message: String,
    pub author: String,
    /// Seconds since the Unix epoch.
    pub timestamp: i64,
    /// Ancestor hashes, in order; empty for a root commit.
    pub parents: Vec<String>,
    /// Label of the branch the commit was authored on.
    pub branch: String,
}

/// Mathematical image of an `IrminCommit`.
#[verifier::ext_equal]
pub struct CommitView {
    pub hash: Seq<char>,
    pub message: Seq<char>,
    pub author: Seq<char>,
    pub timestamp: int,
    pub parents: Seq<Seq<char>>,
    pub branch: Seq<char>,
}

impl View for IrminCommit {
    type V = CommitView;

    open spec fn view(&self) -> CommitView {
        CommitView {
            hash: self.hash@,
            message: self.message@,
            author: self.author@,
            timestamp: self.timestamp as int,
            parents: self.parents@.map_values(|p: String| p@),
            branch: self.branch@,
        }
    }
}

/// A named pointer into the history.
#[derive(Debug)]
pub struct IrminBranch {
    pub name: String,
    /// Hash the branch points at; referential integrity is not enforced here.
    pub head_commit: String,
    /// Seconds since the Unix epoch.
    pub last_updated: i64,
    /// Cached count, not recomputed from history by this layer.
    pub commit_count: usize,
}

/// Mathematical image of an `IrminBranch`.
#[verifier::ext_equal]
pub struct BranchView {
    pub name: Seq<char>,
    pub head_commit: Seq<char>,
    pub last_updated: int,
    pub commit_count: int,
}

impl View for IrminBranch {
    type V = BranchView;

    open spec fn view(&self) -> BranchView {
        BranchView {
            name: self.name@,
            head_commit: self.head_commit@,
            last_updated: self.last_updated as int,
            commit_count: self.commit_count as int,
        }
    }
}

/// Kind of a change inside a diff.
#[derive(Clone, Copy, Debug, PartialEq, Eq, Structural)]
pub enum ChangeType {
    Added,
    Modified,
    Deleted,
}

/// One change of a diff. `path` is a full slash-joined path, not a key.
#[derive(Debug)]
pub struct DiffChange {
    pub path: String,
    pub change_type: ChangeType,
    pub old_value: Option<String>,
    pub new_value: Option<String>,
}

/// Mathematical image of a `DiffChange`.
#[verifier::ext_equal]
pub struct DiffChangeView {
    pub path: Seq<char>,
    pub change_type: ChangeType,
    pub old_value: Option<Seq<char>>,
    pub new_value: Option<Seq<char>>,
}

impl View for DiffChange {
    type V = DiffChangeView;

    open spec fn view(&self) -> DiffChangeView {
        DiffChangeView {
            path: self.path@,
            change_type: self.change_type,
            old_value: match self.old_value {
                Some(v) => Some(v@),
                None => None,
            },
            new_value: match self.new_value {
                Some(v) => Some(v@),
                None => None,
            },
        }
    }
}

/// An added change carries only a new value, a deleted change only an old
/// value, and a modified change both.
pub open spec fn change_wf(c: DiffChangeView) -> bool {
    match c.change_type {
        ChangeType::Added => c.old_value is None && c.new_value is Some,
        ChangeType::Modified => c.old_value is Some && c.new_value is Some,
        ChangeType::Deleted => c.old_value is Some && c.new_value is None,
    }
}

impl DiffChange {
    /// Whether this change carries old and new values as its kind demands.
    pub fn respects_change_rules(&self) -> (r: bool)
        ensures
            r == change_wf(self@),
    {
        match self.change_type {
            ChangeType::Added => self.old_value.is_none() && self.new_value.is_some(),
            ChangeType::Modified => self.old_value.is_some() && self.new_value.is_some(),
            ChangeType::Deleted => self.old_value.is_some() && self.new_value.is_none(),
        }
    }
}

/// Result of comparing two commits.
#[derive(Debug)]
pub struct IrminDiff {
    pub from_commit: String,
    pub to_commit: String,
    pub changes: Vec<DiffChange>,
}

/// Mathematical image of an `IrminDiff`.
#[verifier::ext_equal]
pub struct DiffView {
    pub from_commit: Seq<char>,
    pub to_commit: Seq<char>,
    pub changes: Seq<DiffChangeView>,
}

impl View for IrminDiff {
    type V = DiffView;

    open spec fn view(&self) -> DiffView {
        DiffView {
            from_commit: self.from_commit@,
            to_commit: self.to_commit@,
            changes: self.changes@.map_values(|c: DiffChange| c@),
        }
    }
}

/// Every change of the diff carries values as its kind demands.
pub open spec fn diff_wf(d: DiffView) -> bool {
    forall|i: int| 0 <= i < d.changes.len() ==> change_wf(#[trigger] d.changes[i])
}

impl IrminDiff {
    /// Whether every change carries old and new values as its kind demands.
    pub fn respects_change_rules(&self) -> (r: bool)
        ensures
            r == diff_wf(self@),
    {
        let mut i: usize = 0;
        while i < self.changes.len()
            invariant
                i <= self.changes.len(),
                forall|k: int| 0 <= k < i as int ==> change_wf(#[trigger] self@.changes[k]),
            decreases self.changes.len() - i,
        {
            proof {
                assert(self@.changes[i as int] == self.changes@[i as int]@);
            }
            if !self.changes[i].respects_change_rules() {
                return false;
            }
            i += 1;
        }
        true
    }
}

/// How specifically a key matched a query; carries the fixed-tier relevance
/// scale: an exact match scores 1.0, a prefix match 0.8, any other substring
/// containment 0.5.
#[derive(Clone, Copy, Debug, PartialEq, Eq, Structural)]
pub enum Relevance {
    Exact,
    Prefix,
    Substring,
}

impl Relevance {
    /// The tier's score, on a percent scale: 100 stands for 1.0, 80 for 0.8,
    /// 50 for 0.5.
    pub open spec fn spec_score_percent(self) -> u32 {
        match self {
            Relevance::Exact => 100,
            Relevance::Prefix => 80,
            Relevance::Substring => 50,
        }
    }

    /// The tier's score, on a percent scale.
    #[verifier::when_used_as_spec(spec_score_percent)]
    pub fn score_percent(self) -> (r: u32)
        ensures
            r == self.spec_score_percent(),
    {
        match self {
            Relevance::Exact => 100,
            Relevance::Prefix => 80,
            Relevance::Substring => 50,
        }
    }
}

/// One search match: the slash-joined path from the searched root to the
/// matched node, the matched node itself (owned, not a reference into the
/// searched tree), and the match's relevance tier.
#[derive(Debug)]
pub struct SearchResult {
    pub path: String,
    pub node: IrminNode,
    pub relevance_score: Relevance,
}

/// Mathematical image of a `SearchResult`.
#[verifier::ext_equal]
pub struct SearchResultView {
    pub path: Seq<char>,
    pub node: NodeView,
    pub relevance_score: Relevance,
}

impl View for SearchResult {
    type V = SearchResultView;

    open spec fn view(&self) -> SearchResultView {
        SearchResultView {
            path: self.path@,
            node: self.node@,
            relevance_score: self.relevance_score,
        }
    }
}

/// Why a store operation failed. `RemoteRejected`, `TransportUnreachable` and
/// `Malformed` carry the diagnostic text; a timed-out request carries none.
#[derive(Debug)]
pub enum StoreError {
    /// The network or the bridge process could not be reached at all.
    TransportUnreachable(String),
    /// The remote side answered with a non-success status or exit code.
    RemoteRejected(String),
    /// The response body failed to parse as the expected data model shape.
    Malformed(String),
    /// The request exceeded the configured time limit (HTTP transport only).
    Timeout,
}

impl StoreError {
    /// The diagnostic text of the failure.
    pub open spec fn spec_message(self) -> Seq<char> {
        match self {
            StoreError::TransportUnreachable(d) => d@,
            StoreError::RemoteRejected(d) => d@,
            StoreError::Malformed(d) => d@,
            StoreError::Timeout => "request timed out"@,
        }
    }

    /// The diagnostic text of the failure.
    pub fn message(&self) -> (r: &str)
        ensures
            r@ == self.spec_message(),
    {
        match self {
            StoreError::TransportUnreachable(d) => d.as_str(),
            StoreError::RemoteRejected(d) => d.as_str(),
            StoreError::Malformed(d) => d.as_str(),
            StoreError::Timeout => "request timed out",
        }
    }
}

/// One of the five fetchable resources of the store. Commit identifiers and
/// the search query are opaque and passed through verbatim.
#[derive(Debug)]
pub enum Resource {
    Tree,
    Commits,
    Branches,
    Diff { from: String, to: String },
    Search { query: String },
}

/// Mathematical image of a `Resource`.
#[verifier::ext_equal]
pub enum ResourceView {
    Tree,
    Commits,
    Branches,
    Diff { from: Seq<char>, to: Seq<char> },
    Search { query: Seq<char> },
}

impl View for Resource {
    type V = ResourceView;

    open spec fn view(&self) -> ResourceView {
        match self {
            Resource::Tree => ResourceView::Tree,
            Resource::Commits => ResourceView::Commits,
            Resource::Branches => ResourceView::Branches,
            Resource::Diff { from, to } => ResourceView::Diff { from: from@, to: to@ },
            Resource::Search { query } => ResourceView::Search { query: query@ },
        }
    }
}

/// Theme choice of the viewer.
#[derive(Clone, Copy, Debug, PartialEq, Eq, Structural)]
pub enum Theme {
    Light,
    Dark,
    System,
}

/// How a store is reached.
#[derive(Clone, Copy, Debug, PartialEq, Eq, Structural)]
pub enum ConnectionType {
    Local,
    Remote,
    InMemory,
}

/// Status of a connection.
#[derive(Debug)]
pub enum ConnectionStatus {
    Connected,
    Disconnected,
    Error(String),
}

/// Connection information for one store. The identifier is held as a plain
/// 128-bit value.
#[derive(Debug)]
pub struct IrminConnection {
    pub id: u128,
    pub name: String,
    pub connection_type: ConnectionType,
    pub url: Option<String>,
    pub local_path: Option<String>,
    pub status: ConnectionStatus,
}

/// Window geometry remembered between sessions.
#[derive(Debug)]
pub struct WindowState {
    pub width: u32,
    pub height: u32,
    pub maximized: bool,
}

/// Configuration of the viewer application.
#[derive(Debug)]
pub struct AppConfig {
    pub theme: Theme,
    pub recent_connections: Vec<IrminConnection>,
    pub window_state: WindowState,
}

} // verus!
