//! Syntax trees as plain values.
//!
//! Rules read a tree-sitter parse tree: node kinds, byte ranges, row and
//! column positions, children and the field name under which a child hangs
//! off its parent. [`SyntaxTree`] holds exactly that, as an arena whose
//! nodes are numbered in pre-order: a node's children carry larger indices
//! than the node, and the nodes of its subtree are the index range
//! `i .. subtree_end`. Parsing itself is done by tree-sitter; the arena is
//! filled from the parse tree by verified code that reads it node by node,
//! and `parsed_arena` states that it holds the parse's nodes in pre-order,
//! each as tree-sitter reports it (over names for those reports).

use vstd::prelude::*;
use crate::text::{chars_of, str_eq, utf8_lossy, utf8_lossy_string};
use crate::types::Language;

verus! {

// ─── Outside types and calls ───────────────────────────────────────────────

#[verifier::external_type_specification]
#[verifier::external_body]
pub struct ExTsTree(tree_sitter::Tree);

#[verifier::external_type_specification]
#[verifier::external_body]
pub struct ExTsNode<'tree>(tree_sitter::Node<'tree>);

/// A tree-sitter parse of `text` with the grammar for `language`.
pub struct TsTree {
    pub(crate) tree: tree_sitter::Tree,
    pub(crate) language: Ghost<Language>,
    pub(crate) text: Ghost<Seq<char>>,
}

impl TsTree {
    pub closed spec fn spec_language(&self) -> Language {
        self.language@
    }

    pub closed spec fn spec_text(&self) -> Seq<char> {
        self.text@
    }
}

/// A node of a tree-sitter parse, with the path of child indices that
/// leads to it from the root of the parse of `text` with `language`.
pub struct TsNode<'tree> {
    node: tree_sitter::Node<'tree>,
    language: Ghost<Language>,
    text: Ghost<Seq<char>>,
    path: Ghost<Seq<nat>>,
}

impl<'tree> TsNode<'tree> {
    pub closed spec fn spec_language(&self) -> Language {
        self.language@
    }

    pub closed spec fn spec_text(&self) -> Seq<char> {
        self.text@
    }

    pub closed spec fn spec_path(&self) -> Seq<nat> {
        self.path@
    }
}

// Names for what tree-sitter answers about the node at a path of the parse
// of a text with a language's grammar. A parse with a fresh parser, no
// previous tree and no timeout depends on the grammar and the text alone.

/// `Node::descendant_count` of the node at `path`.
pub uninterp spec fn ts_node_descendants(language: Language, text: Seq<char>, path: Seq<nat>) -> usize;

/// `Node::kind` of the node at `path`.
pub uninterp spec fn ts_node_kind(language: Language, text: Seq<char>, path: Seq<nat>) -> Seq<char>;

/// `Node::is_named` of the node at `path`.
pub uninterp spec fn ts_node_named(language: Language, text: Seq<char>, path: Seq<nat>) -> bool;

/// `Node::is_extra` of the node at `path`.
pub uninterp spec fn ts_node_extra(language: Language, text: Seq<char>, path: Seq<nat>) -> bool;

/// `Node::start_byte` of the node at `path`.
pub uninterp spec fn ts_node_start_byte(language: Language, text: Seq<char>, path: Seq<nat>) -> usize;

/// `Node::end_byte` of the node at `path`.
pub uninterp spec fn ts_node_end_byte(language: Language, text: Seq<char>, path: Seq<nat>) -> usize;

/// `Node::start_position` of the node at `path`, as (row, column).
pub uninterp spec fn ts_node_start_point(language: Language, text: Seq<char>, path: Seq<nat>) -> (usize, usize);

/// `Node::end_position` of the node at `path`, as (row, column).
pub uninterp spec fn ts_node_end_point(language: Language, text: Seq<char>, path: Seq<nat>) -> (usize, usize);

/// `Node::child_count` of the node at `path`.
pub uninterp spec fn ts_node_child_count(language: Language, text: Seq<char>, path: Seq<nat>) -> u32;

/// `Node::field_name_for_child` of the node at `path` for child `i`.
pub uninterp spec fn ts_node_child_field(language: Language, text: Seq<char>, path: Seq<nat>, i: nat) -> Option<
    Seq<char>,
>;

/// `tree_sitter::Tree::root_node`: the node at the empty path.
#[verifier::external_body]
fn ts_root_node(tree: &TsTree) -> (res: TsNode<'_>)
    ensures
        res.spec_language() == tree.spec_language(),
        res.spec_text() == tree.spec_text(),
        res.spec_path() == Seq::<nat>::empty(),
{
    TsNode { node: tree.tree.root_node(), language: Ghost(tree.language@), text: Ghost(tree.text@), path: Ghost(Seq::empty()) }
}

/// `tree_sitter::Node::descendant_count`: the number of nodes in the
/// subtree, the node itself included, so at least one.
#[verifier::external_body]
fn ts_descendant_count(node: &TsNode<'_>) -> (res: usize)
    ensures
        res == ts_node_descendants(node.spec_language(), node.spec_text(), node.spec_path()),
        res >= 1,
{
    node.node.descendant_count()
}

/// `tree_sitter::Node::kind`, copied into a `String`.
#[verifier::external_body]
fn ts_kind(node: &TsNode<'_>) -> (res: String)
    ensures
        res@ == ts_node_kind(node.spec_language(), node.spec_text(), node.spec_path()),
{
    node.node.kind().to_string()
}

/// `tree_sitter::Node::is_named`.
#[verifier::external_body]
fn ts_is_named(node: &TsNode<'_>) -> (res: bool)
    ensures
        res == ts_node_named(node.spec_language(), node.spec_text(), node.spec_path()),
{
    node.node.is_named()
}

/// `tree_sitter::Node::is_extra`: whether the node is not required by the
/// grammar (a comment, say).
#[verifier::external_body]
fn ts_is_extra(node: &TsNode<'_>) -> (res: bool)
    ensures
        res == ts_node_extra(node.spec_language(), node.spec_text(), node.spec_path()),
{
    node.node.is_extra()
}

/// `tree_sitter::Node::start_byte`.
#[verifier::external_body]
fn ts_start_byte(node: &TsNode<'_>) -> (res: usize)
    ensures
        res == ts_node_start_byte(node.spec_language(), node.spec_text(), node.spec_path()),
{
    node.node.start_byte()
}

/// `tree_sitter::Node::end_byte`.
#[verifier::external_body]
fn ts_end_byte(node: &TsNode<'_>) -> (res: usize)
    ensures
        res == ts_node_end_byte(node.spec_language(), node.spec_text(), node.spec_path()),
{
    node.node.end_byte()
}

/// `tree_sitter::Node::start_position`, as (row, column).
#[verifier::external_body]
fn ts_start_position(node: &TsNode<'_>) -> (res: (usize, usize))
    ensures
        res == ts_node_start_point(node.spec_language(), node.spec_text(), node.spec_path()),
{
    let p = node.node.start_position();
    (p.row, p.column)
}

/// `tree_sitter::Node::end_position`, as (row, column).
#[verifier::external_body]
fn ts_end_position(node: &TsNode<'_>) -> (res: (usize, usize))
    ensures
        res == ts_node_end_point(node.spec_language(), node.spec_text(), node.spec_path()),
{
    let p = node.node.end_position();
    (p.row, p.column)
}

/// `tree_sitter::Node::child_count`.
#[verifier::external_body]
fn ts_child_count(node: &TsNode<'_>) -> (res: u32)
    ensures
        res == ts_node_child_count(node.spec_language(), node.spec_text(), node.spec_path()),
{
    node.node.child_count()
}

/// `tree_sitter::Node::child`: child `i`, which exists for every index
/// below the child count.
#[verifier::external_body]
fn ts_child<'tree>(node: &TsNode<'tree>, i: u32) -> (res: Option<TsNode<'tree>>)
    ensures
        i < ts_node_child_count(node.spec_language(), node.spec_text(), node.spec_path()) ==> res is Some,
        res matches Some(c) ==> c.spec_language() == node.spec_language() && c.spec_text()
            == node.spec_text() && c.spec_path() == node.spec_path().push(i as nat),
{
    match node.node.child(i) {
        Some(c) => Some(
            TsNode { node: c, language: Ghost(node.language@), text: Ghost(node.text@), path: Ghost(node.path@.push(i as nat)) },
        ),
        None => None,
    }
}

/// `tree_sitter::Node::field_name_for_child`, copied into a `String`.
#[verifier::external_body]
fn ts_field_name_for_child(node: &TsNode<'_>, i: u32) -> (res: Option<String>)
    ensures
        opt_string_view(res) == ts_node_child_field(node.spec_language(), node.spec_text(), node.spec_path(), i as nat),
{
    node.node.field_name_for_child(i).map(|s| s.to_string())
}

// ─── The arena ────────────────────────────────────────────────────────────

/// One node of a [`SyntaxTree`].
#[derive(Clone, Debug)]
pub struct SyntaxNode {
    pub kind: String,
    pub named: bool,
    /// Not required by the grammar (a comment, say).
    pub extra: bool,
    /// The field name under which this node hangs off its parent.
    pub field: Option<String>,
    pub start_byte: usize,
    pub end_byte: usize,
    pub start_row: usize,
    pub start_column: usize,
    pub end_row: usize,
    pub end_column: usize,
    pub parent: Option<usize>,
    /// Indices of the children, in source order.
    pub children: Vec<usize>,
    /// One past the last index of this node's subtree.
    pub subtree_end: usize,
}

pub struct NodeView {
    pub kind: Seq<char>,
    pub named: bool,
    pub extra: bool,
    pub field: Option<Seq<char>>,
    pub start_byte: usize,
    pub end_byte: usize,
    pub start_row: usize,
    pub start_column: usize,
    pub end_row: usize,
    pub end_column: usize,
    pub parent: Option<usize>,
    pub children: Seq<usize>,
    pub subtree_end: usize,
}

impl View for SyntaxNode {
    type V = NodeView;

    open spec fn view(&self) -> NodeView {
        NodeView {
            kind: self.kind@,
            named: self.named,
            extra: self.extra,
            field: opt_string_view(self.field),
            start_byte: self.start_byte,
            end_byte: self.end_byte,
            start_row: self.start_row,
            start_column: self.start_column,
            end_row: self.end_row,
            end_column: self.end_column,
            parent: self.parent,
            children: self.children@,
            subtree_end: self.subtree_end,
        }
    }
}

pub open spec fn opt_string_view(o: Option<String>) -> Option<Seq<char>> {
    match o {
        Some(s) => Some(s@),
        None => None,
    }
}

/// The shape every tree keeps: subtrees are non-empty index ranges inside
/// the arena, children come after their parent and parents before.
pub open spec fn node_wf(t: Seq<NodeView>, i: int) -> bool {
    &&& i < t[i].subtree_end <= t.len()
    &&& forall|k: int| 0 <= k < t[i].children.len() ==> i < #[trigger] t[i].children[k] < t.len()
    &&& parent_before(t[i].parent, i)
    &&& positions_fit(t[i])
}

/// Row and column numbers leave room for the one-based numbering of findings.
pub open spec fn positions_fit(n: NodeView) -> bool {
    n.start_row < usize::MAX && n.start_column < usize::MAX && n.end_row < usize::MAX
        && n.end_column < usize::MAX
}

/// A parent index, if any, precedes `j`.
pub open spec fn parent_before(p: Option<usize>, j: int) -> bool {
    match p {
        Some(q) => q < j,
        None => true,
    }
}

pub open spec fn tree_wf(t: Seq<NodeView>) -> bool {
    forall|i: int| 0 <= i < t.len() ==> #[trigger] node_wf(t, i)
}

/// A parse tree as an arena of nodes numbered in pre-order.
pub struct SyntaxTree {
    nodes: Vec<SyntaxNode>,
}

impl View for SyntaxTree {
    type V = Seq<NodeView>;

    closed spec fn view(&self) -> Seq<NodeView> {
        self.nodes@.map_values(|n: SyntaxNode| n@)
    }
}

impl SyntaxTree {
    #[verifier::type_invariant]
    closed spec fn inv(&self) -> bool {
        tree_wf(self@)
    }
}

// ─── Specifications of the accessors ─────────────────────────────────────

/// The first child of node `i`, from the `k`-th on, that hangs off it
/// under field `name` (`Node::child_by_field_name`).
pub open spec fn field_child_from(t: Seq<NodeView>, i: int, name: Seq<char>, k: int) -> Option<usize>
    decreases t[i].children.len() - k,
{
    if k < 0 || k >= t[i].children.len() {
        None
    } else if t[t[i].children[k] as int].field == Some(name) {
        Some(t[i].children[k])
    } else {
        field_child_from(t, i, name, k + 1)
    }
}

pub open spec fn field_child(t: Seq<NodeView>, i: int, name: Seq<char>) -> Option<usize> {
    field_child_from(t, i, name, 0)
}

/// The named children of node `i` among its first `k` children, in order.
pub open spec fn named_children_upto(t: Seq<NodeView>, i: int, k: int) -> Seq<usize>
    decreases k,
{
    if k <= 0 {
        Seq::empty()
    } else {
        let c = t[i].children[k - 1];
        named_children_upto(t, i, k - 1) + (if t[c as int].named {
            seq![c]
        } else {
            Seq::empty()
        })
    }
}

/// The named children of node `i`, in order (`Node::named_children`).
pub open spec fn named_children(t: Seq<NodeView>, i: int) -> Seq<usize> {
    named_children_upto(t, i, t[i].children.len() as int)
}

/// The `n`-th named child of node `i` (`Node::named_child`).
pub open spec fn named_child(t: Seq<NodeView>, i: int, n: int) -> Option<usize> {
    if 0 <= n < named_children(t, i).len() {
        Some(named_children(t, i)[n])
    } else {
        None
    }
}

/// The text of a node: its byte range of the source, decoded as
/// `String::from_utf8_lossy` does; empty when the range does not fit.
pub open spec fn node_text(src: Seq<u8>, n: NodeView) -> Seq<char> {
    if n.start_byte <= n.end_byte <= src.len() {
        utf8_lossy(src.subrange(n.start_byte as int, n.end_byte as int))
    } else {
        Seq::empty()
    }
}

/// The text of the node that `field_child` finds, if any.
pub open spec fn field_text(src: Seq<u8>, t: Seq<NodeView>, i: int, name: Seq<char>) -> Option<
    Seq<char>,
> {
    match field_child(t, i, name) {
        Some(c) => Some(node_text(src, t[c as int])),
        None => None,
    }
}

proof fn lemma_named_upto_bounds(t: Seq<NodeView>, i: int, k: int)
    requires
        tree_wf(t),
        0 <= i < t.len(),
        0 <= k <= t[i].children.len(),
    ensures
        forall|j: int|
            0 <= j < named_children_upto(t, i, k).len() ==> i < #[trigger] named_children_upto(
                t,
                i,
                k,
            )[j] < t.len(),
    decreases k,
{
    assert(node_wf(t, i));
    if k > 0 {
        lemma_named_upto_bounds(t, i, k - 1);
        let prev = named_children_upto(t, i, k - 1);
        let c = t[i].children[k - 1];
        assert(i < c < t.len());
        let tail: Seq<usize> = if t[c as int].named { seq![c] } else { Seq::empty() };
        assert(named_children_upto(t, i, k) == prev + tail);
        assert forall|j: int| 0 <= j < (prev + tail).len() implies i < #[trigger] (prev + tail)[j]
            < t.len() by {
            if j < prev.len() {
                assert((prev + tail)[j] == prev[j]);
            } else {
                assert((prev + tail)[j] == c);
            }
        }
    }
}

proof fn lemma_field_child_bounds(t: Seq<NodeView>, i: int, name: Seq<char>, k: int)
    requires
        tree_wf(t),
        0 <= i < t.len(),
    ensures
        field_child_from(t, i, name, k) matches Some(c) ==> i < c < t.len(),
    decreases t[i].children.len() - k,
{
    assert(node_wf(t, i));
    if 0 <= k < t[i].children.len() {
        lemma_field_child_bounds(t, i, name, k + 1);
    }
}

/// Facts every accessor user needs: the bounds that `node_wf` gives for
/// one node, restated with the accessor specifications.
pub open spec fn accessors_in_bounds(t: Seq<NodeView>, i: int) -> bool {
    &&& forall|name: Seq<char>|
        (#[trigger] field_child(t, i, name)) is Some ==> i < field_child(t, i, name).unwrap() < t.len()
    &&& forall|j: int|
        0 <= j < named_children(t, i).len() ==> i < #[trigger] named_children(t, i)[j] < t.len()
}

pub proof fn lemma_accessors_in_bounds(t: Seq<NodeView>, i: int)
    requires
        tree_wf(t),
        0 <= i < t.len(),
    ensures
        accessors_in_bounds(t, i),
{
    assert forall|name: Seq<char>| (#[trigger] field_child(t, i, name)) is Some implies i
        < field_child(t, i, name).unwrap() < t.len() by {
        lemma_field_child_bounds(t, i, name, 0);
    }
    assert(node_wf(t, i));
    lemma_named_upto_bounds(t, i, t[i].children.len() as int);
}

// ─── Accessors ────────────────────────────────────────────────────────────

impl SyntaxTree {
    /// Number of nodes; also states that the tree keeps its shape.
    pub fn len(&self) -> (n: usize)
        ensures
            n == self@.len(),
            tree_wf(self@),
    {
        proof {
            use_type_invariant(self);
        }
        self.nodes.len()
    }

    /// The node with index `i`.
    pub fn node(&self, i: usize) -> (n: &SyntaxNode)
        requires
            i < self@.len(),
        ensures
            n@ == self@[i as int],
    {
        &self.nodes[i]
    }

    /// Whether node `i` has the given kind.
    pub fn kind_is(&self, i: usize, kind: &str) -> (res: bool)
        requires
            i < self@.len(),
        ensures
            res == (self@[i as int].kind == kind@),
    {
        str_eq(self.nodes[i].kind.as_str(), kind)
    }

    /// `Node::child_by_field_name`.
    pub fn child_by_field(&self, i: usize, name: &str) -> (res: Option<usize>)
        requires
            i < self@.len(),
        ensures
            res == field_child(self@, i as int, name@),
            res matches Some(c) ==> i < c < self@.len(),
    {
        proof {
            use_type_invariant(self);
            lemma_accessors_in_bounds(self@, i as int);
        }
        let ghost t = self@;
        let node = &self.nodes[i];
        let mut k: usize = 0;
        while k < node.children.len()
            invariant
                t == self@,
                i < t.len(),
                node@ == t[i as int],
                k <= node.children@.len(),
                field_child(t, i as int, name@) == field_child_from(t, i as int, name@, k as int),
                tree_wf(t),
            decreases node.children@.len() - k,
        {
            let c = node.children[k];
            assert(node_wf(t, i as int));
            assert(t[i as int].children[k as int] == c);
            let matches = match &self.nodes[c].field {
                Some(f) => str_eq(f.as_str(), name),
                None => false,
            };
            assert(self.nodes@[c as int]@ == t[c as int]);
            if matches {
                return Some(c);
            }
            k = k + 1;
        }
        None
    }

    /// The named children of node `i`, in order.
    pub fn named_children(&self, i: usize) -> (res: Vec<usize>)
        requires
            i < self@.len(),
        ensures
            res@ == named_children(self@, i as int),
            forall|j: int| 0 <= j < res@.len() ==> i < #[trigger] res@[j] < self@.len(),
    {
        proof {
            use_type_invariant(self);
            lemma_accessors_in_bounds(self@, i as int);
        }
        let ghost t = self@;
        let node = &self.nodes[i];
        let mut out: Vec<usize> = Vec::new();
        let mut k: usize = 0;
        while k < node.children.len()
            invariant
                t == self@,
                i < t.len(),
                node@ == t[i as int],
                k <= node.children@.len(),
                out@ == named_children_upto(t, i as int, k as int),
                tree_wf(t),
            decreases node.children@.len() - k,
        {
            let c = node.children[k];
            assert(node_wf(t, i as int));
            assert(self.nodes@[c as int]@ == t[c as int]);
            if self.nodes[c].named {
                out.push(c);
            }
            k = k + 1;
        }
        out
    }

    /// `Node::named_child`.
    pub fn named_child(&self, i: usize, n: usize) -> (res: Option<usize>)
        requires
            i < self@.len(),
        ensures
            res == named_child(self@, i as int, n as int),
            res matches Some(c) ==> i < c < self@.len(),
    {
        let v = self.named_children(i);
        if n < v.len() {
            Some(v[n])
        } else {
            None
        }
    }

    /// The text of node `i` in `src`.
    pub fn text(&self, src: &[u8], i: usize) -> (res: Vec<char>)
        requires
            i < self@.len(),
        ensures
            res@ == node_text(src@, self@[i as int]),
    {
        let n = &self.nodes[i];
        if n.start_byte <= n.end_byte && n.end_byte <= src.len() {
            let s = utf8_lossy_string(&src[n.start_byte..n.end_byte]);
            chars_of(s.as_str())
        } else {
            Vec::new()
        }
    }

    /// The text of the child of node `i` under field `name`.
    pub fn field_text(&self, src: &[u8], i: usize, name: &str) -> (res: Option<Vec<char>>)
        requires
            i < self@.len(),
        ensures
            match res {
                Some(v) => field_text(src@, self@, i as int, name@) == Some(v@),
                None => field_text(src@, self@, i as int, name@) is None,
            },
    {
        match self.child_by_field(i, name) {
            Some(c) => Some(self.text(src, c)),
            None => None,
        }
    }
}

// ─── Building the arena from a tree-sitter parse ─────────────────────────

/// A position kept below `usize::MAX`.
pub open spec fn clamped(x: usize) -> usize {
    if x == usize::MAX {
        (x - 1) as usize
    } else {
        x
    }
}

/// What the arena records of one node of the parse before linking: the
/// path to it, the index of its parent and the field it hangs off under.
pub type ParseEntry = (Seq<nat>, Option<usize>, Option<Seq<char>>);

/// The fuel left for a node at `path` under a budget of nodes.
pub open spec fn fuel_for(budget: nat, path: Seq<nat>) -> nat {
    if path.len() <= budget {
        (budget - path.len()) as nat
    } else {
        0
    }
}

/// The nodes of the subtree at `path` in pre-order (children in order),
/// numbered from `base`, down to depth `fuel`: the node itself under
/// `parent` and `field`, then the subtrees of its children.
pub open spec fn ts_pre(
    l: Language,
    x: Seq<char>,
    path: Seq<nat>,
    parent: Option<usize>,
    field: Option<Seq<char>>,
    base: nat,
    fuel: nat,
) -> Seq<ParseEntry>
    decreases fuel, 0int, 0int,
{
    if fuel == 0 {
        Seq::empty()
    } else {
        seq![(path, parent, field)] + ts_pre_kids(l, x, path, base, 0, base + 1, (fuel - 1) as nat)
    }
}

/// The subtrees of children `i ..` of the node at `path` (numbered `me`),
/// numbered from `start`.
pub open spec fn ts_pre_kids(
    l: Language,
    x: Seq<char>,
    path: Seq<nat>,
    me: nat,
    i: nat,
    start: nat,
    fuel: nat,
) -> Seq<ParseEntry>
    decreases fuel, 1int, ts_node_child_count(l, x, path) - i,
{
    if i >= ts_node_child_count(l, x, path) {
        Seq::empty()
    } else {
        let c = ts_pre(l, x, path.push(i), Some(me as usize), ts_node_child_field(l, x, path, i), start, fuel);
        c + ts_pre_kids(l, x, path, me, i + 1, start + c.len(), fuel)
    }
}

/// The pre-order of the whole parse of `x` with the grammar of `l`, up to
/// depth its node count.
pub open spec fn ts_full(l: Language, x: Seq<char>) -> Seq<ParseEntry> {
    ts_pre(l, x, Seq::empty(), None, None, 0, ts_node_descendants(l, x, Seq::empty()) as nat)
}

/// The first nodes of the pre-order, as many as the root counts.
pub open spec fn ts_entries(l: Language, x: Seq<char>) -> Seq<ParseEntry> {
    let f = ts_full(l, x);
    let b = ts_node_descendants(l, x, Seq::empty()) as int;
    if f.len() <= b {
        f
    } else {
        f.subrange(0, b)
    }
}

/// The indices among `0 .. k` whose parent is `p`, in order.
pub open spec fn kids_of(es: Seq<ParseEntry>, p: usize, k: int) -> Seq<usize>
    decreases k,
{
    if k <= 0 {
        Seq::empty()
    } else {
        kids_of(es, p, k - 1) + (if es[k - 1].1 == Some(p) {
            seq![(k - 1) as usize]
        } else {
            Seq::empty()
        })
    }
}

/// A node of the arena as tree-sitter reports it, before its children and
/// subtree end are filled in (positions kept below `usize::MAX`).
pub open spec fn base_node(l: Language, x: Seq<char>, e: ParseEntry) -> NodeView {
    let p = e.0;
    NodeView {
        kind: ts_node_kind(l, x, p),
        named: ts_node_named(l, x, p),
        extra: ts_node_extra(l, x, p),
        field: e.2,
        start_byte: ts_node_start_byte(l, x, p),
        end_byte: ts_node_end_byte(l, x, p),
        start_row: clamped(ts_node_start_point(l, x, p).0),
        start_column: clamped(ts_node_start_point(l, x, p).1),
        end_row: clamped(ts_node_end_point(l, x, p).0),
        end_column: clamped(ts_node_end_point(l, x, p).1),
        parent: e.1,
        children: Seq::empty(),
        subtree_end: 0,
    }
}

/// `t` is the arena of the parse of `x` with the grammar of `l`: its nodes
/// are those of the parse in pre-order, each with what tree-sitter reports
/// of it, the index of its parent, the field it hangs off under, the
/// indices of its children in order, and where its subtree ends.
pub open spec fn parsed_arena(t: Seq<NodeView>, l: Language, x: Seq<char>) -> bool {
    let es = ts_entries(l, x);
    &&& t.len() == es.len()
    &&& forall|j: int|
        0 <= j < t.len() ==> #[trigger] t[j] == linked(
            base_node(l, x, es[j]),
            kids_of(es, j as usize, es.len() as int),
            t[j].subtree_end,
        )
    &&& forall|j: int|
        0 <= j < t.len() ==> (#[trigger] t[j]).subtree_end == end_over(
            ends_of(t),
            t[j].children,
            t[j].children.len() as int,
            j + 1,
        )
}

proof fn lemma_end_over_same(e1: Seq<usize>, e2: Seq<usize>, ch: Seq<usize>, k: int, base: int)
    requires
        0 <= k <= ch.len(),
        forall|i: int| 0 <= i < k ==> e1[#[trigger] ch[i] as int] == e2[ch[i] as int],
    ensures
        end_over(e1, ch, k, base) == end_over(e2, ch, k, base),
    decreases k,
{
    if k > 0 {
        lemma_end_over_same(e1, e2, ch, k - 1, base);
        assert(e1[ch[k - 1] as int] == e2[ch[k - 1] as int]);
    }
}

proof fn lemma_ends_agree_from(t1: Seq<NodeView>, t2: Seq<NodeView>, l: Language, x: Seq<char>, m: int)
    requires
        tree_wf(t1),
        parsed_arena(t1, l, x),
        parsed_arena(t2, l, x),
        0 <= m <= t1.len(),
    ensures
        forall|j: int| m <= j < t1.len() ==> #[trigger] t1[j].subtree_end == t2[j].subtree_end,
    decreases t1.len() - m,
{
    if m < t1.len() {
        lemma_ends_agree_from(t1, t2, l, x, m + 1);
        let es = ts_entries(l, x);
        let ch = t1[m].children;
        assert(t1[m] == linked(base_node(l, x, es[m]), kids_of(es, m as usize, es.len() as int), t1[m].subtree_end));
        assert(t2[m] == linked(base_node(l, x, es[m]), kids_of(es, m as usize, es.len() as int), t2[m].subtree_end));
        assert(node_wf(t1, m));
        assert forall|i: int| 0 <= i < ch.len() implies ends_of(t1)[#[trigger] ch[i] as int] == ends_of(t2)[ch[i] as int] by {
            assert(m < ch[i] < t1.len());
            assert(t1[ch[i] as int].subtree_end == t2[ch[i] as int].subtree_end);
        }
        lemma_end_over_same(ends_of(t1), ends_of(t2), ch, ch.len() as int, m + 1);
    }
}

/// The arena of a parse is determined: two well-formed arenas of the same
/// parse are equal.
pub proof fn lemma_parsed_arena_unique(t1: Seq<NodeView>, t2: Seq<NodeView>, l: Language, x: Seq<char>)
    requires
        tree_wf(t1),
        parsed_arena(t1, l, x),
        parsed_arena(t2, l, x),
    ensures
        t1 == t2,
{
    lemma_ends_agree_from(t1, t2, l, x, 0);
    let es = ts_entries(l, x);
    assert forall|j: int| 0 <= j < t1.len() implies t1[j] == t2[j] by {
        assert(t1[j] == linked(base_node(l, x, es[j]), kids_of(es, j as usize, es.len() as int), t1[j].subtree_end));
        assert(t2[j] == linked(base_node(l, x, es[j]), kids_of(es, j as usize, es.len() as int), t2[j].subtree_end));
    }
    assert(t1 =~= t2);
}

/// The entries the nodes on a stack still to visit (top last) contribute
/// to the pre-order, numbered from `base`.
pub open spec fn ts_rest(l: Language, x: Seq<char>, st: Seq<ParseEntry>, base: nat, budget: nat) -> Seq<ParseEntry>
    decreases st.len(),
{
    if st.len() == 0 {
        Seq::empty()
    } else {
        let e = st.last();
        let b = ts_pre(l, x, e.0, e.1, e.2, base, fuel_for(budget, e.0));
        b + ts_rest(l, x, st.drop_last(), base + b.len(), budget)
    }
}

/// The stack entries for children `cnt - 1` down to `k` of the node at
/// `path` (numbered `me`): child `k` last.
pub open spec fn kid_entries(l: Language, x: Seq<char>, path: Seq<nat>, me: usize, k: nat) -> Seq<ParseEntry>
    decreases ts_node_child_count(l, x, path) - k,
{
    if k >= ts_node_child_count(l, x, path) {
        Seq::empty()
    } else {
        kid_entries(l, x, path, me, k + 1).push((path.push(k), Some(me), ts_node_child_field(l, x, path, k)))
    }
}

proof fn lemma_rest_kids(
    l: Language,
    x: Seq<char>,
    st: Seq<ParseEntry>,
    path: Seq<nat>,
    me: usize,
    k: nat,
    start: nat,
    budget: nat,
)
    requires
        path.len() < budget,
    ensures
        ts_rest(l, x, st + kid_entries(l, x, path, me, k), start, budget) == ts_pre_kids(
            l,
            x,
            path,
            me as nat,
            k,
            start,
            (budget - path.len() - 1) as nat,
        ) + ts_rest(
            l,
            x,
            st,
            start + ts_pre_kids(l, x, path, me as nat, k, start, (budget - path.len() - 1) as nat).len(),
            budget,
        ),
    decreases ts_node_child_count(l, x, path) - k,
{
    let f = (budget - path.len() - 1) as nat;
    if k >= ts_node_child_count(l, x, path) {
        assert(st + kid_entries(l, x, path, me, k) =~= st);
        assert(ts_pre_kids(l, x, path, me as nat, k, start, f) =~= Seq::<ParseEntry>::empty());
    } else {
        let e = (path.push(k), Some(me), ts_node_child_field(l, x, path, k));
        let below = st + kid_entries(l, x, path, me, k + 1);
        assert(st + kid_entries(l, x, path, me, k) =~= below.push(e));
        assert(below.push(e).drop_last() =~= below);
        assert(fuel_for(budget, path.push(k)) == f);
        let b = ts_pre(l, x, path.push(k), Some(me), ts_node_child_field(l, x, path, k), start, f);
        assert(Some((me as nat) as usize) == Some(me));
        lemma_rest_kids(l, x, st, path, me, k + 1, start + b.len(), budget);
        let pk = ts_pre_kids(l, x, path, me as nat, k + 1, start + b.len(), f);
        assert(ts_pre_kids(l, x, path, me as nat, k, start, f) == b + pk);
        assert(b + (pk + ts_rest(l, x, st, start + b.len() + pk.len(), budget)) =~= (b + pk) + ts_rest(
            l,
            x,
            st,
            start + b.len() + pk.len(),
            budget,
        ));
    }
}

/// Extending the entries past `k` leaves the children among `0 .. k` as
/// they were.
proof fn lemma_kids_of_prefix(a: Seq<ParseEntry>, b: Seq<ParseEntry>, p: usize, k: int)
    requires
        0 <= k <= a.len(),
        k <= b.len(),
        forall|j: int| 0 <= j < k ==> a[j] == b[j],
    ensures
        kids_of(a, p, k) == kids_of(b, p, k),
    decreases k,
{
    if k > 0 {
        lemma_kids_of_prefix(a, b, p, k - 1);
    }
}

/// No index among `0 .. k` has parent `p` when all their parents come
/// before them and `k <= p + 1`.
proof fn lemma_kids_of_none(es: Seq<ParseEntry>, p: usize, k: int)
    requires
        0 <= k <= es.len(),
        k <= p + 1,
        forall|j: int| 0 <= j < k ==> parent_before(#[trigger] es[j].1, j),
    ensures
        kids_of(es, p, k) == Seq::<usize>::empty(),
    decreases k,
{
    if k > 0 {
        lemma_kids_of_none(es, p, k - 1);
    }
}

/// The entries of the nodes on the reading stack.
pub open spec fn stack_view<'a>(st: Seq<(TsNode<'a>, Option<usize>, Option<String>)>) -> Seq<ParseEntry> {
    st.map_values(|e: (TsNode<'a>, Option<usize>, Option<String>)| (e.0.spec_path(), e.1, opt_string_view(e.2)))
}

/// Keeps a position reported by tree-sitter below `usize::MAX`.
fn below_max(x: usize) -> (res: usize)
    ensures
        res == clamped(x),
        res < usize::MAX,
        x < usize::MAX ==> res == x,
{
    if x == usize::MAX {
        x - 1
    } else {
        x
    }
}

pub open spec fn kids_wf(kids: Seq<Vec<usize>>, n: int) -> bool {
    forall|j: int, k: int|
        0 <= j < kids.len() && 0 <= k < kids[j]@.len() ==> j < #[trigger] kids[j]@[k] < n
}

/// Node `v` with its list of children and the end of its subtree filled in.
pub open spec fn linked(v: NodeView, children: Seq<usize>, end: usize) -> NodeView {
    NodeView {
        kind: v.kind,
        named: v.named,
        extra: v.extra,
        field: v.field,
        start_byte: v.start_byte,
        end_byte: v.end_byte,
        start_row: v.start_row,
        start_column: v.start_column,
        end_row: v.end_row,
        end_column: v.end_column,
        parent: v.parent,
        children,
        subtree_end: end,
    }
}

/// The subtree ends of all nodes, in order.
pub open spec fn ends_of(t: Seq<NodeView>) -> Seq<usize> {
    t.map_values(|v: NodeView| v.subtree_end)
}

/// The largest of `base` and the ends of the children `ch[..k]`: where the
/// subtree of their parent ends.
pub open spec fn end_over(ends: Seq<usize>, ch: Seq<usize>, k: int, base: int) -> int
    decreases k,
{
    if k <= 0 {
        base
    } else {
        let r = end_over(ends, ch, k - 1, base);
        let e = ends[ch[k - 1] as int] as int;
        if e > r {
            e
        } else {
            r
        }
    }
}

/// Changing the end of a node that is none of `ch[..k]` leaves the result
/// unchanged.
proof fn lemma_end_over_update(ends: Seq<usize>, ch: Seq<usize>, k: int, base: int, j: int, v: usize)
    requires
        0 <= j < ends.len(),
        k <= ch.len(),
        forall|i: int| 0 <= i < k ==> #[trigger] ch[i] != j && ch[i] < ends.len(),
    ensures
        end_over(ends.update(j, v), ch, k, base) == end_over(ends, ch, k, base),
    decreases k,
{
    if k > 0 {
        lemma_end_over_update(ends, ch, k - 1, base, j, v);
        assert(ch[k - 1] != j);
    }
}

/// The end computed from children `ch[..k]` is at least the end of each of them.
proof fn lemma_end_over_ge(ends: Seq<usize>, ch: Seq<usize>, k: int, base: int, i: int)
    requires
        0 <= i < k <= ch.len(),
    ensures
        end_over(ends, ch, k, base) >= ends[ch[i] as int],
    decreases k,
{
    if i < k - 1 {
        lemma_end_over_ge(ends, ch, k - 1, base, i);
    }
}

/// The arena is one tree rooted at node 0: every other node hangs off a
/// node that lists it among its children, every listed child names that
/// node as its parent, and the root's subtree spans the whole arena.
pub open spec fn rooted_tree(t: Seq<NodeView>) -> bool {
    &&& t.len() >= 1
    &&& t[0].parent is None
    &&& t[0].field is None
    &&& forall|j: int| 0 < j < t.len() ==> (#[trigger] t[j]).parent is Some
    &&& forall|j: int, k: int|
        0 <= j < t.len() && 0 <= k < t[j].children.len() ==> t[#[trigger] t[j].children[k] as int].parent
            == Some(j as usize)
    &&& forall|c: int|
        0 <= c < t.len() && (#[trigger] t[c]).parent is Some ==> t[t[c].parent.unwrap() as int].children.contains(
            c as usize,
        )
    &&& t[0].subtree_end == t.len()
}

/// Each node's subtree ends no later than the root's, when each end is
/// computed from the ends of the node's children.
proof fn lemma_root_end_covers(t: Seq<NodeView>, c: int)
    requires
        tree_wf(t),
        0 <= c < t.len(),
        forall|j: int|
            0 <= j < t.len() ==> (#[trigger] t[j]).subtree_end == end_over(
                ends_of(t),
                t[j].children,
                t[j].children.len() as int,
                j + 1,
            ),
        forall|j: int| 0 < j < t.len() ==> (#[trigger] t[j]).parent is Some,
        forall|x: int|
            0 <= x < t.len() && (#[trigger] t[x]).parent is Some ==> t[t[x].parent.unwrap() as int].children.contains(
                x as usize,
            ),
    ensures
        t[0].subtree_end >= t[c].subtree_end,
    decreases c,
{
    if c > 0 {
        assert(node_wf(t, c));
        let p = t[c].parent.unwrap() as int;
        assert(0 <= p < c);
        let ch = t[p].children;
        assert(ch.contains(c as usize));
        let i = choose|i: int| 0 <= i < ch.len() && ch[i] == c as usize;
        lemma_end_over_ge(ends_of(t), ch, ch.len() as int, p + 1, i);
        assert(ends_of(t)[c] == t[c].subtree_end);
        lemma_root_end_covers(t, p);
    }
}

impl SyntaxTree {
    /// Reads a tree-sitter parse tree node by node into the arena, in
    /// pre-order, children in source order: the result is the arena of the
    /// parse (`parsed_arena`), well formed and rooted at node 0.
    #[verifier::rlimit(100)]
    #[verifier::spinoff_prover]
    pub fn from_ts_tree(tree: &TsTree) -> (res: SyntaxTree)
        ensures
            tree_wf(res@),
            rooted_tree(res@),
            parsed_arena(res@, tree.spec_language(), tree.spec_text()),
    {
        let ghost l = tree.spec_language();
        let ghost x = tree.spec_text();
        let root = ts_root_node(tree);
        let budget = ts_descendant_count(&root);
        let ghost bud = budget as nat;
        let ghost full = ts_full(l, x);
        let ghost mut ents: Seq<ParseEntry> = Seq::empty();
        let mut nodes: Vec<SyntaxNode> = Vec::new();
        let mut kids: Vec<Vec<usize>> = Vec::new();
        let mut stack: Vec<(TsNode, Option<usize>, Option<String>)> = Vec::new();
        stack.push((root, None, None));
        proof {
            let sv = stack_view(stack@);
            assert(sv.last() == (Seq::<nat>::empty(), None::<usize>, None::<Seq<char>>));
            assert(sv.drop_last() =~= Seq::<ParseEntry>::empty());
            assert(fuel_for(bud, Seq::<nat>::empty()) == bud);
            assert(root.spec_path() == Seq::<nat>::empty());
            assert(stack@[0].0.spec_path() == Seq::<nat>::empty());
            assert(sv.len() == 1);
            let b = ts_pre(l, x, Seq::empty(), None, None, 0, bud);
            assert(b == full);
            assert(ts_rest(l, x, sv.drop_last(), b.len(), bud) =~= Seq::<ParseEntry>::empty());
            assert(ts_rest(l, x, sv, 0, bud) == b + ts_rest(l, x, sv.drop_last(), b.len(), bud));
            assert(ents + ts_rest(l, x, sv, 0, bud) =~= full);
        }
        while nodes.len() < budget
            invariant
                budget == ts_node_descendants(l, x, Seq::empty()),
                bud == budget as nat,
                full == ts_full(l, x),
                ents.len() == nodes@.len(),
                nodes@.len() <= budget,
                full == ents + ts_rest(l, x, stack_view(stack@), nodes@.len() as nat, bud),
                forall|j: int|
                    0 <= j < stack@.len() ==> (#[trigger] stack@[j]).0.spec_language() == l
                        && stack@[j].0.spec_text() == x && stack@[j].0.spec_path().len() <= nodes@.len(),
                forall|j: int|
                    0 <= j < nodes@.len() ==> (#[trigger] nodes@[j])@ == linked(
                        base_node(l, x, ents[j]),
                        Seq::empty(),
                        (j + 1) as usize,
                    ),
                forall|p: int| 0 <= p < nodes@.len() ==> #[trigger] kids@[p]@ == kids_of(ents, p as usize, nodes@.len() as int),
                nodes@.len() == kids@.len(),
                kids_wf(kids@, nodes@.len() as int),
                forall|j: int| 0 <= j < nodes@.len() ==> parent_before((#[trigger] nodes@[j]).parent, j),
                forall|j: int| 0 <= j < nodes@.len() ==> positions_fit((#[trigger] nodes@[j])@),
                forall|j: int| 0 <= j < stack@.len() ==> parent_before((#[trigger] stack@[j]).1, nodes@.len() as int),
                budget >= 1,
                nodes@.len() == 0 ==> stack@.len() == 1,
                forall|j: int|
                    0 <= j < stack@.len() && (#[trigger] stack@[j]).1 is None ==> nodes@.len() == 0
                        && stack@[j].2 is None,
                forall|j: int| 0 < j < nodes@.len() ==> (#[trigger] nodes@[j]).parent is Some,
                nodes@.len() > 0 ==> nodes@[0].parent is None && nodes@[0].field is None,
                forall|j: int, k: int|
                    0 <= j < kids@.len() && 0 <= k < kids@[j]@.len() ==> nodes@[#[trigger] kids@[j]@[k] as int].parent
                        == Some(j as usize),
                forall|c: int|
                    0 <= c < nodes@.len() && (#[trigger] nodes@[c]).parent is Some ==> kids@[nodes@[c].parent.unwrap() as int]@.contains(
                        c as usize,
                    ),
            ensures
                ents == ts_entries(l, x),
                ents.len() == nodes@.len(),
                forall|j: int|
                    0 <= j < nodes@.len() ==> (#[trigger] nodes@[j])@ == linked(
                        base_node(l, x, ents[j]),
                        Seq::empty(),
                        (j + 1) as usize,
                    ),
                forall|p: int| 0 <= p < nodes@.len() ==> #[trigger] kids@[p]@ == kids_of(ents, p as usize, nodes@.len() as int),
                nodes@.len() >= 1,
                nodes@.len() == kids@.len(),
                kids_wf(kids@, nodes@.len() as int),
                forall|j: int| 0 <= j < nodes@.len() ==> parent_before((#[trigger] nodes@[j]).parent, j),
                forall|j: int| 0 <= j < nodes@.len() ==> positions_fit((#[trigger] nodes@[j])@),
                forall|j: int| 0 < j < nodes@.len() ==> (#[trigger] nodes@[j]).parent is Some,
                nodes@[0].parent is None && nodes@[0].field is None,
                forall|j: int, k: int|
                    0 <= j < kids@.len() && 0 <= k < kids@[j]@.len() ==> nodes@[#[trigger] kids@[j]@[k] as int].parent
                        == Some(j as usize),
                forall|c: int|
                    0 <= c < nodes@.len() && (#[trigger] nodes@[c]).parent is Some ==> kids@[nodes@[c].parent.unwrap() as int]@.contains(
                        c as usize,
                    ),
            decreases budget - nodes@.len(),
        {
            let ghost stack_before = stack@;
            let top = stack.pop();
            match top {
                None => {
                    proof {
                        assert(stack_view(stack_before) =~= Seq::<ParseEntry>::empty());
                        assert(full =~= ents);
                    }
                    break;
                },
                Some(entry) => {
                    let ghost e = (entry.0.spec_path(), entry.1, opt_string_view(entry.2));
                    let ghost stack_now = stack@;
                    let ghost path = entry.0.spec_path();
                    let ghost n0 = nodes@.len() as nat;
                    let ghost pk = ts_pre_kids(l, x, path, n0, 0, n0 + 1, (bud - path.len() - 1) as nat);
                    proof {
                        assert(stack_before.last() == entry);
                        assert(stack_view(stack_before).last() == e);
                        assert(stack_view(stack_before).drop_last() =~= stack_view(stack_now));
                        assert(path.len() <= n0);
                        assert(fuel_for(bud, path) == bud - path.len());
                        assert(ts_pre(l, x, path, e.1, e.2, n0, fuel_for(bud, path)) == seq![e] + pk);
                        assert(full == ents + (seq![e] + pk + ts_rest(
                            l,
                            x,
                            stack_view(stack_now),
                            n0 + 1 + pk.len(),
                            bud,
                        )));
                    }
                    let (n, parent, field) = entry;
                    let idx = nodes.len();
                    let (sr, sc) = ts_start_position(&n);
                    let (er, ec) = ts_end_position(&n);
                    let sr = below_max(sr);
                    let sc = below_max(sc);
                    let er = below_max(er);
                    let ec = below_max(ec);
                    nodes.push(
                        SyntaxNode {
                            kind: ts_kind(&n),
                            named: ts_is_named(&n),
                            extra: ts_is_extra(&n),
                            field,
                            start_byte: ts_start_byte(&n),
                            end_byte: ts_end_byte(&n),
                            start_row: sr,
                            start_column: sc,
                            end_row: er,
                            end_column: ec,
                            parent,
                            children: Vec::new(),
                            subtree_end: idx + 1,
                        },
                    );
                    let ghost kids_old = kids@;
                    kids.push(Vec::new());
                    assert(kids_wf(kids@, nodes@.len() as int));
                    let ghost ents_old = ents;
                    proof {
                        ents = ents.push(e);
                        assert(nodes@[idx as int]@ == linked(base_node(l, x, ents[idx as int]), Seq::empty(), (idx + 1) as usize));
                        assert forall|j: int| 0 <= j < ents.len() implies parent_before(#[trigger] ents[j].1, j) by {
                            if j < idx {
                                assert(nodes@[j]@ == linked(base_node(l, x, ents_old[j]), Seq::empty(), (j + 1) as usize));
                                assert(ents[j] == ents_old[j]);
                            }
                        }
                        lemma_kids_of_none(ents, idx, ents.len() as int);
                        assert forall|q: int| 0 <= q < idx implies #[trigger] kids_of(ents, q as usize, idx as int) == kids_of(
                            ents_old,
                            q as usize,
                            idx as int,
                        ) by {
                            lemma_kids_of_prefix(ents, ents_old, q as usize, idx as int);
                        }
                        assert(nodes@[idx as int].parent == parent);
                        if parent is None {
                            assert(idx == 0);
                        }
                        assert forall|j: int, k: int|
                            0 <= j < kids@.len() && 0 <= k < kids@[j]@.len() implies nodes@[
                            #[trigger] kids@[j]@[k] as int].parent == Some(j as usize) by {
                            assert(kids@[j]@[k] < idx);
                        }
                    }
                    match parent {
                        Some(p) => {
                            let ghost before = kids@;
                            let mut cur: Vec<usize> = Vec::new();
                            kids.set_and_swap(p, &mut cur);
                            cur.push(idx);
                            kids.set_and_swap(p, &mut cur);
                            assert(kids_wf(kids@, nodes@.len() as int)) by {
                                assert forall|j: int, k: int|
                                    0 <= j < kids@.len() && 0 <= k < kids@[j]@.len() implies j
                                    < #[trigger] kids@[j]@[k] < nodes@.len() by {
                                    if j != p {
                                        assert(kids@[j] == before[j]);
                                    } else {
                                        if k < before[j]@.len() {
                                            assert(kids@[j]@[k] == before[j]@[k]);
                                        }
                                    }
                                }
                            }
                            assert forall|j: int, k: int|
                                0 <= j < kids@.len() && 0 <= k < kids@[j]@.len() implies nodes@[
                                #[trigger] kids@[j]@[k] as int].parent == Some(j as usize) by {
                                if j != p {
                                    assert(kids@[j] == before[j]);
                                } else {
                                    if k < before[j]@.len() {
                                        assert(kids@[j]@[k] == before[j]@[k]);
                                    }
                                }
                            }
                            assert forall|c: int|
                                0 <= c < nodes@.len() && (#[trigger] nodes@[c]).parent is Some implies kids@[
                                nodes@[c].parent.unwrap() as int]@.contains(c as usize) by {
                                let q = nodes@[c].parent.unwrap() as int;
                                if c == idx {
                                    assert(kids@[p as int]@[kids@[p as int]@.len() - 1] == idx);
                                } else {
                                    assert(before[q]@.contains(c as usize));
                                    let i = choose|i: int| 0 <= i < before[q]@.len() && before[q]@[i] == c as usize;
                                    if q == p {
                                        assert(kids@[q]@[i] == before[q]@[i]);
                                    } else {
                                        assert(kids@[q] == before[q]);
                                    }
                                }
                            }
                        },
                        None => {},
                    }
                    proof {
                        assert forall|q: int| 0 <= q < nodes@.len() implies #[trigger] kids@[q]@ == kids_of(
                            ents,
                            q as usize,
                            nodes@.len() as int,
                        ) by {
                            if q == idx {
                                assert(kids@[q]@ =~= Seq::<usize>::empty());
                            } else {
                                assert(kids_of(ents, q as usize, idx + 1) == kids_of(ents, q as usize, idx as int) + (
                                if ents[idx as int].1 == Some(q as usize) {
                                    seq![idx]
                                } else {
                                    Seq::empty()
                                }));
                                assert(kids_old[q]@ == kids_of(ents_old, q as usize, idx as int));
                                assert(ents[idx as int].1 == parent);
                                if parent == Some(q as usize) {
                                    assert(kids@[q]@ =~= kids_old[q]@.push(idx));
                                } else {
                                    assert(kids@[q] == kids_old[q]);
                                    assert(kids@[q]@ =~= kids_old[q]@ + Seq::<usize>::empty());
                                }
                            }
                        }
                    }
                    let count = ts_child_count(&n);
                    let mut k: u32 = count;
                    assert(stack_view(stack@) =~= stack_view(stack_now) + kid_entries(l, x, path, idx, count as nat));
                    while k > 0
                        invariant
                            forall|j: int| 0 <= j < stack@.len() ==> parent_before((#[trigger] stack@[j]).1, nodes@.len() as int),
                            forall|j: int| 0 <= j < stack@.len() ==> (#[trigger] stack@[j]).1 is Some,
                            idx < nodes@.len(),
                            nodes@.len() == idx + 1,
                            k <= count,
                            count == ts_node_child_count(l, x, path),
                            n.spec_language() == l && n.spec_text() == x && n.spec_path() == path,
                            path.len() <= idx,
                            forall|j: int|
                                0 <= j < stack@.len() ==> (#[trigger] stack@[j]).0.spec_language() == l
                                    && stack@[j].0.spec_text() == x && stack@[j].0.spec_path().len() <= nodes@.len(),
                            stack_view(stack@) == stack_view(stack_now) + kid_entries(l, x, path, idx, k as nat),
                        decreases k,
                    {
                        k = k - 1;
                        match ts_child(&n, k) {
                            Some(c) => {
                                let f = ts_field_name_for_child(&n, k);
                                let ghost before = stack_view(stack@);
                                stack.push((c, Some(idx), f));
                                proof {
                                    assert(stack_view(stack@) =~= before.push((path.push(k as nat), Some(idx), ts_node_child_field(l, x, path, k as nat))));
                                    assert(kid_entries(l, x, path, idx, k as nat) == kid_entries(l, x, path, idx, (k + 1) as nat).push(
                                        (path.push(k as nat), Some(idx), ts_node_child_field(l, x, path, k as nat)),
                                    ));
                                    assert(stack_view(stack@) =~= stack_view(stack_now) + kid_entries(l, x, path, idx, k as nat));
                                }
                            },
                            None => {
                                assert(false);
                            },
                        }
                    }
                    proof {
                        lemma_rest_kids(l, x, stack_view(stack_now), path, idx, 0, n0 + 1, bud);
                        assert(ents == ents_old.push(e));
                        assert(full =~= ents + ts_rest(l, x, stack_view(stack@), nodes@.len() as nat, bud));
                    }
                },
            }
        }
        let ghost nv = nodes@;
        let ghost kv = kids@;
        let res = Self::finish(nodes, kids);
        proof {
            use_type_invariant(&res);
            let t = res@;
            let es = ts_entries(l, x);
            assert forall|j: int| 0 <= j < t.len() implies #[trigger] t[j] == linked(
                base_node(l, x, es[j]),
                kids_of(es, j as usize, es.len() as int),
                t[j].subtree_end,
            ) by {
                assert(t[j] == linked(nv[j]@, kv[j]@, t[j].subtree_end));
                assert(kv[j]@ == kids_of(ents, j as usize, nv.len() as int));
            }
            assert(t[0] == linked(nv[0]@, kv[0]@, t[0].subtree_end));
            assert forall|j: int| 0 < j < t.len() implies (#[trigger] t[j]).parent is Some by {
                assert(t[j] == linked(nv[j]@, kv[j]@, t[j].subtree_end));
            }
            assert forall|j: int, k: int|
                0 <= j < t.len() && 0 <= k < t[j].children.len() implies t[#[trigger] t[j].children[k] as int].parent
                == Some(j as usize) by {
                assert(t[j] == linked(nv[j]@, kv[j]@, t[j].subtree_end));
                let c = kv[j]@[k] as int;
                assert(t[c] == linked(nv[c]@, kv[c]@, t[c].subtree_end));
            }
            assert forall|c: int|
                0 <= c < t.len() && (#[trigger] t[c]).parent is Some implies t[t[c].parent.unwrap() as int].children.contains(
                c as usize,
            ) by {
                assert(t[c] == linked(nv[c]@, kv[c]@, t[c].subtree_end));
                let q = t[c].parent.unwrap() as int;
                assert(node_wf(t, c));
                assert(t[q] == linked(nv[q]@, kv[q]@, t[q].subtree_end));
            }
            assert forall|j: int|
                0 <= j < t.len() implies (#[trigger] t[j]).subtree_end == end_over(
                ends_of(t),
                t[j].children,
                t[j].children.len() as int,
                j + 1,
            ) by {
                assert(t[j] == linked(nv[j]@, kv[j]@, t[j].subtree_end));
            }
            let last = t.len() - 1;
            lemma_root_end_covers(t, last);
            assert(node_wf(t, last));
            assert(node_wf(t, 0));
        }
        res
    }

    /// Moves the children lists into the nodes and computes, from the last
    /// node back to the first, where each subtree ends.
    fn finish(nodes: Vec<SyntaxNode>, kids: Vec<Vec<usize>>) -> (res: SyntaxTree)
        requires
            nodes@.len() == kids@.len(),
            kids_wf(kids@, nodes@.len() as int),
            forall|j: int| 0 <= j < nodes@.len() ==> parent_before((#[trigger] nodes@[j]).parent, j),
            forall|j: int| 0 <= j < nodes@.len() ==> positions_fit((#[trigger] nodes@[j])@),
        ensures
            res@.len() == nodes@.len(),
            forall|j: int|
                0 <= j < nodes@.len() ==> #[trigger] res@[j] == linked(
                    nodes@[j]@,
                    kids@[j]@,
                    res@[j].subtree_end,
                ),
            forall|j: int|
                0 <= j < nodes@.len() ==> (#[trigger] res@[j]).subtree_end == end_over(
                    ends_of(res@),
                    kids@[j]@,
                    kids@[j]@.len() as int,
                    j + 1,
                ),
    {
        let ghost nodes0 = nodes@;
        let ghost kids0 = kids@;
        let n = nodes.len();
        let mut nodes = nodes;
        let mut kids = kids;
        let mut ends: Vec<usize> = Vec::new();
        let mut j: usize = 0;
        while j < n
            invariant
                j <= n,
                ends@.len() == j,
            decreases n - j,
        {
            ends.push(j + 1);
            j = j + 1;
        }
        let mut j: usize = n;
        while j > 0
            invariant
                j <= n == ends@.len() == kids@.len(),
                kids@ == kids0,
                kids_wf(kids@, n as int),
                forall|m: int| j <= m < n ==> m < #[trigger] ends@[m] <= n,
                forall|m: int|
                    j <= m < n ==> #[trigger] ends@[m] == end_over(
                        ends@,
                        kids@[m]@,
                        kids@[m]@.len() as int,
                        m + 1,
                    ),
            decreases j,
        {
            j = j - 1;
            let mut e: usize = j + 1;
            let mut k: usize = 0;
            while k < kids[j].len()
                invariant
                    j < n == ends@.len() == kids@.len(),
                    kids_wf(kids@, n as int),
                    forall|m: int| j < m < n ==> m < #[trigger] ends@[m] <= n,
                    j < e <= n,
                    k <= kids@[j as int]@.len(),
                    e == end_over(ends@, kids@[j as int]@, k as int, j + 1),
                decreases kids@[j as int]@.len() - k,
            {
                let c = kids[j][k];
                assert(j < kids@[j as int]@[k as int] < n);
                if ends[c] > e {
                    e = ends[c];
                }
                k = k + 1;
            }
            let ghost old_ends = ends@;
            ends.set(j, e);
            proof {
                assert forall|m: int| j <= m < n implies #[trigger] ends@[m] == end_over(
                    ends@,
                    kids@[m]@,
                    kids@[m]@.len() as int,
                    m + 1,
                ) by {
                    assert forall|i: int| 0 <= i < kids@[m]@.len() implies #[trigger] kids@[m]@[i]
                        != j && kids@[m]@[i] < old_ends.len() by {
                        assert(m < kids@[m]@[i] < n);
                    }
                    lemma_end_over_update(
                        old_ends,
                        kids@[m]@,
                        kids@[m]@.len() as int,
                        m + 1,
                        j as int,
                        e,
                    );
                }
            }
        }
        let mut j: usize = 0;
        while j < n
            invariant
                j <= n == ends@.len() == kids@.len() == nodes@.len(),
                kids_wf(kids@, n as int),
                forall|m: int| 0 <= m < n ==> m < #[trigger] ends@[m] <= n,
                forall|m: int| 0 <= m < n ==> parent_before((#[trigger] nodes@[m]).parent, m),
                forall|m: int| 0 <= m < n ==> positions_fit((#[trigger] nodes@[m])@),
                forall|m: int| 0 <= m < j ==> (#[trigger] nodes@[m]).subtree_end == ends@[m],
                forall|m: int|
                    0 <= m < j ==> #[trigger] nodes@[m]@ == linked(nodes0[m]@, kids0[m]@, ends@[m]),
                forall|m: int| j <= m < n ==> #[trigger] nodes@[m] == nodes0[m],
                forall|m: int| j <= m < n ==> #[trigger] kids@[m] == kids0[m],
                forall|m: int|
                    0 <= m < n ==> #[trigger] ends@[m] == end_over(
                        ends@,
                        kids0[m]@,
                        kids0[m]@.len() as int,
                        m + 1,
                    ),
                forall|m: int, k: int|
                    0 <= m < j && 0 <= k < nodes@[m].children@.len() ==> m
                        < #[trigger] nodes@[m].children@[k] < n,
            decreases n - j,
        {
            let ghost before = nodes@;
            let mut kid: Vec<usize> = Vec::new();
            kids.set_and_swap(j, &mut kid);
            let mut tmp = SyntaxNode {
                kind: String::new(),
                named: false,
                extra: false,
                field: None,
                start_byte: 0,
                end_byte: 0,
                start_row: 0,
                start_column: 0,
                end_row: 0,
                end_column: 0,
                parent: None,
                children: Vec::new(),
                subtree_end: 0,
            };
            nodes.set_and_swap(j, &mut tmp);
            tmp.children = kid;
            tmp.subtree_end = ends[j];
            nodes.set_and_swap(j, &mut tmp);
            assert(nodes@[j as int].parent == before[j as int].parent);
            assert(nodes@[j as int]@ == linked(nodes0[j as int]@, kids0[j as int]@, ends@[j as int]));
            assert forall|m: int| 0 <= m < n implies parent_before((#[trigger] nodes@[m]).parent, m)
                && positions_fit(nodes@[m]@) by {
                if m != j {
                    assert(nodes@[m] == before[m]);
                }
            }
            j = j + 1;
        }
        let ghost t = nodes@.map_values(|x: SyntaxNode| x@);
        assert forall|i: int| 0 <= i < t.len() implies #[trigger] node_wf(t, i) by {
            assert(t[i] == nodes@[i]@);
        }
        let res = SyntaxTree { nodes };
        proof {
            assert(res@ == t);
            assert(ends_of(t) =~= ends@) by {
                assert forall|m: int| 0 <= m < n implies #[trigger] ends_of(t)[m] == ends@[m] by {
                    assert(t[m] == nodes@[m]@);
                }
            }
            assert forall|m: int| 0 <= m < n implies #[trigger] t[m] == linked(
                nodes0[m]@,
                kids0[m]@,
                t[m].subtree_end,
            ) by {
                assert(t[m] == nodes@[m]@);
            }
        }
        res
    }
}

} // verus!
