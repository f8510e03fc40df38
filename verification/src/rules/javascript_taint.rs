//! Intraprocedural, flow-insensitive taint analysis for JavaScript and
//! TypeScript.
//!
//! - **Per function.** Each `function_declaration`, `function_expression`,
//!   `arrow_function`, `method_definition` and generator body is analyzed
//!   independently; nested scopes are skipped while walking a body and
//!   analyzed on their own.
//! - **Flow-insensitive.** Statements are processed in source order; a
//!   reassignment with a clean right-hand side clears the target's taint.
//! - **Propagation.** Member and subscript expressions, template literals
//!   with a tainted substitution, binary expressions, parenthesized, unary
//!   and sequence wrappers, wrapping calls and method calls on tainted
//!   receivers all carry taint; sanitizer calls collapse to clean.
//! - **Destructuring.** A tainted right-hand side taints every name bound
//!   by an object or array pattern.
//! - **Same-file interprocedural return propagation.** Pass 1 records a
//!   return-taint summary per named function (last write wins); pass 2
//!   re-analyzes every scope with the summaries available.
//!
//! Everything specific to a library is expressed declaratively via
//! [`TaintSpec`].

use vstd::prelude::*;
use vstd::string::*;
use crate::text::{
    after_last, after_last_char, chars_eq, chars_eq_string, chars_of, push_chars, string_of_chars,
    trim_chars, trim_set, TrimSet,
};
use crate::tree::{NodeView, SyntaxTree, tree_wf, node_wf, field_child, field_text, named_children, node_text};
use crate::rules::name_log::{NameLog, LogView, log_get, opt_view};
use crate::rules::go_taint::{assign_all, resolve, resolve_opt, first_some, finding_at};

pub use crate::rules::go_taint::{taint_views, TaintFinding, TaintFindingView};

verus! {

// ─── Public API ───────────────────────────────────────────────────────────

/// A pattern that matches a syntax node for taint analysis.
#[derive(Debug, Clone)]
pub enum NodeMatcher {
    /// A member-expression chain whose leftmost identifier (raw or
    /// alias-resolved) is `root` and whose final property is `field`.
    Attribute { root: String, field: String, description: String },
    /// A call whose callee resolves (raw or via the alias table) to
    /// `canonical`.
    Call { canonical: String, description: String },
    /// A function parameter whose name is in the list (Express-style
    /// handlers `(req, res) => {..}` get `req` tainted on entry).
    ParamName { names: Vec<String>, description: String },
    /// A method call whose final property name is `method`, whatever the
    /// receiver. Only meaningful as a sink.
    MethodName { method: String, description: String },
    /// An assignment whose left side is a member expression with property
    /// `field` (`el.innerHTML = ..`). Only meaningful as a sink.
    MemberAssign { field: String, description: String },
}

pub enum MatcherView {
    Attribute { root: Seq<char>, field: Seq<char>, description: Seq<char> },
    Call { canonical: Seq<char>, description: Seq<char> },
    ParamName { names: Seq<Seq<char>>, description: Seq<char> },
    MethodName { method: Seq<char>, description: Seq<char> },
    MemberAssign { field: Seq<char>, description: Seq<char> },
}

impl View for NodeMatcher {
    type V = MatcherView;

    open spec fn view(&self) -> MatcherView {
        match self {
            NodeMatcher::Attribute { root, field, description } => MatcherView::Attribute {
                root: root@,
                field: field@,
                description: description@,
            },
            NodeMatcher::Call { canonical, description } => MatcherView::Call {
                canonical: canonical@,
                description: description@,
            },
            NodeMatcher::ParamName { names, description } => MatcherView::ParamName {
                names: names@.map_values(|n: String| n@),
                description: description@,
            },
            NodeMatcher::MethodName { method, description } => MatcherView::MethodName {
                method: method@,
                description: description@,
            },
            NodeMatcher::MemberAssign { field, description } => MatcherView::MemberAssign {
                field: field@,
                description: description@,
            },
        }
    }
}

pub open spec fn matcher_description(m: MatcherView) -> Seq<char> {
    match m {
        MatcherView::Attribute { description, .. } => description,
        MatcherView::Call { description, .. } => description,
        MatcherView::ParamName { description, .. } => description,
        MatcherView::MethodName { description, .. } => description,
        MatcherView::MemberAssign { description, .. } => description,
    }
}

impl NodeMatcher {
    pub fn description(&self) -> (res: &str)
        ensures
            res@ == matcher_description(self@),
    {
        match self {
            NodeMatcher::Attribute { description, .. } => description.as_str(),
            NodeMatcher::Call { description, .. } => description.as_str(),
            NodeMatcher::ParamName { description, .. } => description.as_str(),
            NodeMatcher::MethodName { description, .. } => description.as_str(),
            NodeMatcher::MemberAssign { description, .. } => description.as_str(),
        }
    }
}

/// Declarative taint specification consumed by the engine.
#[derive(Debug, Clone)]
pub struct TaintSpec {
    pub sources: Vec<NodeMatcher>,
    pub sinks: Vec<NodeMatcher>,
    pub sanitizers: Vec<NodeMatcher>,
}

pub struct SpecView {
    pub sources: Seq<MatcherView>,
    pub sinks: Seq<MatcherView>,
    pub sanitizers: Seq<MatcherView>,
}

impl View for TaintSpec {
    type V = SpecView;

    open spec fn view(&self) -> SpecView {
        SpecView {
            sources: self.sources@.map_values(|m: NodeMatcher| m@),
            sinks: self.sinks@.map_values(|m: NodeMatcher| m@),
            sanitizers: self.sanitizers@.map_values(|m: NodeMatcher| m@),
        }
    }
}

impl Default for TaintSpec {
    /// A specification with no source, sink or sanitizer.
    fn default() -> (res: TaintSpec)
        ensures
            res.sources@.len() == 0,
            res.sinks@.len() == 0,
            res.sanitizers@.len() == 0,
    {
        TaintSpec { sources: Vec::new(), sinks: Vec::new(), sanitizers: Vec::new() }
    }
}

// ─── Per-file import alias table ──────────────────────────────────────────

/// The first child of node `i`, from the `k`-th on, of the given kind.
pub open spec fn child_of_kind_from(t: Seq<NodeView>, i: int, kind: Seq<char>, k: int) -> Option<usize>
    decreases t[i].children.len() - k,
{
    if k < 0 || k >= t[i].children.len() {
        None
    } else if t[t[i].children[k] as int].kind == kind {
        Some(t[i].children[k])
    } else {
        child_of_kind_from(t, i, kind, k + 1)
    }
}

/// The text of a string literal without its quotes: that of its
/// `string_fragment`, or (for an empty literal) its text with quotes,
/// apostrophes and backticks trimmed.
pub open spec fn string_literal_text(src: Seq<u8>, t: Seq<NodeView>, i: int) -> Seq<char> {
    match child_of_kind_from(t, i, "string_fragment"@, 0) {
        Some(f) => node_text(src, t[f as int]),
        None => trim_set(node_text(src, t[i]), TrimSet::AnyQuote),
    }
}

pub open spec fn dotted(a: Seq<char>, b: Seq<char>) -> Seq<char> {
    a + seq!['.'] + b
}

/// `import * as ns from ".."`: the identifiers among children `0 .. k`.
pub open spec fn add_namespace(src: Seq<u8>, t: Seq<NodeView>, l: LogView, ns: int, module: Seq<char>, k: int) -> LogView
    decreases k,
{
    if k <= 0 {
        l
    } else {
        let prev = add_namespace(src, t, l, ns, module, k - 1);
        let c = t[ns].children[k - 1] as int;
        if t[c].kind == "identifier"@ {
            prev.push((node_text(src, t[c]), Some(module)))
        } else {
            prev
        }
    }
}

/// `import { a, b as c } from ".."`: the specifiers among children `0 .. k`.
pub open spec fn add_named(src: Seq<u8>, t: Seq<NodeView>, l: LogView, ni: int, module: Seq<char>, k: int) -> LogView
    decreases k,
{
    if k <= 0 {
        l
    } else {
        let prev = add_named(src, t, l, ni, module, k - 1);
        let c = t[ni].children[k - 1] as int;
        if t[c].kind == "import_specifier"@ {
            match field_text(src, t, c, "name"@) {
                Some(orig) => {
                    let local = match field_text(src, t, c, "alias"@) {
                        Some(a) => a,
                        None => orig,
                    };
                    prev.push((local, Some(dotted(module, orig))))
                },
                None => prev,
            }
        } else {
            prev
        }
    }
}

/// The entries of an `import_clause`, children `0 .. k`.
pub open spec fn add_clause(src: Seq<u8>, t: Seq<NodeView>, l: LogView, cl: int, module: Seq<char>, k: int) -> LogView
    decreases k,
{
    if k <= 0 {
        l
    } else {
        let prev = add_clause(src, t, l, cl, module, k - 1);
        let c = t[cl].children[k - 1] as int;
        if t[c].kind == "identifier"@ {
            prev.push((node_text(src, t[c]), Some(module)))
        } else if t[c].kind == "namespace_import"@ {
            add_namespace(src, t, prev, c, module, t[c].children.len() as int)
        } else if t[c].kind == "named_imports"@ {
            add_named(src, t, prev, c, module, t[c].children.len() as int)
        } else {
            prev
        }
    }
}

/// The import clauses among children `0 .. k` of an `import_statement`.
pub open spec fn add_clauses(src: Seq<u8>, t: Seq<NodeView>, l: LogView, st: int, module: Seq<char>, k: int) -> LogView
    decreases k,
{
    if k <= 0 {
        l
    } else {
        let prev = add_clauses(src, t, l, st, module, k - 1);
        let c = t[st].children[k - 1] as int;
        if t[c].kind == "import_clause"@ {
            add_clause(src, t, prev, c, module, t[c].children.len() as int)
        } else {
            prev
        }
    }
}

/// What an `import_statement` adds: each local name bound to the module
/// (default and namespace imports) or to `module.name` (named imports).
pub open spec fn add_import(src: Seq<u8>, t: Seq<NodeView>, l: LogView, st: int) -> LogView {
    match field_child(t, st, "source"@) {
        None => l,
        Some(s) => {
            let module = string_literal_text(src, t, s as int);
            if module.len() == 0 {
                l
            } else {
                add_clauses(src, t, l, st, module, t[st].children.len() as int)
            }
        },
    }
}

/// The first string literal among the expressions `xs[k..]`.
pub open spec fn first_string_arg(src: Seq<u8>, t: Seq<NodeView>, xs: Seq<usize>, k: int) -> Option<Seq<char>>
    decreases xs.len() - k,
{
    if k < 0 || k >= xs.len() {
        None
    } else if t[xs[k] as int].kind == "string"@ {
        Some(string_literal_text(src, t, xs[k] as int))
    } else {
        first_string_arg(src, t, xs, k + 1)
    }
}

/// The module of a `require("..")` call.
pub open spec fn require_module(src: Seq<u8>, t: Seq<NodeView>, v: int) -> Option<Seq<char>> {
    if t[v].kind != "call_expression"@ {
        None
    } else {
        match field_child(t, v, "function"@) {
            None => None,
            Some(f) => if t[f as int].kind != "identifier"@ || node_text(src, t[f as int]) != "require"@ {
                None
            } else {
                match field_child(t, v, "arguments"@) {
                    None => None,
                    Some(a) => first_string_arg(src, t, named_children(t, a as int), 0),
                }
            },
        }
    }
}

/// `const { a, b: c } = require("m")`: the bindings among children `0 .. k`.
pub open spec fn add_object_pattern(src: Seq<u8>, t: Seq<NodeView>, l: LogView, p: int, module: Seq<char>, k: int) -> LogView
    decreases k,
{
    if k <= 0 {
        l
    } else {
        let prev = add_object_pattern(src, t, l, p, module, k - 1);
        let c = t[p].children[k - 1] as int;
        if t[c].kind == "shorthand_property_identifier_pattern"@ {
            let local = node_text(src, t[c]);
            prev.push((local, Some(dotted(module, local))))
        } else if t[c].kind == "pair_pattern"@ {
            match (field_text(src, t, c, "key"@), field_text(src, t, c, "value"@)) {
                (Some(key), Some(value)) => prev.push((value, Some(dotted(module, key)))),
                _ => prev,
            }
        } else {
            prev
        }
    }
}

/// What the `require` declarators among children `0 .. k` of a
/// declaration add.
pub open spec fn add_require_decl(src: Seq<u8>, t: Seq<NodeView>, l: LogView, d: int, k: int) -> LogView
    decreases k,
{
    if k <= 0 {
        l
    } else {
        let prev = add_require_decl(src, t, l, d, k - 1);
        let c = t[d].children[k - 1] as int;
        if t[c].kind != "variable_declarator"@ {
            prev
        } else {
            match field_child(t, c, "value"@) {
                None => prev,
                Some(v) => match require_module(src, t, v as int) {
                    None => prev,
                    Some(module) => match field_child(t, c, "name"@) {
                        None => prev,
                        Some(nm) => if t[nm as int].kind == "identifier"@ {
                            prev.push((node_text(src, t[nm as int]), Some(module)))
                        } else if t[nm as int].kind == "object_pattern"@ {
                            add_object_pattern(src, t, prev, nm as int, module, t[nm as int].children.len() as int)
                        } else {
                            prev
                        },
                    },
                },
            }
        }
    }
}

/// Container kinds the import scan descends into.
pub open spec fn import_container(k: Seq<char>) -> bool {
    k == "program"@ || k == "statement_block"@ || k == "if_statement"@ || k == "try_statement"@
        || k == "labeled_statement"@ || k == "export_statement"@
}

/// The imports and `require`s among children `0 .. k` of `node`, and
/// inside the top-level blocks and conditionals among them.
pub open spec fn imports_in(src: Seq<u8>, t: Seq<NodeView>, l: LogView, node: int, k: int) -> LogView
    decreases t.len() - node, k,
{
    if k <= 0 || !(0 <= node < t.len()) || k > t[node].children.len() {
        l
    } else {
        let prev = imports_in(src, t, l, node, k - 1);
        let c = t[node].children[k - 1] as int;
        if t[c].kind == "import_statement"@ {
            add_import(src, t, prev, c)
        } else if t[c].kind == "lexical_declaration"@ || t[c].kind == "variable_declaration"@ {
            add_require_decl(src, t, prev, c, t[c].children.len() as int)
        } else if import_container(t[c].kind) && node < c < t.len() {
            imports_in(src, t, prev, c, t[c].children.len() as int)
        } else {
            prev
        }
    }
}

/// The alias table of a file.
pub open spec fn js_aliases_of(src: Seq<u8>, t: Seq<NodeView>) -> LogView {
    if t.len() == 0 {
        Seq::empty()
    } else {
        imports_in(src, t, Seq::empty(), 0, t[0].children.len() as int)
    }
}

/// Per-file JavaScript / TypeScript import alias table: a local name maps
/// to the canonical dotted path it was imported as.
///
/// - `import { loads } from "pickle"`: `loads` → `pickle.loads`
/// - `import { loads as d } from "pickle"`: `d` → `pickle.loads`
/// - `import foo from "bar"`: `foo` → `bar`
/// - `import * as ns from "mod"`: `ns` → `mod`
/// - `const pk = require("pickle")`: `pk` → `pickle`
/// - `const { loads } = require("pickle")`: `loads` → `pickle.loads`
/// - `const { loads: l2 } = require("pickle")`: `l2` → `pickle.loads`
#[derive(Debug, Clone)]
pub struct JsImportAliases {
    map: NameLog,
}

impl View for JsImportAliases {
    type V = LogView;

    closed spec fn view(&self) -> LogView {
        self.map@
    }
}

} // verus!

verus! {

fn child_of_kind(tree: &SyntaxTree, i: usize, kind: &str) -> (res: Option<usize>)
    requires
        i < tree@.len(),
    ensures
        res == child_of_kind_from(tree@, i as int, kind@, 0),
        res matches Some(c) ==> i < c < tree@.len(),
{
    let n = tree.len();
    let ghost t = tree@;
    let node = tree.node(i);
    let mut k: usize = 0;
    while k < node.children.len()
        invariant
            t == tree@,
            tree_wf(t),
            n == t.len(),
            i < n,
            node@ == t[i as int],
            k <= node.children@.len(),
            child_of_kind_from(t, i as int, kind@, 0) == child_of_kind_from(t, i as int, kind@, k as int),
        decreases node.children@.len() - k,
    {
        let c = node.children[k];
        assert(node_wf(t, i as int));
        assert(t[i as int].children[k as int] == c);
        if tree.kind_is(c, kind) {
            return Some(c);
        }
        k = k + 1;
    }
    None
}

fn string_literal_exec(tree: &SyntaxTree, src: &[u8], i: usize) -> (res: Vec<char>)
    requires
        i < tree@.len(),
    ensures
        res@ == string_literal_text(src@, tree@, i as int),
{
    match child_of_kind(tree, i, "string_fragment") {
        Some(f) => tree.text(src, f),
        None => {
            let raw = tree.text(src, i);
            trim_chars(raw.as_slice(), TrimSet::AnyQuote)
        },
    }
}

fn dotted_exec(a: &Vec<char>, b: &[char]) -> (res: String)
    ensures
        res@ == dotted(a@, b@),
{
    let mut v = a.clone();
    v.push('.');
    push_chars(&mut v, b);
    string_of_chars(v.as_slice())
}

impl JsImportAliases {
    /// The alias table of the file whose tree is given.
    pub fn from_tree(source: &str, tree: &SyntaxTree) -> (res: JsImportAliases)
        ensures
            res@ == js_aliases_of(source.spec_bytes(), tree@),
    {
        let src = source.as_bytes();
        let mut map = NameLog::new();
        if tree.len() == 0 {
            return JsImportAliases { map };
        }
        Self::walk_for_imports(&mut map, tree, src, 0);
        JsImportAliases { map }
    }

    fn walk_for_imports(map: &mut NameLog, tree: &SyntaxTree, src: &[u8], node: usize)
        requires
            node < tree@.len(),
        ensures
            final(map)@ == imports_in(src@, tree@, old(map)@, node as int, tree@[node as int].children.len() as int),
        decreases tree@.len() - node,
    {
        let n = tree.len();
        let ghost t = tree@;
        let nd = tree.node(node);
        let mut k: usize = 0;
        while k < nd.children.len()
            invariant
                t == tree@,
                tree_wf(t),
                n == t.len(),
                node < n,
                nd@ == t[node as int],
                k <= nd.children@.len(),
                map@ == imports_in(src@, t, old(map)@, node as int, k as int),
            decreases nd.children@.len() - k,
        {
            let c = nd.children[k];
            assert(node_wf(t, node as int));
            assert(t[node as int].children[k as int] == c);
            if tree.kind_is(c, "import_statement") {
                Self::collect_import(map, tree, src, c);
            } else if tree.kind_is(c, "lexical_declaration") || tree.kind_is(c, "variable_declaration") {
                Self::collect_require_decl(map, tree, src, c);
            } else if tree.kind_is(c, "program") || tree.kind_is(c, "statement_block") || tree.kind_is(
                c,
                "if_statement",
            ) || tree.kind_is(c, "try_statement") || tree.kind_is(c, "labeled_statement") || tree.kind_is(
                c,
                "export_statement",
            ) {
                Self::walk_for_imports(map, tree, src, c);
            }
            k = k + 1;
        }
    }

    fn collect_import(map: &mut NameLog, tree: &SyntaxTree, src: &[u8], st: usize)
        requires
            st < tree@.len(),
        ensures
            final(map)@ == add_import(src@, tree@, old(map)@, st as int),
    {
        let n = tree.len();
        let ghost t = tree@;
        let s = match tree.child_by_field(st, "source") {
            Some(s) => s,
            None => {
                return;
            },
        };
        let module = string_literal_exec(tree, src, s);
        if module.len() == 0 {
            return;
        }
        let nd = tree.node(st);
        let mut k: usize = 0;
        while k < nd.children.len()
            invariant
                t == tree@,
                tree_wf(t),
                n == t.len(),
                st < n,
                nd@ == t[st as int],
                k <= nd.children@.len(),
                map@ == add_clauses(src@, t, old(map)@, st as int, module@, k as int),
            decreases nd.children@.len() - k,
        {
            let c = nd.children[k];
            assert(node_wf(t, st as int));
            assert(t[st as int].children[k as int] == c);
            if tree.kind_is(c, "import_clause") {
                Self::collect_clause(map, tree, src, c, &module);
            }
            k = k + 1;
        }
    }

    fn collect_clause(map: &mut NameLog, tree: &SyntaxTree, src: &[u8], cl: usize, module: &Vec<char>)
        requires
            cl < tree@.len(),
        ensures
            final(map)@ == add_clause(src@, tree@, old(map)@, cl as int, module@, tree@[cl as int].children.len() as int),
    {
        let n = tree.len();
        let ghost t = tree@;
        let nd = tree.node(cl);
        let mut k: usize = 0;
        while k < nd.children.len()
            invariant
                t == tree@,
                tree_wf(t),
                n == t.len(),
                cl < n,
                nd@ == t[cl as int],
                k <= nd.children@.len(),
                map@ == add_clause(src@, t, old(map)@, cl as int, module@, k as int),
            decreases nd.children@.len() - k,
        {
            let c = nd.children[k];
            assert(node_wf(t, cl as int));
            assert(t[cl as int].children[k as int] == c);
            if tree.kind_is(c, "identifier") {
                let local = tree.text(src, c);
                map.insert(string_of_chars(local.as_slice()), string_of_chars(module.as_slice()));
            } else if tree.kind_is(c, "namespace_import") {
                let inner = tree.node(c);
                let ghost before = map@;
                let mut m: usize = 0;
                while m < inner.children.len()
                    invariant
                        t == tree@,
                        tree_wf(t),
                        n == t.len(),
                        c < n,
                        inner@ == t[c as int],
                        m <= inner.children@.len(),
                        map@ == add_namespace(src@, t, before, c as int, module@, m as int),
                    decreases inner.children@.len() - m,
                {
                    let x = inner.children[m];
                    assert(node_wf(t, c as int));
                    assert(t[c as int].children[m as int] == x);
                    if tree.kind_is(x, "identifier") {
                        let local = tree.text(src, x);
                        map.insert(string_of_chars(local.as_slice()), string_of_chars(module.as_slice()));
                    }
                    m = m + 1;
                }
            } else if tree.kind_is(c, "named_imports") {
                let inner = tree.node(c);
                let ghost before = map@;
                let mut m: usize = 0;
                while m < inner.children.len()
                    invariant
                        t == tree@,
                        tree_wf(t),
                        n == t.len(),
                        c < n,
                        inner@ == t[c as int],
                        m <= inner.children@.len(),
                        map@ == add_named(src@, t, before, c as int, module@, m as int),
                    decreases inner.children@.len() - m,
                {
                    let x = inner.children[m];
                    assert(node_wf(t, c as int));
                    assert(t[c as int].children[m as int] == x);
                    if tree.kind_is(x, "import_specifier") {
                        match tree.field_text(src, x, "name") {
                            Some(orig) => {
                                let local = match tree.field_text(src, x, "alias") {
                                    Some(a) => a,
                                    None => orig.clone(),
                                };
                                map.insert(string_of_chars(local.as_slice()), dotted_exec(module, orig.as_slice()));
                            },
                            None => {},
                        }
                    }
                    m = m + 1;
                }
            }
            k = k + 1;
        }
    }

    fn require_module_exec(tree: &SyntaxTree, src: &[u8], v: usize) -> (res: Option<Vec<char>>)
        requires
            v < tree@.len(),
        ensures
            match res {
                Some(m) => require_module(src@, tree@, v as int) == Some(m@),
                None => require_module(src@, tree@, v as int) is None,
            },
    {
        let n = tree.len();
        if !tree.kind_is(v, "call_expression") {
            return None;
        }
        let f = match tree.child_by_field(v, "function") {
            Some(f) => f,
            None => {
                return None;
            },
        };
        if !tree.kind_is(f, "identifier") {
            return None;
        }
        let ft = tree.text(src, f);
        if !chars_eq(ft.as_slice(), chars_of("require").as_slice()) {
            return None;
        }
        let a = match tree.child_by_field(v, "arguments") {
            Some(a) => a,
            None => {
                return None;
            },
        };
        let xs = tree.named_children(a);
        proof {
            crate::tree::lemma_accessors_in_bounds(tree@, a as int);
        }
        assert(require_module(src@, tree@, v as int) == first_string_arg(src@, tree@, xs@, 0));
        let mut k: usize = 0;
        while k < xs.len()
            invariant
                n == tree@.len(),
                require_module(src@, tree@, v as int) == first_string_arg(src@, tree@, xs@, 0),
                xs@ == named_children(tree@, a as int),
                forall|j: int| 0 <= j < xs@.len() ==> a < #[trigger] xs@[j] < n,
                k <= xs@.len(),
                first_string_arg(src@, tree@, xs@, 0) == first_string_arg(src@, tree@, xs@, k as int),
            decreases xs@.len() - k,
        {
            let x = xs[k];
            assert(a < xs@[k as int] < n);
            if tree.kind_is(x, "string") {
                return Some(string_literal_exec(tree, src, x));
            }
            k = k + 1;
        }
        None
    }

    fn collect_require_decl(map: &mut NameLog, tree: &SyntaxTree, src: &[u8], d: usize)
        requires
            d < tree@.len(),
        ensures
            final(map)@ == add_require_decl(src@, tree@, old(map)@, d as int, tree@[d as int].children.len() as int),
    {
        let n = tree.len();
        let ghost t = tree@;
        let nd = tree.node(d);
        let mut k: usize = 0;
        while k < nd.children.len()
            invariant
                t == tree@,
                tree_wf(t),
                n == t.len(),
                d < n,
                nd@ == t[d as int],
                k <= nd.children@.len(),
                map@ == add_require_decl(src@, t, old(map)@, d as int, k as int),
            decreases nd.children@.len() - k,
        {
            let c = nd.children[k];
            assert(node_wf(t, d as int));
            assert(t[d as int].children[k as int] == c);
            if tree.kind_is(c, "variable_declarator") {
                match tree.child_by_field(c, "value") {
                    None => {},
                    Some(v) => match Self::require_module_exec(tree, src, v) {
                        None => {},
                        Some(module) => match tree.child_by_field(c, "name") {
                            None => {},
                            Some(nm) => {
                                if tree.kind_is(nm, "identifier") {
                                    let local = tree.text(src, nm);
                                    map.insert(string_of_chars(local.as_slice()), string_of_chars(module.as_slice()));
                                } else if tree.kind_is(nm, "object_pattern") {
                                    Self::collect_object_pattern(map, tree, src, nm, &module);
                                }
                            },
                        },
                    },
                }
            }
            k = k + 1;
        }
    }

    fn collect_object_pattern(map: &mut NameLog, tree: &SyntaxTree, src: &[u8], p: usize, module: &Vec<char>)
        requires
            p < tree@.len(),
        ensures
            final(map)@ == add_object_pattern(src@, tree@, old(map)@, p as int, module@, tree@[p as int].children.len() as int),
    {
        let n = tree.len();
        let ghost t = tree@;
        let nd = tree.node(p);
        let mut k: usize = 0;
        while k < nd.children.len()
            invariant
                t == tree@,
                tree_wf(t),
                n == t.len(),
                p < n,
                nd@ == t[p as int],
                k <= nd.children@.len(),
                map@ == add_object_pattern(src@, t, old(map)@, p as int, module@, k as int),
            decreases nd.children@.len() - k,
        {
            let c = nd.children[k];
            assert(node_wf(t, p as int));
            assert(t[p as int].children[k as int] == c);
            if tree.kind_is(c, "shorthand_property_identifier_pattern") {
                let local = tree.text(src, c);
                map.insert(string_of_chars(local.as_slice()), dotted_exec(module, local.as_slice()));
            } else if tree.kind_is(c, "pair_pattern") {
                match (tree.field_text(src, c, "key"), tree.field_text(src, c, "value")) {
                    (Some(key), Some(value)) => {
                        map.insert(string_of_chars(value.as_slice()), dotted_exec(module, key.as_slice()));
                    },
                    _ => {},
                }
            }
            k = k + 1;
        }
    }

    /// Resolve a call-site callee text back to its canonical dotted path:
    /// `p.loads` → `pickle.loads` when `p` is aliased to `pickle`.
    pub fn resolve_chars(&self, callee: &[char]) -> (res: Vec<char>)
        ensures
            res@ == resolve(self@, callee@),
    {
        crate::rules::go_taint::resolve_in(&self.map, callee)
    }

    /// Resolve a call-site callee text back to its canonical dotted path.
    pub fn resolve(&self, callee: &str) -> (res: String)
        ensures
            res@ == resolve(self@, callee@),
    {
        let c = chars_of(callee);
        let r = self.resolve_chars(c.as_slice());
        string_of_chars(r.as_slice())
    }

    /// The canonical path recorded for a local name.
    pub fn get(&self, local: &str) -> (res: Option<&str>)
        ensures
            match res {
                Some(s) => log_get(self@, local@) == Some(s@),
                None => log_get(self@, local@) is None,
            },
    {
        match self.map.get(local) {
            Some(s) => Some(s.as_str()),
            None => None,
        }
    }
}

} // verus!

verus! {

// ─── The analysis, stated ─────────────────────────────────────────────────

/// Everything the analysis of one file reads.
pub struct Ctx {
    pub src: Seq<u8>,
    pub t: Seq<NodeView>,
    pub spec: SpecView,
    pub aliases: Option<LogView>,
}

pub open spec fn text_of(c: Ctx, i: int) -> Seq<char> {
    node_text(c.src, c.t[i])
}

/// Node kinds that open a fresh taint scope (a function body).
pub open spec fn function_scope(k: Seq<char>) -> bool {
    k == "function_declaration"@ || k == "function_expression"@ || k == "arrow_function"@ || k
        == "method_definition"@ || k == "generator_function"@ || k == "generator_function_declaration"@
}

/// The leftmost identifier of a member / subscript chain (`req` for
/// `req.body.name`).
pub open spec fn leftmost_identifier(c: Ctx, i: int) -> Option<Seq<char>>
    decreases c.t.len() - i,
{
    if !(0 <= i < c.t.len()) {
        None
    } else if c.t[i].kind == "identifier"@ {
        Some(text_of(c, i))
    } else if c.t[i].kind == "member_expression"@ || c.t[i].kind == "subscript_expression"@ {
        match field_child(c.t, i, "object"@) {
            Some(o) => if i < o < c.t.len() {
                leftmost_identifier(c, o as int)
            } else {
                None
            },
            None => None,
        }
    } else {
        None
    }
}

/// `name` equals `target`, directly or once resolved through the aliases.
pub open spec fn names_match(c: Ctx, name: Seq<char>, target: Seq<char>) -> bool {
    name == target || (c.aliases is Some && resolve(c.aliases.unwrap(), name) == target)
}

/// The description a source matcher reports for node `i`, if it matches.
pub open spec fn source_hit(c: Ctx, i: int, m: MatcherView) -> Option<Seq<char>> {
    match m {
        MatcherView::Attribute { root, field, description } => if c.t[i].kind == "member_expression"@
            && field_text(c.src, c.t, i, "property"@) == Some(field) && (match leftmost_identifier(c, i) {
            Some(r) => names_match(c, r, root),
            None => false,
        }) {
            Some(description)
        } else {
            None
        },
        MatcherView::Call { canonical, description } => if c.t[i].kind == "call_expression"@ && (
        match field_text(c.src, c.t, i, "function"@) {
            Some(f) => names_match(c, f, canonical),
            None => false,
        }) {
            Some(description)
        } else {
            None
        },
        _ => None,
    }
}

pub open spec fn match_source_from(c: Ctx, i: int, k: int) -> Option<Seq<char>>
    decreases c.spec.sources.len() - k,
{
    if k < 0 || k >= c.spec.sources.len() {
        None
    } else {
        first_some(source_hit(c, i, c.spec.sources[k]), match_source_from(c, i, k + 1))
    }
}

/// The first source matcher that matches node `i`.
pub open spec fn match_source(c: Ctx, i: int) -> Option<Seq<char>> {
    match_source_from(c, i, 0)
}

pub open spec fn sanitizer_hit(c: Ctx, callee: Seq<char>, m: MatcherView) -> bool {
    match m {
        MatcherView::Call { canonical, .. } => callee == canonical || resolve_opt(c.aliases, callee)
            == canonical,
        _ => false,
    }
}

/// Node `i` is a call whose callee is a declared sanitizer.
pub open spec fn is_sanitizer_call(c: Ctx, i: int) -> bool {
    c.t[i].kind == "call_expression"@ && match field_text(c.src, c.t, i, "function"@) {
        Some(f) => exists|k: int|
            0 <= k < c.spec.sanitizers.len() && #[trigger] sanitizer_hit(c, f, c.spec.sanitizers[k]),
        None => false,
    }
}

/// Taint through a return summary: a bare call `helper(..)` whose name has
/// a tainted summary.
pub open spec fn summary_taint(c: Ctx, sums: LogView, f: int) -> Option<Seq<char>> {
    if c.t[f].kind == "identifier"@ {
        match log_get(sums, text_of(c, f)) {
            Some(d) => Some(d + " (via "@ + text_of(c, f) + ")"@),
            None => None,
        }
    } else {
        None
    }
}

/// The description of the taint that expression `i` carries, if any.
pub open spec fn expr_taint(c: Ctx, st: LogView, sums: LogView, i: int) -> Option<Seq<char>>
    decreases c.t.len() - i + 1, 0int,
{
    if !(0 <= i < c.t.len()) {
        None
    } else {
        let k = c.t[i].kind;
        let ms = match_source(c, i);
        if ms is Some {
            ms
        } else if k == "identifier"@ {
            log_get(st, text_of(c, i))
        } else if k == "member_expression"@ || k == "subscript_expression"@ {
            match field_child(c.t, i, "object"@) {
                Some(o) => if i < o < c.t.len() {
                    expr_taint(c, st, sums, o as int)
                } else {
                    None
                },
                None => None,
            }
        } else if k == "template_string"@ {
            template_taint(c, st, sums, i, c.t[i].children, 0)
        } else if k == "binary_expression"@ || k == "parenthesized_expression"@ || k
            == "unary_expression"@ || k == "sequence_expression"@ {
            list_taint(c, st, sums, i, named_children(c.t, i), 0)
        } else if k == "call_expression"@ {
            if is_sanitizer_call(c, i) {
                None
            } else {
                let a = match field_child(c.t, i, "arguments"@) {
                    Some(args) => if i < args < c.t.len() {
                        list_taint(c, st, sums, args as int, named_children(c.t, args as int), 0)
                    } else {
                        None
                    },
                    None => None,
                };
                if a is Some {
                    a
                } else {
                    match field_child(c.t, i, "function"@) {
                        None => None,
                        Some(f) => if !(i < f < c.t.len()) {
                            None
                        } else {
                            let m = if c.t[f as int].kind == "member_expression"@ {
                                match field_child(c.t, f as int, "object"@) {
                                    Some(o) => if f < o < c.t.len() {
                                        expr_taint(c, st, sums, o as int)
                                    } else {
                                        None
                                    },
                                    None => None,
                                }
                            } else {
                                None
                            };
                            if m is Some {
                                m
                            } else {
                                summary_taint(c, sums, f as int)
                            }
                        },
                    }
                }
            }
        } else {
            None
        }
    }
}

/// The first taint among the expressions `list[k..]`, all children of
/// node `parent`.
pub open spec fn list_taint(
    c: Ctx,
    st: LogView,
    sums: LogView,
    parent: int,
    list: Seq<usize>,
    k: int,
) -> Option<Seq<char>>
    decreases c.t.len() - parent, list.len() - k,
{
    if k < 0 || k >= list.len() {
        None
    } else {
        let x = list[k];
        let r = if parent < x < c.t.len() {
            expr_taint(c, st, sums, x as int)
        } else {
            None
        };
        if r is Some {
            r
        } else {
            list_taint(c, st, sums, parent, list, k + 1)
        }
    }
}

/// The first taint inside the `template_substitution` children `list[k..]`
/// of template string `parent`.
pub open spec fn template_taint(
    c: Ctx,
    st: LogView,
    sums: LogView,
    parent: int,
    list: Seq<usize>,
    k: int,
) -> Option<Seq<char>>
    decreases c.t.len() - parent, list.len() - k,
{
    if k < 0 || k >= list.len() {
        None
    } else {
        let x = list[k];
        let r = if parent < x < c.t.len() && c.t[x as int].kind == "template_substitution"@ {
            list_taint(c, st, sums, x as int, named_children(c.t, x as int), 0)
        } else {
            None
        };
        if r is Some {
            r
        } else {
            template_taint(c, st, sums, parent, list, k + 1)
        }
    }
}

/// The first taint among the expressions `xs[k..]`.
pub open spec fn first_taint_of(c: Ctx, st: LogView, sums: LogView, xs: Seq<usize>, k: int) -> Option<
    Seq<char>,
>
    decreases xs.len() - k,
{
    if k < 0 || k >= xs.len() {
        None
    } else {
        first_some(expr_taint(c, st, sums, xs[k] as int), first_taint_of(c, st, sums, xs, k + 1))
    }
}

/// The identifiers among the expressions `xs[k..]`.
pub open spec fn rest_identifiers(c: Ctx, xs: Seq<usize>, k: int) -> Seq<Seq<char>>
    decreases xs.len() - k,
{
    if k < 0 || k >= xs.len() {
        Seq::empty()
    } else {
        (if 0 <= xs[k] < c.t.len() && c.t[xs[k] as int].kind == "identifier"@ {
            seq![text_of(c, xs[k] as int)]
        } else {
            Seq::empty()
        }) + rest_identifiers(c, xs, k + 1)
    }
}

/// The names bound by the pattern elements `xs[k..]`, children of pattern
/// `p`, in order: identifiers and shorthand properties, the value of each
/// `key: value` pair, nested patterns and `...rest` elements.
pub open spec fn targets_from(c: Ctx, p: int, xs: Seq<usize>, k: int) -> Seq<Seq<char>>
    decreases c.t.len() - p, xs.len() - k,
{
    if k < 0 || k >= xs.len() {
        Seq::empty()
    } else {
        let x = xs[k] as int;
        let here = if !(p < x < c.t.len()) {
            Seq::empty()
        } else {
            let kx = c.t[x].kind;
            if kx == "identifier"@ || kx == "shorthand_property_identifier_pattern"@ {
                seq![text_of(c, x)]
            } else if kx == "pair_pattern"@ {
                match field_child(c.t, x, "value"@) {
                    Some(v) => if !(x < v < c.t.len()) {
                        Seq::empty()
                    } else if c.t[v as int].kind == "identifier"@ {
                        seq![text_of(c, v as int)]
                    } else if c.t[v as int].kind == "object_pattern"@ || c.t[v as int].kind
                        == "array_pattern"@ {
                        targets_from(c, v as int, named_children(c.t, v as int), 0)
                    } else {
                        Seq::empty()
                    },
                    None => Seq::empty(),
                }
            } else if kx == "object_pattern"@ || kx == "array_pattern"@ {
                targets_from(c, x, named_children(c.t, x), 0)
            } else if kx == "rest_pattern"@ {
                rest_identifiers(c, named_children(c.t, x), 0)
            } else {
                Seq::empty()
            }
        };
        here + targets_from(c, p, xs, k + 1)
    }
}

/// The names a destructuring pattern binds.
pub open spec fn destructuring_targets(c: Ctx, p: int) -> Seq<Seq<char>> {
    targets_from(c, p, named_children(c.t, p), 0)
}

pub open spec fn is_pattern(k: Seq<char>) -> bool {
    k == "object_pattern"@ || k == "array_pattern"@
}

/// `target = value` / `let target = value`: an identifier takes the taint
/// of the value (or is cleared); every name a pattern binds does too.
pub open spec fn bind(c: Ctx, st: LogView, sums: LogView, target: int, value: int) -> LogView {
    if c.t[target].kind == "identifier"@ {
        st.push((text_of(c, target), expr_taint(c, st, sums, value)))
    } else if is_pattern(c.t[target].kind) {
        assign_all(st, destructuring_targets(c, target), expr_taint(c, st, sums, value), 0)
    } else {
        st
    }
}

/// The state after node `i`.
pub open spec fn step(c: Ctx, st: LogView, sums: LogView, i: int) -> LogView {
    let k = c.t[i].kind;
    if k == "variable_declarator"@ {
        match (field_child(c.t, i, "name"@), field_child(c.t, i, "value"@)) {
            (Some(nm), Some(v)) => bind(c, st, sums, nm as int, v as int),
            _ => st,
        }
    } else if k == "assignment_expression"@ {
        match (field_child(c.t, i, "left"@), field_child(c.t, i, "right"@)) {
            (Some(l), Some(r)) => if c.t[l as int].kind == "member_expression"@ {
                st
            } else {
                bind(c, st, sums, l as int, r as int)
            },
            _ => st,
        }
    } else {
        st
    }
}

/// The first call or method sink matching the resolved callee or its final
/// segment.
pub open spec fn sink_match(c: Ctx, resolved: Seq<char>, fin: Seq<char>, k: int) -> Option<Seq<char>>
    decreases c.spec.sinks.len() - k,
{
    if k < 0 || k >= c.spec.sinks.len() {
        None
    } else {
        let h = match c.spec.sinks[k] {
            MatcherView::Call { canonical, description } => if canonical == resolved {
                Some(description)
            } else {
                None
            },
            MatcherView::MethodName { method, description } => if method == fin {
                Some(description)
            } else {
                None
            },
            _ => None,
        };
        first_some(h, sink_match(c, resolved, fin, k + 1))
    }
}

/// The first member-assignment sink for the property.
pub open spec fn member_sink(c: Ctx, prop: Seq<char>, k: int) -> Option<Seq<char>>
    decreases c.spec.sinks.len() - k,
{
    if k < 0 || k >= c.spec.sinks.len() {
        None
    } else {
        match c.spec.sinks[k] {
            MatcherView::MemberAssign { field, description } => if field == prop {
                Some(description)
            } else {
                member_sink(c, prop, k + 1)
            },
            _ => member_sink(c, prop, k + 1),
        }
    }
}

/// The flow reported at call node `i`: its callee is a sink and one of
/// its arguments is tainted.
pub open spec fn call_findings(c: Ctx, st: LogView, sums: LogView, i: int) -> Seq<TaintFindingView> {
    if c.t[i].kind != "call_expression"@ {
        Seq::empty()
    } else {
        match field_text(c.src, c.t, i, "function"@) {
            None => Seq::empty(),
            Some(raw) => {
                let resolved = resolve_opt(c.aliases, raw);
                match sink_match(c, resolved, after_last(resolved, '.'), 0) {
                    None => Seq::empty(),
                    Some(sd) => match field_child(c.t, i, "arguments"@) {
                        None => Seq::empty(),
                        Some(args) => match first_taint_of(c, st, sums, named_children(c.t, args as int), 0) {
                            None => Seq::empty(),
                            Some(s) => seq![finding_at(c.t[i], s, sd)],
                        },
                    },
                }
            },
        }
    }
}

/// The flow reported at assignment node `i`: `x.prop = value` where `prop`
/// is a member-assignment sink and the value is tainted.
pub open spec fn assign_findings(c: Ctx, st: LogView, sums: LogView, i: int) -> Seq<TaintFindingView> {
    if c.t[i].kind != "assignment_expression"@ {
        Seq::empty()
    } else {
        match (field_child(c.t, i, "left"@), field_child(c.t, i, "right"@)) {
            (Some(l), Some(r)) => if c.t[l as int].kind != "member_expression"@ {
                Seq::empty()
            } else {
                match field_text(c.src, c.t, l as int, "property"@) {
                    None => Seq::empty(),
                    Some(prop) => match member_sink(c, prop, 0) {
                        None => Seq::empty(),
                        Some(sd) => match expr_taint(c, st, sums, r as int) {
                            None => Seq::empty(),
                            Some(s) => seq![finding_at(c.t[i], s, sd)],
                        },
                    },
                }
            },
            _ => Seq::empty(),
        }
    }
}

/// Nodes `j .. end` in pre-order, nested function scopes skipped: the
/// final state and the flows found.
pub open spec fn walk(c: Ctx, sums: LogView, j: int, end: int, st: LogView) -> (LogView, Seq<TaintFindingView>)
    decreases end - j,
{
    if j < 0 || j >= end || j >= c.t.len() {
        (st, Seq::empty())
    } else if function_scope(c.t[j].kind) {
        let nj = c.t[j].subtree_end as int;
        if j < nj <= end {
            walk(c, sums, nj, end, st)
        } else {
            (st, Seq::empty())
        }
    } else {
        let fs = assign_findings(c, st, sums, j) + call_findings(c, st, sums, j);
        let r = walk(c, sums, j + 1, end, step(c, st, sums, j));
        (r.0, fs + r.1)
    }
}

/// Pass 1: the first tainted return value among nodes `j .. end`.
pub open spec fn walk_ret(c: Ctx, j: int, end: int, st: LogView, ret: Option<Seq<char>>) -> Option<Seq<char>>
    decreases end - j,
{
    if j < 0 || j >= end || j >= c.t.len() {
        ret
    } else if function_scope(c.t[j].kind) {
        let nj = c.t[j].subtree_end as int;
        if j < nj <= end {
            walk_ret(c, nj, end, st, ret)
        } else {
            ret
        }
    } else {
        let r2 = if c.t[j].kind == "return_statement"@ && ret is None {
            first_taint_of(c, st, Seq::empty(), named_children(c.t, j), 0)
        } else {
            ret
        };
        walk_ret(c, j + 1, end, step(c, st, Seq::empty(), j), r2)
    }
}

pub open spec fn param_source_from(c: Ctx, name: Seq<char>, k: int) -> Option<Seq<char>>
    decreases c.spec.sources.len() - k,
{
    if k < 0 || k >= c.spec.sources.len() {
        None
    } else {
        match c.spec.sources[k] {
            MatcherView::ParamName { names, description } => if names.contains(name) {
                Some(description)
            } else {
                param_source_from(c, name, k + 1)
            },
            _ => param_source_from(c, name, k + 1),
        }
    }
}

/// The first identifier among the expressions `xs[k..]`.
pub open spec fn first_identifier(c: Ctx, xs: Seq<usize>, k: int) -> Option<Seq<char>>
    decreases xs.len() - k,
{
    if k < 0 || k >= xs.len() {
        None
    } else if 0 <= xs[k] < c.t.len() && c.t[xs[k] as int].kind == "identifier"@ {
        Some(text_of(c, xs[k] as int))
    } else {
        first_identifier(c, xs, k + 1)
    }
}

/// The name a formal parameter binds: a plain identifier, the left side
/// of a default (`x = 1`), or the identifier of a `...rest`.
pub open spec fn param_name(c: Ctx, x: int) -> Option<Seq<char>> {
    let k = c.t[x].kind;
    if k == "identifier"@ {
        Some(text_of(c, x))
    } else if k == "assignment_pattern"@ {
        match field_child(c.t, x, "left"@) {
            Some(l) => if c.t[l as int].kind == "identifier"@ {
                Some(text_of(c, l as int))
            } else {
                None
            },
            None => None,
        }
    } else if k == "rest_pattern"@ {
        first_identifier(c, named_children(c.t, x), 0)
    } else {
        None
    }
}

/// A parameter named by a `ParamName` source gets its description.
pub open spec fn seed_name(c: Ctx, st: LogView, name: Option<Seq<char>>) -> LogView {
    match name {
        Some(nm) => match param_source_from(c, nm, 0) {
            Some(d) => st.push((nm, Some(d))),
            None => st,
        },
        None => st,
    }
}

/// The seeds of the children `0 .. k` of a `formal_parameters` node.
pub open spec fn seed_upto(c: Ctx, params: int, k: int) -> LogView
    decreases k,
{
    if k <= 0 {
        Seq::empty()
    } else {
        let prev = seed_upto(c, params, k - 1);
        seed_name(c, prev, param_name(c, c.t[params].children[k - 1] as int))
    }
}

/// The state a function body starts in: its parameters named by a
/// `ParamName` source are tainted (a lone arrow parameter too).
pub open spec fn initial_state(c: Ctx, f: int) -> LogView {
    let s1 = match field_child(c.t, f, "parameters"@) {
        Some(p) => seed_upto(c, p as int, c.t[p as int].children.len() as int),
        None => Seq::empty(),
    };
    match field_child(c.t, f, "parameter"@) {
        Some(x) => if c.t[x as int].kind == "identifier"@ {
            seed_name(c, s1, Some(text_of(c, x as int)))
        } else {
            s1
        },
        None => s1,
    }
}

pub open spec fn analyze_function(c: Ctx, sums: LogView, f: int) -> Seq<TaintFindingView> {
    match field_child(c.t, f, "body"@) {
        None => Seq::empty(),
        Some(b) => walk(c, sums, b as int, c.t[b as int].subtree_end as int, initial_state(c, f)).1,
    }
}

/// The return-taint summary of function `f` (pass 1, no summaries): the
/// taint of a concise arrow body, else of the first tainted return.
pub open spec fn summarize_function(c: Ctx, f: int) -> Option<Seq<char>> {
    match field_child(c.t, f, "body"@) {
        None => None,
        Some(b) => if c.t[f].kind == "arrow_function"@ && c.t[b as int].kind != "statement_block"@ {
            expr_taint(c, initial_state(c, f), Seq::empty(), b as int)
        } else {
            walk_ret(c, b as int, c.t[b as int].subtree_end as int, initial_state(c, f), None)
        },
    }
}

/// The named functions among nodes `j .. end` whose summaries pass 1
/// records, as (name, function node): function declarations, and `const
/// f = (..) => ..` / `const f = function (..) {..}` declarators; other
/// function scopes are not entered.
pub open spec fn summary_targets(c: Ctx, j: int, end: int) -> Seq<(Seq<char>, usize)>
    decreases end - j,
{
    if j < 0 || j >= end || j >= c.t.len() {
        Seq::empty()
    } else {
        let nj = c.t[j].subtree_end as int;
        let rest = if j < nj <= end {
            summary_targets(c, nj, end)
        } else {
            Seq::empty()
        };
        let k = c.t[j].kind;
        if k == "function_declaration"@ || k == "generator_function_declaration"@ {
            (match field_text(c.src, c.t, j, "name"@) {
                Some(nm) => seq![(nm, j as usize)],
                None => Seq::empty(),
            }) + rest
        } else if k == "variable_declarator"@ && (match (field_child(c.t, j, "name"@), field_child(c.t, j, "value"@)) {
            (Some(nm), Some(v)) => c.t[nm as int].kind == "identifier"@ && (c.t[v as int].kind
                == "arrow_function"@ || c.t[v as int].kind == "function_expression"@),
            _ => false,
        }) {
            seq![(text_of(c, field_child(c.t, j, "name"@).unwrap() as int), field_child(c.t, j, "value"@).unwrap())]
                + rest
        } else if function_scope(k) {
            rest
        } else {
            summary_targets(c, j + 1, end)
        }
    }
}

/// Pass 1 over the first `k` targets: name → summary, last write wins.
pub open spec fn build_summaries(c: Ctx, targets: Seq<(Seq<char>, usize)>, k: int) -> LogView
    decreases k,
{
    if k <= 0 {
        Seq::empty()
    } else {
        build_summaries(c, targets, k - 1).push(
            (targets[k - 1].0, summarize_function(c, targets[k - 1].1 as int)),
        )
    }
}

/// Every function scope among nodes `j .. end`, nested ones included.
pub open spec fn function_scopes(c: Ctx, j: int, end: int) -> Seq<usize>
    decreases end - j,
{
    if j < 0 || j >= end || j >= c.t.len() {
        Seq::empty()
    } else {
        (if function_scope(c.t[j].kind) {
            seq![j as usize]
        } else {
            Seq::empty()
        }) + function_scopes(c, j + 1, end)
    }
}

pub open spec fn analyze_all(c: Ctx, sums: LogView, fs: Seq<usize>, k: int) -> Seq<TaintFindingView>
    decreases k,
{
    if k <= 0 {
        Seq::empty()
    } else {
        analyze_all(c, sums, fs, k - 1) + analyze_function(c, sums, fs[k - 1] as int)
    }
}

/// Every flow the engine reports for the subtree of `root`.
pub open spec fn analyze(c: Ctx, root: int) -> Seq<TaintFindingView> {
    let end = c.t[root].subtree_end as int;
    let targets = summary_targets(c, root, end);
    let sums = build_summaries(c, targets, targets.len() as int);
    let fs = function_scopes(c, root, end);
    analyze_all(c, sums, fs, fs.len() as int)
}

} // verus!

verus! {

// ─── The analysis, executed ───────────────────────────────────────────────

pub open spec fn opt_chars(o: Option<Vec<char>>) -> Option<Seq<char>> {
    match o {
        Some(v) => Some(v@),
        None => None,
    }
}

pub open spec fn string_views(v: Seq<String>) -> Seq<Seq<char>> {
    v.map_values(|s: String| s@)
}

fn clone_opt(o: &Option<String>) -> (res: Option<String>)
    ensures
        opt_view(res) == opt_view(*o),
{
    match o {
        Some(s) => Some(s.clone()),
        None => None,
    }
}

/// Everything the analysis of one file reads, bundled.
struct Engine<'a> {
    tree: &'a SyntaxTree,
    src: &'a [u8],
    spec: &'a TaintSpec,
    aliases: Option<&'a JsImportAliases>,
}

impl<'a> Engine<'a> {
    spec fn ctx(&self) -> Ctx {
        Ctx {
            src: self.src@,
            t: self.tree@,
            spec: self.spec@,
            aliases: match self.aliases {
                Some(a) => Some(a@),
                None => None,
            },
        }
    }

    fn is_scope(&self, i: usize) -> (res: bool)
        requires
            i < self.tree@.len(),
        ensures
            res == function_scope(self.tree@[i as int].kind),
    {
        self.tree.kind_is(i, "function_declaration") || self.tree.kind_is(i, "function_expression")
            || self.tree.kind_is(i, "arrow_function") || self.tree.kind_is(i, "method_definition")
            || self.tree.kind_is(i, "generator_function") || self.tree.kind_is(
            i,
            "generator_function_declaration",
        )
    }

    fn resolve_opt_exec(&self, callee: &[char]) -> (res: Vec<char>)
        ensures
            res@ == resolve_opt(self.ctx().aliases, callee@),
    {
        match self.aliases {
            Some(a) => a.resolve_chars(callee),
            None => {
                let r = crate::text::sub_chars(callee, 0, callee.len());
                assert(callee@.subrange(0, callee@.len() as int) =~= callee@);
                r
            },
        }
    }

    fn names_match_exec(&self, name: &[char], target: &String) -> (res: bool)
        ensures
            res == names_match(self.ctx(), name@, target@),
    {
        if chars_eq_string(name, target) {
            return true;
        }
        match self.aliases {
            Some(a) => {
                let r = a.resolve_chars(name);
                chars_eq_string(r.as_slice(), target)
            },
            None => false,
        }
    }

    fn leftmost(&self, i: usize) -> (res: Option<Vec<char>>)
        requires
            i < self.tree@.len(),
        ensures
            opt_chars(res) == leftmost_identifier(self.ctx(), i as int),
    {
        let n = self.tree.len();
        let mut cur = i;
        loop
            invariant
                n == self.tree@.len(),
                cur < n,
                leftmost_identifier(self.ctx(), i as int) == leftmost_identifier(self.ctx(), cur as int),
            decreases n - cur,
        {
            if self.tree.kind_is(cur, "identifier") {
                return Some(self.tree.text(self.src, cur));
            }
            if self.tree.kind_is(cur, "member_expression") || self.tree.kind_is(cur, "subscript_expression") {
                match self.tree.child_by_field(cur, "object") {
                    Some(o) => {
                        cur = o;
                    },
                    None => {
                        return None;
                    },
                }
            } else {
                return None;
            }
        }
    }

    fn source_hit_exec(&self, i: usize, m: &NodeMatcher) -> (res: Option<String>)
        requires
            i < self.tree@.len(),
        ensures
            opt_view(res) == source_hit(self.ctx(), i as int, m@),
    {
        match m {
            NodeMatcher::Attribute { root, field, description } => {
                if !self.tree.kind_is(i, "member_expression") {
                    return None;
                }
                let ft = match self.tree.field_text(self.src, i, "property") {
                    Some(ft) => ft,
                    None => {
                        return None;
                    },
                };
                if !chars_eq_string(ft.as_slice(), field) {
                    return None;
                }
                match self.leftmost(i) {
                    Some(r) => {
                        if self.names_match_exec(r.as_slice(), root) {
                            Some(description.clone())
                        } else {
                            None
                        }
                    },
                    None => None,
                }
            },
            NodeMatcher::Call { canonical, description } => {
                if !self.tree.kind_is(i, "call_expression") {
                    return None;
                }
                match self.tree.field_text(self.src, i, "function") {
                    Some(f) => {
                        if self.names_match_exec(f.as_slice(), canonical) {
                            Some(description.clone())
                        } else {
                            None
                        }
                    },
                    None => None,
                }
            },
            _ => None,
        }
    }

    fn match_source_exec(&self, i: usize) -> (res: Option<String>)
        requires
            i < self.tree@.len(),
        ensures
            opt_view(res) == match_source(self.ctx(), i as int),
    {
        let mut k: usize = 0;
        while k < self.spec.sources.len()
            invariant
                i < self.tree@.len(),
                k <= self.spec.sources@.len(),
                match_source(self.ctx(), i as int) == match_source_from(self.ctx(), i as int, k as int),
            decreases self.spec.sources@.len() - k,
        {
            assert(self.ctx().spec.sources[k as int] == self.spec.sources@[k as int]@);
            let h = self.source_hit_exec(i, &self.spec.sources[k]);
            if h.is_some() {
                return h;
            }
            k = k + 1;
        }
        None
    }

    fn is_sanitizer_exec(&self, i: usize) -> (res: bool)
        requires
            i < self.tree@.len(),
        ensures
            res == is_sanitizer_call(self.ctx(), i as int),
    {
        if !self.tree.kind_is(i, "call_expression") {
            return false;
        }
        let callee = match self.tree.field_text(self.src, i, "function") {
            Some(f) => f,
            None => {
                return false;
            },
        };
        let resolved = self.resolve_opt_exec(callee.as_slice());
        let ghost c = self.ctx();
        let mut k: usize = 0;
        while k < self.spec.sanitizers.len()
            invariant
                c == self.ctx(),
                k <= self.spec.sanitizers@.len(),
                c.spec.sanitizers.len() == self.spec.sanitizers@.len(),
                resolved@ == resolve_opt(c.aliases, callee@),
                i < c.t.len(),
                c.t[i as int].kind == "call_expression"@,
                field_text(c.src, c.t, i as int, "function"@) == Some(callee@),
                forall|j: int| 0 <= j < k ==> !#[trigger] sanitizer_hit(c, callee@, c.spec.sanitizers[j]),
            decreases self.spec.sanitizers@.len() - k,
        {
            assert(c.spec.sanitizers[k as int] == self.spec.sanitizers@[k as int]@);
            match &self.spec.sanitizers[k] {
                NodeMatcher::Call { canonical, .. } => {
                    if chars_eq_string(callee.as_slice(), canonical) || chars_eq_string(
                        resolved.as_slice(),
                        canonical,
                    ) {
                        assert(sanitizer_hit(c, callee@, c.spec.sanitizers[k as int]));
                        let ghost ft = field_text(c.src, c.t, i as int, "function"@);
                        assert(ft.unwrap() == callee@);
                        assert(exists|j: int|
                            0 <= j < c.spec.sanitizers.len() && #[trigger] sanitizer_hit(
                                c,
                                ft.unwrap(),
                                c.spec.sanitizers[j],
                            ));
                        assert(is_sanitizer_call(c, i as int));
                        return true;
                    }
                },
                _ => {},
            }
            k = k + 1;
        }
        false
    }

    fn summary_taint_exec(&self, sums: &NameLog, f: usize) -> (res: Option<String>)
        requires
            f < self.tree@.len(),
        ensures
            opt_view(res) == summary_taint(self.ctx(), sums@, f as int),
    {
        if self.tree.kind_is(f, "identifier") {
            let name = self.tree.text(self.src, f);
            match sums.get_chars(name.as_slice()) {
                Some(d) => {
                    let mut out = d.clone();
                    out.append(" (via ");
                    out.append(string_of_chars(name.as_slice()).as_str());
                    out.append(")");
                    Some(out)
                },
                None => None,
            }
        } else {
            None
        }
    }

    fn expr_taint_exec(&self, st: &NameLog, sums: &NameLog, i: usize) -> (res: Option<String>)
        ensures
            opt_view(res) == expr_taint(self.ctx(), st@, sums@, i as int),
        decreases self.tree@.len() - i + 1, 0int,
    {
        let n = self.tree.len();
        if i >= n {
            return None;
        }
        let ms = self.match_source_exec(i);
        if ms.is_some() {
            return ms;
        }
        if self.tree.kind_is(i, "identifier") {
            let name = self.tree.text(self.src, i);
            return match st.get_chars(name.as_slice()) {
                Some(d) => Some(d.clone()),
                None => None,
            };
        }
        if self.tree.kind_is(i, "member_expression") || self.tree.kind_is(i, "subscript_expression") {
            return match self.tree.child_by_field(i, "object") {
                Some(o) => self.expr_taint_exec(st, sums, o),
                None => None,
            };
        }
        if self.tree.kind_is(i, "template_string") {
            let ch = self.tree.node(i).children.clone();
            assert(ch@ =~= self.tree@[i as int].children);
            return self.template_taint_exec(st, sums, i, &ch);
        }
        if self.tree.kind_is(i, "binary_expression") || self.tree.kind_is(i, "parenthesized_expression")
            || self.tree.kind_is(i, "unary_expression") || self.tree.kind_is(i, "sequence_expression") {
            let nc = self.tree.named_children(i);
            return self.list_taint_exec(st, sums, i, &nc);
        }
        if self.tree.kind_is(i, "call_expression") {
            if self.is_sanitizer_exec(i) {
                return None;
            }
            match self.tree.child_by_field(i, "arguments") {
                Some(args) => {
                    let nc = self.tree.named_children(args);
                    let a = self.list_taint_exec(st, sums, args, &nc);
                    if a.is_some() {
                        return a;
                    }
                },
                None => {},
            }
            match self.tree.child_by_field(i, "function") {
                None => {
                    return None;
                },
                Some(f) => {
                    if self.tree.kind_is(f, "member_expression") {
                        match self.tree.child_by_field(f, "object") {
                            Some(o) => {
                                let m = self.expr_taint_exec(st, sums, o);
                                if m.is_some() {
                                    return m;
                                }
                            },
                            None => {},
                        }
                    }
                    return self.summary_taint_exec(sums, f);
                },
            }
        }
        None
    }

    fn list_taint_exec(&self, st: &NameLog, sums: &NameLog, parent: usize, list: &Vec<usize>) -> (res:
        Option<String>)
        requires
            parent < self.tree@.len(),
        ensures
            opt_view(res) == list_taint(self.ctx(), st@, sums@, parent as int, list@, 0),
        decreases self.tree@.len() - parent, 1int,
    {
        let n = self.tree.len();
        let mut k: usize = 0;
        while k < list.len()
            invariant
                n == self.tree@.len(),
                parent < n,
                k <= list@.len(),
                list_taint(self.ctx(), st@, sums@, parent as int, list@, 0) == list_taint(
                    self.ctx(),
                    st@,
                    sums@,
                    parent as int,
                    list@,
                    k as int,
                ),
            decreases list@.len() - k,
        {
            let x = list[k];
            if parent < x && x < n {
                let r = self.expr_taint_exec(st, sums, x);
                if r.is_some() {
                    return r;
                }
            }
            k = k + 1;
        }
        None
    }

    fn template_taint_exec(&self, st: &NameLog, sums: &NameLog, parent: usize, list: &Vec<usize>) -> (res:
        Option<String>)
        requires
            parent < self.tree@.len(),
        ensures
            opt_view(res) == template_taint(self.ctx(), st@, sums@, parent as int, list@, 0),
        decreases self.tree@.len() - parent, 2int,
    {
        let n = self.tree.len();
        let mut k: usize = 0;
        while k < list.len()
            invariant
                n == self.tree@.len(),
                parent < n,
                k <= list@.len(),
                template_taint(self.ctx(), st@, sums@, parent as int, list@, 0) == template_taint(
                    self.ctx(),
                    st@,
                    sums@,
                    parent as int,
                    list@,
                    k as int,
                ),
            decreases list@.len() - k,
        {
            let x = list[k];
            if parent < x && x < n && self.tree.kind_is(x, "template_substitution") {
                let nc = self.tree.named_children(x);
                let r = self.list_taint_exec(st, sums, x, &nc);
                if r.is_some() {
                    return r;
                }
            }
            k = k + 1;
        }
        None
    }

    fn first_taint_exec(&self, st: &NameLog, sums: &NameLog, xs: &Vec<usize>) -> (res: Option<String>)
        ensures
            opt_view(res) == first_taint_of(self.ctx(), st@, sums@, xs@, 0),
    {
        let mut k: usize = 0;
        while k < xs.len()
            invariant
                k <= xs@.len(),
                first_taint_of(self.ctx(), st@, sums@, xs@, 0) == first_taint_of(
                    self.ctx(),
                    st@,
                    sums@,
                    xs@,
                    k as int,
                ),
            decreases xs@.len() - k,
        {
            let r = self.expr_taint_exec(st, sums, xs[k]);
            if r.is_some() {
                return r;
            }
            k = k + 1;
        }
        None
    }
}

} // verus!

verus! {

impl<'a> Engine<'a> {
    fn rest_identifiers_exec(&self, xs: &Vec<usize>) -> (res: Vec<String>)
        ensures
            string_views(res@) == rest_identifiers(self.ctx(), xs@, 0),
    {
        let ghost c = self.ctx();
        let n = self.tree.len();
        let mut out: Vec<String> = Vec::new();
        let mut k: usize = 0;
        assert(string_views(out@) + rest_identifiers(c, xs@, 0) =~= rest_identifiers(c, xs@, 0));
        while k < xs.len()
            invariant
                c == self.ctx(),
                n == c.t.len(),
                k <= xs@.len(),
                rest_identifiers(c, xs@, 0) == string_views(out@) + rest_identifiers(c, xs@, k as int),
            decreases xs@.len() - k,
        {
            let x = xs[k];
            let ghost before = string_views(out@);
            if x < n && self.tree.kind_is(x, "identifier") {
                let t = self.tree.text(self.src, x);
                out.push(string_of_chars(t.as_slice()));
                assert(string_views(out@) =~= before + seq![t@]);
                assert(before + (seq![t@] + rest_identifiers(c, xs@, k + 1)) =~= string_views(out@)
                    + rest_identifiers(c, xs@, k + 1));
            } else {
                assert(before + (Seq::<Seq<char>>::empty() + rest_identifiers(c, xs@, k + 1)) =~= before
                    + rest_identifiers(c, xs@, k + 1));
            }
            k = k + 1;
        }
        assert(string_views(out@) + Seq::<Seq<char>>::empty() =~= string_views(out@));
        out
    }

    fn targets_exec(&self, p: usize, xs: &Vec<usize>) -> (res: Vec<String>)
        requires
            p < self.tree@.len(),
        ensures
            string_views(res@) == targets_from(self.ctx(), p as int, xs@, 0),
        decreases self.tree@.len() - p,
    {
        let ghost c = self.ctx();
        let n = self.tree.len();
        let mut out: Vec<String> = Vec::new();
        let mut k: usize = 0;
        assert(string_views(out@) + targets_from(c, p as int, xs@, 0) =~= targets_from(c, p as int, xs@, 0));
        while k < xs.len()
            invariant
                c == self.ctx(),
                n == c.t.len(),
                p < n,
                k <= xs@.len(),
                targets_from(c, p as int, xs@, 0) == string_views(out@) + targets_from(c, p as int, xs@, k as int),
            decreases xs@.len() - k,
        {
            let x = xs[k];
            let ghost before = string_views(out@);
            let mut here: Vec<String> = Vec::new();
            if p < x && x < n {
                if self.tree.kind_is(x, "identifier") || self.tree.kind_is(x, "shorthand_property_identifier_pattern") {
                    let t = self.tree.text(self.src, x);
                    here.push(string_of_chars(t.as_slice()));
                } else if self.tree.kind_is(x, "pair_pattern") {
                    match self.tree.child_by_field(x, "value") {
                        Some(v) => {
                            if self.tree.kind_is(v, "identifier") {
                                let t = self.tree.text(self.src, v);
                                here.push(string_of_chars(t.as_slice()));
                            } else if self.tree.kind_is(v, "object_pattern") || self.tree.kind_is(v, "array_pattern") {
                                let nc = self.tree.named_children(v);
                                here = self.targets_exec(v, &nc);
                            }
                        },
                        None => {},
                    }
                } else if self.tree.kind_is(x, "object_pattern") || self.tree.kind_is(x, "array_pattern") {
                    let nc = self.tree.named_children(x);
                    here = self.targets_exec(x, &nc);
                } else if self.tree.kind_is(x, "rest_pattern") {
                    let nc = self.tree.named_children(x);
                    here = self.rest_identifiers_exec(&nc);
                }
            }
            let ghost hv = string_views(here@);
            assert(targets_from(c, p as int, xs@, k as int) == hv + targets_from(c, p as int, xs@, k + 1));
            out.append(&mut here);
            assert(string_views(out@) =~= before + hv);
            assert(before + (hv + targets_from(c, p as int, xs@, k + 1)) =~= string_views(out@)
                + targets_from(c, p as int, xs@, k + 1));
            k = k + 1;
        }
        assert(string_views(out@) + Seq::<Seq<char>>::empty() =~= string_views(out@));
        out
    }

    fn bind_exec(&self, st: &mut NameLog, sums: &NameLog, target: usize, value: usize)
        requires
            target < self.tree@.len(),
        ensures
            final(st)@ == bind(self.ctx(), old(st)@, sums@, target as int, value as int),
    {
        let ghost c = self.ctx();
        if self.tree.kind_is(target, "identifier") {
            let name = self.tree.text(self.src, target);
            let d = self.expr_taint_exec(st, sums, value);
            st.set(string_of_chars(name.as_slice()), d);
        } else if self.tree.kind_is(target, "object_pattern") || self.tree.kind_is(target, "array_pattern") {
            let nc = self.tree.named_children(target);
            let names = self.targets_exec(target, &nc);
            let d = self.expr_taint_exec(st, sums, value);
            let ghost st0 = st@;
            let ghost nv = string_views(names@);
            let mut k: usize = 0;
            while k < names.len()
                invariant
                    c == self.ctx(),
                    nv == string_views(names@),
                    k <= names@.len(),
                    assign_all(st0, nv, opt_view(d), 0) == assign_all(st@, nv, opt_view(d), k as int),
                decreases names@.len() - k,
            {
                st.set(names[k].clone(), clone_opt(&d));
                k = k + 1;
            }
        }
    }

    fn step_exec(&self, st: &mut NameLog, sums: &NameLog, i: usize)
        requires
            i < self.tree@.len(),
        ensures
            final(st)@ == step(self.ctx(), old(st)@, sums@, i as int),
    {
        if self.tree.kind_is(i, "variable_declarator") {
            match (self.tree.child_by_field(i, "name"), self.tree.child_by_field(i, "value")) {
                (Some(nm), Some(v)) => self.bind_exec(st, sums, nm, v),
                _ => {},
            }
        } else if self.tree.kind_is(i, "assignment_expression") {
            match (self.tree.child_by_field(i, "left"), self.tree.child_by_field(i, "right")) {
                (Some(l), Some(r)) => {
                    if !self.tree.kind_is(l, "member_expression") {
                        self.bind_exec(st, sums, l, r);
                    }
                },
                _ => {},
            }
        }
    }

    fn sink_match_exec(&self, resolved: &[char], fin: &[char]) -> (res: Option<String>)
        ensures
            opt_view(res) == sink_match(self.ctx(), resolved@, fin@, 0),
    {
        let ghost c = self.ctx();
        let mut k: usize = 0;
        while k < self.spec.sinks.len()
            invariant
                c == self.ctx(),
                k <= self.spec.sinks@.len(),
                sink_match(c, resolved@, fin@, 0) == sink_match(c, resolved@, fin@, k as int),
            decreases self.spec.sinks@.len() - k,
        {
            assert(c.spec.sinks[k as int] == self.spec.sinks@[k as int]@);
            match &self.spec.sinks[k] {
                NodeMatcher::Call { canonical, description } => {
                    if chars_eq_string(resolved, canonical) {
                        return Some(description.clone());
                    }
                },
                NodeMatcher::MethodName { method, description } => {
                    if chars_eq_string(fin, method) {
                        return Some(description.clone());
                    }
                },
                _ => {},
            }
            k = k + 1;
        }
        None
    }

    fn member_sink_exec(&self, prop: &[char]) -> (res: Option<String>)
        ensures
            opt_view(res) == member_sink(self.ctx(), prop@, 0),
    {
        let ghost c = self.ctx();
        let mut k: usize = 0;
        while k < self.spec.sinks.len()
            invariant
                c == self.ctx(),
                k <= self.spec.sinks@.len(),
                member_sink(c, prop@, 0) == member_sink(c, prop@, k as int),
            decreases self.spec.sinks@.len() - k,
        {
            assert(c.spec.sinks[k as int] == self.spec.sinks@[k as int]@);
            match &self.spec.sinks[k] {
                NodeMatcher::MemberAssign { field, description } => {
                    if chars_eq_string(prop, field) {
                        return Some(description.clone());
                    }
                },
                _ => {},
            }
            k = k + 1;
        }
        None
    }

    fn finding_exec(&self, i: usize, s: String, sd: String) -> (res: TaintFinding)
        requires
            i < self.tree@.len(),
        ensures
            res@ == finding_at(self.tree@[i as int], s@, sd@),
    {
        let n = self.tree.len();
        assert(node_wf(self.tree@, i as int));
        let node = self.tree.node(i);
        TaintFinding {
            sink_start_byte: node.start_byte,
            sink_end_byte: node.end_byte,
            sink_line: node.start_row + 1,
            sink_column: node.start_column + 1,
            sink_end_line: node.end_row + 1,
            sink_end_column: node.end_column + 1,
            source_description: s,
            sink_description: sd,
        }
    }

    fn call_findings_exec(&self, st: &NameLog, sums: &NameLog, i: usize) -> (res: Vec<TaintFinding>)
        requires
            i < self.tree@.len(),
        ensures
            taint_views(res@) == call_findings(self.ctx(), st@, sums@, i as int),
    {
        let mut out: Vec<TaintFinding> = Vec::new();
        assert(taint_views(out@) =~= Seq::<TaintFindingView>::empty());
        if !self.tree.kind_is(i, "call_expression") {
            return out;
        }
        let raw = match self.tree.field_text(self.src, i, "function") {
            Some(f) => f,
            None => {
                return out;
            },
        };
        let resolved = self.resolve_opt_exec(raw.as_slice());
        let fin = after_last_char(resolved.as_slice(), '.');
        let sd = match self.sink_match_exec(resolved.as_slice(), fin.as_slice()) {
            Some(d) => d,
            None => {
                return out;
            },
        };
        let args = match self.tree.child_by_field(i, "arguments") {
            Some(a) => a,
            None => {
                return out;
            },
        };
        let nc = self.tree.named_children(args);
        match self.first_taint_exec(st, sums, &nc) {
            Some(s) => {
                out.push(self.finding_exec(i, s, sd));
                assert(taint_views(out@) =~= seq![out@[0]@]);
                out
            },
            None => out,
        }
    }

    fn assign_findings_exec(&self, st: &NameLog, sums: &NameLog, i: usize) -> (res: Vec<TaintFinding>)
        requires
            i < self.tree@.len(),
        ensures
            taint_views(res@) == assign_findings(self.ctx(), st@, sums@, i as int),
    {
        let mut out: Vec<TaintFinding> = Vec::new();
        assert(taint_views(out@) =~= Seq::<TaintFindingView>::empty());
        if !self.tree.kind_is(i, "assignment_expression") {
            return out;
        }
        let (l, r) = match (self.tree.child_by_field(i, "left"), self.tree.child_by_field(i, "right")) {
            (Some(l), Some(r)) => (l, r),
            _ => {
                return out;
            },
        };
        if !self.tree.kind_is(l, "member_expression") {
            return out;
        }
        let prop = match self.tree.field_text(self.src, l, "property") {
            Some(p) => p,
            None => {
                return out;
            },
        };
        let sd = match self.member_sink_exec(prop.as_slice()) {
            Some(d) => d,
            None => {
                return out;
            },
        };
        match self.expr_taint_exec(st, sums, r) {
            Some(s) => {
                out.push(self.finding_exec(i, s, sd));
                assert(taint_views(out@) =~= seq![out@[0]@]);
                out
            },
            None => out,
        }
    }

    /// Walks nodes `start .. end`, nested function scopes skipped.
    fn walk_exec(&self, sums: &NameLog, start: usize, end: usize, st: &mut NameLog) -> (res: Vec<TaintFinding>)
        requires
            end <= self.tree@.len(),
        ensures
            (final(st)@, taint_views(res@)) == walk(self.ctx(), sums@, start as int, end as int, old(st)@),
    {
        let ghost c = self.ctx();
        let ghost st0 = st@;
        let n = self.tree.len();
        let mut found: Vec<TaintFinding> = Vec::new();
        let mut j = start;
        let mut done = false;
        while j < end && !done
            invariant
                c == self.ctx(),
                end <= n == c.t.len(),
                tree_wf(c.t),
                walk(c, sums@, start as int, end as int, st0) == (
                    walk(c, sums@, j as int, end as int, st@).0,
                    taint_views(found@) + walk(c, sums@, j as int, end as int, st@).1,
                ),
                done ==> walk(c, sums@, j as int, end as int, st@) == (st@, Seq::<TaintFindingView>::empty()),
            decreases end - j + (if done { 0int } else { 1int }),
        {
            if self.is_scope(j) {
                let nj = self.tree.node(j).subtree_end;
                if j < nj && nj <= end {
                    j = nj;
                } else {
                    done = true;
                }
            } else {
                let ghost before = found@;
                let ghost stj = st@;
                let mut fa = self.assign_findings_exec(st, sums, j);
                let mut fc = self.call_findings_exec(st, sums, j);
                self.step_exec(st, sums, j);
                found.append(&mut fa);
                found.append(&mut fc);
                proof {
                    let fs = assign_findings(c, stj, sums@, j as int) + call_findings(c, stj, sums@, j as int);
                    let rest = walk(c, sums@, j + 1, end as int, st@);
                    assert(taint_views(found@) =~= taint_views(before) + fs);
                    assert(taint_views(before) + (fs + rest.1) =~= taint_views(found@) + rest.1);
                }
                j = j + 1;
            }
        }
        proof {
            let w = walk(c, sums@, j as int, end as int, st@);
            assert(w.0 == st@ && w.1 == Seq::<TaintFindingView>::empty());
            assert(taint_views(found@) + w.1 =~= taint_views(found@));
        }
        found
    }

    /// Pass 1 over nodes `start .. end`: the first tainted return value.
    fn walk_ret_exec(&self, start: usize, end: usize, st: &mut NameLog) -> (res: Option<String>)
        requires
            end <= self.tree@.len(),
        ensures
            opt_view(res) == walk_ret(self.ctx(), start as int, end as int, old(st)@, None),
    {
        let ghost c = self.ctx();
        let ghost st0 = st@;
        let empty = NameLog::new();
        let n = self.tree.len();
        let mut ret: Option<String> = None;
        let mut j = start;
        let mut done = false;
        while j < end && !done
            invariant
                c == self.ctx(),
                empty@ == Seq::<(Seq<char>, Option<Seq<char>>)>::empty(),
                end <= n == c.t.len(),
                tree_wf(c.t),
                walk_ret(c, start as int, end as int, st0, None) == walk_ret(c, j as int, end as int, st@, opt_view(ret)),
                done ==> walk_ret(c, j as int, end as int, st@, opt_view(ret)) == opt_view(ret),
            decreases end - j + (if done { 0int } else { 1int }),
        {
            if self.is_scope(j) {
                let nj = self.tree.node(j).subtree_end;
                if j < nj && nj <= end {
                    j = nj;
                } else {
                    done = true;
                }
            } else {
                if self.tree.kind_is(j, "return_statement") && ret.is_none() {
                    let xs = self.tree.named_children(j);
                    ret = self.first_taint_exec(st, &empty, &xs);
                }
                self.step_exec(st, &empty, j);
                j = j + 1;
            }
        }
        ret
    }
}

} // verus!

verus! {

impl<'a> Engine<'a> {
    fn param_source_exec(&self, name: &[char]) -> (res: Option<String>)
        ensures
            opt_view(res) == param_source_from(self.ctx(), name@, 0),
    {
        let ghost c = self.ctx();
        let mut k: usize = 0;
        while k < self.spec.sources.len()
            invariant
                c == self.ctx(),
                k <= self.spec.sources@.len(),
                param_source_from(c, name@, 0) == param_source_from(c, name@, k as int),
            decreases self.spec.sources@.len() - k,
        {
            assert(c.spec.sources[k as int] == self.spec.sources@[k as int]@);
            match &self.spec.sources[k] {
                NodeMatcher::ParamName { names, description } => {
                    let ghost nv = names@.map_values(|s: String| s@);
                    let mut m: usize = 0;
                    let mut found = false;
                    while m < names.len()
                        invariant
                            m <= names@.len(),
                            nv == names@.map_values(|s: String| s@),
                            found ==> nv.contains(name@),
                            !found ==> forall|q: int| 0 <= q < m ==> nv[q] != name@,
                        decreases names@.len() - m,
                    {
                        if chars_eq_string(name, &names[m]) {
                            assert(nv[m as int] == name@);
                            found = true;
                        }
                        m = m + 1;
                    }
                    if found {
                        return Some(description.clone());
                    }
                    assert(!nv.contains(name@));
                },
                _ => {},
            }
            k = k + 1;
        }
        None
    }

    fn first_identifier_exec(&self, xs: &Vec<usize>) -> (res: Option<Vec<char>>)
        ensures
            opt_chars(res) == first_identifier(self.ctx(), xs@, 0),
    {
        let n = self.tree.len();
        let mut k: usize = 0;
        while k < xs.len()
            invariant
                n == self.tree@.len(),
                k <= xs@.len(),
                first_identifier(self.ctx(), xs@, 0) == first_identifier(self.ctx(), xs@, k as int),
            decreases xs@.len() - k,
        {
            let x = xs[k];
            if x < n && self.tree.kind_is(x, "identifier") {
                return Some(self.tree.text(self.src, x));
            }
            k = k + 1;
        }
        None
    }

    fn param_name_exec(&self, x: usize) -> (res: Option<Vec<char>>)
        requires
            x < self.tree@.len(),
        ensures
            opt_chars(res) == param_name(self.ctx(), x as int),
    {
        if self.tree.kind_is(x, "identifier") {
            Some(self.tree.text(self.src, x))
        } else if self.tree.kind_is(x, "assignment_pattern") {
            match self.tree.child_by_field(x, "left") {
                Some(l) => {
                    if self.tree.kind_is(l, "identifier") {
                        Some(self.tree.text(self.src, l))
                    } else {
                        None
                    }
                },
                None => None,
            }
        } else if self.tree.kind_is(x, "rest_pattern") {
            let nc = self.tree.named_children(x);
            self.first_identifier_exec(&nc)
        } else {
            None
        }
    }

    fn seed_exec(&self, st: &mut NameLog, name: Option<Vec<char>>)
        ensures
            final(st)@ == seed_name(self.ctx(), old(st)@, opt_chars(name)),
    {
        match name {
            Some(nm) => match self.param_source_exec(nm.as_slice()) {
                Some(d) => {
                    st.insert(string_of_chars(nm.as_slice()), d);
                },
                None => {},
            },
            None => {},
        }
    }

    fn initial_state_exec(&self, f: usize) -> (res: NameLog)
        requires
            f < self.tree@.len(),
        ensures
            res@ == initial_state(self.ctx(), f as int),
    {
        let ghost c = self.ctx();
        let n = self.tree.len();
        let mut st = NameLog::new();
        match self.tree.child_by_field(f, "parameters") {
            Some(p) => {
                let pnode = self.tree.node(p);
                let mut k: usize = 0;
                while k < pnode.children.len()
                    invariant
                        c == self.ctx(),
                        n == c.t.len(),
                        tree_wf(c.t),
                        p < n,
                        pnode@ == c.t[p as int],
                        k <= pnode.children@.len(),
                        st@ == seed_upto(c, p as int, k as int),
                    decreases pnode.children@.len() - k,
                {
                    assert(node_wf(c.t, p as int));
                    let x = pnode.children[k];
                    assert(c.t[p as int].children[k as int] == x);
                    let nm = self.param_name_exec(x);
                    self.seed_exec(&mut st, nm);
                    k = k + 1;
                }
            },
            None => {},
        }
        match self.tree.child_by_field(f, "parameter") {
            Some(x) => {
                if self.tree.kind_is(x, "identifier") {
                    let t = self.tree.text(self.src, x);
                    self.seed_exec(&mut st, Some(t));
                }
            },
            None => {},
        }
        st
    }

    fn analyze_function_exec(&self, sums: &NameLog, f: usize) -> (res: Vec<TaintFinding>)
        requires
            f < self.tree@.len(),
        ensures
            taint_views(res@) == analyze_function(self.ctx(), sums@, f as int),
    {
        let n = self.tree.len();
        let mut st = self.initial_state_exec(f);
        match self.tree.child_by_field(f, "body") {
            None => {
                let v: Vec<TaintFinding> = Vec::new();
                assert(taint_views(v@) =~= Seq::<TaintFindingView>::empty());
                v
            },
            Some(b) => {
                assert(node_wf(self.tree@, b as int));
                let end = self.tree.node(b).subtree_end;
                self.walk_exec(sums, b, end, &mut st)
            },
        }
    }

    fn summarize_exec(&self, f: usize) -> (res: Option<String>)
        requires
            f < self.tree@.len(),
        ensures
            opt_view(res) == summarize_function(self.ctx(), f as int),
    {
        let n = self.tree.len();
        let mut st = self.initial_state_exec(f);
        match self.tree.child_by_field(f, "body") {
            None => None,
            Some(b) => {
                if self.tree.kind_is(f, "arrow_function") && !self.tree.kind_is(b, "statement_block") {
                    let empty = NameLog::new();
                    return self.expr_taint_exec(&st, &empty, b);
                }
                assert(node_wf(self.tree@, b as int));
                let end = self.tree.node(b).subtree_end;
                self.walk_ret_exec(b, end, &mut st)
            },
        }
    }

    fn summary_targets_exec(&self, start: usize, end: usize) -> (res: (Vec<String>, Vec<usize>))
        requires
            end <= self.tree@.len(),
        ensures
            res.0@.len() == res.1@.len(),
            forall|k: int| 0 <= k < res.1@.len() ==> #[trigger] res.1@[k] < self.tree@.len(),
            summary_targets(self.ctx(), start as int, end as int) == Seq::new(
                res.0@.len(),
                |k: int| (res.0@[k]@, res.1@[k]),
            ),
    {
        let ghost c = self.ctx();
        let n = self.tree.len();
        let mut names: Vec<String> = Vec::new();
        let mut fns: Vec<usize> = Vec::new();
        let mut j = start;
        let mut done = false;
        let ghost pairs = Seq::new(names@.len(), |k: int| (names@[k]@, fns@[k]));
        assert(pairs + summary_targets(c, j as int, end as int) =~= summary_targets(c, j as int, end as int));
        while j < end && !done
            invariant
                c == self.ctx(),
                end <= n == c.t.len(),
                tree_wf(c.t),
                names@.len() == fns@.len(),
                forall|k: int| 0 <= k < fns@.len() ==> #[trigger] fns@[k] < n,
                summary_targets(c, start as int, end as int) == Seq::new(
                    names@.len(),
                    |k: int| (names@[k]@, fns@[k]),
                ) + summary_targets(c, j as int, end as int),
                done ==> summary_targets(c, j as int, end as int) == Seq::<(Seq<char>, usize)>::empty(),
            decreases end - j + (if done { 0int } else { 1int }),
        {
            let ghost before = Seq::new(names@.len(), |k: int| (names@[k]@, fns@[k]));
            assert(node_wf(c.t, j as int));
            let nj = self.tree.node(j).subtree_end;
            let skip_ok = j < nj && nj <= end;
            let mut hit: Option<(Vec<char>, usize)> = None;
            let mut skip = false;
            if self.tree.kind_is(j, "function_declaration") || self.tree.kind_is(j, "generator_function_declaration") {
                skip = true;
                match self.tree.field_text(self.src, j, "name") {
                    Some(nm) => {
                        hit = Some((nm, j));
                    },
                    None => {},
                }
            } else {
                let dk = self.tree.kind_is(j, "variable_declarator");
                let mut matched = false;
                if dk {
                    match (self.tree.child_by_field(j, "name"), self.tree.child_by_field(j, "value")) {
                        (Some(nm), Some(v)) => {
                            if self.tree.kind_is(nm, "identifier") && (self.tree.kind_is(v, "arrow_function")
                                || self.tree.kind_is(v, "function_expression")) {
                                matched = true;
                                hit = Some((self.tree.text(self.src, nm), v));
                            }
                        },
                        _ => {},
                    }
                }
                if matched || self.is_scope(j) {
                    skip = true;
                }
            }
            let ghost here: Seq<(Seq<char>, usize)> = match &hit {
                Some(h) => seq![(h.0@, h.1)],
                None => Seq::empty(),
            };
            match hit {
                Some(h) => {
                    names.push(string_of_chars(h.0.as_slice()));
                    fns.push(h.1);
                },
                None => {},
            }
            let ghost after = Seq::new(names@.len(), |k: int| (names@[k]@, fns@[k]));
            assert(after =~= before + here);
            if skip {
                if skip_ok {
                    assert(summary_targets(c, j as int, end as int) == here + summary_targets(c, nj as int, end as int));
                    assert(before + (here + summary_targets(c, nj as int, end as int)) =~= after
                        + summary_targets(c, nj as int, end as int));
                    j = nj;
                } else {
                    assert(summary_targets(c, j as int, end as int) == here + Seq::<(Seq<char>, usize)>::empty());
                    assert(before + (here + Seq::<(Seq<char>, usize)>::empty()) =~= after
                        + Seq::<(Seq<char>, usize)>::empty());
                    done = true;
                    assert(summary_targets(c, start as int, end as int) == after + Seq::<(Seq<char>, usize)>::empty());
                    j = end;
                    assert(summary_targets(c, j as int, end as int) == Seq::<(Seq<char>, usize)>::empty());
                }
            } else {
                assert(here =~= Seq::<(Seq<char>, usize)>::empty());
                assert(summary_targets(c, j as int, end as int) == summary_targets(c, j + 1, end as int));
                assert(after =~= before);
                j = j + 1;
            }
        }
        let ghost fin = Seq::new(names@.len(), |k: int| (names@[k]@, fns@[k]));
        assert(fin + Seq::<(Seq<char>, usize)>::empty() =~= fin);
        (names, fns)
    }

    fn function_scopes_exec(&self, start: usize, end: usize) -> (res: Vec<usize>)
        requires
            end <= self.tree@.len(),
        ensures
            res@ == function_scopes(self.ctx(), start as int, end as int),
            forall|k: int| 0 <= k < res@.len() ==> #[trigger] res@[k] < self.tree@.len(),
    {
        let ghost c = self.ctx();
        let n = self.tree.len();
        let mut out: Vec<usize> = Vec::new();
        let mut j = start;
        assert(out@ + function_scopes(c, j as int, end as int) =~= function_scopes(c, j as int, end as int));
        while j < end
            invariant
                c == self.ctx(),
                end <= n == c.t.len(),
                function_scopes(c, start as int, end as int) == out@ + function_scopes(c, j as int, end as int),
                forall|k: int| 0 <= k < out@.len() ==> #[trigger] out@[k] < n,
            decreases end - j,
        {
            let ghost before = out@;
            if self.is_scope(j) {
                out.push(j);
                assert(before + (seq![j] + function_scopes(c, j + 1, end as int)) =~= out@ + function_scopes(
                    c,
                    j + 1,
                    end as int,
                ));
            } else {
                assert(before + (Seq::<usize>::empty() + function_scopes(c, j + 1, end as int)) =~= out@
                    + function_scopes(c, j + 1, end as int));
            }
            j = j + 1;
        }
        assert(out@ + Seq::<usize>::empty() =~= out@);
        out
    }
}

/// Run the taint engine over every function scope inside node `root` and
/// return one [`TaintFinding`] per source→sink flow.
///
/// Runs two passes per file. Pass 1 builds the return-taint summary of
/// every named function. Pass 2 analyzes every function scope, nested ones
/// included, with those summaries available.
pub fn analyze_tree(
    tree: &SyntaxTree,
    root: usize,
    source: &str,
    spec: &TaintSpec,
    aliases: Option<&JsImportAliases>,
) -> (res: Vec<TaintFinding>)
    requires
        root < tree@.len(),
    ensures
        taint_views(res@) == analyze(
            Ctx {
                src: source.spec_bytes(),
                t: tree@,
                spec: spec@,
                aliases: match aliases {
                    Some(a) => Some(a@),
                    None => None,
                },
            },
            root as int,
        ),
{
    let engine = Engine { tree, src: source.as_bytes(), spec, aliases };
    let ghost c = engine.ctx();
    let n = tree.len();
    assert(node_wf(tree@, root as int));
    let end = tree.node(root).subtree_end;
    let (names, fns) = engine.summary_targets_exec(root, end);
    let ghost targets = summary_targets(c, root as int, end as int);
    let mut sums = NameLog::new();
    let mut k: usize = 0;
    while k < fns.len()
        invariant
            c == engine.ctx(),
            engine.tree@ == tree@,
            k <= fns@.len(),
            names@.len() == fns@.len(),
            targets == summary_targets(c, root as int, end as int),
            targets == Seq::new(names@.len(), |m: int| (names@[m]@, fns@[m])),
            forall|m: int| 0 <= m < fns@.len() ==> #[trigger] fns@[m] < tree@.len(),
            sums@ == build_summaries(c, targets, k as int),
        decreases fns@.len() - k,
    {
        let f = fns[k];
        assert(fns@[k as int] < tree@.len());
        assert(targets[k as int] == (names@[k as int]@, f));
        let ret = engine.summarize_exec(f);
        sums.set(names[k].clone(), ret);
        k = k + 1;
    }
    let scopes = engine.function_scopes_exec(root, end);
    let mut out: Vec<TaintFinding> = Vec::new();
    let mut k: usize = 0;
    while k < scopes.len()
        invariant
            c == engine.ctx(),
            engine.tree@ == tree@,
            k <= scopes@.len(),
            scopes@ == function_scopes(c, root as int, end as int),
            forall|m: int| 0 <= m < scopes@.len() ==> #[trigger] scopes@[m] < tree@.len(),
            sums@ == build_summaries(c, targets, targets.len() as int),
            targets == summary_targets(c, root as int, end as int),
            taint_views(out@) == analyze_all(c, sums@, scopes@, k as int),
        decreases scopes@.len() - k,
    {
        let f = scopes[k];
        assert(scopes@[k as int] < tree@.len());
        let ghost before = out@;
        let mut fs = engine.analyze_function_exec(&sums, f);
        out.append(&mut fs);
        assert(taint_views(out@) =~= taint_views(before) + analyze_function(c, sums@, f as int));
        k = k + 1;
    }
    out
}

} // verus!

verus! {

// ─── Shared JavaScript sources ────────────────────────────────────────────

fn attribute_matcher(root: &str, field: &str, description: &str) -> (res: NodeMatcher)
    ensures
        res@ == (MatcherView::Attribute { root: root@, field: field@, description: description@ }),
{
    NodeMatcher::Attribute {
        root: String::from_str(root),
        field: String::from_str(field),
        description: String::from_str(description),
    }
}

fn call_matcher(canonical: &str, description: &str) -> (res: NodeMatcher)
    ensures
        res@ == (MatcherView::Call { canonical: canonical@, description: description@ }),
{
    NodeMatcher::Call { canonical: String::from_str(canonical), description: String::from_str(description) }
}

/// The untrusted-input sources of JavaScript / TypeScript web handlers:
/// handler parameters, Express / Fastify `req.*` and `request.*`, Next.js
/// `request.nextUrl`, Hono `c.req`, SvelteKit `event.*` and Deno.
pub open spec fn js_sources_spec() -> Seq<MatcherView> {
    seq![
        MatcherView::ParamName { names: seq!["req"@, "request"@], description: "untrusted request parameter"@ },
        MatcherView::Attribute { root: "req"@, field: "body"@, description: "req.body"@ },
        MatcherView::Attribute { root: "req"@, field: "query"@, description: "req.query"@ },
        MatcherView::Attribute { root: "req"@, field: "params"@, description: "req.params"@ },
        MatcherView::Attribute { root: "req"@, field: "headers"@, description: "req.headers"@ },
        MatcherView::Attribute { root: "req"@, field: "cookies"@, description: "req.cookies"@ },
        MatcherView::Attribute { root: "request"@, field: "body"@, description: "request.body"@ },
        MatcherView::Attribute { root: "request"@, field: "query"@, description: "request.query"@ },
        MatcherView::Attribute { root: "request"@, field: "params"@, description: "request.params"@ },
        MatcherView::Attribute { root: "request"@, field: "headers"@, description: "request.headers"@ },
        MatcherView::Attribute { root: "request"@, field: "cookies"@, description: "request.cookies"@ },
        MatcherView::Attribute { root: "request"@, field: "nextUrl"@, description: "Next.js request.nextUrl"@ },
        MatcherView::Attribute { root: "c"@, field: "req"@, description: "Hono c.req"@ },
        MatcherView::Call { canonical: "c.req.query"@, description: "Hono c.req.query()"@ },
        MatcherView::Call { canonical: "c.req.param"@, description: "Hono c.req.param()"@ },
        MatcherView::Call { canonical: "c.req.header"@, description: "Hono c.req.header()"@ },
        MatcherView::Call { canonical: "c.req.json"@, description: "Hono c.req.json()"@ },
        MatcherView::Call { canonical: "c.req.formData"@, description: "Hono c.req.formData()"@ },
        MatcherView::Call { canonical: "c.req.parseBody"@, description: "Hono c.req.parseBody()"@ },
        MatcherView::Attribute { root: "event"@, field: "request"@, description: "SvelteKit event.request"@ },
        MatcherView::Attribute { root: "event"@, field: "params"@, description: "SvelteKit event.params"@ },
        MatcherView::Attribute { root: "event"@, field: "url"@, description: "SvelteKit event.url"@ },
        MatcherView::Attribute { root: "Deno"@, field: "args"@, description: "Deno.args"@ },
        MatcherView::Call { canonical: "Deno.env.get"@, description: "Deno.env.get()"@ },
    ]
}

/// The shared JavaScript source matchers, in the order the engine tries
/// them.
pub fn javascript_taint_sources() -> (res: Vec<NodeMatcher>)
    ensures
        res@.map_values(|m: NodeMatcher| m@) == js_sources_spec(),
{
    let mut names: Vec<String> = Vec::new();
    names.push(String::from_str("req"));
    names.push(String::from_str("request"));
    assert(names@.map_values(|n: String| n@) =~= seq!["req"@, "request"@]);
    let mut v: Vec<NodeMatcher> = Vec::new();
    v.push(NodeMatcher::ParamName { names, description: String::from_str("untrusted request parameter") });
    v.push(attribute_matcher("req", "body", "req.body"));
    v.push(attribute_matcher("req", "query", "req.query"));
    v.push(attribute_matcher("req", "params", "req.params"));
    v.push(attribute_matcher("req", "headers", "req.headers"));
    v.push(attribute_matcher("req", "cookies", "req.cookies"));
    v.push(attribute_matcher("request", "body", "request.body"));
    v.push(attribute_matcher("request", "query", "request.query"));
    v.push(attribute_matcher("request", "params", "request.params"));
    v.push(attribute_matcher("request", "headers", "request.headers"));
    v.push(attribute_matcher("request", "cookies", "request.cookies"));
    v.push(attribute_matcher("request", "nextUrl", "Next.js request.nextUrl"));
    v.push(attribute_matcher("c", "req", "Hono c.req"));
    v.push(call_matcher("c.req.query", "Hono c.req.query()"));
    v.push(call_matcher("c.req.param", "Hono c.req.param()"));
    v.push(call_matcher("c.req.header", "Hono c.req.header()"));
    v.push(call_matcher("c.req.json", "Hono c.req.json()"));
    v.push(call_matcher("c.req.formData", "Hono c.req.formData()"));
    v.push(call_matcher("c.req.parseBody", "Hono c.req.parseBody()"));
    v.push(attribute_matcher("event", "request", "SvelteKit event.request"));
    v.push(attribute_matcher("event", "params", "SvelteKit event.params"));
    v.push(attribute_matcher("event", "url", "SvelteKit event.url"));
    v.push(attribute_matcher("Deno", "args", "Deno.args"));
    v.push(call_matcher("Deno.env.get", "Deno.env.get()"));
    assert(v@.map_values(|m: NodeMatcher| m@) =~= js_sources_spec());
    v
}

} // verus!

verus! {

// ─── Laws ─────────────────────────────────────────────────────────────────

/// The node kinds the statement and expression rules tell apart are
/// distinct texts.
proof fn lemma_kind_texts()
    ensures
        "identifier"@.len() == 10,
        "member_expression"@.len() == 17,
        "member_expression"@[0] == 'm',
        "subscript_expression"@.len() == 20,
        "template_string"@.len() == 15,
        "template_string"@[0] == 't',
        "binary_expression"@.len() == 17,
        "binary_expression"@[0] == 'b',
        "parenthesized_expression"@.len() == 24,
        "unary_expression"@.len() == 16,
        "sequence_expression"@.len() == 19,
        "sequence_expression"@[0] == 's',
        "call_expression"@.len() == 15,
        "call_expression"@[0] == 'c',
        "assignment_expression"@.len() == 21,
        "variable_declarator"@.len() == 19,
        "variable_declarator"@[0] == 'v',
        "object_pattern"@.len() == 14,
        "array_pattern"@.len() == 13,
{
    reveal_strlit("identifier");
    reveal_strlit("member_expression");
    reveal_strlit("subscript_expression");
    reveal_strlit("template_string");
    reveal_strlit("binary_expression");
    reveal_strlit("parenthesized_expression");
    reveal_strlit("unary_expression");
    reveal_strlit("sequence_expression");
    reveal_strlit("call_expression");
    reveal_strlit("assignment_expression");
    reveal_strlit("variable_declarator");
    reveal_strlit("object_pattern");
    reveal_strlit("array_pattern");
}

/// A reassignment with a clean right-hand side clears the target and a
/// tainted one taints it: after `x = value` (or `let x = value`), `x`
/// carries exactly the taint of `value` as it was before the statement.
pub proof fn law_assignment_sets_target(c: Ctx, st: LogView, sums: LogView, i: int, target: usize, value: usize)
    requires
        0 <= i < c.t.len(),
        (c.t[i].kind == "assignment_expression"@ && field_child(c.t, i, "left"@) == Some(target)
            && field_child(c.t, i, "right"@) == Some(value)) || (c.t[i].kind == "variable_declarator"@
            && field_child(c.t, i, "name"@) == Some(target) && field_child(c.t, i, "value"@) == Some(value)),
        target < c.t.len(),
        c.t[target as int].kind == "identifier"@,
    ensures
        log_get(step(c, st, sums, i), text_of(c, target as int)) == expr_taint(c, st, sums, value as int),
{
    lemma_kind_texts();
    assert(c.t[target as int].kind != "member_expression"@);
    crate::rules::name_log::law_last_write_wins(st, text_of(c, target as int), expr_taint(c, st, sums, value as int), text_of(c, target as int));
}

/// Destructuring taints every bound name: after `const {a, b: [c]} =
/// value` (or the same pattern on the left of `=`), every name the pattern
/// binds carries the taint of `value`.
pub proof fn law_destructuring_binds_every_name(c: Ctx, st: LogView, sums: LogView, i: int, target: usize, value: usize, j: int)
    requires
        0 <= i < c.t.len(),
        (c.t[i].kind == "assignment_expression"@ && field_child(c.t, i, "left"@) == Some(target)
            && field_child(c.t, i, "right"@) == Some(value)) || (c.t[i].kind == "variable_declarator"@
            && field_child(c.t, i, "name"@) == Some(target) && field_child(c.t, i, "value"@) == Some(value)),
        target < c.t.len(),
        is_pattern(c.t[target as int].kind),
        0 <= j < destructuring_targets(c, target as int).len(),
    ensures
        log_get(step(c, st, sums, i), destructuring_targets(c, target as int)[j]) == expr_taint(c, st, sums, value as int),
{
    lemma_kind_texts();
    let names = destructuring_targets(c, target as int);
    assert(c.t[target as int].kind != "member_expression"@);
    assert(c.t[target as int].kind != "identifier"@);
    crate::rules::go_taint::lemma_assign_all_get(st, names, expr_taint(c, st, sums, value as int), 0, names[j]);
    assert(names.subrange(0, names.len() as int) =~= names);
    assert(names.contains(names[j]));
}

/// Assigning to a member (`el.innerHTML = ..`) binds no local name: the
/// taint state is unchanged.
pub proof fn law_member_assignment_keeps_state(c: Ctx, st: LogView, sums: LogView, i: int)
    requires
        0 <= i < c.t.len(),
        c.t[i].kind == "assignment_expression"@,
        field_child(c.t, i, "left"@) matches Some(l) && c.t[l as int].kind == "member_expression"@,
    ensures
        step(c, st, sums, i) == st,
{
    lemma_kind_texts();
}

/// Sanitizers collapse to clean: a call to a declared sanitizer carries no
/// taint, whatever its arguments, unless a source matcher names the call
/// itself.
pub proof fn law_sanitizer_collapses(c: Ctx, st: LogView, sums: LogView, i: int)
    requires
        0 <= i < c.t.len(),
        is_sanitizer_call(c, i),
        match_source(c, i) is None,
    ensures
        expr_taint(c, st, sums, i) is None,
{
    lemma_kind_texts();
    let k = c.t[i].kind;
    assert(k == "call_expression"@);
    assert(k != "identifier"@);
    assert(k != "member_expression"@ && k != "subscript_expression"@);
    assert(k != "template_string"@ && k != "binary_expression"@);
    assert(k != "parenthesized_expression"@ && k != "unary_expression"@);
    assert(k != "sequence_expression"@);
}

/// Each node reports at most one flow: a sink call for its first tainted
/// argument, a member-assignment sink for its tainted value.
pub proof fn law_one_finding_per_node(c: Ctx, st: LogView, sums: LogView, i: int)
    ensures
        (assign_findings(c, st, sums, i) + call_findings(c, st, sums, i)).len() <= 1,
{
    lemma_kind_texts();
}

} // verus!

verus! {

proof fn lemma_list_taint_some(c: Ctx, st: LogView, sums: LogView, parent: int, list: Seq<usize>, k: int, j: int)
    requires
        0 <= k <= j < list.len(),
        parent < list[j] < c.t.len(),
        expr_taint(c, st, sums, list[j] as int) is Some,
    ensures
        list_taint(c, st, sums, parent, list, k) is Some,
    decreases j - k,
{
    if k < j {
        let x = list[k];
        let r = if parent < x < c.t.len() {
            expr_taint(c, st, sums, x as int)
        } else {
            None
        };
        if r is None {
            lemma_list_taint_some(c, st, sums, parent, list, k + 1, j);
        }
    }
}

proof fn lemma_template_taint_some(
    c: Ctx,
    st: LogView,
    sums: LogView,
    parent: int,
    list: Seq<usize>,
    k: int,
    j: int,
    m: int,
)
    requires
        0 <= k <= j < list.len(),
        parent < list[j] < c.t.len(),
        c.t[list[j] as int].kind == "template_substitution"@,
        0 <= m < named_children(c.t, list[j] as int).len(),
        list[j] < named_children(c.t, list[j] as int)[m] < c.t.len(),
        expr_taint(c, st, sums, named_children(c.t, list[j] as int)[m] as int) is Some,
    ensures
        template_taint(c, st, sums, parent, list, k) is Some,
    decreases j - k,
{
    let x = list[k];
    if k < j {
        let r = if parent < x < c.t.len() && c.t[x as int].kind == "template_substitution"@ {
            list_taint(c, st, sums, x as int, named_children(c.t, x as int), 0)
        } else {
            None
        };
        if r is None {
            lemma_template_taint_some(c, st, sums, parent, list, k + 1, j, m);
        }
    } else {
        lemma_list_taint_some(c, st, sums, x as int, named_children(c.t, x as int), 0, m);
    }
}

/// Attribute and subscript propagation: `x.y` and `x[k]` are tainted when
/// `x` is (so a chain is tainted when its root is).
pub proof fn law_member_of_tainted_is_tainted(c: Ctx, st: LogView, sums: LogView, i: int, o: usize)
    requires
        tree_wf(c.t),
        0 <= i < c.t.len(),
        c.t[i].kind == "member_expression"@ || c.t[i].kind == "subscript_expression"@,
        field_child(c.t, i, "object"@) == Some(o),
        expr_taint(c, st, sums, o as int) is Some,
    ensures
        expr_taint(c, st, sums, i) is Some,
{
    lemma_kind_texts();
    crate::tree::lemma_accessors_in_bounds(c.t, i);
    assert(field_child(c.t, i, "object"@) is Some);
    let k = c.t[i].kind;
    assert(k != "identifier"@);
}

/// Concatenation propagation: a binary expression such as `"SELECT " + x`
/// is tainted when one of its operands is.
pub proof fn law_concatenation_keeps_taint(c: Ctx, st: LogView, sums: LogView, i: int, x: usize)
    requires
        tree_wf(c.t),
        0 <= i < c.t.len(),
        c.t[i].kind == "binary_expression"@,
        named_children(c.t, i).contains(x),
        expr_taint(c, st, sums, x as int) is Some,
    ensures
        expr_taint(c, st, sums, i) is Some,
{
    lemma_kind_texts();
    crate::tree::lemma_accessors_in_bounds(c.t, i);
    let l = named_children(c.t, i);
    let j = choose|j: int| 0 <= j < l.len() && l[j] == x;
    assert(i < l[j] < c.t.len());
    lemma_list_taint_some(c, st, sums, i, l, 0, j);
    let k = c.t[i].kind;
    assert(k != "identifier"@ && k != "member_expression"@ && k != "subscript_expression"@);
    assert(k != "template_string"@);
}

/// Wrapping-call propagation: a call that is not a declared sanitizer is
/// tainted when one of its arguments is.
pub proof fn law_wrapping_call_keeps_taint(c: Ctx, st: LogView, sums: LogView, i: int, args: usize, x: usize)
    requires
        tree_wf(c.t),
        0 <= i < c.t.len(),
        c.t[i].kind == "call_expression"@,
        !is_sanitizer_call(c, i),
        field_child(c.t, i, "arguments"@) == Some(args),
        named_children(c.t, args as int).contains(x),
        expr_taint(c, st, sums, x as int) is Some,
    ensures
        expr_taint(c, st, sums, i) is Some,
{
    lemma_kind_texts();
    crate::tree::lemma_accessors_in_bounds(c.t, i);
    assert(field_child(c.t, i, "arguments"@) is Some);
    crate::tree::lemma_accessors_in_bounds(c.t, args as int);
    let l = named_children(c.t, args as int);
    let j = choose|j: int| 0 <= j < l.len() && l[j] == x;
    assert(args < l[j] < c.t.len());
    lemma_list_taint_some(c, st, sums, args as int, l, 0, j);
    let k = c.t[i].kind;
    assert(k != "identifier"@ && k != "member_expression"@ && k != "subscript_expression"@);
    assert(k != "template_string"@ && k != "binary_expression"@ && k != "parenthesized_expression"@);
    assert(k != "unary_expression"@ && k != "sequence_expression"@);
}

/// Method calls on a tainted receiver: `x.f(..)` is tainted when `x` is,
/// unless `x.f` is a declared sanitizer.
pub proof fn law_method_on_tainted_receiver(c: Ctx, st: LogView, sums: LogView, i: int, f: usize, o: usize)
    requires
        tree_wf(c.t),
        0 <= i < c.t.len(),
        c.t[i].kind == "call_expression"@,
        !is_sanitizer_call(c, i),
        field_child(c.t, i, "function"@) == Some(f),
        c.t[f as int].kind == "member_expression"@,
        field_child(c.t, f as int, "object"@) == Some(o),
        expr_taint(c, st, sums, o as int) is Some,
    ensures
        expr_taint(c, st, sums, i) is Some,
{
    lemma_kind_texts();
    crate::tree::lemma_accessors_in_bounds(c.t, i);
    assert(field_child(c.t, i, "function"@) is Some);
    crate::tree::lemma_accessors_in_bounds(c.t, f as int);
    assert(field_child(c.t, f as int, "object"@) is Some);
    let k = c.t[i].kind;
    assert(k != "identifier"@ && k != "member_expression"@ && k != "subscript_expression"@);
    assert(k != "template_string"@ && k != "binary_expression"@ && k != "parenthesized_expression"@);
    assert(k != "unary_expression"@ && k != "sequence_expression"@);
}

/// Template-literal propagation: `` `..${x}..` `` is tainted when `x` is.
pub proof fn law_template_with_tainted_substitution(
    c: Ctx,
    st: LogView,
    sums: LogView,
    i: int,
    s: usize,
    x: usize,
)
    requires
        tree_wf(c.t),
        0 <= i < c.t.len(),
        c.t[i].kind == "template_string"@,
        c.t[i].children.contains(s),
        c.t[s as int].kind == "template_substitution"@,
        named_children(c.t, s as int).contains(x),
        expr_taint(c, st, sums, x as int) is Some,
    ensures
        expr_taint(c, st, sums, i) is Some,
{
    lemma_kind_texts();
    reveal_strlit("template_substitution");
    assert(crate::tree::node_wf(c.t, i));
    let ch = c.t[i].children;
    let j = choose|j: int| 0 <= j < ch.len() && ch[j] == s;
    assert(i < ch[j] < c.t.len());
    crate::tree::lemma_accessors_in_bounds(c.t, s as int);
    let l = named_children(c.t, s as int);
    let m = choose|m: int| 0 <= m < l.len() && l[m] == x;
    assert(s < l[m] < c.t.len());
    lemma_template_taint_some(c, st, sums, i, ch, 0, j, m);
    let k = c.t[i].kind;
    assert(k != "identifier"@ && k != "member_expression"@ && k != "subscript_expression"@);
}

/// The input of a sanitizer is unaffected: an assignment to `x` leaves
/// every other name as it was.
pub proof fn law_assignment_leaves_other_names(c: Ctx, st: LogView, sums: LogView, i: int, target: usize, value: usize, other: Seq<char>)
    requires
        0 <= i < c.t.len(),
        (c.t[i].kind == "assignment_expression"@ && field_child(c.t, i, "left"@) == Some(target)
            && field_child(c.t, i, "right"@) == Some(value)) || (c.t[i].kind == "variable_declarator"@
            && field_child(c.t, i, "name"@) == Some(target) && field_child(c.t, i, "value"@) == Some(value)),
        target < c.t.len(),
        c.t[target as int].kind == "identifier"@,
        other != text_of(c, target as int),
    ensures
        log_get(step(c, st, sums, i), other) == log_get(st, other),
{
    lemma_kind_texts();
    assert(c.t[target as int].kind != "member_expression"@);
    crate::rules::name_log::law_last_write_wins(st, text_of(c, target as int), expr_taint(c, st, sums, value as int), other);
}

} // verus!

verus! {

// ─── Laws on the shared sources ───────────────────────────────────────────

/// The JavaScript / TypeScript untrusted-input sources, as documented:
/// handler parameters named `req` or `request`; Express / Fastify
/// `req.body`, `req.query`, `req.params`, `req.headers`, `req.cookies` and
/// the same five on `request`; Next.js `request.nextUrl`; Hono `c.req` and
/// `c.req.query()`, `c.req.param()`, `c.req.header()`, `c.req.json()`,
/// `c.req.formData()`, `c.req.parseBody()`; SvelteKit `event.request`,
/// `event.params` and `event.url`; Deno `Deno.args` and `Deno.env.get()`.
/// These twenty-four, and no other, are the shared source matchers.
pub proof fn law_js_sources_documented()
    ensures
        js_sources_spec().len() == 24,
        js_sources_spec().contains(
            (MatcherView::ParamName { description: "untrusted request parameter"@, names: seq!["req"@, "request"@] }),
        ),
        js_sources_spec().contains((MatcherView::Attribute { description: "req.body"@, root: "req"@, field: "body"@ })),
        js_sources_spec().contains((MatcherView::Attribute { description: "req.query"@, root: "req"@, field: "query"@ })),
        js_sources_spec().contains((MatcherView::Attribute { description: "req.params"@, root: "req"@, field: "params"@ })),
        js_sources_spec().contains((MatcherView::Attribute { description: "req.headers"@, root: "req"@, field: "headers"@ })),
        js_sources_spec().contains((MatcherView::Attribute { description: "req.cookies"@, root: "req"@, field: "cookies"@ })),
        js_sources_spec().contains((MatcherView::Attribute { description: "request.body"@, root: "request"@, field: "body"@ })),
        js_sources_spec().contains((MatcherView::Attribute { description: "request.query"@, root: "request"@, field: "query"@ })),
        js_sources_spec().contains((MatcherView::Attribute { description: "request.params"@, root: "request"@, field: "params"@ })),
        js_sources_spec().contains((MatcherView::Attribute { description: "request.headers"@, root: "request"@, field: "headers"@ })),
        js_sources_spec().contains((MatcherView::Attribute { description: "request.cookies"@, root: "request"@, field: "cookies"@ })),
        js_sources_spec().contains((MatcherView::Attribute { description: "Next.js request.nextUrl"@, root: "request"@, field: "nextUrl"@ })),
        js_sources_spec().contains((MatcherView::Attribute { description: "Hono c.req"@, root: "c"@, field: "req"@ })),
        js_sources_spec().contains((MatcherView::Call { description: "Hono c.req.query()"@, canonical: "c.req.query"@ })),
        js_sources_spec().contains((MatcherView::Call { description: "Hono c.req.param()"@, canonical: "c.req.param"@ })),
        js_sources_spec().contains((MatcherView::Call { description: "Hono c.req.header()"@, canonical: "c.req.header"@ })),
        js_sources_spec().contains((MatcherView::Call { description: "Hono c.req.json()"@, canonical: "c.req.json"@ })),
        js_sources_spec().contains((MatcherView::Call { description: "Hono c.req.formData()"@, canonical: "c.req.formData"@ })),
        js_sources_spec().contains((MatcherView::Call { description: "Hono c.req.parseBody()"@, canonical: "c.req.parseBody"@ })),
        js_sources_spec().contains((MatcherView::Attribute { description: "SvelteKit event.request"@, root: "event"@, field: "request"@ })),
        js_sources_spec().contains((MatcherView::Attribute { description: "SvelteKit event.params"@, root: "event"@, field: "params"@ })),
        js_sources_spec().contains((MatcherView::Attribute { description: "SvelteKit event.url"@, root: "event"@, field: "url"@ })),
        js_sources_spec().contains((MatcherView::Attribute { description: "Deno.args"@, root: "Deno"@, field: "args"@ })),
        js_sources_spec().contains((MatcherView::Call { description: "Deno.env.get()"@, canonical: "Deno.env.get"@ })),
{
    let s = js_sources_spec();
    assert(s[0] == (MatcherView::ParamName { description: "untrusted request parameter"@, names: seq!["req"@, "request"@] }));
    assert(s[1] == (MatcherView::Attribute { description: "req.body"@, root: "req"@, field: "body"@ }));
    assert(s[2] == (MatcherView::Attribute { description: "req.query"@, root: "req"@, field: "query"@ }));
    assert(s[3] == (MatcherView::Attribute { description: "req.params"@, root: "req"@, field: "params"@ }));
    assert(s[4] == (MatcherView::Attribute { description: "req.headers"@, root: "req"@, field: "headers"@ }));
    assert(s[5] == (MatcherView::Attribute { description: "req.cookies"@, root: "req"@, field: "cookies"@ }));
    assert(s[6] == (MatcherView::Attribute { description: "request.body"@, root: "request"@, field: "body"@ }));
    assert(s[7] == (MatcherView::Attribute { description: "request.query"@, root: "request"@, field: "query"@ }));
    assert(s[8] == (MatcherView::Attribute { description: "request.params"@, root: "request"@, field: "params"@ }));
    assert(s[9] == (MatcherView::Attribute { description: "request.headers"@, root: "request"@, field: "headers"@ }));
    assert(s[10] == (MatcherView::Attribute { description: "request.cookies"@, root: "request"@, field: "cookies"@ }));
    assert(s[11] == (MatcherView::Attribute { description: "Next.js request.nextUrl"@, root: "request"@, field: "nextUrl"@ }));
    assert(s[12] == (MatcherView::Attribute { description: "Hono c.req"@, root: "c"@, field: "req"@ }));
    assert(s[13] == (MatcherView::Call { description: "Hono c.req.query()"@, canonical: "c.req.query"@ }));
    assert(s[14] == (MatcherView::Call { description: "Hono c.req.param()"@, canonical: "c.req.param"@ }));
    assert(s[15] == (MatcherView::Call { description: "Hono c.req.header()"@, canonical: "c.req.header"@ }));
    assert(s[16] == (MatcherView::Call { description: "Hono c.req.json()"@, canonical: "c.req.json"@ }));
    assert(s[17] == (MatcherView::Call { description: "Hono c.req.formData()"@, canonical: "c.req.formData"@ }));
    assert(s[18] == (MatcherView::Call { description: "Hono c.req.parseBody()"@, canonical: "c.req.parseBody"@ }));
    assert(s[19] == (MatcherView::Attribute { description: "SvelteKit event.request"@, root: "event"@, field: "request"@ }));
    assert(s[20] == (MatcherView::Attribute { description: "SvelteKit event.params"@, root: "event"@, field: "params"@ }));
    assert(s[21] == (MatcherView::Attribute { description: "SvelteKit event.url"@, root: "event"@, field: "url"@ }));
    assert(s[22] == (MatcherView::Attribute { description: "Deno.args"@, root: "Deno"@, field: "args"@ }));
    assert(s[23] == (MatcherView::Call { description: "Deno.env.get()"@, canonical: "Deno.env.get"@ }));
}

/// A source matcher that matches a node makes the node a source, whatever
/// the matchers before it do.
pub proof fn lemma_hit_is_source(c: Ctx, i: int, j: int, k: int)
    requires
        0 <= j <= k < c.spec.sources.len(),
        source_hit(c, i, c.spec.sources[k]) is Some,
    ensures
        match_source_from(c, i, j) is Some,
    decreases k - j,
{
    if j < k {
        lemma_hit_is_source(c, i, j + 1, k);
    }
}

/// Every documented member-access source is recognised: with the shared
/// sources, a member expression `root.field` (the property, on a chain
/// whose leftmost name is the root) is untrusted input for `req.body`,
/// `req.query`, `req.params`, `req.headers`, `req.cookies`, the same five
/// on `request`, `request.nextUrl`, `c.req`, `event.request`,
/// `event.params`, `event.url` and `Deno.args`.
pub proof fn law_documented_js_members_are_sources(c: Ctx, i: int, root: Seq<char>, field: Seq<char>)
    requires
        c.spec.sources == js_sources_spec(),
        0 <= i < c.t.len(),
        c.t[i].kind == "member_expression"@,
        field_text(c.src, c.t, i, "property"@) == Some(field),
        leftmost_identifier(c, i) == Some(root),
        ((root == "req"@ || root == "request"@) && (field == "body"@ || field == "query"@ || field == "params"@
            || field == "headers"@ || field == "cookies"@)) || (root == "request"@ && field == "nextUrl"@) || (
        root == "c"@ && field == "req"@) || (root == "event"@ && (field == "request"@ || field == "params"@
            || field == "url"@)) || (root == "Deno"@ && field == "args"@),
    ensures
        match_source(c, i) is Some,
{
    law_js_sources_documented();
    let s = c.spec.sources;
    let k = choose|k: int|
        #![trigger s[k]]
        0 <= k < s.len() && s[k] is Attribute && s[k]->Attribute_root == root && s[k]->Attribute_field == field;
    lemma_hit_is_source(c, i, 0, k);
}

/// Every documented call source is recognised: with the shared sources, a
/// call written `c.req.query(..)`, `c.req.param(..)`, `c.req.header(..)`,
/// `c.req.json()`, `c.req.formData()`, `c.req.parseBody()` or
/// `Deno.env.get(..)` is untrusted input.
pub proof fn law_documented_js_calls_are_sources(c: Ctx, i: int, f: Seq<char>)
    requires
        c.spec.sources == js_sources_spec(),
        0 <= i < c.t.len(),
        c.t[i].kind == "call_expression"@,
        field_text(c.src, c.t, i, "function"@) == Some(f),
        f == "c.req.query"@ || f == "c.req.param"@ || f == "c.req.header"@ || f == "c.req.json"@ || f
            == "c.req.formData"@ || f == "c.req.parseBody"@ || f == "Deno.env.get"@,
    ensures
        match_source(c, i) is Some,
{
    law_js_sources_documented();
    let s = c.spec.sources;
    let k = choose|k: int| #![trigger s[k]] 0 <= k < s.len() && s[k] is Call && s[k]->Call_canonical == f;
    lemma_hit_is_source(c, i, 0, k);
}

} // verus!
