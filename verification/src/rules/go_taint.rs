//! Intraprocedural, flow-insensitive taint analysis for Go.
//!
//! - **Per function / method.** Each `function_declaration` and
//!   `method_declaration` body is analyzed independently; closures
//!   (`func_literal`) are skipped.
//! - **Flow-insensitive.** Statements are processed in source order; a
//!   reassignment with a clean right-hand side clears the target's taint.
//! - **Propagation.** Selector and index expressions, binary operators,
//!   parenthesized and unary wrappers, composite literals, wrapping calls
//!   and method calls on tainted receivers all carry taint; sanitizer calls
//!   collapse to clean.
//! - **Same-file interprocedural return propagation.** Pass 1 records a
//!   return-taint summary per function / method simple name (last write
//!   wins); pass 2 re-analyzes every body with the summary available.
//! - **Multi-return destructuring.** `a, b := f()`: when the arities
//!   differ, a tainted right-hand side taints every bound name.
//!
//! Everything specific to a library is expressed declaratively via
//! [`TaintSpec`].

use vstd::prelude::*;
use vstd::string::*;
use crate::text::{chars_of, chars_eq, chars_eq_string, string_of_chars, utf8_lossy_string, sub_chars, push_chars, push_str, find_char, after_last_char, trim_chars, has_char, first_index, after_last, trim_set, TrimSet};
use crate::tree::{NodeView, SyntaxTree, tree_wf, node_wf, field_child, field_text, named_children, node_text};
use crate::rules::name_log::{NameLog, LogView, log_get, opt_view};

verus! {

// ─── Public API ───────────────────────────────────────────────────────────

/// A pattern that matches a syntax node for taint analysis.
#[derive(Debug, Clone)]
pub enum NodeMatcher {
    /// A selector chain whose leftmost identifier (raw or alias-resolved)
    /// is `root` and whose final field is `field`.
    Attribute { root: String, field: String, description: String },
    /// A call whose callee resolves (raw or via the alias table) to
    /// `canonical`.
    Call { canonical: String, description: String },
    /// A function parameter whose name is in the list.
    ParamName { names: Vec<String>, description: String },
    /// A method call whose final field name is `method`, whatever the
    /// receiver. Only meaningful as a sink.
    MethodName { method: String, description: String },
}

pub enum MatcherView {
    Attribute { root: Seq<char>, field: Seq<char>, description: Seq<char> },
    Call { canonical: Seq<char>, description: Seq<char> },
    ParamName { names: Seq<Seq<char>>, description: Seq<char> },
    MethodName { method: Seq<char>, description: Seq<char> },
}

impl View for NodeMatcher {
    type V = MatcherView;

    open spec fn view(&self) -> MatcherView {
        match self {
            NodeMatcher::Attribute { root, field, description } => MatcherView::Attribute {
                root: root@,
                field: field@,
                description: description@,
            },
            NodeMatcher::Call { canonical, description } => MatcherView::Call {
                canonical: canonical@,
                description: description@,
            },
            NodeMatcher::ParamName { names, description } => MatcherView::ParamName {
                names: names@.map_values(|n: String| n@),
                description: description@,
            },
            NodeMatcher::MethodName { method, description } => MatcherView::MethodName {
                method: method@,
                description: description@,
            },
        }
    }
}

pub open spec fn matcher_description(m: MatcherView) -> Seq<char> {
    match m {
        MatcherView::Attribute { description, .. } => description,
        MatcherView::Call { description, .. } => description,
        MatcherView::ParamName { description, .. } => description,
        MatcherView::MethodName { description, .. } => description,
    }
}

impl NodeMatcher {
    pub fn description(&self) -> (res: &str)
        ensures
            res@ == matcher_description(self@),
    {
        match self {
            NodeMatcher::Attribute { description, .. } => description.as_str(),
            NodeMatcher::Call { description, .. } => description.as_str(),
            NodeMatcher::ParamName { description, .. } => description.as_str(),
            NodeMatcher::MethodName { description, .. } => description.as_str(),
        }
    }
}

/// Declarative taint specification consumed by the engine.
#[derive(Debug, Clone)]
pub struct TaintSpec {
    pub sources: Vec<NodeMatcher>,
    pub sinks: Vec<NodeMatcher>,
    pub sanitizers: Vec<NodeMatcher>,
}

pub struct SpecView {
    pub sources: Seq<MatcherView>,
    pub sinks: Seq<MatcherView>,
    pub sanitizers: Seq<MatcherView>,
}

impl View for TaintSpec {
    type V = SpecView;

    open spec fn view(&self) -> SpecView {
        SpecView {
            sources: self.sources@.map_values(|m: NodeMatcher| m@),
            sinks: self.sinks@.map_values(|m: NodeMatcher| m@),
            sanitizers: self.sanitizers@.map_values(|m: NodeMatcher| m@),
        }
    }
}

/// A single source→sink flow reported by the engine.
#[derive(Debug, Clone)]
pub struct TaintFinding {
    pub sink_start_byte: usize,
    pub sink_end_byte: usize,
    pub sink_line: usize,
    pub sink_column: usize,
    pub sink_end_line: usize,
    pub sink_end_column: usize,
    pub source_description: String,
    pub sink_description: String,
}

pub struct TaintFindingView {
    pub sink_start_byte: usize,
    pub sink_end_byte: usize,
    pub sink_line: usize,
    pub sink_column: usize,
    pub sink_end_line: usize,
    pub sink_end_column: usize,
    pub source_description: Seq<char>,
    pub sink_description: Seq<char>,
}

impl View for TaintFinding {
    type V = TaintFindingView;

    open spec fn view(&self) -> TaintFindingView {
        TaintFindingView {
            sink_start_byte: self.sink_start_byte,
            sink_end_byte: self.sink_end_byte,
            sink_line: self.sink_line,
            sink_column: self.sink_column,
            sink_end_line: self.sink_end_line,
            sink_end_column: self.sink_end_column,
            source_description: self.source_description@,
            sink_description: self.sink_description@,
        }
    }
}

pub open spec fn taint_views(v: Seq<TaintFinding>) -> Seq<TaintFindingView> {
    v.map_values(|f: TaintFinding| f@)
}

// ─── Per-file import alias table ──────────────────────────────────────────

/// Per-file Go import alias table: a local package identifier maps to the
/// last segment of its import path (`import net "net/http"`: `net` →
/// `http`; `import "fmt"`: `fmt` → `fmt`). Dot and blank imports record
/// nothing.
#[derive(Debug, Clone)]
pub struct GoImportAliases {
    map: NameLog,
}

impl View for GoImportAliases {
    type V = LogView;

    closed spec fn view(&self) -> LogView {
        self.map@
    }
}

/// `callee` with its leading package identifier replaced by the canonical
/// name the alias table holds for it.
pub open spec fn resolve(aliases: LogView, callee: Seq<char>) -> Seq<char> {
    if has_char(callee, '.') {
        let d = first_index(callee, '.');
        let head = callee.subrange(0, d);
        let tail = callee.subrange(d + 1, callee.len() as int);
        match log_get(aliases, head) {
            Some(canonical) => if canonical == head {
                callee
            } else {
                canonical + seq!['.'] + tail
            },
            None => callee,
        }
    } else {
        match log_get(aliases, callee) {
            Some(canonical) => canonical,
            None => callee,
        }
    }
}

pub open spec fn resolve_opt(aliases: Option<LogView>, callee: Seq<char>) -> Seq<char> {
    match aliases {
        Some(a) => resolve(a, callee),
        None => callee,
    }
}

/// The last segment of an import path after stripping quotes and
/// backticks, paired with the local name under which it is imported.
pub open spec fn import_spec_entry(src: Seq<u8>, t: Seq<NodeView>, i: int) -> Option<
    (Seq<char>, Seq<char>),
> {
    match field_child(t, i, "path"@) {
        None => None,
        Some(p) => {
            let path = trim_set(node_text(src, t[p as int]), TrimSet::QuoteOrBacktick);
            if path.len() == 0 {
                None
            } else {
                let canonical = after_last(path, '/');
                match field_child(t, i, "name"@) {
                    Some(n) => if t[n as int].kind == "dot"@ || t[n as int].kind
                        == "blank_identifier"@ {
                        None
                    } else if t[n as int].kind == "package_identifier"@ {
                        Some((node_text(src, t[n as int]), canonical))
                    } else {
                        Some((canonical, canonical))
                    },
                    None => Some((canonical, canonical)),
                }
            }
        },
    }
}

pub open spec fn add_import_spec(src: Seq<u8>, t: Seq<NodeView>, l: LogView, i: int) -> LogView {
    match import_spec_entry(src, t, i) {
        Some(e) => l.push((e.0, Some(e.1))),
        None => l,
    }
}

/// The import specs inside an `import_spec_list`, in order.
pub open spec fn add_spec_list(src: Seq<u8>, t: Seq<NodeView>, l: LogView, list: int, k: int) -> LogView
    decreases k,
{
    if k <= 0 {
        l
    } else {
        let prev = add_spec_list(src, t, l, list, k - 1);
        let c = t[list].children[k - 1];
        if t[c as int].kind == "import_spec"@ {
            add_import_spec(src, t, prev, c as int)
        } else {
            prev
        }
    }
}

/// The entries an `import_declaration` contributes, children `0 .. k`.
pub open spec fn add_import_decl(src: Seq<u8>, t: Seq<NodeView>, l: LogView, decl: int, k: int) -> LogView
    decreases k,
{
    if k <= 0 {
        l
    } else {
        let prev = add_import_decl(src, t, l, decl, k - 1);
        let c = t[decl].children[k - 1];
        if t[c as int].kind == "import_spec"@ {
            add_import_spec(src, t, prev, c as int)
        } else if t[c as int].kind == "import_spec_list"@ {
            add_spec_list(src, t, prev, c as int, t[c as int].children.len() as int)
        } else {
            prev
        }
    }
}

/// The alias table of a file: the import declarations among the root's
/// children `0 .. k`, in order.
pub open spec fn aliases_upto(src: Seq<u8>, t: Seq<NodeView>, k: int) -> LogView
    decreases k,
{
    if k <= 0 || t.len() == 0 {
        Seq::empty()
    } else {
        let prev = aliases_upto(src, t, k - 1);
        let c = t[0].children[k - 1];
        if t[c as int].kind == "import_declaration"@ {
            add_import_decl(src, t, prev, c as int, t[c as int].children.len() as int)
        } else {
            prev
        }
    }
}

pub open spec fn aliases_of(src: Seq<u8>, t: Seq<NodeView>) -> LogView {
    if t.len() == 0 {
        Seq::empty()
    } else {
        aliases_upto(src, t, t[0].children.len() as int)
    }
}

/// A callee with its leading name resolved through an alias table.
pub(crate) fn resolve_in(map: &NameLog, callee: &[char]) -> (res: Vec<char>)
    ensures
        res@ == resolve(map@, callee@),
{
    match find_char(callee, '.') {
        Some(d) => {
            let head = sub_chars(callee, 0, d);
            match map.get_chars(head.as_slice()) {
                Some(canonical) => {
                    let cv = chars_of(canonical.as_str());
                    if chars_eq(cv.as_slice(), head.as_slice()) {
                        sub_chars(callee, 0, callee.len())
                    } else {
                        let mut out = cv;
                        out.push('.');
                        let n = callee.len();
                        let tail = sub_chars(callee, d + 1, n);
                        push_chars(&mut out, tail.as_slice());
                        assert(callee@.subrange(0, callee@.len() as int) =~= callee@);
                        out
                    }
                },
                None => {
                    let r = sub_chars(callee, 0, callee.len());
                    assert(callee@.subrange(0, callee@.len() as int) =~= callee@);
                    r
                },
            }
        },
        None => {
            match map.get_chars(callee) {
                Some(canonical) => chars_of(canonical.as_str()),
                None => {
                    let r = sub_chars(callee, 0, callee.len());
                    assert(callee@.subrange(0, callee@.len() as int) =~= callee@);
                    r
                },
            }
        },
    }
}


impl GoImportAliases {
    /// The alias table of the file whose tree is given.
    pub fn from_tree(source: &str, tree: &SyntaxTree) -> (res: GoImportAliases)
        ensures
            res@ == aliases_of(source.spec_bytes(), tree@),
    {
        let src = source.as_bytes();
        let n = tree.len();
        let mut map = NameLog::new();
        if n == 0 {
            return GoImportAliases { map };
        }
        let ghost t = tree@;
        assert(node_wf(t, 0));
        let root = tree.node(0);
        let mut k: usize = 0;
        while k < root.children.len()
            invariant
                t == tree@,
                tree_wf(t),
                n == t.len() > 0,
                root@ == t[0],
                k <= root.children@.len(),
                map@ == aliases_upto(src@, t, k as int),
            decreases root.children@.len() - k,
        {
            let c = root.children[k];
            assert(node_wf(t, 0));
            assert(t[0].children[k as int] == c);
            if tree.kind_is(c, "import_declaration") {
                Self::collect_import_decl(&mut map, tree, src, c);
            }
            k = k + 1;
        }
        GoImportAliases { map }
    }

    fn collect_import_decl(map: &mut NameLog, tree: &SyntaxTree, src: &[u8], decl: usize)
        requires
            decl < tree@.len(),
        ensures
            final(map)@ == add_import_decl(
                src@,
                tree@,
                old(map)@,
                decl as int,
                tree@[decl as int].children.len() as int,
            ),
    {
        let n = tree.len();
        let ghost t = tree@;
        let node = tree.node(decl);
        let mut k: usize = 0;
        while k < node.children.len()
            invariant
                t == tree@,
                tree_wf(t),
                n == t.len(),
                decl < n,
                node@ == t[decl as int],
                k <= node.children@.len(),
                map@ == add_import_decl(src@, t, old(map)@, decl as int, k as int),
            decreases node.children@.len() - k,
        {
            let c = node.children[k];
            assert(node_wf(t, decl as int));
            assert(t[decl as int].children[k as int] == c);
            if tree.kind_is(c, "import_spec") {
                Self::collect_import_spec(map, tree, src, c);
            } else if tree.kind_is(c, "import_spec_list") {
                let inner = tree.node(c);
                let mut m: usize = 0;
                let ghost before = map@;
                while m < inner.children.len()
                    invariant
                        t == tree@,
                        tree_wf(t),
                        n == t.len(),
                        c < n,
                        inner@ == t[c as int],
                        m <= inner.children@.len(),
                        map@ == add_spec_list(src@, t, before, c as int, m as int),
                    decreases inner.children@.len() - m,
                {
                    let s = inner.children[m];
                    assert(node_wf(t, c as int));
                    assert(t[c as int].children[m as int] == s);
                    if tree.kind_is(s, "import_spec") {
                        Self::collect_import_spec(map, tree, src, s);
                    }
                    m = m + 1;
                }
            }
            k = k + 1;
        }
    }

    fn collect_import_spec(map: &mut NameLog, tree: &SyntaxTree, src: &[u8], i: usize)
        requires
            i < tree@.len(),
        ensures
            final(map)@ == add_import_spec(src@, tree@, old(map)@, i as int),
    {
        let path_node = match tree.child_by_field(i, "path") {
            Some(p) => p,
            None => {
                return;
            },
        };
        let raw = tree.text(src, path_node);
        let path = trim_chars(raw.as_slice(), TrimSet::QuoteOrBacktick);
        if path.len() == 0 {
            return;
        }
        let canonical = after_last_char(path.as_slice(), '/');
        match tree.child_by_field(i, "name") {
            Some(nm) => {
                if tree.kind_is(nm, "dot") || tree.kind_is(nm, "blank_identifier") {
                } else if tree.kind_is(nm, "package_identifier") {
                    let local = tree.text(src, nm);
                    map.insert(string_of_chars(local.as_slice()), string_of_chars(canonical.as_slice()));
                } else {
                    map.insert(string_of_chars(canonical.as_slice()), string_of_chars(canonical.as_slice()));
                }
            },
            None => {
                map.insert(string_of_chars(canonical.as_slice()), string_of_chars(canonical.as_slice()));
            },
        }
    }

    /// Resolve a call-site callee text back to its canonical dotted path:
    /// `f.Println` → `fmt.Println` when `f` is aliased to `fmt`.
    pub fn resolve_chars(&self, callee: &[char]) -> (res: Vec<char>)
        ensures
            res@ == resolve(self@, callee@),
    {
        resolve_in(&self.map, callee)
    }

    /// Resolve a call-site callee text back to its canonical dotted path.
    pub fn resolve(&self, callee: &str) -> (res: String)
        ensures
            res@ == resolve(self@, callee@),
    {
        let c = chars_of(callee);
        let r = self.resolve_chars(c.as_slice());
        string_of_chars(r.as_slice())
    }

    /// The canonical name recorded for a local package identifier.
    pub fn get(&self, local: &str) -> (res: Option<&str>)
        ensures
            match res {
                Some(s) => log_get(self@, local@) == Some(s@),
                None => log_get(self@, local@) is None,
            },
    {
        match self.map.get(local) {
            Some(s) => Some(s.as_str()),
            None => None,
        }
    }
}

} // verus!

verus! {

// ─── The analysis, stated ─────────────────────────────────────────────────

/// Everything the analysis of one file reads.
pub struct Ctx {
    pub src: Seq<u8>,
    pub t: Seq<NodeView>,
    pub spec: SpecView,
    pub aliases: Option<LogView>,
}

pub open spec fn text_of(c: Ctx, i: int) -> Seq<char> {
    node_text(c.src, c.t[i])
}

pub open spec fn first_some(a: Option<Seq<char>>, b: Option<Seq<char>>) -> Option<Seq<char>> {
    if a is Some {
        a
    } else {
        b
    }
}

/// The leftmost identifier of a selector / index chain (`r` for `r.URL.Query`).
pub open spec fn leftmost_identifier(c: Ctx, i: int) -> Option<Seq<char>>
    decreases c.t.len() - i,
{
    if !(0 <= i < c.t.len()) {
        None
    } else if c.t[i].kind == "identifier"@ || c.t[i].kind == "package_identifier"@ {
        Some(text_of(c, i))
    } else if c.t[i].kind == "selector_expression"@ || c.t[i].kind == "index_expression"@ {
        match field_child(c.t, i, "operand"@) {
            Some(o) => if i < o < c.t.len() {
                leftmost_identifier(c, o as int)
            } else {
                None
            },
            None => None,
        }
    } else {
        None
    }
}

/// `name` equals `target`, directly or once resolved through the aliases.
pub open spec fn names_match(c: Ctx, name: Seq<char>, target: Seq<char>) -> bool {
    name == target || (c.aliases is Some && resolve(c.aliases.unwrap(), name) == target)
}

/// The description a source matcher reports for node `i`, if it matches.
pub open spec fn source_hit(c: Ctx, i: int, m: MatcherView) -> Option<Seq<char>> {
    match m {
        MatcherView::Attribute { root, field, description } => if c.t[i].kind
            == "selector_expression"@ && field_text(c.src, c.t, i, "field"@) == Some(field) && (
        match leftmost_identifier(c, i) {
            Some(r) => names_match(c, r, root),
            None => false,
        }) {
            Some(description)
        } else {
            None
        },
        MatcherView::Call { canonical, description } => if c.t[i].kind == "call_expression"@ && (
        match field_text(c.src, c.t, i, "function"@) {
            Some(f) => names_match(c, f, canonical),
            None => false,
        }) {
            Some(description)
        } else {
            None
        },
        _ => None,
    }
}

pub open spec fn match_source_from(c: Ctx, i: int, k: int) -> Option<Seq<char>>
    decreases c.spec.sources.len() - k,
{
    if k < 0 || k >= c.spec.sources.len() {
        None
    } else {
        first_some(source_hit(c, i, c.spec.sources[k]), match_source_from(c, i, k + 1))
    }
}

/// The first source matcher that matches node `i`.
pub open spec fn match_source(c: Ctx, i: int) -> Option<Seq<char>> {
    match_source_from(c, i, 0)
}

pub open spec fn sanitizer_hit(c: Ctx, callee: Seq<char>, m: MatcherView) -> bool {
    match m {
        MatcherView::Call { canonical, .. } => callee == canonical || resolve_opt(
            c.aliases,
            callee,
        ) == canonical,
        _ => false,
    }
}

/// Node `i` is a call whose callee is a declared sanitizer.
pub open spec fn is_sanitizer_call(c: Ctx, i: int) -> bool {
    c.t[i].kind == "call_expression"@ && match field_text(c.src, c.t, i, "function"@) {
        Some(f) => exists|k: int|
            0 <= k < c.spec.sanitizers.len() && #[trigger] sanitizer_hit(
                c,
                f,
                c.spec.sanitizers[k],
            ),
        None => false,
    }
}

/// Taint through a return summary: a bare call `helper(..)` or a method
/// call `x.helper(..)` whose simple name has a tainted summary.
pub open spec fn summary_taint(c: Ctx, sums: LogView, f: int) -> Option<Seq<char>> {
    if c.t[f].kind == "identifier"@ {
        match log_get(sums, text_of(c, f)) {
            Some(d) => Some(d + " (via "@ + text_of(c, f) + ")"@),
            None => None,
        }
    } else if c.t[f].kind == "selector_expression"@ {
        match field_child(c.t, f, "field"@) {
            Some(ff) => match log_get(sums, text_of(c, ff as int)) {
                Some(d) => Some(d + " (via "@ + text_of(c, ff as int) + ")"@),
                None => None,
            },
            None => None,
        }
    } else {
        None
    }
}

/// The description of the taint that expression `i` carries, if any.
pub open spec fn expr_taint(c: Ctx, st: LogView, sums: LogView, i: int) -> Option<Seq<char>>
    decreases c.t.len() - i + 1, 0int,
{
    if !(0 <= i < c.t.len()) {
        None
    } else {
        let k = c.t[i].kind;
        let ms = match_source(c, i);
        if ms is Some {
            ms
        } else if k == "identifier"@ {
            log_get(st, text_of(c, i))
        } else if k == "selector_expression"@ || k == "index_expression"@ {
            match field_child(c.t, i, "operand"@) {
                Some(o) => if i < o < c.t.len() {
                    expr_taint(c, st, sums, o as int)
                } else {
                    None
                },
                None => None,
            }
        } else if k == "binary_expression"@ || k == "parenthesized_expression"@ || k
            == "unary_expression"@ || k == "keyed_element"@ {
            list_taint(c, st, sums, i, named_children(c.t, i), 0)
        } else if k == "composite_literal"@ {
            literal_taint(c, st, sums, i, c.t[i].children, 0)
        } else if k == "call_expression"@ {
            if is_sanitizer_call(c, i) {
                None
            } else {
                let a = match field_child(c.t, i, "arguments"@) {
                    Some(args) => if i < args < c.t.len() {
                        list_taint(c, st, sums, args as int, named_children(c.t, args as int), 0)
                    } else {
                        None
                    },
                    None => None,
                };
                if a is Some {
                    a
                } else {
                    match field_child(c.t, i, "function"@) {
                        None => None,
                        Some(f) => if !(i < f < c.t.len()) {
                            None
                        } else {
                            let m = if c.t[f as int].kind == "selector_expression"@ {
                                match field_child(c.t, f as int, "operand"@) {
                                    Some(o) => if f < o < c.t.len() {
                                        expr_taint(c, st, sums, o as int)
                                    } else {
                                        None
                                    },
                                    None => None,
                                }
                            } else {
                                None
                            };
                            if m is Some {
                                m
                            } else {
                                summary_taint(c, sums, f as int)
                            }
                        },
                    }
                }
            }
        } else {
            None
        }
    }
}

/// The first taint among the expressions `list[k..]`, all children of
/// node `parent`.
pub open spec fn list_taint(
    c: Ctx,
    st: LogView,
    sums: LogView,
    parent: int,
    list: Seq<usize>,
    k: int,
) -> Option<Seq<char>>
    decreases c.t.len() - parent, list.len() - k,
{
    if k < 0 || k >= list.len() {
        None
    } else {
        let x = list[k];
        let r = if parent < x < c.t.len() {
            expr_taint(c, st, sums, x as int)
        } else {
            None
        };
        if r is Some {
            r
        } else {
            list_taint(c, st, sums, parent, list, k + 1)
        }
    }
}

/// The first taint among the elements of the `literal_value` children
/// `list[k..]` of composite literal `parent`.
pub open spec fn literal_taint(
    c: Ctx,
    st: LogView,
    sums: LogView,
    parent: int,
    list: Seq<usize>,
    k: int,
) -> Option<Seq<char>>
    decreases c.t.len() - parent, list.len() - k,
{
    if k < 0 || k >= list.len() {
        None
    } else {
        let x = list[k];
        let r = if parent < x < c.t.len() && c.t[x as int].kind == "literal_value"@ {
            list_taint(c, st, sums, x as int, named_children(c.t, x as int), 0)
        } else {
            None
        };
        if r is Some {
            r
        } else {
            literal_taint(c, st, sums, parent, list, k + 1)
        }
    }
}

/// The first taint among the expressions `xs[k..]`.
pub open spec fn first_taint_of(c: Ctx, st: LogView, sums: LogView, xs: Seq<usize>, k: int) -> Option<
    Seq<char>,
>
    decreases xs.len() - k,
{
    if k < 0 || k >= xs.len() {
        None
    } else {
        first_some(expr_taint(c, st, sums, xs[k] as int), first_taint_of(c, st, sums, xs, k + 1))
    }
}

/// The texts of the identifiers among `xs[0..k]`.
pub open spec fn identifier_texts(c: Ctx, xs: Seq<usize>, k: int) -> Seq<Seq<char>>
    decreases k,
{
    if k <= 0 {
        Seq::empty()
    } else {
        identifier_texts(c, xs, k - 1) + (if c.t[xs[k - 1] as int].kind == "identifier"@ {
            seq![text_of(c, xs[k - 1] as int)]
        } else {
            Seq::empty()
        })
    }
}

/// Element-wise assignment: name `k` gets the taint of expression `k`,
/// evaluated in the state `st0` before any of the assignments.
pub open spec fn assign_each(
    c: Ctx,
    st0: LogView,
    sums: LogView,
    st: LogView,
    lhs: Seq<Seq<char>>,
    rhs: Seq<usize>,
    k: int,
) -> LogView
    decreases lhs.len() - k,
{
    if k < 0 || k >= lhs.len() {
        st
    } else {
        assign_each(
            c,
            st0,
            sums,
            st.push((lhs[k], expr_taint(c, st0, sums, rhs[k] as int))),
            lhs,
            rhs,
            k + 1,
        )
    }
}

/// Every name gets the same taint (or is cleared).
pub open spec fn assign_all(st: LogView, lhs: Seq<Seq<char>>, v: Option<Seq<char>>, k: int) -> LogView
    decreases lhs.len() - k,
{
    if k < 0 || k >= lhs.len() {
        st
    } else {
        assign_all(st.push((lhs[k], v)), lhs, v, k + 1)
    }
}

/// Pairs names with expressions when the arities agree; otherwise the
/// first tainted expression taints every name (or all are cleared).
pub open spec fn apply_assign(
    c: Ctx,
    st: LogView,
    sums: LogView,
    lhs: Seq<Seq<char>>,
    rhs: Seq<usize>,
) -> LogView {
    if lhs.len() == rhs.len() {
        assign_each(c, st, sums, st, lhs, rhs, 0)
    } else {
        assign_all(st, lhs, first_taint_of(c, st, sums, rhs, 0), 0)
    }
}

/// `left := right` / `left = right` with expression lists on both sides.
pub open spec fn propagate(c: Ctx, st: LogView, sums: LogView, l: int, r: int) -> LogView {
    if c.t[l].kind != "expression_list"@ {
        st
    } else {
        let nc = named_children(c.t, l);
        let names = identifier_texts(c, nc, nc.len() as int);
        if names.len() == 0 {
            st
        } else {
            let rhs = if c.t[r].kind == "expression_list"@ {
                named_children(c.t, r)
            } else {
                seq![r as usize]
            };
            apply_assign(c, st, sums, names, rhs)
        }
    }
}

/// The state after statement node `i`.
pub open spec fn step(c: Ctx, st: LogView, sums: LogView, i: int) -> LogView {
    let k = c.t[i].kind;
    if k == "short_var_declaration"@ || k == "assignment_statement"@ {
        match (field_child(c.t, i, "left"@), field_child(c.t, i, "right"@)) {
            (Some(l), Some(r)) => propagate(c, st, sums, l as int, r as int),
            _ => st,
        }
    } else if k == "var_spec"@ {
        match field_child(c.t, i, "value"@) {
            Some(v) => {
                let ch = c.t[i].children;
                let names = identifier_texts(c, ch, ch.len() as int);
                if names.len() == 0 {
                    st
                } else {
                    apply_assign(c, st, sums, names, named_children(c.t, v as int))
                }
            },
            None => st,
        }
    } else {
        st
    }
}

pub open spec fn sink_match(c: Ctx, resolved: Seq<char>, fin: Seq<char>, k: int) -> Option<
    Seq<char>,
>
    decreases c.spec.sinks.len() - k,
{
    if k < 0 || k >= c.spec.sinks.len() {
        None
    } else {
        let h = match c.spec.sinks[k] {
            MatcherView::Call { canonical, description } => if canonical == resolved {
                Some(description)
            } else {
                None
            },
            MatcherView::MethodName { method, description } => if method == fin {
                Some(description)
            } else {
                None
            },
            _ => None,
        };
        first_some(h, sink_match(c, resolved, fin, k + 1))
    }
}

pub open spec fn finding_at(n: NodeView, source_desc: Seq<char>, sink_desc: Seq<char>) -> TaintFindingView {
    TaintFindingView {
        sink_start_byte: n.start_byte,
        sink_end_byte: n.end_byte,
        sink_line: (n.start_row + 1) as usize,
        sink_column: (n.start_column + 1) as usize,
        sink_end_line: (n.end_row + 1) as usize,
        sink_end_column: (n.end_column + 1) as usize,
        source_description: source_desc,
        sink_description: sink_desc,
    }
}

/// The flow reported at call node `i`: its callee is a sink and one of
/// its arguments is tainted.
pub open spec fn call_findings(c: Ctx, st: LogView, sums: LogView, i: int) -> Seq<TaintFindingView> {
    if c.t[i].kind != "call_expression"@ {
        Seq::empty()
    } else {
        match field_text(c.src, c.t, i, "function"@) {
            None => Seq::empty(),
            Some(raw) => {
                let resolved = resolve_opt(c.aliases, raw);
                match sink_match(c, resolved, after_last(resolved, '.'), 0) {
                    None => Seq::empty(),
                    Some(sd) => match field_child(c.t, i, "arguments"@) {
                        None => Seq::empty(),
                        Some(args) => match first_taint_of(
                            c,
                            st,
                            sums,
                            named_children(c.t, args as int),
                            0,
                        ) {
                            None => Seq::empty(),
                            Some(s) => seq![finding_at(c.t[i], s, sd)],
                        },
                    },
                }
            },
        }
    }
}

/// Nodes `j .. end` in pre-order, closures skipped: the final state and
/// the flows found.
pub open spec fn walk(c: Ctx, sums: LogView, j: int, end: int, st: LogView) -> (
    LogView,
    Seq<TaintFindingView>,
)
    decreases end - j,
{
    if j < 0 || j >= end || j >= c.t.len() {
        (st, Seq::empty())
    } else if c.t[j].kind == "func_literal"@ {
        let nj = c.t[j].subtree_end as int;
        if j < nj <= end {
            walk(c, sums, nj, end, st)
        } else {
            (st, Seq::empty())
        }
    } else {
        let fs = call_findings(c, st, sums, j);
        let r = walk(c, sums, j + 1, end, step(c, st, sums, j));
        (r.0, fs + r.1)
    }
}

pub open spec fn return_taint_from(c: Ctx, st: LogView, xs: Seq<usize>, k: int) -> Option<Seq<char>>
    decreases xs.len() - k,
{
    if k < 0 || k >= xs.len() {
        None
    } else {
        let x = xs[k] as int;
        let r = if c.t[x].kind == "expression_list"@ {
            first_taint_of(c, st, Seq::empty(), named_children(c.t, x), 0)
        } else {
            expr_taint(c, st, Seq::empty(), x)
        };
        first_some(r, return_taint_from(c, st, xs, k + 1))
    }
}

/// Pass 1: the first tainted return value among nodes `j .. end`.
pub open spec fn walk_ret(c: Ctx, j: int, end: int, st: LogView, ret: Option<Seq<char>>) -> Option<
    Seq<char>,
>
    decreases end - j,
{
    if j < 0 || j >= end || j >= c.t.len() {
        ret
    } else if c.t[j].kind == "func_literal"@ {
        let nj = c.t[j].subtree_end as int;
        if j < nj <= end {
            walk_ret(c, nj, end, st, ret)
        } else {
            ret
        }
    } else {
        let r2 = if c.t[j].kind == "return_statement"@ && ret is None {
            return_taint_from(c, st, named_children(c.t, j), 0)
        } else {
            ret
        };
        walk_ret(c, j + 1, end, step(c, st, Seq::empty(), j), r2)
    }
}

pub open spec fn param_source_from(c: Ctx, name: Seq<char>, k: int) -> Option<Seq<char>>
    decreases c.spec.sources.len() - k,
{
    if k < 0 || k >= c.spec.sources.len() {
        None
    } else {
        match c.spec.sources[k] {
            MatcherView::ParamName { names, description } => if names.contains(name) {
                Some(description)
            } else {
                param_source_from(c, name, k + 1)
            },
            _ => param_source_from(c, name, k + 1),
        }
    }
}

/// The identifiers among the children `0 .. m` of parameter declaration
/// `x` that a `ParamName` source names get tainted.
pub open spec fn seed_decl(c: Ctx, st: LogView, x: int, m: int) -> LogView
    decreases m,
{
    if m <= 0 {
        st
    } else {
        let prev = seed_decl(c, st, x, m - 1);
        let y = c.t[x].children[m - 1] as int;
        if c.t[y].kind == "identifier"@ {
            match param_source_from(c, text_of(c, y), 0) {
                Some(d) => prev.push((text_of(c, y), Some(d))),
                None => prev,
            }
        } else {
            prev
        }
    }
}

pub open spec fn seed_upto(c: Ctx, params: int, k: int) -> LogView
    decreases k,
{
    if k <= 0 {
        Seq::empty()
    } else {
        let prev = seed_upto(c, params, k - 1);
        let x = c.t[params].children[k - 1] as int;
        if c.t[x].kind == "parameter_declaration"@ || c.t[x].kind
            == "variadic_parameter_declaration"@ {
            seed_decl(c, prev, x, c.t[x].children.len() as int)
        } else {
            prev
        }
    }
}

/// The state a function body starts in: its parameters named by a
/// `ParamName` source are tainted.
pub open spec fn initial_state(c: Ctx, f: int) -> LogView {
    match field_child(c.t, f, "parameters"@) {
        Some(p) => seed_upto(c, p as int, c.t[p as int].children.len() as int),
        None => Seq::empty(),
    }
}

pub open spec fn analyze_function(c: Ctx, sums: LogView, f: int) -> Seq<TaintFindingView> {
    match field_child(c.t, f, "body"@) {
        None => Seq::empty(),
        Some(b) => walk(c, sums, b as int, c.t[b as int].subtree_end as int, initial_state(c, f)).1,
    }
}

/// The return-taint summary of function `f` (pass 1, no summaries).
pub open spec fn summarize_function(c: Ctx, f: int) -> Option<Seq<char>> {
    match field_child(c.t, f, "body"@) {
        None => None,
        Some(b) => walk_ret(c, b as int, c.t[b as int].subtree_end as int, initial_state(c, f), None),
    }
}

/// The function and method declarations among nodes `j .. end`, without
/// descending into them.
pub open spec fn function_defs(c: Ctx, j: int, end: int) -> Seq<usize>
    decreases end - j,
{
    if j < 0 || j >= end || j >= c.t.len() {
        Seq::empty()
    } else if c.t[j].kind == "function_declaration"@ || c.t[j].kind == "method_declaration"@ {
        let nj = c.t[j].subtree_end as int;
        seq![j as usize] + (if j < nj <= end {
            function_defs(c, nj, end)
        } else {
            Seq::empty()
        })
    } else {
        function_defs(c, j + 1, end)
    }
}

/// Pass 1 over the first `k` functions: name → summary, last write wins.
pub open spec fn build_summaries(c: Ctx, defs: Seq<usize>, k: int) -> LogView
    decreases k,
{
    if k <= 0 {
        Seq::empty()
    } else {
        let prev = build_summaries(c, defs, k - 1);
        let f = defs[k - 1] as int;
        match field_text(c.src, c.t, f, "name"@) {
            Some(name) => prev.push((name, summarize_function(c, f))),
            None => prev,
        }
    }
}

pub open spec fn analyze_all(c: Ctx, sums: LogView, defs: Seq<usize>, k: int) -> Seq<TaintFindingView>
    decreases k,
{
    if k <= 0 {
        Seq::empty()
    } else {
        analyze_all(c, sums, defs, k - 1) + analyze_function(c, sums, defs[k - 1] as int)
    }
}

/// Every flow the engine reports for the subtree of `root`.
pub open spec fn analyze(c: Ctx, root: int) -> Seq<TaintFindingView> {
    let defs = function_defs(c, root, c.t[root].subtree_end as int);
    let sums = build_summaries(c, defs, defs.len() as int);
    analyze_all(c, sums, defs, defs.len() as int)
}

} // verus!

verus! {

// ─── The analysis, executed ───────────────────────────────────────────────

pub open spec fn opt_chars(o: Option<Vec<char>>) -> Option<Seq<char>> {
    match o {
        Some(v) => Some(v@),
        None => None,
    }
}

pub open spec fn string_views(v: Seq<String>) -> Seq<Seq<char>> {
    v.map_values(|s: String| s@)
}

fn clone_opt(o: &Option<String>) -> (res: Option<String>)
    ensures
        opt_view(res) == opt_view(*o),
{
    match o {
        Some(s) => Some(s.clone()),
        None => None,
    }
}

fn string_concat(a: &String, b: &str) -> (res: String)
    ensures
        res@ == a@ + b@,
{
    let mut r = a.clone();
    r.append(b);
    r
}

/// Everything the analysis of one file reads, bundled.
struct Engine<'a> {
    tree: &'a SyntaxTree,
    src: &'a [u8],
    spec: &'a TaintSpec,
    aliases: Option<&'a GoImportAliases>,
}

impl<'a> Engine<'a> {
    spec fn ctx(&self) -> Ctx {
        Ctx {
            src: self.src@,
            t: self.tree@,
            spec: self.spec@,
            aliases: match self.aliases {
                Some(a) => Some(a@),
                None => None,
            },
        }
    }

    fn resolve_opt_exec(&self, callee: &[char]) -> (res: Vec<char>)
        ensures
            res@ == resolve_opt(self.ctx().aliases, callee@),
    {
        match self.aliases {
            Some(a) => a.resolve_chars(callee),
            None => {
                let r = sub_chars(callee, 0, callee.len());
                assert(callee@.subrange(0, callee@.len() as int) =~= callee@);
                r
            },
        }
    }

    fn names_match_exec(&self, name: &[char], target: &String) -> (res: bool)
        ensures
            res == names_match(self.ctx(), name@, target@),
    {
        if chars_eq_string(name, target) {
            return true;
        }
        match self.aliases {
            Some(a) => {
                let r = a.resolve_chars(name);
                chars_eq_string(r.as_slice(), target)
            },
            None => false,
        }
    }

    fn leftmost(&self, i: usize) -> (res: Option<Vec<char>>)
        requires
            i < self.tree@.len(),
        ensures
            opt_chars(res) == leftmost_identifier(self.ctx(), i as int),
    {
        let n = self.tree.len();
        let mut cur = i;
        loop
            invariant
                n == self.tree@.len(),
                cur < n,
                leftmost_identifier(self.ctx(), i as int) == leftmost_identifier(self.ctx(), cur as int),
            decreases n - cur,
        {
            if self.tree.kind_is(cur, "identifier") || self.tree.kind_is(cur, "package_identifier") {
                return Some(self.tree.text(self.src, cur));
            }
            if self.tree.kind_is(cur, "selector_expression") || self.tree.kind_is(cur, "index_expression") {
                match self.tree.child_by_field(cur, "operand") {
                    Some(o) => {
                        cur = o;
                    },
                    None => {
                        return None;
                    },
                }
            } else {
                return None;
            }
        }
    }

    fn source_hit_exec(&self, i: usize, m: &NodeMatcher) -> (res: Option<String>)
        requires
            i < self.tree@.len(),
        ensures
            opt_view(res) == source_hit(self.ctx(), i as int, m@),
    {
        match m {
            NodeMatcher::Attribute { root, field, description } => {
                if !self.tree.kind_is(i, "selector_expression") {
                    return None;
                }
                let ft = match self.tree.field_text(self.src, i, "field") {
                    Some(ft) => ft,
                    None => {
                        return None;
                    },
                };
                if !chars_eq_string(ft.as_slice(), field) {
                    return None;
                }
                match self.leftmost(i) {
                    Some(r) => {
                        if self.names_match_exec(r.as_slice(), root) {
                            Some(description.clone())
                        } else {
                            None
                        }
                    },
                    None => None,
                }
            },
            NodeMatcher::Call { canonical, description } => {
                if !self.tree.kind_is(i, "call_expression") {
                    return None;
                }
                match self.tree.field_text(self.src, i, "function") {
                    Some(f) => {
                        if self.names_match_exec(f.as_slice(), canonical) {
                            Some(description.clone())
                        } else {
                            None
                        }
                    },
                    None => None,
                }
            },
            _ => None,
        }
    }

    fn match_source_exec(&self, i: usize) -> (res: Option<String>)
        requires
            i < self.tree@.len(),
        ensures
            opt_view(res) == match_source(self.ctx(), i as int),
    {
        let mut k: usize = 0;
        while k < self.spec.sources.len()
            invariant
                i < self.tree@.len(),
                k <= self.spec.sources@.len(),
                match_source(self.ctx(), i as int) == match_source_from(self.ctx(), i as int, k as int),
            decreases self.spec.sources@.len() - k,
        {
            assert(self.ctx().spec.sources[k as int] == self.spec.sources@[k as int]@);
            let h = self.source_hit_exec(i, &self.spec.sources[k]);
            if h.is_some() {
                return h;
            }
            k = k + 1;
        }
        None
    }

    fn is_sanitizer_exec(&self, i: usize) -> (res: bool)
        requires
            i < self.tree@.len(),
        ensures
            res == is_sanitizer_call(self.ctx(), i as int),
    {
        if !self.tree.kind_is(i, "call_expression") {
            return false;
        }
        let callee = match self.tree.field_text(self.src, i, "function") {
            Some(f) => f,
            None => {
                return false;
            },
        };
        let resolved = self.resolve_opt_exec(callee.as_slice());
        let ghost c = self.ctx();
        let mut k: usize = 0;
        while k < self.spec.sanitizers.len()
            invariant
                c == self.ctx(),
                k <= self.spec.sanitizers@.len(),
                c.spec.sanitizers.len() == self.spec.sanitizers@.len(),
                resolved@ == resolve_opt(c.aliases, callee@),
                i < c.t.len(),
                c.t[i as int].kind == "call_expression"@,
                field_text(c.src, c.t, i as int, "function"@) == Some(callee@),
                forall|j: int| 0 <= j < k ==> !#[trigger] sanitizer_hit(c, callee@, c.spec.sanitizers[j]),
            decreases self.spec.sanitizers@.len() - k,
        {
            assert(c.spec.sanitizers[k as int] == self.spec.sanitizers@[k as int]@);
            match &self.spec.sanitizers[k] {
                NodeMatcher::Call { canonical, .. } => {
                    if chars_eq_string(callee.as_slice(), canonical) || chars_eq_string(
                        resolved.as_slice(),
                        canonical,
                    ) {
                        assert(sanitizer_hit(c, callee@, c.spec.sanitizers[k as int]));
                        assert(field_text(c.src, c.t, i as int, "function"@) == Some(callee@));
                        assert(exists|j: int|
                            0 <= j < c.spec.sanitizers.len() && #[trigger] sanitizer_hit(
                                c,
                                callee@,
                                c.spec.sanitizers[j],
                            ));
                        assert(c.t[i as int].kind == "call_expression"@);
                        let ghost ft = field_text(c.src, c.t, i as int, "function"@);
                        assert(ft is Some);
                        assert(ft.unwrap() == callee@);
                        assert(exists|j: int|
                            0 <= j < c.spec.sanitizers.len() && #[trigger] sanitizer_hit(
                                c,
                                ft.unwrap(),
                                c.spec.sanitizers[j],
                            ));
                        assert(is_sanitizer_call(c, i as int));
                        return true;
                    }
                },
                _ => {},
            }
            k = k + 1;
        }
        false
    }

    fn summary_taint_exec(&self, sums: &NameLog, f: usize) -> (res: Option<String>)
        requires
            f < self.tree@.len(),
        ensures
            opt_view(res) == summary_taint(self.ctx(), sums@, f as int),
    {
        if self.tree.kind_is(f, "identifier") {
            let name = self.tree.text(self.src, f);
            match sums.get_chars(name.as_slice()) {
                Some(d) => {
                    let mut out = string_concat(d, " (via ");
                    out.append(string_of_chars(name.as_slice()).as_str());
                    out.append(")");
                    Some(out)
                },
                None => None,
            }
        } else if self.tree.kind_is(f, "selector_expression") {
            match self.tree.child_by_field(f, "field") {
                Some(ff) => {
                    let name = self.tree.text(self.src, ff);
                    match sums.get_chars(name.as_slice()) {
                        Some(d) => {
                            let mut out = string_concat(d, " (via ");
                            out.append(string_of_chars(name.as_slice()).as_str());
                            out.append(")");
                            Some(out)
                        },
                        None => None,
                    }
                },
                None => None,
            }
        } else {
            None
        }
    }

    fn expr_taint_exec(&self, st: &NameLog, sums: &NameLog, i: usize) -> (res: Option<String>)
        ensures
            opt_view(res) == expr_taint(self.ctx(), st@, sums@, i as int),
        decreases self.tree@.len() - i + 1, 0int,
    {
        let n = self.tree.len();
        if i >= n {
            return None;
        }
        let ms = self.match_source_exec(i);
        if ms.is_some() {
            return ms;
        }
        if self.tree.kind_is(i, "identifier") {
            let name = self.tree.text(self.src, i);
            return match st.get_chars(name.as_slice()) {
                Some(d) => Some(d.clone()),
                None => None,
            };
        }
        if self.tree.kind_is(i, "selector_expression") || self.tree.kind_is(i, "index_expression") {
            return match self.tree.child_by_field(i, "operand") {
                Some(o) => self.expr_taint_exec(st, sums, o),
                None => None,
            };
        }
        if self.tree.kind_is(i, "binary_expression") || self.tree.kind_is(i, "parenthesized_expression")
            || self.tree.kind_is(i, "unary_expression") || self.tree.kind_is(i, "keyed_element") {
            let nc = self.tree.named_children(i);
            return self.list_taint_exec(st, sums, i, &nc);
        }
        if self.tree.kind_is(i, "composite_literal") {
            let ch = self.tree.node(i).children.clone();
            assert(ch@ =~= self.tree@[i as int].children);
            return self.literal_taint_exec(st, sums, i, &ch);
        }
        if self.tree.kind_is(i, "call_expression") {
            if self.is_sanitizer_exec(i) {
                return None;
            }
            match self.tree.child_by_field(i, "arguments") {
                Some(args) => {
                    let nc = self.tree.named_children(args);
                    let a = self.list_taint_exec(st, sums, args, &nc);
                    if a.is_some() {
                        return a;
                    }
                },
                None => {},
            }
            match self.tree.child_by_field(i, "function") {
                None => {
                    return None;
                },
                Some(f) => {
                    if self.tree.kind_is(f, "selector_expression") {
                        match self.tree.child_by_field(f, "operand") {
                            Some(o) => {
                                let m = self.expr_taint_exec(st, sums, o);
                                if m.is_some() {
                                    return m;
                                }
                            },
                            None => {},
                        }
                    }
                    return self.summary_taint_exec(sums, f);
                },
            }
        }
        None
    }

    fn list_taint_exec(&self, st: &NameLog, sums: &NameLog, parent: usize, list: &Vec<usize>) -> (res:
        Option<String>)
        requires
            parent < self.tree@.len(),
        ensures
            opt_view(res) == list_taint(self.ctx(), st@, sums@, parent as int, list@, 0),
        decreases self.tree@.len() - parent, 1int,
    {
        let n = self.tree.len();
        let mut k: usize = 0;
        while k < list.len()
            invariant
                n == self.tree@.len(),
                parent < n,
                k <= list@.len(),
                list_taint(self.ctx(), st@, sums@, parent as int, list@, 0) == list_taint(
                    self.ctx(),
                    st@,
                    sums@,
                    parent as int,
                    list@,
                    k as int,
                ),
            decreases list@.len() - k,
        {
            let x = list[k];
            if parent < x && x < n {
                let r = self.expr_taint_exec(st, sums, x);
                if r.is_some() {
                    return r;
                }
            }
            k = k + 1;
        }
        None
    }

    fn literal_taint_exec(&self, st: &NameLog, sums: &NameLog, parent: usize, list: &Vec<usize>) -> (res:
        Option<String>)
        requires
            parent < self.tree@.len(),
        ensures
            opt_view(res) == literal_taint(self.ctx(), st@, sums@, parent as int, list@, 0),
        decreases self.tree@.len() - parent, 2int,
    {
        let n = self.tree.len();
        let mut k: usize = 0;
        while k < list.len()
            invariant
                n == self.tree@.len(),
                parent < n,
                k <= list@.len(),
                literal_taint(self.ctx(), st@, sums@, parent as int, list@, 0) == literal_taint(
                    self.ctx(),
                    st@,
                    sums@,
                    parent as int,
                    list@,
                    k as int,
                ),
            decreases list@.len() - k,
        {
            let x = list[k];
            if parent < x && x < n && self.tree.kind_is(x, "literal_value") {
                let nc = self.tree.named_children(x);
                let r = self.list_taint_exec(st, sums, x, &nc);
                if r.is_some() {
                    return r;
                }
            }
            k = k + 1;
        }
        None
    }
}

} // verus!

verus! {

impl<'a> Engine<'a> {
    fn first_taint_exec(&self, st: &NameLog, sums: &NameLog, xs: &Vec<usize>) -> (res: Option<String>)
        ensures
            opt_view(res) == first_taint_of(self.ctx(), st@, sums@, xs@, 0),
    {
        let mut k: usize = 0;
        while k < xs.len()
            invariant
                k <= xs@.len(),
                first_taint_of(self.ctx(), st@, sums@, xs@, 0) == first_taint_of(
                    self.ctx(),
                    st@,
                    sums@,
                    xs@,
                    k as int,
                ),
            decreases xs@.len() - k,
        {
            let r = self.expr_taint_exec(st, sums, xs[k]);
            if r.is_some() {
                return r;
            }
            k = k + 1;
        }
        None
    }

    fn identifier_texts_exec(&self, xs: &Vec<usize>) -> (res: Vec<String>)
        requires
            forall|j: int| 0 <= j < xs@.len() ==> #[trigger] xs@[j] < self.tree@.len(),
        ensures
            string_views(res@) == identifier_texts(self.ctx(), xs@, xs@.len() as int),
    {
        let mut out: Vec<String> = Vec::new();
        let mut k: usize = 0;
        while k < xs.len()
            invariant
                k <= xs@.len(),
                forall|j: int| 0 <= j < xs@.len() ==> #[trigger] xs@[j] < self.tree@.len(),
                string_views(out@) == identifier_texts(self.ctx(), xs@, k as int),
            decreases xs@.len() - k,
        {
            let x = xs[k];
            assert(xs@[k as int] < self.tree@.len());
            if self.tree.kind_is(x, "identifier") {
                let t = self.tree.text(self.src, x);
                out.push(string_of_chars(t.as_slice()));
            }
            k = k + 1;
            assert(string_views(out@) =~= identifier_texts(self.ctx(), xs@, k as int));
        }
        out
    }

    fn apply_assign_exec(&self, st: &mut NameLog, sums: &NameLog, lhs: &Vec<String>, rhs: &Vec<usize>)
        ensures
            final(st)@ == apply_assign(self.ctx(), old(st)@, sums@, string_views(lhs@), rhs@),
    {
        let ghost c = self.ctx();
        let ghost st0 = st@;
        let ghost names = string_views(lhs@);
        if lhs.len() == rhs.len() {
            let mut descs: Vec<Option<String>> = Vec::new();
            let mut k: usize = 0;
            while k < rhs.len()
                invariant
                    st@ == st0,
                    c == self.ctx(),
                    k <= rhs@.len(),
                    descs@.len() == k,
                    forall|j: int|
                        0 <= j < k ==> opt_view(#[trigger] descs@[j]) == expr_taint(
                            c,
                            st0,
                            sums@,
                            rhs@[j] as int,
                        ),
                decreases rhs@.len() - k,
            {
                let d = self.expr_taint_exec(st, sums, rhs[k]);
                descs.push(d);
                k = k + 1;
            }
            let mut k: usize = 0;
            while k < lhs.len()
                invariant
                    c == self.ctx(),
                    lhs@.len() == rhs@.len() == descs@.len(),
                    names == string_views(lhs@),
                    k <= lhs@.len(),
                    forall|j: int|
                        k <= j < descs@.len() ==> opt_view(#[trigger] descs@[j]) == expr_taint(
                            c,
                            st0,
                            sums@,
                            rhs@[j] as int,
                        ),
                    assign_each(c, st0, sums@, st0, names, rhs@, 0) == assign_each(
                        c,
                        st0,
                        sums@,
                        st@,
                        names,
                        rhs@,
                        k as int,
                    ),
                decreases lhs@.len() - k,
            {
                let mut d: Option<String> = None;
                let ghost before = descs@;
                descs.set_and_swap(k, &mut d);
                assert forall|j: int| k < j < descs@.len() implies opt_view(#[trigger] descs@[j])
                    == expr_taint(c, st0, sums@, rhs@[j] as int) by {
                    assert(descs@[j] == before[j]);
                }
                st.set(lhs[k].clone(), d);
                k = k + 1;
            }
        } else {
            let b = self.first_taint_exec(st, sums, rhs);
            let mut k: usize = 0;
            while k < lhs.len()
                invariant
                    c == self.ctx(),
                    names == string_views(lhs@),
                    k <= lhs@.len(),
                    assign_all(st0, names, first_taint_of(c, st0, sums@, rhs@, 0), 0) == assign_all(
                        st@,
                        names,
                        opt_view(b),
                        k as int,
                    ),
                decreases lhs@.len() - k,
            {
                st.set(lhs[k].clone(), clone_opt(&b));
                k = k + 1;
            }
        }
    }

    fn propagate_exec(&self, st: &mut NameLog, sums: &NameLog, l: usize, r: usize)
        requires
            l < self.tree@.len(),
            r < self.tree@.len(),
        ensures
            final(st)@ == propagate(self.ctx(), old(st)@, sums@, l as int, r as int),
    {
        if !self.tree.kind_is(l, "expression_list") {
            return;
        }
        let nc = self.tree.named_children(l);
        let names = self.identifier_texts_exec(&nc);
        if names.len() == 0 {
            return;
        }
        let rhs = if self.tree.kind_is(r, "expression_list") {
            self.tree.named_children(r)
        } else {
            let mut v: Vec<usize> = Vec::new();
            v.push(r);
            assert(v@ =~= seq![r]);
            v
        };
        self.apply_assign_exec(st, sums, &names, &rhs);
    }

    fn step_exec(&self, st: &mut NameLog, sums: &NameLog, i: usize)
        requires
            i < self.tree@.len(),
        ensures
            final(st)@ == step(self.ctx(), old(st)@, sums@, i as int),
    {
        let n = self.tree.len();
        if self.tree.kind_is(i, "short_var_declaration") || self.tree.kind_is(i, "assignment_statement") {
            match (self.tree.child_by_field(i, "left"), self.tree.child_by_field(i, "right")) {
                (Some(l), Some(r)) => self.propagate_exec(st, sums, l, r),
                _ => {},
            }
        } else if self.tree.kind_is(i, "var_spec") {
            match self.tree.child_by_field(i, "value") {
                Some(v) => {
                    let ch = self.tree.node(i).children.clone();
                    assert(ch@ =~= self.tree@[i as int].children);
                    assert(node_wf(self.tree@, i as int));
                    let names = self.identifier_texts_exec(&ch);
                    if names.len() == 0 {
                        return;
                    }
                    let nc = self.tree.named_children(v);
                    self.apply_assign_exec(st, sums, &names, &nc);
                },
                None => {},
            }
        }
    }

    fn sink_match_exec(&self, resolved: &[char], fin: &[char]) -> (res: Option<String>)
        ensures
            opt_view(res) == sink_match(self.ctx(), resolved@, fin@, 0),
    {
        let ghost c = self.ctx();
        let mut k: usize = 0;
        while k < self.spec.sinks.len()
            invariant
                c == self.ctx(),
                k <= self.spec.sinks@.len(),
                sink_match(c, resolved@, fin@, 0) == sink_match(c, resolved@, fin@, k as int),
            decreases self.spec.sinks@.len() - k,
        {
            assert(c.spec.sinks[k as int] == self.spec.sinks@[k as int]@);
            match &self.spec.sinks[k] {
                NodeMatcher::Call { canonical, description } => {
                    if chars_eq_string(resolved, canonical) {
                        return Some(description.clone());
                    }
                },
                NodeMatcher::MethodName { method, description } => {
                    if chars_eq_string(fin, method) {
                        return Some(description.clone());
                    }
                },
                _ => {},
            }
            k = k + 1;
        }
        None
    }

    fn call_findings_exec(&self, st: &NameLog, sums: &NameLog, i: usize) -> (res: Vec<TaintFinding>)
        requires
            i < self.tree@.len(),
        ensures
            taint_views(res@) == call_findings(self.ctx(), st@, sums@, i as int),
    {
        let n = self.tree.len();
        let mut out: Vec<TaintFinding> = Vec::new();
        assert(taint_views(out@) =~= Seq::<TaintFindingView>::empty());
        if !self.tree.kind_is(i, "call_expression") {
            return out;
        }
        let raw = match self.tree.field_text(self.src, i, "function") {
            Some(f) => f,
            None => {
                return out;
            },
        };
        let resolved = self.resolve_opt_exec(raw.as_slice());
        let fin = after_last_char(resolved.as_slice(), '.');
        let sd = match self.sink_match_exec(resolved.as_slice(), fin.as_slice()) {
            Some(d) => d,
            None => {
                return out;
            },
        };
        let args = match self.tree.child_by_field(i, "arguments") {
            Some(a) => a,
            None => {
                return out;
            },
        };
        let nc = self.tree.named_children(args);
        match self.first_taint_exec(st, sums, &nc) {
            Some(s) => {
                assert(node_wf(self.tree@, i as int));
                let node = self.tree.node(i);
                out.push(
                    TaintFinding {
                        sink_start_byte: node.start_byte,
                        sink_end_byte: node.end_byte,
                        sink_line: node.start_row + 1,
                        sink_column: node.start_column + 1,
                        sink_end_line: node.end_row + 1,
                        sink_end_column: node.end_column + 1,
                        source_description: s,
                        sink_description: sd,
                    },
                );
                assert(taint_views(out@) =~= seq![out@[0]@]);
                out
            },
            None => out,
        }
    }

    /// Walks nodes `start .. end`, closures skipped.
    fn walk_exec(&self, sums: &NameLog, start: usize, end: usize, st: &mut NameLog) -> (res: Vec<
        TaintFinding,
    >)
        requires
            end <= self.tree@.len(),
        ensures
            (final(st)@, taint_views(res@)) == walk(
                self.ctx(),
                sums@,
                start as int,
                end as int,
                old(st)@,
            ),
    {
        let ghost c = self.ctx();
        let ghost st0 = st@;
        let n = self.tree.len();
        let mut found: Vec<TaintFinding> = Vec::new();
        let mut j = start;
        let mut done = false;
        while j < end && !done
            invariant
                c == self.ctx(),
                end <= n == c.t.len(),
                tree_wf(c.t),
                walk(c, sums@, start as int, end as int, st0) == (
                    walk(c, sums@, j as int, end as int, st@).0,
                    taint_views(found@) + walk(c, sums@, j as int, end as int, st@).1,
                ),
                done ==> walk(c, sums@, j as int, end as int, st@) == (
                    st@,
                    Seq::<TaintFindingView>::empty(),
                ),
            decreases end - j + (if done { 0int } else { 1int }),
        {
            if self.tree.kind_is(j, "func_literal") {
                let nj = self.tree.node(j).subtree_end;
                if j < nj && nj <= end {
                    j = nj;
                } else {
                    done = true;
                }
            } else {
                let ghost before = found@;
                let ghost stj = st@;
                let mut fs = self.call_findings_exec(st, sums, j);
                self.step_exec(st, sums, j);
                found.append(&mut fs);
                proof {
                    let rest = walk(c, sums@, j + 1, end as int, st@);
                    assert(taint_views(found@) =~= taint_views(before) + call_findings(c, stj, sums@, j as int));
                    assert(taint_views(before) + (call_findings(c, stj, sums@, j as int) + rest.1)
                        =~= taint_views(found@) + rest.1);
                }
                j = j + 1;
            }
        }
        proof {
            let w = walk(c, sums@, j as int, end as int, st@);
            assert(w.0 == st@ && w.1 == Seq::<TaintFindingView>::empty());
            assert(taint_views(found@) + w.1 =~= taint_views(found@));
        }
        found
    }
}

} // verus!

verus! {

impl<'a> Engine<'a> {
    fn return_taint_exec(&self, st: &NameLog, j: usize) -> (res: Option<String>)
        requires
            j < self.tree@.len(),
        ensures
            opt_view(res) == return_taint_from(self.ctx(), st@, named_children(self.tree@, j as int), 0),
    {
        let ghost c = self.ctx();
        let empty = NameLog::new();
        let xs = self.tree.named_children(j);
        let mut k: usize = 0;
        while k < xs.len()
            invariant
                c == self.ctx(),
                empty@ == Seq::<(Seq<char>, Option<Seq<char>>)>::empty(),
                xs@ == named_children(self.tree@, j as int),
                forall|m: int| 0 <= m < xs@.len() ==> j < #[trigger] xs@[m] < self.tree@.len(),
                k <= xs@.len(),
                return_taint_from(c, st@, xs@, 0) == return_taint_from(c, st@, xs@, k as int),
            decreases xs@.len() - k,
        {
            let x = xs[k];
            assert(j < xs@[k as int] < self.tree@.len());
            let r = if self.tree.kind_is(x, "expression_list") {
                let inner = self.tree.named_children(x);
                self.first_taint_exec(st, &empty, &inner)
            } else {
                self.expr_taint_exec(st, &empty, x)
            };
            if r.is_some() {
                return r;
            }
            k = k + 1;
        }
        None
    }

    /// Pass 1 over nodes `start .. end`: the first tainted return value.
    fn walk_ret_exec(&self, start: usize, end: usize, st: &mut NameLog) -> (res: Option<String>)
        requires
            end <= self.tree@.len(),
        ensures
            opt_view(res) == walk_ret(self.ctx(), start as int, end as int, old(st)@, None),
    {
        let ghost c = self.ctx();
        let ghost st0 = st@;
        let empty = NameLog::new();
        let n = self.tree.len();
        let mut ret: Option<String> = None;
        let mut j = start;
        let mut done = false;
        while j < end && !done
            invariant
                c == self.ctx(),
                empty@ == Seq::<(Seq<char>, Option<Seq<char>>)>::empty(),
                end <= n == c.t.len(),
                tree_wf(c.t),
                walk_ret(c, start as int, end as int, st0, None) == walk_ret(
                    c,
                    j as int,
                    end as int,
                    st@,
                    opt_view(ret),
                ),
                done ==> walk_ret(c, j as int, end as int, st@, opt_view(ret)) == opt_view(ret),
            decreases end - j + (if done {
                0int
            } else {
                1int
            }),
        {
            if self.tree.kind_is(j, "func_literal") {
                let nj = self.tree.node(j).subtree_end;
                if j < nj && nj <= end {
                    j = nj;
                } else {
                    done = true;
                }
            } else {
                if self.tree.kind_is(j, "return_statement") && ret.is_none() {
                    ret = self.return_taint_exec(st, j);
                }
                self.step_exec(st, &empty, j);
                j = j + 1;
            }
        }
        ret
    }

    fn param_source_exec(&self, name: &[char]) -> (res: Option<String>)
        ensures
            opt_view(res) == param_source_from(self.ctx(), name@, 0),
    {
        let ghost c = self.ctx();
        let mut k: usize = 0;
        while k < self.spec.sources.len()
            invariant
                c == self.ctx(),
                k <= self.spec.sources@.len(),
                param_source_from(c, name@, 0) == param_source_from(c, name@, k as int),
            decreases self.spec.sources@.len() - k,
        {
            assert(c.spec.sources[k as int] == self.spec.sources@[k as int]@);
            match &self.spec.sources[k] {
                NodeMatcher::ParamName { names, description } => {
                    let ghost nv = names@.map_values(|s: String| s@);
                    let mut m: usize = 0;
                    let mut found = false;
                    while m < names.len()
                        invariant
                            m <= names@.len(),
                            nv == names@.map_values(|s: String| s@),
                            found ==> nv.contains(name@),
                            !found ==> forall|q: int| 0 <= q < m ==> nv[q] != name@,
                        decreases names@.len() - m,
                    {
                        if chars_eq_string(name, &names[m]) {
                            assert(nv[m as int] == name@);
                            found = true;
                        }
                        m = m + 1;
                    }
                    if found {
                        return Some(description.clone());
                    }
                    assert(!nv.contains(name@));
                },
                _ => {},
            }
            k = k + 1;
        }
        None
    }

    fn initial_state_exec(&self, f: usize) -> (res: NameLog)
        requires
            f < self.tree@.len(),
        ensures
            res@ == initial_state(self.ctx(), f as int),
    {
        let ghost c = self.ctx();
        let n = self.tree.len();
        let mut st = NameLog::new();
        let p = match self.tree.child_by_field(f, "parameters") {
            Some(p) => p,
            None => {
                return st;
            },
        };
        let pnode = self.tree.node(p);
        let mut k: usize = 0;
        while k < pnode.children.len()
            invariant
                c == self.ctx(),
                n == c.t.len(),
                tree_wf(c.t),
                p < n,
                pnode@ == c.t[p as int],
                k <= pnode.children@.len(),
                st@ == seed_upto(c, p as int, k as int),
            decreases pnode.children@.len() - k,
        {
            assert(node_wf(c.t, p as int));
            let x = pnode.children[k];
            assert(c.t[p as int].children[k as int] == x);
            if self.tree.kind_is(x, "parameter_declaration") || self.tree.kind_is(
                x,
                "variadic_parameter_declaration",
            ) {
                let xnode = self.tree.node(x);
                let ghost prev = st@;
                let mut m: usize = 0;
                while m < xnode.children.len()
                    invariant
                        c == self.ctx(),
                        n == c.t.len(),
                        tree_wf(c.t),
                        x < n,
                        xnode@ == c.t[x as int],
                        m <= xnode.children@.len(),
                        st@ == seed_decl(c, prev, x as int, m as int),
                    decreases xnode.children@.len() - m,
                {
                    assert(node_wf(c.t, x as int));
                    let y = xnode.children[m];
                    assert(c.t[x as int].children[m as int] == y);
                    if self.tree.kind_is(y, "identifier") {
                        let name = self.tree.text(self.src, y);
                        match self.param_source_exec(name.as_slice()) {
                            Some(d) => {
                                st.insert(string_of_chars(name.as_slice()), d);
                            },
                            None => {},
                        }
                    }
                    m = m + 1;
                }
            }
            k = k + 1;
        }
        st
    }

    fn analyze_function_exec(&self, sums: &NameLog, f: usize) -> (res: Vec<TaintFinding>)
        requires
            f < self.tree@.len(),
        ensures
            taint_views(res@) == analyze_function(self.ctx(), sums@, f as int),
    {
        let n = self.tree.len();
        let mut st = self.initial_state_exec(f);
        match self.tree.child_by_field(f, "body") {
            None => {
                let v: Vec<TaintFinding> = Vec::new();
                assert(taint_views(v@) =~= Seq::<TaintFindingView>::empty());
                v
            },
            Some(b) => {
                assert(node_wf(self.tree@, b as int));
                let end = self.tree.node(b).subtree_end;
                self.walk_exec(sums, b, end, &mut st)
            },
        }
    }

    fn summarize_exec(&self, f: usize) -> (res: Option<String>)
        requires
            f < self.tree@.len(),
        ensures
            opt_view(res) == summarize_function(self.ctx(), f as int),
    {
        let n = self.tree.len();
        let mut st = self.initial_state_exec(f);
        match self.tree.child_by_field(f, "body") {
            None => None,
            Some(b) => {
                assert(node_wf(self.tree@, b as int));
                let end = self.tree.node(b).subtree_end;
                self.walk_ret_exec(b, end, &mut st)
            },
        }
    }

    fn function_defs_exec(&self, start: usize, end: usize) -> (res: Vec<usize>)
        requires
            end <= self.tree@.len(),
        ensures
            res@ == function_defs(self.ctx(), start as int, end as int),
            forall|k: int| 0 <= k < res@.len() ==> #[trigger] res@[k] < self.tree@.len(),
    {
        let ghost c = self.ctx();
        let n = self.tree.len();
        let mut out: Vec<usize> = Vec::new();
        let mut j = start;
        assert(out@ + function_defs(c, j as int, end as int) =~= function_defs(c, j as int, end as int));
        while j < end
            invariant
                c == self.ctx(),
                end <= n == c.t.len(),
                tree_wf(c.t),
                function_defs(c, start as int, end as int) == out@ + function_defs(
                    c,
                    j as int,
                    end as int,
                ),
                forall|k: int| 0 <= k < out@.len() ==> #[trigger] out@[k] < n,
            decreases end - j,
        {
            if self.tree.kind_is(j, "function_declaration") || self.tree.kind_is(j, "method_declaration") {
                let ghost before = out@;
                out.push(j);
                let nj = self.tree.node(j).subtree_end;
                if j < nj && nj <= end {
                    assert(before + (seq![j] + function_defs(c, nj as int, end as int)) =~= out@
                        + function_defs(c, nj as int, end as int));
                    j = nj;
                } else {
                    assert(before + (seq![j] + Seq::<usize>::empty()) =~= out@ + function_defs(
                        c,
                        end as int,
                        end as int,
                    ));
                    j = end;
                }
            } else {
                j = j + 1;
            }
        }
        proof {
            assert(out@ + Seq::<usize>::empty() =~= out@);
        }
        out
    }
}

/// Run the taint engine over every function/method body inside node
/// `root` and return one [`TaintFinding`] per source→sink flow.
///
/// Runs two passes per file. Pass 1 builds the return-taint summary for
/// every function / method in the file. Pass 2 re-analyzes each body with
/// that summary available.
pub fn analyze_tree(
    tree: &SyntaxTree,
    root: usize,
    source: &str,
    spec: &TaintSpec,
    aliases: Option<&GoImportAliases>,
) -> (res: Vec<TaintFinding>)
    requires
        root < tree@.len(),
    ensures
        taint_views(res@) == analyze(
            Ctx {
                src: source.spec_bytes(),
                t: tree@,
                spec: spec@,
                aliases: match aliases {
                    Some(a) => Some(a@),
                    None => None,
                },
            },
            root as int,
        ),
{
    let engine = Engine { tree, src: source.as_bytes(), spec, aliases };
    let ghost c = engine.ctx();
    let n = tree.len();
    assert(node_wf(tree@, root as int));
    let end = tree.node(root).subtree_end;
    let defs = engine.function_defs_exec(root, end);
    let mut sums = NameLog::new();
    let mut k: usize = 0;
    while k < defs.len()
        invariant
            c == engine.ctx(),
            engine.tree@ == tree@,
            engine.src@ == source.spec_bytes(),
            k <= defs@.len(),
            defs@ == function_defs(c, root as int, end as int),
            forall|m: int| 0 <= m < defs@.len() ==> #[trigger] defs@[m] < tree@.len(),
            sums@ == build_summaries(c, defs@, k as int),
        decreases defs@.len() - k,
    {
        let f = defs[k];
        assert(defs@[k as int] < tree@.len());
        match tree.field_text(engine.src, f, "name") {
            Some(name) => {
                let ret = engine.summarize_exec(f);
                sums.set(string_of_chars(name.as_slice()), ret);
            },
            None => {},
        }
        k = k + 1;
    }
    let mut out: Vec<TaintFinding> = Vec::new();
    let mut k: usize = 0;
    while k < defs.len()
        invariant
            c == engine.ctx(),
            engine.tree@ == tree@,
            engine.src@ == source.spec_bytes(),
            k <= defs@.len(),
            defs@ == function_defs(c, root as int, end as int),
            forall|m: int| 0 <= m < defs@.len() ==> #[trigger] defs@[m] < tree@.len(),
            sums@ == build_summaries(c, defs@, defs@.len() as int),
            taint_views(out@) == analyze_all(c, sums@, defs@, k as int),
        decreases defs@.len() - k,
    {
        let f = defs[k];
        assert(defs@[k as int] < tree@.len());
        let ghost before = out@;
        let mut fs = engine.analyze_function_exec(&sums, f);
        out.append(&mut fs);
        assert(taint_views(out@) =~= taint_views(before) + analyze_function(c, sums@, f as int));
        k = k + 1;
    }
    out
}

} // verus!

verus! {

// ─── Shared Go sources ────────────────────────────────────────────────────

/// A selector-chain matcher, built from its three texts.
pub fn attribute_matcher(root: &str, field: &str, description: &str) -> (res: NodeMatcher)
    ensures
        res@ == (MatcherView::Attribute { root: root@, field: field@, description: description@ }),
{
    NodeMatcher::Attribute {
        root: String::from_str(root),
        field: String::from_str(field),
        description: String::from_str(description),
    }
}

/// A call matcher, built from its canonical callee and description.
pub fn call_matcher(canonical: &str, description: &str) -> (res: NodeMatcher)
    ensures
        res@ == (MatcherView::Call { canonical: canonical@, description: description@ }),
{
    NodeMatcher::Call {
        canonical: String::from_str(canonical),
        description: String::from_str(description),
    }
}

/// The untrusted-input sources every Go taint rule shares: net/http
/// handlers, Gin, Echo, Fiber, the environment and the command line.
pub open spec fn go_sources_spec() -> Seq<MatcherView> {
    seq![
        MatcherView::ParamName {
            names: seq!["r"@, "req"@, "request"@],
            description: "net/http request parameter"@,
        },
        MatcherView::Attribute { root: "r"@, field: "URL"@, description: "http.Request.URL"@ },
        MatcherView::Attribute { root: "r"@, field: "Header"@, description: "http.Request.Header"@ },
        MatcherView::Attribute { root: "r"@, field: "Body"@, description: "http.Request.Body"@ },
        MatcherView::Attribute { root: "r"@, field: "Form"@, description: "http.Request.Form"@ },
        MatcherView::Call { canonical: "r.FormValue"@, description: "http.Request.FormValue"@ },
        MatcherView::Call {
            canonical: "r.PostFormValue"@,
            description: "http.Request.PostFormValue"@,
        },
        MatcherView::Call { canonical: "r.URL.Query"@, description: "http.Request.URL.Query()"@ },
        MatcherView::Call { canonical: "c.Query"@, description: "gin *Context.Query"@ },
        MatcherView::Call { canonical: "c.PostForm"@, description: "gin *Context.PostForm"@ },
        MatcherView::Call { canonical: "c.Param"@, description: "gin *Context.Param"@ },
        MatcherView::Call { canonical: "c.GetHeader"@, description: "gin *Context.GetHeader"@ },
        MatcherView::Call { canonical: "c.GetQuery"@, description: "gin *Context.GetQuery"@ },
        MatcherView::Call { canonical: "c.GetString"@, description: "gin *Context.GetString"@ },
        MatcherView::Call { canonical: "c.FormValue"@, description: "gin *Context.FormValue"@ },
        MatcherView::Attribute { root: "c"@, field: "Request"@, description: "gin *Context.Request"@ },
        MatcherView::Call { canonical: "c.QueryParam"@, description: "echo Context.QueryParam"@ },
        MatcherView::Call { canonical: "c.Params"@, description: "fiber Ctx.Params"@ },
        MatcherView::Call { canonical: "os.Getenv"@, description: "os.Getenv"@ },
        MatcherView::Attribute { root: "os"@, field: "Args"@, description: "os.Args"@ },
    ]
}

/// The shared Go source matchers, in the order the engine tries them.
pub fn go_taint_sources() -> (res: Vec<NodeMatcher>)
    ensures
        res@.map_values(|m: NodeMatcher| m@) == go_sources_spec(),
{
    let mut names: Vec<String> = Vec::new();
    names.push(String::from_str("r"));
    names.push(String::from_str("req"));
    names.push(String::from_str("request"));
    assert(names@.map_values(|n: String| n@) =~= seq!["r"@, "req"@, "request"@]);
    let mut v: Vec<NodeMatcher> = Vec::new();
    v.push(NodeMatcher::ParamName {
        names,
        description: String::from_str("net/http request parameter"),
    });
    v.push(attribute_matcher("r", "URL", "http.Request.URL"));
    v.push(attribute_matcher("r", "Header", "http.Request.Header"));
    v.push(attribute_matcher("r", "Body", "http.Request.Body"));
    v.push(attribute_matcher("r", "Form", "http.Request.Form"));
    v.push(call_matcher("r.FormValue", "http.Request.FormValue"));
    v.push(call_matcher("r.PostFormValue", "http.Request.PostFormValue"));
    v.push(call_matcher("r.URL.Query", "http.Request.URL.Query()"));
    v.push(call_matcher("c.Query", "gin *Context.Query"));
    v.push(call_matcher("c.PostForm", "gin *Context.PostForm"));
    v.push(call_matcher("c.Param", "gin *Context.Param"));
    v.push(call_matcher("c.GetHeader", "gin *Context.GetHeader"));
    v.push(call_matcher("c.GetQuery", "gin *Context.GetQuery"));
    v.push(call_matcher("c.GetString", "gin *Context.GetString"));
    v.push(call_matcher("c.FormValue", "gin *Context.FormValue"));
    v.push(attribute_matcher("c", "Request", "gin *Context.Request"));
    v.push(call_matcher("c.QueryParam", "echo Context.QueryParam"));
    v.push(call_matcher("c.Params", "fiber Ctx.Params"));
    v.push(call_matcher("os.Getenv", "os.Getenv"));
    v.push(attribute_matcher("os", "Args", "os.Args"));
    assert(v@.map_values(|m: NodeMatcher| m@) =~= go_sources_spec());
    v
}

} // verus!

verus! {

// ─── Laws ─────────────────────────────────────────────────────────────────

/// After giving every name from the `k`-th on the value `v`, a name holds
/// `v` if it is among them and what it held before otherwise.
pub proof fn lemma_assign_all_get(st: LogView, lhs: Seq<Seq<char>>, v: Option<Seq<char>>, k: int, x: Seq<char>)
    requires
        0 <= k <= lhs.len(),
    ensures
        log_get(assign_all(st, lhs, v, k), x) == (if lhs.subrange(k, lhs.len() as int).contains(x) {
            v
        } else {
            log_get(st, x)
        }),
    decreases lhs.len() - k,
{
    let s = lhs.subrange(k, lhs.len() as int);
    if k < lhs.len() {
        let st1 = st.push((lhs[k], v));
        assert(assign_all(st, lhs, v, k) == assign_all(st1, lhs, v, k + 1));
        lemma_assign_all_get(st1, lhs, v, k + 1, x);
        crate::rules::name_log::law_last_write_wins(st, lhs[k], v, x);
        let tail = lhs.subrange(k + 1, lhs.len() as int);
        assert(s =~= seq![lhs[k]] + tail);
        if tail.contains(x) {
            let m = choose|m: int| 0 <= m < tail.len() && tail[m] == x;
            assert(s[m + 1] == x);
            assert(s.contains(x));
        } else if x == lhs[k] {
            assert(s[0] == x);
            assert(s.contains(x));
        } else {
            if s.contains(x) {
                let m = choose|m: int| 0 <= m < s.len() && s[m] == x;
                assert(m != 0);
                assert(tail[m - 1] == x);
                assert(false);
            }
        }
    } else {
        assert(s =~= Seq::<Seq<char>>::empty());
    }
}

/// Names not assigned from the `k`-th position on keep their value.
pub proof fn lemma_assign_each_untouched(
    c: Ctx,
    st0: LogView,
    sums: LogView,
    st: LogView,
    lhs: Seq<Seq<char>>,
    rhs: Seq<usize>,
    k: int,
    x: Seq<char>,
)
    requires
        0 <= k <= lhs.len(),
        forall|m: int| k <= m < lhs.len() ==> lhs[m] != x,
    ensures
        log_get(assign_each(c, st0, sums, st, lhs, rhs, k), x) == log_get(st, x),
    decreases lhs.len() - k,
{
    if k < lhs.len() {
        let st1 = st.push((lhs[k], expr_taint(c, st0, sums, rhs[k] as int)));
        lemma_assign_each_untouched(c, st0, sums, st1, lhs, rhs, k + 1, x);
        crate::rules::name_log::law_last_write_wins(st, lhs[k], expr_taint(c, st0, sums, rhs[k] as int), x);
    }
}

pub proof fn lemma_assign_each_pairs(
    c: Ctx,
    st0: LogView,
    sums: LogView,
    st: LogView,
    lhs: Seq<Seq<char>>,
    rhs: Seq<usize>,
    k: int,
    j: int,
)
    requires
        0 <= k <= j < lhs.len(),
        forall|m: int| j < m < lhs.len() ==> lhs[m] != lhs[j],
    ensures
        log_get(assign_each(c, st0, sums, st, lhs, rhs, k), lhs[j]) == expr_taint(c, st0, sums, rhs[j] as int),
    decreases lhs.len() - k,
{
    let st1 = st.push((lhs[k], expr_taint(c, st0, sums, rhs[k] as int)));
    if k < j {
        lemma_assign_each_pairs(c, st0, sums, st1, lhs, rhs, k + 1, j);
    } else {
        lemma_assign_each_untouched(c, st0, sums, st1, lhs, rhs, k + 1, lhs[j]);
        crate::rules::name_log::law_last_write_wins(st, lhs[k], expr_taint(c, st0, sums, rhs[k] as int), lhs[j]);
    }
}

/// Multi-return destructuring (`a, b := f()`): when the numbers of names
/// and expressions differ, every name takes the first taint among the
/// expressions, and every name is cleared when none is tainted.
pub proof fn law_arity_mismatch_taints_every_name(
    c: Ctx,
    st: LogView,
    sums: LogView,
    lhs: Seq<Seq<char>>,
    rhs: Seq<usize>,
    j: int,
)
    requires
        lhs.len() != rhs.len(),
        0 <= j < lhs.len(),
    ensures
        log_get(apply_assign(c, st, sums, lhs, rhs), lhs[j]) == first_taint_of(c, st, sums, rhs, 0),
{
    lemma_assign_all_get(st, lhs, first_taint_of(c, st, sums, rhs, 0), 0, lhs[j]);
    assert(lhs.subrange(0, lhs.len() as int) =~= lhs);
    assert(lhs.contains(lhs[j]));
}

/// A reassignment with a clean right-hand side clears the target and a
/// tainted one taints it: with as many names as expressions, each name
/// (unless named again later in the statement) takes the taint of its own
/// expression, evaluated before the statement.
pub proof fn law_assignment_pairs_names(
    c: Ctx,
    st: LogView,
    sums: LogView,
    lhs: Seq<Seq<char>>,
    rhs: Seq<usize>,
    j: int,
)
    requires
        lhs.len() == rhs.len(),
        0 <= j < lhs.len(),
        forall|m: int| j < m < lhs.len() ==> lhs[m] != lhs[j],
    ensures
        log_get(apply_assign(c, st, sums, lhs, rhs), lhs[j]) == expr_taint(c, st, sums, rhs[j] as int),
{
    lemma_assign_each_pairs(c, st, sums, st, lhs, rhs, 0, j);
}

/// Sanitizers collapse to clean: a call to a declared sanitizer carries no
/// taint, whatever its arguments, unless a source matcher names the call
/// itself.
pub proof fn law_sanitizer_collapses(c: Ctx, st: LogView, sums: LogView, i: int)
    requires
        0 <= i < c.t.len(),
        is_sanitizer_call(c, i),
        match_source(c, i) is None,
    ensures
        expr_taint(c, st, sums, i) is None,
{
    reveal_strlit("call_expression");
    reveal_strlit("identifier");
    reveal_strlit("selector_expression");
    reveal_strlit("index_expression");
    reveal_strlit("binary_expression");
    reveal_strlit("parenthesized_expression");
    reveal_strlit("unary_expression");
    reveal_strlit("keyed_element");
    reveal_strlit("composite_literal");
    let k = c.t[i].kind;
    assert(k == "call_expression"@);
    assert(k != "identifier"@);
    assert(k != "selector_expression"@ && k != "index_expression"@);
    assert(k != "binary_expression"@ && k != "parenthesized_expression"@);
    assert(k != "unary_expression"@ && k != "keyed_element"@);
    assert(k != "composite_literal"@);
}

/// A sink call reports at most one flow: that of its first tainted
/// argument.
pub proof fn law_one_finding_per_call(c: Ctx, st: LogView, sums: LogView, i: int)
    ensures
        call_findings(c, st, sums, i).len() <= 1,
{
}

} // verus!

verus! {

proof fn lemma_go_kind_texts()
    ensures
        "identifier"@.len() == 10,
        "selector_expression"@.len() == 19,
        "selector_expression"@[0] == 's',
        "index_expression"@.len() == 16,
        "index_expression"@[0] == 'i',
        "binary_expression"@.len() == 17,
        "parenthesized_expression"@.len() == 24,
        "unary_expression"@.len() == 16,
        "unary_expression"@[0] == 'u',
        "keyed_element"@.len() == 13,
        "composite_literal"@.len() == 17,
        "composite_literal"@[0] == 'c',
        "call_expression"@.len() == 15,
{
    reveal_strlit("identifier");
    reveal_strlit("selector_expression");
    reveal_strlit("index_expression");
    reveal_strlit("binary_expression");
    reveal_strlit("parenthesized_expression");
    reveal_strlit("unary_expression");
    reveal_strlit("keyed_element");
    reveal_strlit("composite_literal");
    reveal_strlit("call_expression");
}

proof fn lemma_list_taint_some(c: Ctx, st: LogView, sums: LogView, parent: int, list: Seq<usize>, k: int, j: int)
    requires
        0 <= k <= j < list.len(),
        parent < list[j] < c.t.len(),
        expr_taint(c, st, sums, list[j] as int) is Some,
    ensures
        list_taint(c, st, sums, parent, list, k) is Some,
    decreases j - k,
{
    if k < j {
        let x = list[k];
        let r = if parent < x < c.t.len() {
            expr_taint(c, st, sums, x as int)
        } else {
            None
        };
        if r is None {
            lemma_list_taint_some(c, st, sums, parent, list, k + 1, j);
        }
    }
}

/// Selector and index propagation: `x.f` and `x[k]` are tainted when `x`
/// is (so a chain is tainted when its root is).
pub proof fn law_selector_of_tainted_is_tainted(c: Ctx, st: LogView, sums: LogView, i: int, o: usize)
    requires
        tree_wf(c.t),
        0 <= i < c.t.len(),
        c.t[i].kind == "selector_expression"@ || c.t[i].kind == "index_expression"@,
        field_child(c.t, i, "operand"@) == Some(o),
        expr_taint(c, st, sums, o as int) is Some,
    ensures
        expr_taint(c, st, sums, i) is Some,
{
    lemma_go_kind_texts();
    crate::tree::lemma_accessors_in_bounds(c.t, i);
    assert(field_child(c.t, i, "operand"@) is Some);
    let k = c.t[i].kind;
    assert(k != "identifier"@);
}

/// Concatenation propagation: a binary expression such as `"SELECT " + x`
/// is tainted when one of its operands is.
pub proof fn law_concatenation_keeps_taint(c: Ctx, st: LogView, sums: LogView, i: int, x: usize)
    requires
        tree_wf(c.t),
        0 <= i < c.t.len(),
        c.t[i].kind == "binary_expression"@,
        named_children(c.t, i).contains(x),
        expr_taint(c, st, sums, x as int) is Some,
    ensures
        expr_taint(c, st, sums, i) is Some,
{
    lemma_go_kind_texts();
    crate::tree::lemma_accessors_in_bounds(c.t, i);
    let l = named_children(c.t, i);
    let j = choose|j: int| 0 <= j < l.len() && l[j] == x;
    assert(i < l[j] < c.t.len());
    lemma_list_taint_some(c, st, sums, i, l, 0, j);
    let k = c.t[i].kind;
    assert(k != "identifier"@ && k != "selector_expression"@ && k != "index_expression"@);
}

/// Wrapping-call propagation: a call that is not a declared sanitizer is
/// tainted when one of its arguments is.
pub proof fn law_wrapping_call_keeps_taint(c: Ctx, st: LogView, sums: LogView, i: int, args: usize, x: usize)
    requires
        tree_wf(c.t),
        0 <= i < c.t.len(),
        c.t[i].kind == "call_expression"@,
        !is_sanitizer_call(c, i),
        field_child(c.t, i, "arguments"@) == Some(args),
        named_children(c.t, args as int).contains(x),
        expr_taint(c, st, sums, x as int) is Some,
    ensures
        expr_taint(c, st, sums, i) is Some,
{
    lemma_go_kind_texts();
    crate::tree::lemma_accessors_in_bounds(c.t, i);
    assert(field_child(c.t, i, "arguments"@) is Some);
    crate::tree::lemma_accessors_in_bounds(c.t, args as int);
    let l = named_children(c.t, args as int);
    let j = choose|j: int| 0 <= j < l.len() && l[j] == x;
    assert(args < l[j] < c.t.len());
    lemma_list_taint_some(c, st, sums, args as int, l, 0, j);
    let k = c.t[i].kind;
    assert(k != "identifier"@ && k != "selector_expression"@ && k != "index_expression"@);
    assert(k != "binary_expression"@ && k != "parenthesized_expression"@ && k != "unary_expression"@);
    assert(k != "keyed_element"@ && k != "composite_literal"@);
}

/// Method calls on a tainted receiver: `x.F(..)` is tainted when `x` is,
/// unless `x.F` is a declared sanitizer.
pub proof fn law_method_on_tainted_receiver(c: Ctx, st: LogView, sums: LogView, i: int, f: usize, o: usize)
    requires
        tree_wf(c.t),
        0 <= i < c.t.len(),
        c.t[i].kind == "call_expression"@,
        !is_sanitizer_call(c, i),
        field_child(c.t, i, "function"@) == Some(f),
        c.t[f as int].kind == "selector_expression"@,
        field_child(c.t, f as int, "operand"@) == Some(o),
        expr_taint(c, st, sums, o as int) is Some,
    ensures
        expr_taint(c, st, sums, i) is Some,
{
    lemma_go_kind_texts();
    crate::tree::lemma_accessors_in_bounds(c.t, i);
    assert(field_child(c.t, i, "function"@) is Some);
    crate::tree::lemma_accessors_in_bounds(c.t, f as int);
    assert(field_child(c.t, f as int, "operand"@) is Some);
    let k = c.t[i].kind;
    assert(k != "identifier"@ && k != "selector_expression"@ && k != "index_expression"@);
    assert(k != "binary_expression"@ && k != "parenthesized_expression"@ && k != "unary_expression"@);
    assert(k != "keyed_element"@ && k != "composite_literal"@);
}

/// The input of a sanitizer is unaffected: an assignment leaves every name
/// it does not assign as it was.
pub proof fn law_assignment_leaves_other_names(
    c: Ctx,
    st: LogView,
    sums: LogView,
    lhs: Seq<Seq<char>>,
    rhs: Seq<usize>,
    other: Seq<char>,
)
    requires
        !lhs.contains(other),
    ensures
        log_get(apply_assign(c, st, sums, lhs, rhs), other) == log_get(st, other),
{
    if lhs.len() == rhs.len() {
        lemma_assign_each_untouched(c, st, sums, st, lhs, rhs, 0, other);
    } else {
        lemma_assign_all_get(st, lhs, first_taint_of(c, st, sums, rhs, 0), 0, other);
        assert(lhs.subrange(0, lhs.len() as int) =~= lhs);
    }
}

} // verus!

verus! {

// ─── Laws on the shared sources ───────────────────────────────────────────

/// The Go untrusted-input sources, as documented: handler parameters named
/// `r`, `req` or `request`; net/http `r.URL`, `r.Header`, `r.Body`, `r.Form`,
/// `r.FormValue()`, `r.PostFormValue()` and `r.URL.Query()`; Gin `c.Query()`,
/// `c.PostForm()`, `c.Param()`, `c.GetHeader()`, `c.GetQuery()`,
/// `c.GetString()`, `c.FormValue()` and `c.Request`; Echo `c.QueryParam()`;
/// Fiber `c.Params()`; `os.Getenv()` and `os.Args`. These twenty, and no
/// other, are the shared source matchers.
pub proof fn law_go_sources_documented()
    ensures
        go_sources_spec().len() == 20,
        go_sources_spec().contains(
            (MatcherView::ParamName {
                description: "net/http request parameter"@,
                names: seq!["r"@, "req"@, "request"@],
            }),
        ),
        go_sources_spec().contains((MatcherView::Attribute { description: "http.Request.URL"@, root: "r"@, field: "URL"@ })),
        go_sources_spec().contains((MatcherView::Attribute { description: "http.Request.Header"@, root: "r"@, field: "Header"@ })),
        go_sources_spec().contains((MatcherView::Attribute { description: "http.Request.Body"@, root: "r"@, field: "Body"@ })),
        go_sources_spec().contains((MatcherView::Attribute { description: "http.Request.Form"@, root: "r"@, field: "Form"@ })),
        go_sources_spec().contains((MatcherView::Call { description: "http.Request.FormValue"@, canonical: "r.FormValue"@ })),
        go_sources_spec().contains((MatcherView::Call { description: "http.Request.PostFormValue"@, canonical: "r.PostFormValue"@ })),
        go_sources_spec().contains((MatcherView::Call { description: "http.Request.URL.Query()"@, canonical: "r.URL.Query"@ })),
        go_sources_spec().contains((MatcherView::Call { description: "gin *Context.Query"@, canonical: "c.Query"@ })),
        go_sources_spec().contains((MatcherView::Call { description: "gin *Context.PostForm"@, canonical: "c.PostForm"@ })),
        go_sources_spec().contains((MatcherView::Call { description: "gin *Context.Param"@, canonical: "c.Param"@ })),
        go_sources_spec().contains((MatcherView::Call { description: "gin *Context.GetHeader"@, canonical: "c.GetHeader"@ })),
        go_sources_spec().contains((MatcherView::Call { description: "gin *Context.GetQuery"@, canonical: "c.GetQuery"@ })),
        go_sources_spec().contains((MatcherView::Call { description: "gin *Context.GetString"@, canonical: "c.GetString"@ })),
        go_sources_spec().contains((MatcherView::Call { description: "gin *Context.FormValue"@, canonical: "c.FormValue"@ })),
        go_sources_spec().contains((MatcherView::Attribute { description: "gin *Context.Request"@, root: "c"@, field: "Request"@ })),
        go_sources_spec().contains((MatcherView::Call { description: "echo Context.QueryParam"@, canonical: "c.QueryParam"@ })),
        go_sources_spec().contains((MatcherView::Call { description: "fiber Ctx.Params"@, canonical: "c.Params"@ })),
        go_sources_spec().contains((MatcherView::Call { description: "os.Getenv"@, canonical: "os.Getenv"@ })),
        go_sources_spec().contains((MatcherView::Attribute { description: "os.Args"@, root: "os"@, field: "Args"@ })),
{
    let s = go_sources_spec();
    assert(s[0] == (MatcherView::ParamName { description: "net/http request parameter"@, names: seq!["r"@, "req"@, "request"@] }));
    assert(s[1] == (MatcherView::Attribute { description: "http.Request.URL"@, root: "r"@, field: "URL"@ }));
    assert(s[2] == (MatcherView::Attribute { description: "http.Request.Header"@, root: "r"@, field: "Header"@ }));
    assert(s[3] == (MatcherView::Attribute { description: "http.Request.Body"@, root: "r"@, field: "Body"@ }));
    assert(s[4] == (MatcherView::Attribute { description: "http.Request.Form"@, root: "r"@, field: "Form"@ }));
    assert(s[5] == (MatcherView::Call { description: "http.Request.FormValue"@, canonical: "r.FormValue"@ }));
    assert(s[6] == (MatcherView::Call { description: "http.Request.PostFormValue"@, canonical: "r.PostFormValue"@ }));
    assert(s[7] == (MatcherView::Call { description: "http.Request.URL.Query()"@, canonical: "r.URL.Query"@ }));
    assert(s[8] == (MatcherView::Call { description: "gin *Context.Query"@, canonical: "c.Query"@ }));
    assert(s[9] == (MatcherView::Call { description: "gin *Context.PostForm"@, canonical: "c.PostForm"@ }));
    assert(s[10] == (MatcherView::Call { description: "gin *Context.Param"@, canonical: "c.Param"@ }));
    assert(s[11] == (MatcherView::Call { description: "gin *Context.GetHeader"@, canonical: "c.GetHeader"@ }));
    assert(s[12] == (MatcherView::Call { description: "gin *Context.GetQuery"@, canonical: "c.GetQuery"@ }));
    assert(s[13] == (MatcherView::Call { description: "gin *Context.GetString"@, canonical: "c.GetString"@ }));
    assert(s[14] == (MatcherView::Call { description: "gin *Context.FormValue"@, canonical: "c.FormValue"@ }));
    assert(s[15] == (MatcherView::Attribute { description: "gin *Context.Request"@, root: "c"@, field: "Request"@ }));
    assert(s[16] == (MatcherView::Call { description: "echo Context.QueryParam"@, canonical: "c.QueryParam"@ }));
    assert(s[17] == (MatcherView::Call { description: "fiber Ctx.Params"@, canonical: "c.Params"@ }));
    assert(s[18] == (MatcherView::Call { description: "os.Getenv"@, canonical: "os.Getenv"@ }));
    assert(s[19] == (MatcherView::Attribute { description: "os.Args"@, root: "os"@, field: "Args"@ }));
}

/// A source matcher that matches a node makes the node a source, whatever
/// the matchers before it do.
pub proof fn lemma_hit_is_source(c: Ctx, i: int, j: int, k: int)
    requires
        0 <= j <= k < c.spec.sources.len(),
        source_hit(c, i, c.spec.sources[k]) is Some,
    ensures
        match_source_from(c, i, j) is Some,
    decreases k - j,
{
    if j < k {
        lemma_hit_is_source(c, i, j + 1, k);
    }
}

/// Every documented Go source call is recognised: with the shared sources,
/// a call written `r.FormValue(..)`, `r.PostFormValue(..)`, `r.URL.Query()`,
/// `c.Query(..)`, `c.PostForm(..)`, `c.Param(..)`, `c.GetHeader(..)`,
/// `c.GetQuery(..)`, `c.GetString(..)`, `c.FormValue(..)`,
/// `c.QueryParam(..)`, `c.Params(..)` or `os.Getenv(..)` is untrusted input.
pub proof fn law_documented_go_calls_are_sources(c: Ctx, i: int, f: Seq<char>)
    requires
        c.spec.sources == go_sources_spec(),
        0 <= i < c.t.len(),
        c.t[i].kind == "call_expression"@,
        field_text(c.src, c.t, i, "function"@) == Some(f),
        f == "r.FormValue"@ || f == "r.PostFormValue"@ || f == "r.URL.Query"@ || f == "c.Query"@ || f
            == "c.PostForm"@ || f == "c.Param"@ || f == "c.GetHeader"@ || f == "c.GetQuery"@ || f
            == "c.GetString"@ || f == "c.FormValue"@ || f == "c.QueryParam"@ || f == "c.Params"@ || f
            == "os.Getenv"@,
    ensures
        match_source(c, i) is Some,
{
    law_go_sources_documented();
    let s = c.spec.sources;
    let k = choose|k: int| #![trigger s[k]] 0 <= k < s.len() && s[k] is Call && s[k]->Call_canonical == f;
    lemma_hit_is_source(c, i, 0, k);
}

/// Every documented Go source selector is recognised: with the shared
/// sources, `r.URL`, `r.Header`, `r.Body`, `r.Form`, `c.Request` and
/// `os.Args` (the selector's field, on a chain whose leftmost name is the
/// root) are untrusted input.
pub proof fn law_documented_go_selectors_are_sources(c: Ctx, i: int, root: Seq<char>, field: Seq<char>)
    requires
        c.spec.sources == go_sources_spec(),
        0 <= i < c.t.len(),
        c.t[i].kind == "selector_expression"@,
        field_text(c.src, c.t, i, "field"@) == Some(field),
        leftmost_identifier(c, i) == Some(root),
        (root == "r"@ && (field == "URL"@ || field == "Header"@ || field == "Body"@ || field == "Form"@))
            || (root == "c"@ && field == "Request"@) || (root == "os"@ && field == "Args"@),
    ensures
        match_source(c, i) is Some,
{
    law_go_sources_documented();
    let s = c.spec.sources;
    let k = choose|k: int|
        #![trigger s[k]]
        0 <= k < s.len() && s[k] is Attribute && s[k]->Attribute_root == root && s[k]->Attribute_field == field;
    lemma_hit_is_source(c, i, 0, k);
}

} // verus!
