//! PHP rules: eval, shell execution, SQL built from dynamic strings,
//! unserialize, dynamic file inclusion, weak hashes, hardcoded secrets,
//! SSRF, extract() and the `/e` modifier of preg_replace.

use vstd::prelude::*;
use vstd::string::*;
use crate::pattern::{compile, is_match, regex_compiles, regex_is_match, Pattern};
use crate::rules::common::{
    collect_hits, finding_at_node, kind_callee, kind_callee_exec, make_finding, nth_arg,
    nth_arg_exec, opt_str, walk_tree, NodeCheck,
};
use crate::rules::Rule;
use crate::text::{
    chars_eq_str, chars_of, contains_seq, contains_str, has_char, has_char_exec, join2, join3,
    starts_with_seq, starts_with_str, string_of_chars, trim_chars, trim_set, utf8_len,
    utf8_len_at_least, TrimSet,
};
use crate::tree::{field_child, field_text, named_child, node_text, node_wf, tree_wf, NodeView, SyntaxTree};
use crate::types::{finding_views, Finding, FindingView, Language, Severity};

verus! {

pub open spec fn php_callee(src: Seq<u8>, t: Seq<NodeView>, i: int) -> Option<Seq<char>> {
    kind_callee(src, t, i, "function_call_expression"@)
}

fn php_callee_exec(tree: &SyntaxTree, src: &[u8], i: usize) -> (res: Option<Vec<char>>)
    requires
        i < tree@.len(),
    ensures
        match res {
            Some(v) => php_callee(src@, tree@, i as int) == Some(v@),
            None => php_callee(src@, tree@, i as int) is None,
        },
{
    kind_callee_exec(tree, src, i, "function_call_expression")
}

/// Some child of node `d` has the given kind.
pub open spec fn has_child_kind(t: Seq<NodeView>, d: int, kind: Seq<char>) -> bool {
    exists|k: int| 0 <= k < t[d].children.len() && t[#[trigger] t[d].children[k] as int].kind == kind
}

fn has_child_kind_exec(tree: &SyntaxTree, d: usize, kind: &str) -> (res: bool)
    requires
        d < tree@.len(),
    ensures
        res == has_child_kind(tree@, d as int, kind@),
{
    let _ = tree.len();
    assert(node_wf(tree@, d as int));
    let n = tree.node(d);
    let mut k: usize = 0;
    while k < n.children.len()
        invariant
            k <= n.children@.len(),
            n@ == tree@[d as int],
            n.children@ == tree@[d as int].children,
            node_wf(tree@, d as int),
            forall|j: int| 0 <= j < k ==> tree@[#[trigger] tree@[d as int].children[j] as int].kind != kind@,
        decreases n.children@.len() - k,
    {
        if tree.kind_is(n.children[k], kind) {
            return true;
        }
        k = k + 1;
    }
    false
}

/// Some node inside the subtree of `a` (its pre-order range, `a` itself
/// excluded) satisfies `p`.
pub open spec fn in_subtree(t: Seq<NodeView>, a: int, p: spec_fn(int) -> bool) -> bool {
    exists|d: int| a < d < t[a].subtree_end && #[trigger] p(d)
}

/// An interpolated string, or a `.` concatenation.
pub open spec fn interp_or_concat(t: Seq<NodeView>, d: int) -> bool {
    t[d].kind == "encapsed_string"@ || (t[d].kind == "binary_expression"@ && has_child_kind(t, d, "."@))
}

fn has_interpolation_or_concat(tree: &SyntaxTree, a: usize) -> (res: bool)
    requires
        a < tree@.len(),
    ensures
        res == in_subtree(tree@, a as int, |d: int| interp_or_concat(tree@, d)),
{
    let _ = tree.len();
    assert(node_wf(tree@, a as int));
    let end = tree.node(a).subtree_end;
    let mut d: usize = a + 1;
    while d < end
        invariant
            a < d <= end,
            end == tree@[a as int].subtree_end,
            end <= tree@.len(),
            forall|e: int| a < e < d ==> !interp_or_concat(tree@, e),
        decreases end - d,
    {
        if tree.kind_is(d, "encapsed_string") || (tree.kind_is(d, "binary_expression")
            && has_child_kind_exec(tree, d, ".")) {
            assert((|e: int| interp_or_concat(tree@, e))(d as int));
            return true;
        }
        d = d + 1;
    }
    false
}

/// A variable, or an interpolated string.
pub open spec fn variable_like(t: Seq<NodeView>, d: int) -> bool {
    t[d].kind == "variable_name"@ || t[d].kind == "encapsed_string"@
}

fn has_variable_child(tree: &SyntaxTree, a: usize) -> (res: bool)
    requires
        a < tree@.len(),
    ensures
        res == in_subtree(tree@, a as int, |d: int| variable_like(tree@, d)),
{
    let _ = tree.len();
    assert(node_wf(tree@, a as int));
    let end = tree.node(a).subtree_end;
    let mut d: usize = a + 1;
    while d < end
        invariant
            a < d <= end,
            end == tree@[a as int].subtree_end,
            end <= tree@.len(),
            forall|e: int| a < e < d ==> !variable_like(tree@, e),
        decreases end - d,
    {
        if tree.kind_is(d, "variable_name") || tree.kind_is(d, "encapsed_string") {
            assert((|e: int| variable_like(tree@, e))(d as int));
            return true;
        }
        d = d + 1;
    }
    false
}


// ─── Rule 1: no-eval ─────────────────────────────────────────────────────────────

pub open spec fn php_eval_hit(src: Seq<u8>, t: Seq<NodeView>, i: int) -> Seq<FindingView> {
    if php_callee(src, t, i) == Some("eval"@) {
        seq![finding_at_node("php/no-eval"@, Severity::Critical, Some("CWE-95"@), "eval() allows arbitrary code execution — avoid dynamic code evaluation"@, src, t[i])]
    } else {
        Seq::empty()
    }
}

pub struct NoEval;

struct NoEvalCheck;

impl NodeCheck for NoEvalCheck {
    closed spec fn node_hits(&self, src: Seq<u8>, t: Seq<NodeView>, i: int) -> Seq<FindingView> {
        php_eval_hit(src, t, i)
    }

    fn hits_at(&self, source: &str, tree: &SyntaxTree, i: usize) -> (res: Vec<Finding>) {
        let mut out: Vec<Finding> = Vec::new();
        match php_callee_exec(tree, source.as_bytes(), i) {
            Some(c) => {
                if chars_eq_str(c.as_slice(), "eval") {
                    out.push(
                        make_finding(
                            "php/no-eval",
                            Severity::Critical,
                            Some("CWE-95"),
                            "eval() allows arbitrary code execution — avoid dynamic code evaluation",
                            tree,
                            i,
                            source,
                        ),
                    );
                }
            },
            None => {},
        }
        assert(finding_views(out@) =~= php_eval_hit(source.spec_bytes(), tree@, i as int));
        out
    }
}

impl Rule for NoEval {
    fn id(&self) -> (res: &str)
        ensures
            res@ == "php/no-eval"@,
    {
        "php/no-eval"
    }

    fn severity(&self) -> (res: Severity)
        ensures
            res == Severity::Critical,
    {
        Severity::Critical
    }

    fn cwe(&self) -> (res: Option<&str>)
        ensures
            opt_str(res) == Some("CWE-95"@),
    {
        Some("CWE-95")
    }

    fn description(&self) -> (res: &str)
        ensures
            res@ == "Use of eval() allows arbitrary code execution"@,
    {
        "Use of eval() allows arbitrary code execution"
    }

    fn language(&self) -> (res: Language)
        ensures
            res == Language::Php,
    {
        Language::Php
    }

    fn check(&self, source: &str, tree: &SyntaxTree) -> (res: Vec<Finding>)
        ensures
            finding_views(res@) == collect_hits(
                tree@.len() as int,
                |k: int| php_eval_hit(source.spec_bytes(), tree@, k),
            ),
    {
        let c = NoEvalCheck;
        let res = walk_tree(&c, source, tree);
        assert((|k: int| c.node_hits(source.spec_bytes(), tree@, k)) =~= (|k: int|
            php_eval_hit(source.spec_bytes(), tree@, k)));
        res
    }
}

// ─── Rule 2: no-command-injection ─────────────────────────────────────────────

pub open spec fn is_shell_function(c: Seq<char>) -> bool {
    c == "exec"@ || c == "system"@ || c == "passthru"@ || c == "shell_exec"@ || c == "popen"@ || c
        == "proc_open"@
}

pub open spec fn php_cmd_hit(src: Seq<u8>, t: Seq<NodeView>, i: int) -> Seq<FindingView> {
    let call = match php_callee(src, t, i) {
        Some(c) => if is_shell_function(c) {
            seq![finding_at_node("php/no-command-injection"@, Severity::Critical, Some("CWE-78"@), c + "() executes shell commands — risk of command injection"@, src, t[i])]
        } else {
            Seq::empty()
        },
        None => Seq::empty(),
    };
    let backtick = if t[i].kind == "shell_command_expression"@ {
        seq![finding_at_node("php/no-command-injection"@, Severity::Critical, Some("CWE-78"@), "Backtick operator executes shell commands — risk of command injection"@, src, t[i])]
    } else {
        Seq::empty()
    };
    call + backtick
}

pub struct NoCommandInjection;

struct NoCommandInjectionCheck;

impl NodeCheck for NoCommandInjectionCheck {
    closed spec fn node_hits(&self, src: Seq<u8>, t: Seq<NodeView>, i: int) -> Seq<FindingView> {
        php_cmd_hit(src, t, i)
    }

    fn hits_at(&self, source: &str, tree: &SyntaxTree, i: usize) -> (res: Vec<Finding>) {
        let mut out: Vec<Finding> = Vec::new();
        match php_callee_exec(tree, source.as_bytes(), i) {
            Some(c) => {
                let cs = c.as_slice();
                if chars_eq_str(cs, "exec") || chars_eq_str(cs, "system") || chars_eq_str(cs, "passthru")
                    || chars_eq_str(cs, "shell_exec") || chars_eq_str(cs, "popen") || chars_eq_str(cs, "proc_open") {
                    let msg = join2(cs, "() executes shell commands — risk of command injection");
                    out.push(
                        make_finding(
                            "php/no-command-injection",
                            Severity::Critical,
                            Some("CWE-78"),
                            msg.as_str(),
                            tree,
                            i,
                            source,
                        ),
                    );
                }
            },
            None => {},
        }
        let ghost first = out@;
        if tree.kind_is(i, "shell_command_expression") {
            out.push(
                        make_finding(
                            "php/no-command-injection",
                            Severity::Critical,
                            Some("CWE-78"),
                            "Backtick operator executes shell commands — risk of command injection",
                            tree,
                            i,
                            source,
                        ),
                    );
        }
        assert(finding_views(out@) =~= php_cmd_hit(source.spec_bytes(), tree@, i as int));
        out
    }
}

impl Rule for NoCommandInjection {
    fn id(&self) -> (res: &str)
        ensures
            res@ == "php/no-command-injection"@,
    {
        "php/no-command-injection"
    }

    fn severity(&self) -> (res: Severity)
        ensures
            res == Severity::Critical,
    {
        Severity::Critical
    }

    fn cwe(&self) -> (res: Option<&str>)
        ensures
            opt_str(res) == Some("CWE-78"@),
    {
        Some("CWE-78")
    }

    fn description(&self) -> (res: &str)
        ensures
            res@ == "Potential command injection via shell execution function"@,
    {
        "Potential command injection via shell execution function"
    }

    fn language(&self) -> (res: Language)
        ensures
            res == Language::Php,
    {
        Language::Php
    }

    fn check(&self, source: &str, tree: &SyntaxTree) -> (res: Vec<Finding>)
        ensures
            finding_views(res@) == collect_hits(
                tree@.len() as int,
                |k: int| php_cmd_hit(source.spec_bytes(), tree@, k),
            ),
    {
        let c = NoCommandInjectionCheck;
        let res = walk_tree(&c, source, tree);
        assert((|k: int| c.node_hits(source.spec_bytes(), tree@, k)) =~= (|k: int|
            php_cmd_hit(source.spec_bytes(), tree@, k)));
        res
    }
}

// ─── Rule 3: no-sql-injection ─────────────────────────────────────────────────

pub open spec fn is_sql_function(c: Seq<char>) -> bool {
    c == "mysqli_query"@ || c == "pg_query"@ || c == "mysql_query"@
}

/// `mysqli_query($conn, "SELECT ... $var ...")`: the arguments interpolate
/// or concatenate, or their text holds a `$` or a `.`.
/// `$db->query("... $var ...")`: the arguments interpolate or concatenate.
pub open spec fn php_sql_hit(src: Seq<u8>, t: Seq<NodeView>, i: int) -> Seq<FindingView> {
    let func = match php_callee(src, t, i) {
        Some(c) => if is_sql_function(c) {
            match field_child(t, i, "arguments"@) {
                Some(a) => if in_subtree(t, a as int, |d: int| interp_or_concat(t, d)) || has_char(
                    node_text(src, t[a as int]),
                    '$',
                ) || has_char(node_text(src, t[a as int]), '.') {
                    seq![finding_at_node("php/no-sql-injection"@, Severity::Critical, Some("CWE-89"@), c + "() with dynamic query — use parameterized queries"@, src, t[i])]
                } else {
                    Seq::empty()
                },
                None => Seq::empty(),
            }
        } else {
            Seq::empty()
        },
        None => Seq::empty(),
    };
    let method = if t[i].kind == "member_call_expression"@ && field_text(src, t, i, "name"@) == Some(
        "query"@,
    ) {
        match field_child(t, i, "arguments"@) {
            Some(a) => if in_subtree(t, a as int, |d: int| interp_or_concat(t, d)) {
                seq![finding_at_node("php/no-sql-injection"@, Severity::Critical, Some("CWE-89"@), "->query() with dynamic query — use parameterized queries"@, src, t[i])]
            } else {
                Seq::empty()
            },
            None => Seq::empty(),
        }
    } else {
        Seq::empty()
    };
    func + method
}

pub struct NoSqlInjection;

struct NoSqlInjectionCheck;

impl NodeCheck for NoSqlInjectionCheck {
    closed spec fn node_hits(&self, src: Seq<u8>, t: Seq<NodeView>, i: int) -> Seq<FindingView> {
        php_sql_hit(src, t, i)
    }

    fn hits_at(&self, source: &str, tree: &SyntaxTree, i: usize) -> (res: Vec<Finding>) {
        let src = source.as_bytes();
        let mut out: Vec<Finding> = Vec::new();
        match php_callee_exec(tree, src, i) {
            Some(c) => {
                let cs = c.as_slice();
                if chars_eq_str(cs, "mysqli_query") || chars_eq_str(cs, "pg_query") || chars_eq_str(cs, "mysql_query") {
                    match tree.child_by_field(i, "arguments") {
                        Some(a) => {
                            let at = tree.text(src, a);
                            if has_interpolation_or_concat(tree, a) || has_char_exec(at.as_slice(), '$')
                                || has_char_exec(at.as_slice(), '.') {
                                let msg = join2(cs, "() with dynamic query — use parameterized queries");
                                out.push(
                        make_finding(
                            "php/no-sql-injection",
                            Severity::Critical,
                            Some("CWE-89"),
                            msg.as_str(),
                            tree,
                            i,
                            source,
                        ),
                    );
                            }
                        },
                        None => {},
                    }
                }
            },
            None => {},
        }
        let ghost first = out@;
        if tree.kind_is(i, "member_call_expression") && crate::rules::common::field_text_is(tree, src, i, "name", "query") {
            match tree.child_by_field(i, "arguments") {
                Some(a) => {
                    if has_interpolation_or_concat(tree, a) {
                        out.push(
                        make_finding(
                            "php/no-sql-injection",
                            Severity::Critical,
                            Some("CWE-89"),
                            "->query() with dynamic query — use parameterized queries",
                            tree,
                            i,
                            source,
                        ),
                    );
                    }
                },
                None => {},
            }
        }
        assert(finding_views(out@) =~= php_sql_hit(src@, tree@, i as int));
        out
    }
}

impl Rule for NoSqlInjection {
    fn id(&self) -> (res: &str)
        ensures
            res@ == "php/no-sql-injection"@,
    {
        "php/no-sql-injection"
    }

    fn severity(&self) -> (res: Severity)
        ensures
            res == Severity::Critical,
    {
        Severity::Critical
    }

    fn cwe(&self) -> (res: Option<&str>)
        ensures
            opt_str(res) == Some("CWE-89"@),
    {
        Some("CWE-89")
    }

    fn description(&self) -> (res: &str)
        ensures
            res@ == "Potential SQL injection via string interpolation or concatenation"@,
    {
        "Potential SQL injection via string interpolation or concatenation"
    }

    fn language(&self) -> (res: Language)
        ensures
            res == Language::Php,
    {
        Language::Php
    }

    fn check(&self, source: &str, tree: &SyntaxTree) -> (res: Vec<Finding>)
        ensures
            finding_views(res@) == collect_hits(
                tree@.len() as int,
                |k: int| php_sql_hit(source.spec_bytes(), tree@, k),
            ),
    {
        let c = NoSqlInjectionCheck;
        let res = walk_tree(&c, source, tree);
        assert((|k: int| c.node_hits(source.spec_bytes(), tree@, k)) =~= (|k: int|
            php_sql_hit(source.spec_bytes(), tree@, k)));
        res
    }
}

// ─── Rule 4: no-unserialize ─────────────────────────────────────────────────────────────

pub open spec fn php_unserialize_hit(src: Seq<u8>, t: Seq<NodeView>, i: int) -> Seq<FindingView> {
    if php_callee(src, t, i) == Some("unserialize"@) {
        seq![finding_at_node("php/no-unserialize"@, Severity::Critical, Some("CWE-502"@), "unserialize() on untrusted data can lead to object injection — use json_decode instead"@, src, t[i])]
    } else {
        Seq::empty()
    }
}

pub struct NoUnserialize;

struct NoUnserializeCheck;

impl NodeCheck for NoUnserializeCheck {
    closed spec fn node_hits(&self, src: Seq<u8>, t: Seq<NodeView>, i: int) -> Seq<FindingView> {
        php_unserialize_hit(src, t, i)
    }

    fn hits_at(&self, source: &str, tree: &SyntaxTree, i: usize) -> (res: Vec<Finding>) {
        let mut out: Vec<Finding> = Vec::new();
        match php_callee_exec(tree, source.as_bytes(), i) {
            Some(c) => {
                if chars_eq_str(c.as_slice(), "unserialize") {
                    out.push(
                        make_finding(
                            "php/no-unserialize",
                            Severity::Critical,
                            Some("CWE-502"),
                            "unserialize() on untrusted data can lead to object injection — use json_decode instead",
                            tree,
                            i,
                            source,
                        ),
                    );
                }
            },
            None => {},
        }
        assert(finding_views(out@) =~= php_unserialize_hit(source.spec_bytes(), tree@, i as int));
        out
    }
}

impl Rule for NoUnserialize {
    fn id(&self) -> (res: &str)
        ensures
            res@ == "php/no-unserialize"@,
    {
        "php/no-unserialize"
    }

    fn severity(&self) -> (res: Severity)
        ensures
            res == Severity::Critical,
    {
        Severity::Critical
    }

    fn cwe(&self) -> (res: Option<&str>)
        ensures
            opt_str(res) == Some("CWE-502"@),
    {
        Some("CWE-502")
    }

    fn description(&self) -> (res: &str)
        ensures
            res@ == "Use of unserialize() on untrusted data can lead to object injection"@,
    {
        "Use of unserialize() on untrusted data can lead to object injection"
    }

    fn language(&self) -> (res: Language)
        ensures
            res == Language::Php,
    {
        Language::Php
    }

    fn check(&self, source: &str, tree: &SyntaxTree) -> (res: Vec<Finding>)
        ensures
            finding_views(res@) == collect_hits(
                tree@.len() as int,
                |k: int| php_unserialize_hit(source.spec_bytes(), tree@, k),
            ),
    {
        let c = NoUnserializeCheck;
        let res = walk_tree(&c, source, tree);
        assert((|k: int| c.node_hits(source.spec_bytes(), tree@, k)) =~= (|k: int|
            php_unserialize_hit(source.spec_bytes(), tree@, k)));
        res
    }
}

// ─── Rule 5: no-file-inclusion ───────────────────────────────────────────────

/// The statement keyword of an inclusion expression kind (`include once`
/// for `include_once_expression`).
pub open spec fn inclusion_keyword(kind: Seq<char>) -> Option<Seq<char>> {
    if kind == "include_expression"@ {
        Some("include"@)
    } else if kind == "include_once_expression"@ {
        Some("include once"@)
    } else if kind == "require_expression"@ {
        Some("require"@)
    } else if kind == "require_once_expression"@ {
        Some("require once"@)
    } else {
        None
    }
}

fn inclusion_keyword_exec(tree: &SyntaxTree, i: usize) -> (res: Option<&'static str>)
    requires
        i < tree@.len(),
    ensures
        match res {
            Some(k) => inclusion_keyword(tree@[i as int].kind) == Some(k@),
            None => inclusion_keyword(tree@[i as int].kind) is None,
        },
{
    if tree.kind_is(i, "include_expression") {
        Some("include")
    } else if tree.kind_is(i, "include_once_expression") {
        Some("include once")
    } else if tree.kind_is(i, "require_expression") {
        Some("require")
    } else if tree.kind_is(i, "require_once_expression") {
        Some("require once")
    } else {
        None
    }
}

pub open spec fn php_inclusion_hit(src: Seq<u8>, t: Seq<NodeView>, i: int) -> Seq<FindingView> {
    match inclusion_keyword(t[i].kind) {
        Some(kw) => if in_subtree(t, i, |d: int| variable_like(t, d)) || has_char(node_text(src, t[i]), '$') {
            seq![finding_at_node("php/no-file-inclusion"@, Severity::Critical, Some("CWE-98"@), kw + " with variable argument — risk of file inclusion attack"@, src, t[i])]
        } else {
            Seq::empty()
        },
        None => Seq::empty(),
    }
}

pub struct NoFileInclusion;

struct NoFileInclusionCheck;

impl NodeCheck for NoFileInclusionCheck {
    closed spec fn node_hits(&self, src: Seq<u8>, t: Seq<NodeView>, i: int) -> Seq<FindingView> {
        php_inclusion_hit(src, t, i)
    }

    fn hits_at(&self, source: &str, tree: &SyntaxTree, i: usize) -> (res: Vec<Finding>) {
        let src = source.as_bytes();
        let mut out: Vec<Finding> = Vec::new();
        match inclusion_keyword_exec(tree, i) {
            Some(kw) => {
                let text = tree.text(src, i);
                if has_variable_child(tree, i) || has_char_exec(text.as_slice(), '$') {
                    let msg = join2(chars_of(kw).as_slice(), " with variable argument — risk of file inclusion attack");
                    out.push(
                        make_finding(
                            "php/no-file-inclusion",
                            Severity::Critical,
                            Some("CWE-98"),
                            msg.as_str(),
                            tree,
                            i,
                            source,
                        ),
                    );
                }
            },
            None => {},
        }
        assert(finding_views(out@) =~= php_inclusion_hit(src@, tree@, i as int));
        out
    }
}

impl Rule for NoFileInclusion {
    fn id(&self) -> (res: &str)
        ensures
            res@ == "php/no-file-inclusion"@,
    {
        "php/no-file-inclusion"
    }

    fn severity(&self) -> (res: Severity)
        ensures
            res == Severity::Critical,
    {
        Severity::Critical
    }

    fn cwe(&self) -> (res: Option<&str>)
        ensures
            opt_str(res) == Some("CWE-98"@),
    {
        Some("CWE-98")
    }

    fn description(&self) -> (res: &str)
        ensures
            res@ == "Dynamic file inclusion with variable argument enables remote/local file inclusion"@,
    {
        "Dynamic file inclusion with variable argument enables remote/local file inclusion"
    }

    fn language(&self) -> (res: Language)
        ensures
            res == Language::Php,
    {
        Language::Php
    }

    fn check(&self, source: &str, tree: &SyntaxTree) -> (res: Vec<Finding>)
        ensures
            finding_views(res@) == collect_hits(
                tree@.len() as int,
                |k: int| php_inclusion_hit(source.spec_bytes(), tree@, k),
            ),
    {
        let c = NoFileInclusionCheck;
        let res = walk_tree(&c, source, tree);
        assert((|k: int| c.node_hits(source.spec_bytes(), tree@, k)) =~= (|k: int|
            php_inclusion_hit(source.spec_bytes(), tree@, k)));
        res
    }
}

// ─── Rule 6: no-weak-crypto ─────────────────────────────────────────────────

pub open spec fn php_weak_crypto_hit(src: Seq<u8>, t: Seq<NodeView>, i: int) -> Seq<FindingView> {
    if php_callee(src, t, i) == Some("md5"@) {
        seq![finding_at_node("php/no-weak-crypto"@, Severity::Medium, Some("CWE-327"@), "MD5() is cryptographically weak — use hash('sha256', ...) or stronger"@, src, t[i])]
    } else if php_callee(src, t, i) == Some("sha1"@) {
        seq![finding_at_node("php/no-weak-crypto"@, Severity::Medium, Some("CWE-327"@), "SHA1() is cryptographically weak — use hash('sha256', ...) or stronger"@, src, t[i])]
    } else {
        Seq::empty()
    }
}

pub struct NoWeakCrypto;

struct NoWeakCryptoCheck;

impl NodeCheck for NoWeakCryptoCheck {
    closed spec fn node_hits(&self, src: Seq<u8>, t: Seq<NodeView>, i: int) -> Seq<FindingView> {
        php_weak_crypto_hit(src, t, i)
    }

    fn hits_at(&self, source: &str, tree: &SyntaxTree, i: usize) -> (res: Vec<Finding>) {
        let mut out: Vec<Finding> = Vec::new();
        match php_callee_exec(tree, source.as_bytes(), i) {
            Some(c) => {
                if chars_eq_str(c.as_slice(), "md5") {
                    out.push(
                        make_finding(
                            "php/no-weak-crypto",
                            Severity::Medium,
                            Some("CWE-327"),
                            "MD5() is cryptographically weak — use hash('sha256', ...) or stronger",
                            tree,
                            i,
                            source,
                        ),
                    );
                } else if chars_eq_str(c.as_slice(), "sha1") {
                    out.push(
                        make_finding(
                            "php/no-weak-crypto",
                            Severity::Medium,
                            Some("CWE-327"),
                            "SHA1() is cryptographically weak — use hash('sha256', ...) or stronger",
                            tree,
                            i,
                            source,
                        ),
                    );
                }
            },
            None => {},
        }
        assert(finding_views(out@) =~= php_weak_crypto_hit(source.spec_bytes(), tree@, i as int));
        out
    }
}

impl Rule for NoWeakCrypto {
    fn id(&self) -> (res: &str)
        ensures
            res@ == "php/no-weak-crypto"@,
    {
        "php/no-weak-crypto"
    }

    fn severity(&self) -> (res: Severity)
        ensures
            res == Severity::Medium,
    {
        Severity::Medium
    }

    fn cwe(&self) -> (res: Option<&str>)
        ensures
            opt_str(res) == Some("CWE-327"@),
    {
        Some("CWE-327")
    }

    fn description(&self) -> (res: &str)
        ensures
            res@ == "Use of weak cryptographic hash (MD5/SHA1)"@,
    {
        "Use of weak cryptographic hash (MD5/SHA1)"
    }

    fn language(&self) -> (res: Language)
        ensures
            res == Language::Php,
    {
        Language::Php
    }

    fn check(&self, source: &str, tree: &SyntaxTree) -> (res: Vec<Finding>)
        ensures
            finding_views(res@) == collect_hits(
                tree@.len() as int,
                |k: int| php_weak_crypto_hit(source.spec_bytes(), tree@, k),
            ),
    {
        let c = NoWeakCryptoCheck;
        let res = walk_tree(&c, source, tree);
        assert((|k: int| c.node_hits(source.spec_bytes(), tree@, k)) =~= (|k: int|
            php_weak_crypto_hit(source.spec_bytes(), tree@, k)));
        res
    }
}

// ─── Rule 7: no-hardcoded-secret ────────────────────────────────────────────

pub const PHP_SECRET_PATTERN: &'static str = r"(?i)(password|secret|api_?key|token)";

pub open spec fn php_string_kind(k: Seq<char>) -> bool {
    k == "string"@ || k == "encapsed_string"@ || k == "string_value"@
}

pub open spec fn php_secret_hit(src: Seq<u8>, t: Seq<NodeView>, p: Seq<char>, i: int) -> Seq<FindingView> {
    if t[i].kind == "assignment_expression"@ {
        match (field_child(t, i, "left"@), field_child(t, i, "right"@)) {
            (Some(l), Some(r)) => {
                let lt = node_text(src, t[l as int]);
                if starts_with_seq(lt, "$"@) && regex_is_match(p, lt) && php_string_kind(t[r as int].kind)
                    && utf8_len(trim_set(node_text(src, t[r as int]), TrimSet::QuoteOrApostrophe)) >= 4 {
                    seq![finding_at_node("php/no-hardcoded-secret"@, Severity::High, Some("CWE-798"@), "Hardcoded secret in '"@ + lt + "' — use environment variables"@, src, t[i])]
                } else {
                    Seq::empty()
                }
            },
            _ => Seq::empty(),
        }
    } else {
        Seq::empty()
    }
}

pub struct NoHardcodedSecret;

struct NoHardcodedSecretCheck {
    p: Pattern,
}

impl NodeCheck for NoHardcodedSecretCheck {
    closed spec fn node_hits(&self, src: Seq<u8>, t: Seq<NodeView>, i: int) -> Seq<FindingView> {
        php_secret_hit(src, t, self.p.spec_source(), i)
    }

    fn hits_at(&self, source: &str, tree: &SyntaxTree, i: usize) -> (res: Vec<Finding>) {
        let src = source.as_bytes();
        let mut out: Vec<Finding> = Vec::new();
        if tree.kind_is(i, "assignment_expression") {
            match (tree.child_by_field(i, "left"), tree.child_by_field(i, "right")) {
                (Some(l), Some(r)) => {
                    let lt = tree.text(src, l);
                    if starts_with_str(lt.as_slice(), "$") && is_match(&self.p, string_of_chars(lt.as_slice()).as_str())
                        && (tree.kind_is(r, "string") || tree.kind_is(r, "encapsed_string") || tree.kind_is(r, "string_value")) {
                        let val = tree.text(src, r);
                        let inner = trim_chars(val.as_slice(), TrimSet::QuoteOrApostrophe);
                        if utf8_len_at_least(inner.as_slice(), 4) {
                            let msg = join3("Hardcoded secret in '", lt.as_slice(), "' — use environment variables");
                            out.push(
                        make_finding(
                            "php/no-hardcoded-secret",
                            Severity::High,
                            Some("CWE-798"),
                            msg.as_str(),
                            tree,
                            i,
                            source,
                        ),
                    );
                        }
                    }
                },
                _ => {},
            }
        }
        assert(finding_views(out@) =~= php_secret_hit(src@, tree@, self.p.spec_source(), i as int));
        out
    }
}

impl Rule for NoHardcodedSecret {
    fn id(&self) -> (res: &str)
        ensures
            res@ == "php/no-hardcoded-secret"@,
    {
        "php/no-hardcoded-secret"
    }

    fn severity(&self) -> (res: Severity)
        ensures
            res == Severity::High,
    {
        Severity::High
    }

    fn cwe(&self) -> (res: Option<&str>)
        ensures
            opt_str(res) == Some("CWE-798"@),
    {
        Some("CWE-798")
    }

    fn description(&self) -> (res: &str)
        ensures
            res@ == "Hardcoded secret or credential detected"@,
    {
        "Hardcoded secret or credential detected"
    }

    fn language(&self) -> (res: Language)
        ensures
            res == Language::Php,
    {
        Language::Php
    }

    fn check(&self, source: &str, tree: &SyntaxTree) -> (res: Vec<Finding>)
        ensures
            finding_views(res@) == (if regex_compiles(PHP_SECRET_PATTERN@) {
                collect_hits(
                    tree@.len() as int,
                    |k: int| php_secret_hit(source.spec_bytes(), tree@, PHP_SECRET_PATTERN@, k),
                )
            } else {
                Seq::empty()
            }),
    {
        match compile(PHP_SECRET_PATTERN) {
            Some(p) => {
                let c = NoHardcodedSecretCheck { p };
                let res = walk_tree(&c, source, tree);
                assert((|k: int| c.node_hits(source.spec_bytes(), tree@, k)) =~= (|k: int|
                    php_secret_hit(source.spec_bytes(), tree@, PHP_SECRET_PATTERN@, k)));
                res
            },
            None => {
                let v: Vec<Finding> = Vec::new();
                assert(finding_views(v@) =~= Seq::<FindingView>::empty());
                v
            },
        }
    }
}

// ─── Rule 8: no-ssrf ────────────────────────────────────────────────────────

pub open spec fn php_ssrf_hit(src: Seq<u8>, t: Seq<NodeView>, i: int) -> Seq<FindingView> {
    match php_callee(src, t, i) {
        Some(c) => if (c == "file_get_contents"@ || c == "curl_init"@) && (match nth_arg(t, i, 0) {
            Some(f) => t[f as int].kind != "string"@,
            None => false,
        }) {
            seq![finding_at_node("php/no-ssrf"@, Severity::High, Some("CWE-918"@), c + "() called with dynamic URL — validate and allowlist target hosts to prevent SSRF"@, src, t[i])]
        } else {
            Seq::empty()
        },
        None => Seq::empty(),
    }
}

pub struct NoSsrf;

struct NoSsrfCheck;

impl NodeCheck for NoSsrfCheck {
    closed spec fn node_hits(&self, src: Seq<u8>, t: Seq<NodeView>, i: int) -> Seq<FindingView> {
        php_ssrf_hit(src, t, i)
    }

    fn hits_at(&self, source: &str, tree: &SyntaxTree, i: usize) -> (res: Vec<Finding>) {
        let mut out: Vec<Finding> = Vec::new();
        match php_callee_exec(tree, source.as_bytes(), i) {
            Some(c) => {
                let cs = c.as_slice();
                if chars_eq_str(cs, "file_get_contents") || chars_eq_str(cs, "curl_init") {
                    match nth_arg_exec(tree, i, 0) {
                        Some(f) => {
                            if !tree.kind_is(f, "string") {
                                let msg = join2(cs, "() called with dynamic URL — validate and allowlist target hosts to prevent SSRF");
                                out.push(
                        make_finding(
                            "php/no-ssrf",
                            Severity::High,
                            Some("CWE-918"),
                            msg.as_str(),
                            tree,
                            i,
                            source,
                        ),
                    );
                            }
                        },
                        None => {},
                    }
                }
            },
            None => {},
        }
        assert(finding_views(out@) =~= php_ssrf_hit(source.spec_bytes(), tree@, i as int));
        out
    }
}

impl Rule for NoSsrf {
    fn id(&self) -> (res: &str)
        ensures
            res@ == "php/no-ssrf"@,
    {
        "php/no-ssrf"
    }

    fn severity(&self) -> (res: Severity)
        ensures
            res == Severity::High,
    {
        Severity::High
    }

    fn cwe(&self) -> (res: Option<&str>)
        ensures
            opt_str(res) == Some("CWE-918"@),
    {
        Some("CWE-918")
    }

    fn description(&self) -> (res: &str)
        ensures
            res@ == "Potential SSRF via file_get_contents or curl_init with variable URL"@,
    {
        "Potential SSRF via file_get_contents or curl_init with variable URL"
    }

    fn language(&self) -> (res: Language)
        ensures
            res == Language::Php,
    {
        Language::Php
    }

    fn check(&self, source: &str, tree: &SyntaxTree) -> (res: Vec<Finding>)
        ensures
            finding_views(res@) == collect_hits(
                tree@.len() as int,
                |k: int| php_ssrf_hit(source.spec_bytes(), tree@, k),
            ),
    {
        let c = NoSsrfCheck;
        let res = walk_tree(&c, source, tree);
        assert((|k: int| c.node_hits(source.spec_bytes(), tree@, k)) =~= (|k: int|
            php_ssrf_hit(source.spec_bytes(), tree@, k)));
        res
    }
}

// ─── Rule 9: no-extract ─────────────────────────────────────────────────────────────

pub open spec fn php_extract_hit(src: Seq<u8>, t: Seq<NodeView>, i: int) -> Seq<FindingView> {
    if php_callee(src, t, i) == Some("extract"@) {
        seq![finding_at_node("php/no-extract"@, Severity::High, Some("CWE-621"@), "extract() imports variables into the current scope — risk of variable overwrite"@, src, t[i])]
    } else {
        Seq::empty()
    }
}

pub struct NoExtract;

struct NoExtractCheck;

impl NodeCheck for NoExtractCheck {
    closed spec fn node_hits(&self, src: Seq<u8>, t: Seq<NodeView>, i: int) -> Seq<FindingView> {
        php_extract_hit(src, t, i)
    }

    fn hits_at(&self, source: &str, tree: &SyntaxTree, i: usize) -> (res: Vec<Finding>) {
        let mut out: Vec<Finding> = Vec::new();
        match php_callee_exec(tree, source.as_bytes(), i) {
            Some(c) => {
                if chars_eq_str(c.as_slice(), "extract") {
                    out.push(
                        make_finding(
                            "php/no-extract",
                            Severity::High,
                            Some("CWE-621"),
                            "extract() imports variables into the current scope — risk of variable overwrite",
                            tree,
                            i,
                            source,
                        ),
                    );
                }
            },
            None => {},
        }
        assert(finding_views(out@) =~= php_extract_hit(source.spec_bytes(), tree@, i as int));
        out
    }
}

impl Rule for NoExtract {
    fn id(&self) -> (res: &str)
        ensures
            res@ == "php/no-extract"@,
    {
        "php/no-extract"
    }

    fn severity(&self) -> (res: Severity)
        ensures
            res == Severity::High,
    {
        Severity::High
    }

    fn cwe(&self) -> (res: Option<&str>)
        ensures
            opt_str(res) == Some("CWE-621"@),
    {
        Some("CWE-621")
    }

    fn description(&self) -> (res: &str)
        ensures
            res@ == "Use of extract() can overwrite existing variables"@,
    {
        "Use of extract() can overwrite existing variables"
    }

    fn language(&self) -> (res: Language)
        ensures
            res == Language::Php,
    {
        Language::Php
    }

    fn check(&self, source: &str, tree: &SyntaxTree) -> (res: Vec<Finding>)
        ensures
            finding_views(res@) == collect_hits(
                tree@.len() as int,
                |k: int| php_extract_hit(source.spec_bytes(), tree@, k),
            ),
    {
        let c = NoExtractCheck;
        let res = walk_tree(&c, source, tree);
        assert((|k: int| c.node_hits(source.spec_bytes(), tree@, k)) =~= (|k: int|
            php_extract_hit(source.spec_bytes(), tree@, k)));
        res
    }
}

// ─── Rule 10: no-preg-eval ──────────────────────────────────────────────────

pub const PHP_E_MODIFIER: &'static str = r#"['"][^'"]*/.*/[a-z]*e[a-z]*['"]"#;

pub open spec fn php_preg_hit(src: Seq<u8>, t: Seq<NodeView>, p: Seq<char>, i: int) -> Seq<FindingView> {
    if php_callee(src, t, i) == Some("preg_replace"@) && (match nth_arg(t, i, 0) {
        Some(f) => regex_is_match(p, node_text(src, t[f as int])),
        None => false,
    }) {
        seq![finding_at_node("php/no-preg-eval"@, Severity::Critical, Some("CWE-95"@), "preg_replace() with /e modifier executes code — use preg_replace_callback instead"@, src, t[i])]
    } else {
        Seq::empty()
    }
}

pub struct NoPregEval;

struct NoPregEvalCheck {
    p: Pattern,
}

impl NodeCheck for NoPregEvalCheck {
    closed spec fn node_hits(&self, src: Seq<u8>, t: Seq<NodeView>, i: int) -> Seq<FindingView> {
        php_preg_hit(src, t, self.p.spec_source(), i)
    }

    fn hits_at(&self, source: &str, tree: &SyntaxTree, i: usize) -> (res: Vec<Finding>) {
        let src = source.as_bytes();
        let mut out: Vec<Finding> = Vec::new();
        match php_callee_exec(tree, src, i) {
            Some(c) => {
                if chars_eq_str(c.as_slice(), "preg_replace") {
                    match nth_arg_exec(tree, i, 0) {
                        Some(f) => {
                            let at = tree.text(src, f);
                            if is_match(&self.p, string_of_chars(at.as_slice()).as_str()) {
                                out.push(
                        make_finding(
                            "php/no-preg-eval",
                            Severity::Critical,
                            Some("CWE-95"),
                            "preg_replace() with /e modifier executes code — use preg_replace_callback instead",
                            tree,
                            i,
                            source,
                        ),
                    );
                            }
                        },
                        None => {},
                    }
                }
            },
            None => {},
        }
        assert(finding_views(out@) =~= php_preg_hit(src@, tree@, self.p.spec_source(), i as int));
        out
    }
}

impl Rule for NoPregEval {
    fn id(&self) -> (res: &str)
        ensures
            res@ == "php/no-preg-eval"@,
    {
        "php/no-preg-eval"
    }

    fn severity(&self) -> (res: Severity)
        ensures
            res == Severity::Critical,
    {
        Severity::Critical
    }

    fn cwe(&self) -> (res: Option<&str>)
        ensures
            opt_str(res) == Some("CWE-95"@),
    {
        Some("CWE-95")
    }

    fn description(&self) -> (res: &str)
        ensures
            res@ == "preg_replace with /e modifier allows arbitrary code execution"@,
    {
        "preg_replace with /e modifier allows arbitrary code execution"
    }

    fn language(&self) -> (res: Language)
        ensures
            res == Language::Php,
    {
        Language::Php
    }

    fn check(&self, source: &str, tree: &SyntaxTree) -> (res: Vec<Finding>)
        ensures
            finding_views(res@) == (if regex_compiles(PHP_E_MODIFIER@) {
                collect_hits(
                    tree@.len() as int,
                    |k: int| php_preg_hit(source.spec_bytes(), tree@, PHP_E_MODIFIER@, k),
                )
            } else {
                Seq::empty()
            }),
    {
        match compile(PHP_E_MODIFIER) {
            Some(p) => {
                let c = NoPregEvalCheck { p };
                let res = walk_tree(&c, source, tree);
                assert((|k: int| c.node_hits(source.spec_bytes(), tree@, k)) =~= (|k: int|
                    php_preg_hit(source.spec_bytes(), tree@, PHP_E_MODIFIER@, k)));
                res
            },
            None => {
                let v: Vec<Finding> = Vec::new();
                assert(finding_views(v@) =~= Seq::<FindingView>::empty());
                v
            },
        }
    }
}

} // verus!
