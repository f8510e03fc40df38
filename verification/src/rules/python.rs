//! Python rules: code execution, hardcoded secrets and keys, SQL built by
//! formatting, command injection, path traversal, SSRF, weak hashes,
//! unsafe deserialization, debug modes, open redirects, CORS, cookie and
//! CSRF settings, allowed hosts and HTTPS redirects.
//!
//! Callees are matched as written in the source.

use vstd::prelude::*;
use vstd::string::*;
use crate::pattern::{compile, is_match, regex_compiles, regex_is_match, Pattern};
use crate::rules::common::{
    collect_hits, finding_at_node, kind_callee, kind_callee_exec, make_finding, nth_arg,
    nth_arg_exec, opt_str, walk_tree, NodeCheck,
};
use crate::rules::Rule;
use crate::text::{
    after_last, after_last_char, chars_eq_str, chars_of, contains_seq, contains_str, ends_with_seq,
    ends_with_str, join2, join3, starts_with_seq, starts_with_str, string_of_chars, sub_chars,
    trim_chars, trim_set, utf8_len, utf8_len_at_least, TrimSet,
};
use crate::tree::{field_child, field_text, node_text, NodeView, SyntaxTree};
use crate::types::{finding_views, Finding, FindingView, Language, Severity};

verus! {

pub open spec fn py_callee(src: Seq<u8>, t: Seq<NodeView>, i: int) -> Option<Seq<char>> {
    kind_callee(src, t, i, "call"@)
}

fn py_callee_exec(tree: &SyntaxTree, src: &[u8], i: usize) -> (res: Option<Vec<char>>)
    requires
        i < tree@.len(),
    ensures
        match res {
            Some(v) => py_callee(src@, tree@, i as int) == Some(v@),
            None => py_callee(src@, tree@, i as int) is None,
        },
{
    kind_callee_exec(tree, src, i, "call")
}

/// The left and right texts of an assignment node.
pub open spec fn py_assign(src: Seq<u8>, t: Seq<NodeView>, i: int) -> Option<(Seq<char>, Seq<char>)> {
    if t[i].kind == "assignment"@ {
        match (field_child(t, i, "left"@), field_child(t, i, "right"@)) {
            (Some(l), Some(r)) => Some((node_text(src, t[l as int]), node_text(src, t[r as int]))),
            _ => None,
        }
    } else {
        None
    }
}

fn py_assign_exec(tree: &SyntaxTree, src: &[u8], i: usize) -> (res: Option<(Vec<char>, Vec<char>)>)
    requires
        i < tree@.len(),
    ensures
        match res {
            Some((l, r)) => py_assign(src@, tree@, i as int) == Some((l@, r@)),
            None => py_assign(src@, tree@, i as int) is None,
        },
{
    if tree.kind_is(i, "assignment") {
        match (tree.child_by_field(i, "left"), tree.child_by_field(i, "right")) {
            (Some(l), Some(r)) => Some((tree.text(src, l), tree.text(src, r))),
            _ => None,
        }
    } else {
        None
    }
}

/// An f-string literal (`f"..."` or `f'...'`).
pub open spec fn f_string(text: Seq<char>) -> bool {
    starts_with_seq(text, "f\""@) || starts_with_seq(text, "f'"@)
}

fn f_string_exec(text: &[char]) -> (res: bool)
    ensures
        res == f_string(text@),
{
    starts_with_str(text, "f\"") || starts_with_str(text, "f'")
}

/// Whether the argument node is dynamic: an f-string, or one of the given
/// expression kinds.
pub open spec fn dynamic_arg_of(src: Seq<u8>, t: Seq<NodeView>, a: int, kinds: Seq<Seq<char>>) -> bool {
    if t[a].kind == "string"@ {
        f_string(node_text(src, t[a]))
    } else {
        kinds.contains(t[a].kind)
    }
}

fn dynamic_arg_exec(tree: &SyntaxTree, src: &[u8], a: usize, kinds: &Vec<&'static str>) -> (res: bool)
    requires
        a < tree@.len(),
    ensures
        res == dynamic_arg_of(src@, tree@, a as int, kinds@.map_values(|k: &'static str| k@)),
{
    if tree.kind_is(a, "string") {
        let text = tree.text(src, a);
        return f_string_exec(text.as_slice());
    }
    let ghost kv = kinds@.map_values(|k: &'static str| k@);
    let mut j: usize = 0;
    while j < kinds.len()
        invariant
            j <= kinds@.len(),
            kv == kinds@.map_values(|k: &'static str| k@),
            a < tree@.len(),
            tree@[a as int].kind != "string"@,
            forall|m: int| 0 <= m < j ==> kv[m] != tree@[a as int].kind,
        decreases kinds@.len() - j,
    {
        assert(kv[j as int] == kinds@[j as int]@);
        if tree.kind_is(a, kinds[j]) {
            assert(kv[j as int] == tree@[a as int].kind);
            return true;
        }
        j = j + 1;
    }
    assert(!kv.contains(tree@[a as int].kind));
    false
}

/// Whether the text is one of the names.
fn one_of(text: &[char], names: &Vec<&'static str>) -> (res: bool)
    ensures
        res == names@.map_values(|n: &'static str| n@).contains(text@),
{
    let ghost nv = names@.map_values(|n: &'static str| n@);
    let mut j: usize = 0;
    while j < names.len()
        invariant
            j <= names@.len(),
            nv == names@.map_values(|n: &'static str| n@),
            forall|m: int| 0 <= m < j ==> nv[m] != text@,
        decreases names@.len() - j,
    {
        assert(nv[j as int] == names@[j as int]@);
        if chars_eq_str(text, names[j]) {
            return true;
        }
        j = j + 1;
    }
    false
}


// ─── Rule 1: no-eval ─────────────────────────────────────────────────────────

pub open spec fn py_eval_hit(src: Seq<u8>, t: Seq<NodeView>, i: int) -> Seq<FindingView> {
    match py_callee(src, t, i) {
        Some(c) => if c == "eval"@ || c == "exec"@ {
            seq![finding_at_node("py/no-eval"@, Severity::Critical, Some("CWE-95"@), c + "() allows arbitrary code execution — avoid using it with untrusted input"@, src, t[i])]
        } else {
            Seq::empty()
        },
        None => Seq::empty(),
    }
}

pub struct NoEval;

struct NoEvalCheck;

impl NodeCheck for NoEvalCheck {
    closed spec fn node_hits(&self, src: Seq<u8>, t: Seq<NodeView>, i: int) -> Seq<FindingView> {
        py_eval_hit(src, t, i)
    }

    fn hits_at(&self, source: &str, tree: &SyntaxTree, i: usize) -> (res: Vec<Finding>) {
        let mut out: Vec<Finding> = Vec::new();
        match py_callee_exec(tree, source.as_bytes(), i) {
            Some(c) => {
                let cs = c.as_slice();
                if chars_eq_str(cs, "eval") || chars_eq_str(cs, "exec") {
                    let msg = join2(cs, "() allows arbitrary code execution — avoid using it with untrusted input");
                    out.push(
                        make_finding(
                            "py/no-eval",
                            Severity::Critical,
                            Some("CWE-95"),
                            msg.as_str(),
                            tree,
                            i,
                            source,
                        ),
                    );
                }
            },
            None => {},
        }
        assert(finding_views(out@) =~= py_eval_hit(source.spec_bytes(), tree@, i as int));
        out
    }
}

impl Rule for NoEval {
    fn id(&self) -> (res: &str)
        ensures
            res@ == "py/no-eval"@,
    {
        "py/no-eval"
    }

    fn severity(&self) -> (res: Severity)
        ensures
            res == Severity::Critical,
    {
        Severity::Critical
    }

    fn cwe(&self) -> (res: Option<&str>)
        ensures
            opt_str(res) == Some("CWE-95"@),
    {
        Some("CWE-95")
    }

    fn description(&self) -> (res: &str)
        ensures
            res@ == "Use of eval()/exec() allows arbitrary code execution"@,
    {
        "Use of eval()/exec() allows arbitrary code execution"
    }

    fn language(&self) -> (res: Language)
        ensures
            res == Language::Python,
    {
        Language::Python
    }

    fn check(&self, source: &str, tree: &SyntaxTree) -> (res: Vec<Finding>)
        ensures
            finding_views(res@) == collect_hits(
                tree@.len() as int,
                |k: int| py_eval_hit(source.spec_bytes(), tree@, k),
            ),
    {
        let c = NoEvalCheck;
        let res = walk_tree(&c, source, tree);
        assert((|k: int| c.node_hits(source.spec_bytes(), tree@, k)) =~= (|k: int|
            py_eval_hit(source.spec_bytes(), tree@, k)));
        res
    }
}

// ─── Rule 2: no-hardcoded-secret ─────────────────────────────────────────────

pub const PY_SECRET_PATTERN: &'static str = r"(?i)(password|secret|api_?key|token|auth|credential|private_?key)";

/// `s` with every leading copy of `p` removed (`str::trim_start_matches`).
pub open spec fn strip_prefixes(s: Seq<char>, p: Seq<char>) -> Seq<char>
    decreases s.len(),
{
    if p.len() > 0 && starts_with_seq(s, p) {
        strip_prefixes(s.subrange(p.len() as int, s.len() as int), p)
    } else {
        s
    }
}

fn strip_prefixes_exec(s: &[char], p: &str) -> (res: Vec<char>)
    ensures
        res@ == strip_prefixes(s@, p@),
{
    let pc = chars_of(p);
    let n = s.len();
    let mut from: usize = 0;
    assert(s@.subrange(0, n as int) =~= s@);
    while pc.len() > 0 && from <= n && n - from >= pc.len() && starts_with_str(sub_chars(s, from, n).as_slice(), p)
        invariant
            from <= n == s@.len(),
            pc@ == p@,
            strip_prefixes(s@, p@) == strip_prefixes(s@.subrange(from as int, n as int), p@),
        decreases n - from,
    {
        let ghost cur = s@.subrange(from as int, n as int);
        assert(cur.subrange(pc@.len() as int, cur.len() as int) =~= s@.subrange(from + pc@.len(), n as int));
        from = from + pc.len();
    }
    sub_chars(s, from, n)
}

/// The contents of a Python string literal: `f"` / `f'` prefixes, then
/// quotes, trimmed.
pub open spec fn py_string_contents(text: Seq<char>) -> Seq<char> {
    trim_set(strip_prefixes(strip_prefixes(text, "f\""@), "f'"@), TrimSet::QuoteOrApostrophe)
}

pub open spec fn py_secret_hit(src: Seq<u8>, t: Seq<NodeView>, p: Seq<char>, i: int) -> Seq<FindingView> {
    if t[i].kind == "assignment"@ {
        match (field_child(t, i, "left"@), field_child(t, i, "right"@)) {
            (Some(l), Some(r)) => if regex_is_match(p, node_text(src, t[l as int])) && t[r as int].kind
                == "string"@ && utf8_len(py_string_contents(node_text(src, t[r as int]))) >= 4 {
                seq![finding_at_node("py/no-hardcoded-secret"@, Severity::High, Some("CWE-798"@), "Hardcoded secret in '"@ + node_text(src, t[l as int]) + "' — use environment variables or a secrets manager"@, src, t[i])]
            } else {
                Seq::empty()
            },
            _ => Seq::empty(),
        }
    } else {
        Seq::empty()
    }
}

pub struct NoHardcodedSecret;

struct NoHardcodedSecretCheck {
    p: Pattern,
}

impl NodeCheck for NoHardcodedSecretCheck {
    closed spec fn node_hits(&self, src: Seq<u8>, t: Seq<NodeView>, i: int) -> Seq<FindingView> {
        py_secret_hit(src, t, self.p.spec_source(), i)
    }

    fn hits_at(&self, source: &str, tree: &SyntaxTree, i: usize) -> (res: Vec<Finding>) {
        let src = source.as_bytes();
        let mut out: Vec<Finding> = Vec::new();
        if tree.kind_is(i, "assignment") {
            match (tree.child_by_field(i, "left"), tree.child_by_field(i, "right")) {
                (Some(l), Some(r)) => {
                    let lt = tree.text(src, l);
                    if is_match(&self.p, string_of_chars(lt.as_slice()).as_str()) && tree.kind_is(r, "string") {
                        let val = tree.text(src, r);
                        let a = strip_prefixes_exec(val.as_slice(), "f\"");
                        let b = strip_prefixes_exec(a.as_slice(), "f'");
                        let inner = trim_chars(b.as_slice(), TrimSet::QuoteOrApostrophe);
                        if utf8_len_at_least(inner.as_slice(), 4) {
                            let msg = join3("Hardcoded secret in '", lt.as_slice(), "' — use environment variables or a secrets manager");
                            out.push(
                        make_finding(
                            "py/no-hardcoded-secret",
                            Severity::High,
                            Some("CWE-798"),
                            msg.as_str(),
                            tree,
                            i,
                            source,
                        ),
                    );
                        }
                    }
                },
                _ => {},
            }
        }
        assert(finding_views(out@) =~= py_secret_hit(src@, tree@, self.p.spec_source(), i as int));
        out
    }
}

impl Rule for NoHardcodedSecret {
    fn id(&self) -> (res: &str)
        ensures
            res@ == "py/no-hardcoded-secret"@,
    {
        "py/no-hardcoded-secret"
    }

    fn severity(&self) -> (res: Severity)
        ensures
            res == Severity::High,
    {
        Severity::High
    }

    fn cwe(&self) -> (res: Option<&str>)
        ensures
            opt_str(res) == Some("CWE-798"@),
    {
        Some("CWE-798")
    }

    fn description(&self) -> (res: &str)
        ensures
            res@ == "Hardcoded secret or credential detected"@,
    {
        "Hardcoded secret or credential detected"
    }

    fn language(&self) -> (res: Language)
        ensures
            res == Language::Python,
    {
        Language::Python
    }

    fn check(&self, source: &str, tree: &SyntaxTree) -> (res: Vec<Finding>)
        ensures
            finding_views(res@) == (if regex_compiles(PY_SECRET_PATTERN@) {
                collect_hits(
                    tree@.len() as int,
                    |k: int| py_secret_hit(source.spec_bytes(), tree@, PY_SECRET_PATTERN@, k),
                )
            } else {
                Seq::empty()
            }),
    {
        match compile(PY_SECRET_PATTERN) {
            Some(p) => {
                let c = NoHardcodedSecretCheck { p };
                let res = walk_tree(&c, source, tree);
                assert((|k: int| c.node_hits(source.spec_bytes(), tree@, k)) =~= (|k: int|
                    py_secret_hit(source.spec_bytes(), tree@, PY_SECRET_PATTERN@, k)));
                res
            },
            None => {
                let v: Vec<Finding> = Vec::new();
                assert(finding_views(v@) =~= Seq::<FindingView>::empty());
                v
            },
        }
    }
}

// ─── Rule 3: no-sql-injection ────────────────────────────────────────────────

pub const PY_SQL_PATTERN: &'static str = r"(?i)(SELECT\s+.{0,40}\s+FROM|INSERT\s+INTO|UPDATE\s+.{0,40}\s+SET|DELETE\s+FROM|DROP\s+TABLE|ALTER\s+TABLE|CREATE\s+TABLE|EXEC\s+)";

/// A binary operator whose operator is `op` and whose left operand is a
/// string literal matching the SQL pattern.
pub open spec fn sql_operand(src: Seq<u8>, t: Seq<NodeView>, p: Seq<char>, i: int, op: Seq<char>) -> bool {
    t[i].kind == "binary_operator"@ && field_text(src, t, i, "operator"@) == Some(op) && (match field_child(
        t,
        i,
        "left"@,
    ) {
        Some(l) => t[l as int].kind == "string"@ && regex_is_match(p, node_text(src, t[l as int])),
        None => false,
    })
}

/// A `"...".format(...)` call on a string literal matching the SQL pattern.
pub open spec fn sql_format_call(src: Seq<u8>, t: Seq<NodeView>, p: Seq<char>, i: int) -> bool {
    t[i].kind == "call"@ && (match field_child(t, i, "function"@) {
        Some(f) => t[f as int].kind == "attribute"@ && field_text(src, t, f as int, "attribute"@) == Some(
            "format"@,
        ) && (match field_child(t, f as int, "object"@) {
            Some(o) => t[o as int].kind == "string"@ && regex_is_match(p, node_text(src, t[o as int])),
            None => false,
        }),
        None => false,
    })
}

pub open spec fn py_sql_hit(src: Seq<u8>, t: Seq<NodeView>, p: Seq<char>, i: int) -> Seq<FindingView> {
    let text = node_text(src, t[i]);
    let fstr = if t[i].kind == "string"@ && f_string(text) && regex_is_match(p, text) {
        seq![finding_at_node("py/no-sql-injection"@, Severity::Critical, Some("CWE-89"@), "SQL query built with f-string — use parameterized queries"@, src, t[i])]
    } else {
        Seq::empty()
    };
    let percent = if sql_operand(src, t, p, i, "%"@) {
        seq![finding_at_node("py/no-sql-injection"@, Severity::Critical, Some("CWE-89"@), "SQL query built with % formatting — use parameterized queries"@, src, t[i])]
    } else {
        Seq::empty()
    };
    let format = if sql_format_call(src, t, p, i) {
        seq![finding_at_node("py/no-sql-injection"@, Severity::Critical, Some("CWE-89"@), "SQL query built with .format() — use parameterized queries"@, src, t[i])]
    } else {
        Seq::empty()
    };
    let concat = if sql_operand(src, t, p, i, "+"@) {
        seq![finding_at_node("py/no-sql-injection"@, Severity::Critical, Some("CWE-89"@), "SQL query built with string concatenation — use parameterized queries"@, src, t[i])]
    } else {
        Seq::empty()
    };
    fstr + percent + format + concat
}

fn sql_operand_exec(tree: &SyntaxTree, src: &[u8], p: &Pattern, i: usize, op: &str) -> (res: bool)
    requires
        i < tree@.len(),
    ensures
        res == sql_operand(src@, tree@, p.spec_source(), i as int, op@),
{
    if !tree.kind_is(i, "binary_operator") || !crate::rules::common::field_text_is(tree, src, i, "operator", op) {
        return false;
    }
    match tree.child_by_field(i, "left") {
        Some(l) => {
            if !tree.kind_is(l, "string") {
                return false;
            }
            let lt = tree.text(src, l);
            is_match(p, string_of_chars(lt.as_slice()).as_str())
        },
        None => false,
    }
}

fn sql_format_call_exec(tree: &SyntaxTree, src: &[u8], p: &Pattern, i: usize) -> (res: bool)
    requires
        i < tree@.len(),
    ensures
        res == sql_format_call(src@, tree@, p.spec_source(), i as int),
{
    if !tree.kind_is(i, "call") {
        return false;
    }
    match tree.child_by_field(i, "function") {
        Some(f) => {
            if !tree.kind_is(f, "attribute") || !crate::rules::common::field_text_is(tree, src, f, "attribute", "format") {
                return false;
            }
            match tree.child_by_field(f, "object") {
                Some(o) => {
                    if !tree.kind_is(o, "string") {
                        return false;
                    }
                    let ot = tree.text(src, o);
                    is_match(p, string_of_chars(ot.as_slice()).as_str())
                },
                None => false,
            }
        },
        None => false,
    }
}

pub struct NoSqlInjection;

struct NoSqlInjectionCheck {
    p: Pattern,
}

impl NodeCheck for NoSqlInjectionCheck {
    closed spec fn node_hits(&self, src: Seq<u8>, t: Seq<NodeView>, i: int) -> Seq<FindingView> {
        py_sql_hit(src, t, self.p.spec_source(), i)
    }

    fn hits_at(&self, source: &str, tree: &SyntaxTree, i: usize) -> (res: Vec<Finding>) {
        let src = source.as_bytes();
        let mut out: Vec<Finding> = Vec::new();
        if tree.kind_is(i, "string") {
            let text = tree.text(src, i);
            if f_string_exec(text.as_slice()) && is_match(&self.p, string_of_chars(text.as_slice()).as_str()) {
                out.push(
                        make_finding(
                            "py/no-sql-injection",
                            Severity::Critical,
                            Some("CWE-89"),
                            "SQL query built with f-string — use parameterized queries",
                            tree,
                            i,
                            source,
                        ),
                    );
            }
        }
        let ghost a = out@;
        if sql_operand_exec(tree, src, &self.p, i, "%") {
            out.push(
                        make_finding(
                            "py/no-sql-injection",
                            Severity::Critical,
                            Some("CWE-89"),
                            "SQL query built with % formatting — use parameterized queries",
                            tree,
                            i,
                            source,
                        ),
                    );
        }
        let ghost b = out@;
        if sql_format_call_exec(tree, src, &self.p, i) {
            out.push(
                        make_finding(
                            "py/no-sql-injection",
                            Severity::Critical,
                            Some("CWE-89"),
                            "SQL query built with .format() — use parameterized queries",
                            tree,
                            i,
                            source,
                        ),
                    );
        }
        let ghost c = out@;
        if sql_operand_exec(tree, src, &self.p, i, "+") {
            out.push(
                        make_finding(
                            "py/no-sql-injection",
                            Severity::Critical,
                            Some("CWE-89"),
                            "SQL query built with string concatenation — use parameterized queries",
                            tree,
                            i,
                            source,
                        ),
                    );
        }
        assert(finding_views(out@) =~= py_sql_hit(src@, tree@, self.p.spec_source(), i as int));
        out
    }
}

impl Rule for NoSqlInjection {
    fn id(&self) -> (res: &str)
        ensures
            res@ == "py/no-sql-injection"@,
    {
        "py/no-sql-injection"
    }

    fn severity(&self) -> (res: Severity)
        ensures
            res == Severity::Critical,
    {
        Severity::Critical
    }

    fn cwe(&self) -> (res: Option<&str>)
        ensures
            opt_str(res) == Some("CWE-89"@),
    {
        Some("CWE-89")
    }

    fn description(&self) -> (res: &str)
        ensures
            res@ == "Potential SQL injection via string formatting"@,
    {
        "Potential SQL injection via string formatting"
    }

    fn language(&self) -> (res: Language)
        ensures
            res == Language::Python,
    {
        Language::Python
    }

    fn check(&self, source: &str, tree: &SyntaxTree) -> (res: Vec<Finding>)
        ensures
            finding_views(res@) == (if regex_compiles(PY_SQL_PATTERN@) {
                collect_hits(
                    tree@.len() as int,
                    |k: int| py_sql_hit(source.spec_bytes(), tree@, PY_SQL_PATTERN@, k),
                )
            } else {
                Seq::empty()
            }),
    {
        match compile(PY_SQL_PATTERN) {
            Some(p) => {
                let c = NoSqlInjectionCheck { p };
                let res = walk_tree(&c, source, tree);
                assert((|k: int| c.node_hits(source.spec_bytes(), tree@, k)) =~= (|k: int|
                    py_sql_hit(source.spec_bytes(), tree@, PY_SQL_PATTERN@, k)));
                res
            },
            None => {
                let v: Vec<Finding> = Vec::new();
                assert(finding_views(v@) =~= Seq::<FindingView>::empty());
                v
            },
        }
    }
}

// ─── Rule 4: no-command-injection ──────────────────────────────────────────────────────────────

pub open spec fn py_command_fns() -> Seq<Seq<char>> {
    seq![
        "os.system"@,
        "os.popen"@,
        "subprocess.call"@,
        "subprocess.run"@,
        "subprocess.Popen"@,
        "subprocess.check_output"@,
        "subprocess.check_call"@,
    ]
}

pub open spec fn py_cmd_dynamic_kinds() -> Seq<Seq<char>> {
    seq![
        "concatenated_string"@,
        "binary_operator"@,
        "identifier"@,
        "call"@,
    ]
}

pub open spec fn py_cmd_hit(src: Seq<u8>, t: Seq<NodeView>, i: int) -> Seq<FindingView> {
    match py_callee(src, t, i) {
        Some(c) => if py_command_fns().contains(c) && (match nth_arg(t, i, 0) {
            Some(a) => dynamic_arg_of(src, t, a as int, py_cmd_dynamic_kinds()),
            None => false,
        }) {
            seq![finding_at_node("py/no-command-injection"@, Severity::Critical, Some("CWE-78"@), c + "() called with dynamic argument — risk of command injection"@, src, t[i])]
        } else {
            Seq::empty()
        },
        None => Seq::empty(),
    }
}

pub struct NoCommandInjection;

struct NoCommandInjectionCheck;

impl NodeCheck for NoCommandInjectionCheck {
    closed spec fn node_hits(&self, src: Seq<u8>, t: Seq<NodeView>, i: int) -> Seq<FindingView> {
        py_cmd_hit(src, t, i)
    }

    fn hits_at(&self, source: &str, tree: &SyntaxTree, i: usize) -> (res: Vec<Finding>) {
        let src = source.as_bytes();
        let mut out: Vec<Finding> = Vec::new();
        let mut names: Vec<&'static str> = Vec::new();
        names.push("os.system");
        names.push("os.popen");
        names.push("subprocess.call");
        names.push("subprocess.run");
        names.push("subprocess.Popen");
        names.push("subprocess.check_output");
        names.push("subprocess.check_call");
        assert(names@.map_values(|n: &'static str| n@) =~= py_command_fns());
        let mut kinds: Vec<&'static str> = Vec::new();
        kinds.push("concatenated_string");
        kinds.push("binary_operator");
        kinds.push("identifier");
        kinds.push("call");
        assert(kinds@.map_values(|n: &'static str| n@) =~= py_cmd_dynamic_kinds());
        match py_callee_exec(tree, src, i) {
            Some(c) => {
                let cs = c.as_slice();
                if one_of(cs, &names) {
                    match nth_arg_exec(tree, i, 0) {
                        Some(a) => {
                            if dynamic_arg_exec(tree, src, a, &kinds) {
                                let msg = join2(cs, "() called with dynamic argument — risk of command injection");
                                out.push(
                        make_finding(
                            "py/no-command-injection",
                            Severity::Critical,
                            Some("CWE-78"),
                            msg.as_str(),
                            tree,
                            i,
                            source,
                        ),
                    );
                            }
                        },
                        None => {},
                    }
                }
            },
            None => {},
        }
        assert(finding_views(out@) =~= py_cmd_hit(src@, tree@, i as int));
        out
    }
}

impl Rule for NoCommandInjection {
    fn id(&self) -> (res: &str)
        ensures
            res@ == "py/no-command-injection"@,
    {
        "py/no-command-injection"
    }

    fn severity(&self) -> (res: Severity)
        ensures
            res == Severity::Critical,
    {
        Severity::Critical
    }

    fn cwe(&self) -> (res: Option<&str>)
        ensures
            opt_str(res) == Some("CWE-78"@),
    {
        Some("CWE-78")
    }

    fn description(&self) -> (res: &str)
        ensures
            res@ == "Potential command injection via os.system/subprocess with user input"@,
    {
        "Potential command injection via os.system/subprocess with user input"
    }

    fn language(&self) -> (res: Language)
        ensures
            res == Language::Python,
    {
        Language::Python
    }

    fn check(&self, source: &str, tree: &SyntaxTree) -> (res: Vec<Finding>)
        ensures
            finding_views(res@) == collect_hits(
                tree@.len() as int,
                |k: int| py_cmd_hit(source.spec_bytes(), tree@, k),
            ),
    {
        let c = NoCommandInjectionCheck;
        let res = walk_tree(&c, source, tree);
        assert((|k: int| c.node_hits(source.spec_bytes(), tree@, k)) =~= (|k: int|
            py_cmd_hit(source.spec_bytes(), tree@, k)));
        res
    }
}

// ─── Rule 5: no-path-traversal ──────────────────────────────────────────────────────────────

pub open spec fn py_path_fns() -> Seq<Seq<char>> {
    seq![
        "open"@,
        "os.remove"@,
        "os.unlink"@,
        "os.listdir"@,
        "os.scandir"@,
    ]
}

pub open spec fn py_path_dynamic_kinds() -> Seq<Seq<char>> {
    seq![
        "binary_operator"@,
        "concatenated_string"@,
        "identifier"@,
    ]
}

pub open spec fn py_path_hit(src: Seq<u8>, t: Seq<NodeView>, i: int) -> Seq<FindingView> {
    match py_callee(src, t, i) {
        Some(c) => if py_path_fns().contains(c) && (match nth_arg(t, i, 0) {
            Some(a) => dynamic_arg_of(src, t, a as int, py_path_dynamic_kinds()),
            None => false,
        }) {
            seq![finding_at_node("py/no-path-traversal"@, Severity::High, Some("CWE-22"@), c + "() called with dynamic path — validate and sanitize to prevent path traversal"@, src, t[i])]
        } else {
            Seq::empty()
        },
        None => Seq::empty(),
    }
}

pub struct NoPathTraversal;

struct NoPathTraversalCheck;

impl NodeCheck for NoPathTraversalCheck {
    closed spec fn node_hits(&self, src: Seq<u8>, t: Seq<NodeView>, i: int) -> Seq<FindingView> {
        py_path_hit(src, t, i)
    }

    fn hits_at(&self, source: &str, tree: &SyntaxTree, i: usize) -> (res: Vec<Finding>) {
        let src = source.as_bytes();
        let mut out: Vec<Finding> = Vec::new();
        let mut names: Vec<&'static str> = Vec::new();
        names.push("open");
        names.push("os.remove");
        names.push("os.unlink");
        names.push("os.listdir");
        names.push("os.scandir");
        assert(names@.map_values(|n: &'static str| n@) =~= py_path_fns());
        let mut kinds: Vec<&'static str> = Vec::new();
        kinds.push("binary_operator");
        kinds.push("concatenated_string");
        kinds.push("identifier");
        assert(kinds@.map_values(|n: &'static str| n@) =~= py_path_dynamic_kinds());
        match py_callee_exec(tree, src, i) {
            Some(c) => {
                let cs = c.as_slice();
                if one_of(cs, &names) {
                    match nth_arg_exec(tree, i, 0) {
                        Some(a) => {
                            if dynamic_arg_exec(tree, src, a, &kinds) {
                                let msg = join2(cs, "() called with dynamic path — validate and sanitize to prevent path traversal");
                                out.push(
                        make_finding(
                            "py/no-path-traversal",
                            Severity::High,
                            Some("CWE-22"),
                            msg.as_str(),
                            tree,
                            i,
                            source,
                        ),
                    );
                            }
                        },
                        None => {},
                    }
                }
            },
            None => {},
        }
        assert(finding_views(out@) =~= py_path_hit(src@, tree@, i as int));
        out
    }
}

impl Rule for NoPathTraversal {
    fn id(&self) -> (res: &str)
        ensures
            res@ == "py/no-path-traversal"@,
    {
        "py/no-path-traversal"
    }

    fn severity(&self) -> (res: Severity)
        ensures
            res == Severity::High,
    {
        Severity::High
    }

    fn cwe(&self) -> (res: Option<&str>)
        ensures
            opt_str(res) == Some("CWE-22"@),
    {
        Some("CWE-22")
    }

    fn description(&self) -> (res: &str)
        ensures
            res@ == "Potential path traversal via open() with user input"@,
    {
        "Potential path traversal via open() with user input"
    }

    fn language(&self) -> (res: Language)
        ensures
            res == Language::Python,
    {
        Language::Python
    }

    fn check(&self, source: &str, tree: &SyntaxTree) -> (res: Vec<Finding>)
        ensures
            finding_views(res@) == collect_hits(
                tree@.len() as int,
                |k: int| py_path_hit(source.spec_bytes(), tree@, k),
            ),
    {
        let c = NoPathTraversalCheck;
        let res = walk_tree(&c, source, tree);
        assert((|k: int| c.node_hits(source.spec_bytes(), tree@, k)) =~= (|k: int|
            py_path_hit(source.spec_bytes(), tree@, k)));
        res
    }
}

// ─── Rule 6: no-ssrf ──────────────────────────────────────────────────────────────

pub open spec fn py_request_fns() -> Seq<Seq<char>> {
    seq![
        "requests.get"@,
        "requests.post"@,
        "requests.put"@,
        "requests.delete"@,
        "requests.head"@,
        "requests.patch"@,
        "requests.request"@,
        "httpx.get"@,
        "httpx.post"@,
        "httpx.put"@,
        "httpx.delete"@,
        "httpx.request"@,
        "urllib.request.urlopen"@,
    ]
}

pub open spec fn py_url_dynamic_kinds() -> Seq<Seq<char>> {
    seq![
        "identifier"@,
        "call"@,
        "subscript"@,
        "attribute"@,
        "binary_operator"@,
    ]
}

pub open spec fn py_ssrf_hit(src: Seq<u8>, t: Seq<NodeView>, i: int) -> Seq<FindingView> {
    match py_callee(src, t, i) {
        Some(c) => if py_request_fns().contains(c) && (match nth_arg(t, i, (if c == "requests.request"@ || c == "httpx.request"@ { 1 } else { 0 })) {
            Some(a) => dynamic_arg_of(src, t, a as int, py_url_dynamic_kinds()),
            None => false,
        }) {
            seq![finding_at_node("py/no-ssrf"@, Severity::High, Some("CWE-918"@), c + " called with dynamic URL — validate and allowlist outbound destinations to prevent SSRF"@, src, t[i])]
        } else {
            Seq::empty()
        },
        None => Seq::empty(),
    }
}

pub struct NoSsrf;

struct NoSsrfCheck;

impl NodeCheck for NoSsrfCheck {
    closed spec fn node_hits(&self, src: Seq<u8>, t: Seq<NodeView>, i: int) -> Seq<FindingView> {
        py_ssrf_hit(src, t, i)
    }

    fn hits_at(&self, source: &str, tree: &SyntaxTree, i: usize) -> (res: Vec<Finding>) {
        let src = source.as_bytes();
        let mut out: Vec<Finding> = Vec::new();
        let mut names: Vec<&'static str> = Vec::new();
        names.push("requests.get");
        names.push("requests.post");
        names.push("requests.put");
        names.push("requests.delete");
        names.push("requests.head");
        names.push("requests.patch");
        names.push("requests.request");
        names.push("httpx.get");
        names.push("httpx.post");
        names.push("httpx.put");
        names.push("httpx.delete");
        names.push("httpx.request");
        names.push("urllib.request.urlopen");
        assert(names@.map_values(|n: &'static str| n@) =~= py_request_fns());
        let mut kinds: Vec<&'static str> = Vec::new();
        kinds.push("identifier");
        kinds.push("call");
        kinds.push("subscript");
        kinds.push("attribute");
        kinds.push("binary_operator");
        assert(kinds@.map_values(|n: &'static str| n@) =~= py_url_dynamic_kinds());
        match py_callee_exec(tree, src, i) {
            Some(c) => {
                let cs = c.as_slice();
                if one_of(cs, &names) {
                    match nth_arg_exec(tree, i, if chars_eq_str(cs, "requests.request") || chars_eq_str(cs, "httpx.request") { 1 } else { 0 }) {
                        Some(a) => {
                            if dynamic_arg_exec(tree, src, a, &kinds) {
                                let msg = join2(cs, " called with dynamic URL — validate and allowlist outbound destinations to prevent SSRF");
                                out.push(
                        make_finding(
                            "py/no-ssrf",
                            Severity::High,
                            Some("CWE-918"),
                            msg.as_str(),
                            tree,
                            i,
                            source,
                        ),
                    );
                            }
                        },
                        None => {},
                    }
                }
            },
            None => {},
        }
        assert(finding_views(out@) =~= py_ssrf_hit(src@, tree@, i as int));
        out
    }
}

impl Rule for NoSsrf {
    fn id(&self) -> (res: &str)
        ensures
            res@ == "py/no-ssrf"@,
    {
        "py/no-ssrf"
    }

    fn severity(&self) -> (res: Severity)
        ensures
            res == Severity::High,
    {
        Severity::High
    }

    fn cwe(&self) -> (res: Option<&str>)
        ensures
            opt_str(res) == Some("CWE-918"@),
    {
        Some("CWE-918")
    }

    fn description(&self) -> (res: &str)
        ensures
            res@ == "Potential SSRF via dynamic outbound request URL"@,
    {
        "Potential SSRF via dynamic outbound request URL"
    }

    fn language(&self) -> (res: Language)
        ensures
            res == Language::Python,
    {
        Language::Python
    }

    fn check(&self, source: &str, tree: &SyntaxTree) -> (res: Vec<Finding>)
        ensures
            finding_views(res@) == collect_hits(
                tree@.len() as int,
                |k: int| py_ssrf_hit(source.spec_bytes(), tree@, k),
            ),
    {
        let c = NoSsrfCheck;
        let res = walk_tree(&c, source, tree);
        assert((|k: int| c.node_hits(source.spec_bytes(), tree@, k)) =~= (|k: int|
            py_ssrf_hit(source.spec_bytes(), tree@, k)));
        res
    }
}

// ─── Rule 7: no-weak-crypto ────────────────────────────────────────────────

pub open spec fn py_weak_crypto_hit(src: Seq<u8>, t: Seq<NodeView>, i: int) -> Seq<FindingView> {
    match py_callee(src, t, i) {
        Some(c) => if c == "hashlib.md5"@ {
            seq![finding_at_node("py/no-weak-crypto"@, Severity::Medium, Some("CWE-327"@), "hashlib.md5() is cryptographically weak — use sha256 or stronger"@, src, t[i])]
        } else if c == "hashlib.sha1"@ {
            seq![finding_at_node("py/no-weak-crypto"@, Severity::Medium, Some("CWE-327"@), "hashlib.sha1() is cryptographically weak — use sha256 or stronger"@, src, t[i])]
        } else if c == "hashlib.new"@ {
            match nth_arg(t, i, 0) {
                Some(a) => {
                    let inner = trim_set(node_text(src, t[a as int]), TrimSet::QuoteOrApostrophe);
                    if t[a as int].kind == "string"@ && (inner == "md5"@ || inner == "sha1"@) {
                        seq![
                            finding_at_node("py/no-weak-crypto"@, Severity::Medium, Some("CWE-327"@), "hashlib.new('"@ + inner + "') is cryptographically weak — use sha256 or stronger"@, src, t[i])
                        ]
                    } else {
                        Seq::empty()
                    }
                },
                None => Seq::empty(),
            }
        } else {
            Seq::empty()
        },
        None => Seq::empty(),
    }
}

pub struct NoWeakCrypto;

struct NoWeakCryptoCheck;

impl NodeCheck for NoWeakCryptoCheck {
    closed spec fn node_hits(&self, src: Seq<u8>, t: Seq<NodeView>, i: int) -> Seq<FindingView> {
        py_weak_crypto_hit(src, t, i)
    }

    fn hits_at(&self, source: &str, tree: &SyntaxTree, i: usize) -> (res: Vec<Finding>) {
        let src = source.as_bytes();
        let mut out: Vec<Finding> = Vec::new();
        match py_callee_exec(tree, src, i) {
            Some(c) => {
                let cs = c.as_slice();
                if chars_eq_str(cs, "hashlib.md5") {
                    out.push(
                        make_finding(
                            "py/no-weak-crypto",
                            Severity::Medium,
                            Some("CWE-327"),
                            "hashlib.md5() is cryptographically weak — use sha256 or stronger",
                            tree,
                            i,
                            source,
                        ),
                    );
                } else if chars_eq_str(cs, "hashlib.sha1") {
                    out.push(
                        make_finding(
                            "py/no-weak-crypto",
                            Severity::Medium,
                            Some("CWE-327"),
                            "hashlib.sha1() is cryptographically weak — use sha256 or stronger",
                            tree,
                            i,
                            source,
                        ),
                    );
                } else if chars_eq_str(cs, "hashlib.new") {
                    match nth_arg_exec(tree, i, 0) {
                        Some(a) => {
                            let val = tree.text(src, a);
                            let inner = trim_chars(val.as_slice(), TrimSet::QuoteOrApostrophe);
                            if tree.kind_is(a, "string") && (chars_eq_str(inner.as_slice(), "md5") || chars_eq_str(inner.as_slice(), "sha1")) {
                                let msg = join3("hashlib.new('", inner.as_slice(), "') is cryptographically weak — use sha256 or stronger");
                                out.push(
                        make_finding(
                            "py/no-weak-crypto",
                            Severity::Medium,
                            Some("CWE-327"),
                            msg.as_str(),
                            tree,
                            i,
                            source,
                        ),
                    );
                            }
                        },
                        None => {},
                    }
                }
            },
            None => {},
        }
        assert(finding_views(out@) =~= py_weak_crypto_hit(src@, tree@, i as int));
        out
    }
}

impl Rule for NoWeakCrypto {
    fn id(&self) -> (res: &str)
        ensures
            res@ == "py/no-weak-crypto"@,
    {
        "py/no-weak-crypto"
    }

    fn severity(&self) -> (res: Severity)
        ensures
            res == Severity::Medium,
    {
        Severity::Medium
    }

    fn cwe(&self) -> (res: Option<&str>)
        ensures
            opt_str(res) == Some("CWE-327"@),
    {
        Some("CWE-327")
    }

    fn description(&self) -> (res: &str)
        ensures
            res@ == "Use of weak cryptographic hash (MD5/SHA1)"@,
    {
        "Use of weak cryptographic hash (MD5/SHA1)"
    }

    fn language(&self) -> (res: Language)
        ensures
            res == Language::Python,
    {
        Language::Python
    }

    fn check(&self, source: &str, tree: &SyntaxTree) -> (res: Vec<Finding>)
        ensures
            finding_views(res@) == collect_hits(
                tree@.len() as int,
                |k: int| py_weak_crypto_hit(source.spec_bytes(), tree@, k),
            ),
    {
        let c = NoWeakCryptoCheck;
        let res = walk_tree(&c, source, tree);
        assert((|k: int| c.node_hits(source.spec_bytes(), tree@, k)) =~= (|k: int|
            py_weak_crypto_hit(source.spec_bytes(), tree@, k)));
        res
    }
}

// ─── Rule 8: no-pickle ──────────────────────────────────────────────────────────────

pub open spec fn py_pickle_fns() -> Seq<Seq<char>> {
    seq![
        "pickle.loads"@,
        "pickle.load"@,
        "cPickle.loads"@,
        "cPickle.load"@,
    ]
}

pub open spec fn py_pickle_hit(src: Seq<u8>, t: Seq<NodeView>, i: int) -> Seq<FindingView> {
    match py_callee(src, t, i) {
        Some(c) => if py_pickle_fns().contains(c) {
            seq![finding_at_node("py/no-pickle"@, Severity::High, Some("CWE-502"@), c + "() deserializes untrusted data — can execute arbitrary code"@, src, t[i])]
        } else {
            Seq::empty()
        },
        None => Seq::empty(),
    }
}

pub struct NoPickle;

struct NoPickleCheck;

impl NodeCheck for NoPickleCheck {
    closed spec fn node_hits(&self, src: Seq<u8>, t: Seq<NodeView>, i: int) -> Seq<FindingView> {
        py_pickle_hit(src, t, i)
    }

    fn hits_at(&self, source: &str, tree: &SyntaxTree, i: usize) -> (res: Vec<Finding>) {
        let mut out: Vec<Finding> = Vec::new();
        let mut names: Vec<&'static str> = Vec::new();
        names.push("pickle.loads");
        names.push("pickle.load");
        names.push("cPickle.loads");
        names.push("cPickle.load");
        assert(names@.map_values(|n: &'static str| n@) =~= py_pickle_fns());
        match py_callee_exec(tree, source.as_bytes(), i) {
            Some(c) => {
                if one_of(c.as_slice(), &names) {
                    let msg = join2(c.as_slice(), "() deserializes untrusted data — can execute arbitrary code");
                    out.push(
                        make_finding(
                            "py/no-pickle",
                            Severity::High,
                            Some("CWE-502"),
                            msg.as_str(),
                            tree,
                            i,
                            source,
                        ),
                    );
                }
            },
            None => {},
        }
        assert(finding_views(out@) =~= py_pickle_hit(source.spec_bytes(), tree@, i as int));
        out
    }
}

impl Rule for NoPickle {
    fn id(&self) -> (res: &str)
        ensures
            res@ == "py/no-pickle"@,
    {
        "py/no-pickle"
    }

    fn severity(&self) -> (res: Severity)
        ensures
            res == Severity::High,
    {
        Severity::High
    }

    fn cwe(&self) -> (res: Option<&str>)
        ensures
            opt_str(res) == Some("CWE-502"@),
    {
        Some("CWE-502")
    }

    fn description(&self) -> (res: &str)
        ensures
            res@ == "Deserialization of untrusted data via pickle"@,
    {
        "Deserialization of untrusted data via pickle"
    }

    fn language(&self) -> (res: Language)
        ensures
            res == Language::Python,
    {
        Language::Python
    }

    fn check(&self, source: &str, tree: &SyntaxTree) -> (res: Vec<Finding>)
        ensures
            finding_views(res@) == collect_hits(
                tree@.len() as int,
                |k: int| py_pickle_hit(source.spec_bytes(), tree@, k),
            ),
    {
        let c = NoPickleCheck;
        let res = walk_tree(&c, source, tree);
        assert((|k: int| c.node_hits(source.spec_bytes(), tree@, k)) =~= (|k: int|
            py_pickle_hit(source.spec_bytes(), tree@, k)));
        res
    }
}

// ─── Rule 9: no-yaml-load ──────────────────────────────────────────────────

pub open spec fn py_yaml_hit(src: Seq<u8>, t: Seq<NodeView>, i: int) -> Seq<FindingView> {
    if py_callee(src, t, i) == Some("yaml.load"@) && (match field_text(src, t, i, "arguments"@) {
        Some(a) => !contains_seq(a, "SafeLoader"@) && !contains_seq(a, "safe_load"@) && !contains_seq(
            a,
            "BaseLoader"@,
        ),
        None => false,
    }) {
        seq![finding_at_node("py/no-yaml-load"@, Severity::High, Some("CWE-502"@), "yaml.load() without SafeLoader — use yaml.safe_load() or pass Loader=SafeLoader"@, src, t[i])]
    } else {
        Seq::empty()
    }
}

pub struct NoYamlLoad;

struct NoYamlLoadCheck;

impl NodeCheck for NoYamlLoadCheck {
    closed spec fn node_hits(&self, src: Seq<u8>, t: Seq<NodeView>, i: int) -> Seq<FindingView> {
        py_yaml_hit(src, t, i)
    }

    fn hits_at(&self, source: &str, tree: &SyntaxTree, i: usize) -> (res: Vec<Finding>) {
        let src = source.as_bytes();
        let mut out: Vec<Finding> = Vec::new();
        match py_callee_exec(tree, src, i) {
            Some(c) => {
                if chars_eq_str(c.as_slice(), "yaml.load") {
                    match tree.field_text(src, i, "arguments") {
                        Some(a) => {
                            let at = a.as_slice();
                            if !contains_str(at, "SafeLoader") && !contains_str(at, "safe_load") && !contains_str(at, "BaseLoader") {
                                out.push(
                        make_finding(
                            "py/no-yaml-load",
                            Severity::High,
                            Some("CWE-502"),
                            "yaml.load() without SafeLoader — use yaml.safe_load() or pass Loader=SafeLoader",
                            tree,
                            i,
                            source,
                        ),
                    );
                            }
                        },
                        None => {},
                    }
                }
            },
            None => {},
        }
        assert(finding_views(out@) =~= py_yaml_hit(src@, tree@, i as int));
        out
    }
}

impl Rule for NoYamlLoad {
    fn id(&self) -> (res: &str)
        ensures
            res@ == "py/no-yaml-load"@,
    {
        "py/no-yaml-load"
    }

    fn severity(&self) -> (res: Severity)
        ensures
            res == Severity::High,
    {
        Severity::High
    }

    fn cwe(&self) -> (res: Option<&str>)
        ensures
            opt_str(res) == Some("CWE-502"@),
    {
        Some("CWE-502")
    }

    fn description(&self) -> (res: &str)
        ensures
            res@ == "yaml.load() without SafeLoader can execute arbitrary code"@,
    {
        "yaml.load() without SafeLoader can execute arbitrary code"
    }

    fn language(&self) -> (res: Language)
        ensures
            res == Language::Python,
    {
        Language::Python
    }

    fn check(&self, source: &str, tree: &SyntaxTree) -> (res: Vec<Finding>)
        ensures
            finding_views(res@) == collect_hits(
                tree@.len() as int,
                |k: int| py_yaml_hit(source.spec_bytes(), tree@, k),
            ),
    {
        let c = NoYamlLoadCheck;
        let res = walk_tree(&c, source, tree);
        assert((|k: int| c.node_hits(source.spec_bytes(), tree@, k)) =~= (|k: int|
            py_yaml_hit(source.spec_bytes(), tree@, k)));
        res
    }
}

// ─── Rule 10: no-debug-true ──────────────────────────────────────────────────────────────

pub open spec fn py_debug_true_hit(src: Seq<u8>, t: Seq<NodeView>, i: int) -> Seq<FindingView> {
    match py_assign(src, t, i) {
        Some((l, r)) => if l == "DEBUG"@ && r == "True"@ {
            seq![finding_at_node("py/no-debug-true"@, Severity::Medium, Some("CWE-489"@), "DEBUG = True — ensure debug mode is disabled in production (Django CWE-489)"@, src, t[i])]
        } else {
            Seq::empty()
        },
        None => Seq::empty(),
    }
}

pub struct NoDebugTrue;

struct NoDebugTrueCheck;

impl NodeCheck for NoDebugTrueCheck {
    closed spec fn node_hits(&self, src: Seq<u8>, t: Seq<NodeView>, i: int) -> Seq<FindingView> {
        py_debug_true_hit(src, t, i)
    }

    fn hits_at(&self, source: &str, tree: &SyntaxTree, i: usize) -> (res: Vec<Finding>) {
        let mut out: Vec<Finding> = Vec::new();
        match py_assign_exec(tree, source.as_bytes(), i) {
            Some((l, r)) => {
                let ls = l.as_slice();
                let rs = r.as_slice();
                if chars_eq_str(ls, "DEBUG") && chars_eq_str(rs, "True") {
                    out.push(
                        make_finding(
                            "py/no-debug-true",
                            Severity::Medium,
                            Some("CWE-489"),
                            "DEBUG = True — ensure debug mode is disabled in production (Django CWE-489)",
                            tree,
                            i,
                            source,
                        ),
                    );
                }
            },
            None => {},
        }
        assert(finding_views(out@) =~= py_debug_true_hit(source.spec_bytes(), tree@, i as int));
        out
    }
}

impl Rule for NoDebugTrue {
    fn id(&self) -> (res: &str)
        ensures
            res@ == "py/no-debug-true"@,
    {
        "py/no-debug-true"
    }

    fn severity(&self) -> (res: Severity)
        ensures
            res == Severity::Medium,
    {
        Severity::Medium
    }

    fn cwe(&self) -> (res: Option<&str>)
        ensures
            opt_str(res) == Some("CWE-489"@),
    {
        Some("CWE-489")
    }

    fn description(&self) -> (res: &str)
        ensures
            res@ == "DEBUG = True left enabled — disable in production"@,
    {
        "DEBUG = True left enabled — disable in production"
    }

    fn language(&self) -> (res: Language)
        ensures
            res == Language::Python,
    {
        Language::Python
    }

    fn check(&self, source: &str, tree: &SyntaxTree) -> (res: Vec<Finding>)
        ensures
            finding_views(res@) == collect_hits(
                tree@.len() as int,
                |k: int| py_debug_true_hit(source.spec_bytes(), tree@, k),
            ),
    {
        let c = NoDebugTrueCheck;
        let res = walk_tree(&c, source, tree);
        assert((|k: int| c.node_hits(source.spec_bytes(), tree@, k)) =~= (|k: int|
            py_debug_true_hit(source.spec_bytes(), tree@, k)));
        res
    }
}

// ─── Rule 11: flask-debug-mode ────────────────────────────────────────────

/// A `<obj>.run(...)` call whose arguments say `debug=True`.
pub open spec fn run_with_debug(src: Seq<u8>, t: Seq<NodeView>, i: int) -> bool {
    t[i].kind == "call"@ && (match field_child(t, i, "function"@) {
        Some(f) => t[f as int].kind == "attribute"@ && field_text(src, t, f as int, "attribute"@) == Some(
            "run"@,
        ),
        None => false,
    }) && (match field_text(src, t, i, "arguments"@) {
        Some(a) => contains_seq(a, "debug=True"@) || contains_seq(a, "debug = True"@),
        None => false,
    })
}

pub open spec fn py_flask_debug_hit(src: Seq<u8>, t: Seq<NodeView>, i: int) -> Seq<FindingView> {
    let run = if run_with_debug(src, t, i) {
        seq![finding_at_node("py/flask-debug-mode"@, Severity::High, Some("CWE-489"@), "Flask app.run(debug=True) — exposes Werkzeug debugger, disable in production"@, src, t[i])]
    } else {
        Seq::empty()
    };
    let assign = match py_assign(src, t, i) {
        Some((l, r)) => if ends_with_seq(l, ".debug"@) && r == "True"@ {
            seq![finding_at_node("py/flask-debug-mode"@, Severity::High, Some("CWE-489"@), "app.debug = True — exposes debugger, disable in production"@, src, t[i])]
        } else {
            Seq::empty()
        },
        None => Seq::empty(),
    };
    run + assign
}

fn run_with_debug_exec(tree: &SyntaxTree, src: &[u8], i: usize) -> (res: bool)
    requires
        i < tree@.len(),
    ensures
        res == run_with_debug(src@, tree@, i as int),
{
    if !tree.kind_is(i, "call") {
        return false;
    }
    let is_run = match tree.child_by_field(i, "function") {
        Some(f) => tree.kind_is(f, "attribute") && crate::rules::common::field_text_is(tree, src, f, "attribute", "run"),
        None => false,
    };
    if !is_run {
        return false;
    }
    match tree.field_text(src, i, "arguments") {
        Some(a) => contains_str(a.as_slice(), "debug=True") || contains_str(a.as_slice(), "debug = True"),
        None => false,
    }
}

pub struct FlaskDebugMode;

struct FlaskDebugModeCheck;

impl NodeCheck for FlaskDebugModeCheck {
    closed spec fn node_hits(&self, src: Seq<u8>, t: Seq<NodeView>, i: int) -> Seq<FindingView> {
        py_flask_debug_hit(src, t, i)
    }

    fn hits_at(&self, source: &str, tree: &SyntaxTree, i: usize) -> (res: Vec<Finding>) {
        let src = source.as_bytes();
        let mut out: Vec<Finding> = Vec::new();
        if run_with_debug_exec(tree, src, i) {
            out.push(
                        make_finding(
                            "py/flask-debug-mode",
                            Severity::High,
                            Some("CWE-489"),
                            "Flask app.run(debug=True) — exposes Werkzeug debugger, disable in production",
                            tree,
                            i,
                            source,
                        ),
                    );
        }
        let ghost first = out@;
        match py_assign_exec(tree, src, i) {
            Some((l, r)) => {
                if ends_with_str(l.as_slice(), ".debug") && chars_eq_str(r.as_slice(), "True") {
                    out.push(
                        make_finding(
                            "py/flask-debug-mode",
                            Severity::High,
                            Some("CWE-489"),
                            "app.debug = True — exposes debugger, disable in production",
                            tree,
                            i,
                            source,
                        ),
                    );
                }
            },
            None => {},
        }
        assert(finding_views(out@) =~= py_flask_debug_hit(src@, tree@, i as int));
        out
    }
}

impl Rule for FlaskDebugMode {
    fn id(&self) -> (res: &str)
        ensures
            res@ == "py/flask-debug-mode"@,
    {
        "py/flask-debug-mode"
    }

    fn severity(&self) -> (res: Severity)
        ensures
            res == Severity::High,
    {
        Severity::High
    }

    fn cwe(&self) -> (res: Option<&str>)
        ensures
            opt_str(res) == Some("CWE-489"@),
    {
        Some("CWE-489")
    }

    fn description(&self) -> (res: &str)
        ensures
            res@ == "Flask app.run(debug=True) exposes debugger and reloader in production"@,
    {
        "Flask app.run(debug=True) exposes debugger and reloader in production"
    }

    fn language(&self) -> (res: Language)
        ensures
            res == Language::Python,
    {
        Language::Python
    }

    fn check(&self, source: &str, tree: &SyntaxTree) -> (res: Vec<Finding>)
        ensures
            finding_views(res@) == collect_hits(
                tree@.len() as int,
                |k: int| py_flask_debug_hit(source.spec_bytes(), tree@, k),
            ),
    {
        let c = FlaskDebugModeCheck;
        let res = walk_tree(&c, source, tree);
        assert((|k: int| c.node_hits(source.spec_bytes(), tree@, k)) =~= (|k: int|
            py_flask_debug_hit(source.spec_bytes(), tree@, k)));
        res
    }
}

// ─── Rule 12: django-secret-key-hardcoded ─────────────────────────────────────────────────

pub open spec fn py_django_secret_hit(src: Seq<u8>, t: Seq<NodeView>, i: int) -> Seq<FindingView> {
    if t[i].kind == "assignment"@ {
        match (field_child(t, i, "left"@), field_child(t, i, "right"@)) {
            (Some(l), Some(r)) => {
                let lt = node_text(src, t[l as int]);
                if lt == "SECRET_KEY"@ && t[r as int].kind == "string"@ && utf8_len(
                    trim_set(node_text(src, t[r as int]), TrimSet::QuoteOrApostrophe),
                ) >= 4 {
                    seq![finding_at_node("py/django-secret-key-hardcoded"@, Severity::High, Some("CWE-798"@), "Django SECRET_KEY is hardcoded — use an environment variable or secrets manager"@, src, t[i])]
                } else {
                    Seq::empty()
                }
            },
            _ => Seq::empty(),
        }
    } else {
        Seq::empty()
    }
}

pub struct DjangoSecretKeyHardcoded;

struct DjangoSecretKeyHardcodedCheck;

impl NodeCheck for DjangoSecretKeyHardcodedCheck {
    closed spec fn node_hits(&self, src: Seq<u8>, t: Seq<NodeView>, i: int) -> Seq<FindingView> {
        py_django_secret_hit(src, t, i)
    }

    fn hits_at(&self, source: &str, tree: &SyntaxTree, i: usize) -> (res: Vec<Finding>) {
        let src = source.as_bytes();
        let mut out: Vec<Finding> = Vec::new();
        if tree.kind_is(i, "assignment") {
            match (tree.child_by_field(i, "left"), tree.child_by_field(i, "right")) {
                (Some(l), Some(r)) => {
                    let lt = tree.text(src, l);
                    let ls = lt.as_slice();
                    if chars_eq_str(ls, "SECRET_KEY") && tree.kind_is(r, "string") {
                        let val = tree.text(src, r);
                        let inner = trim_chars(val.as_slice(), TrimSet::QuoteOrApostrophe);
                        if utf8_len_at_least(inner.as_slice(), 4) {
                            out.push(
                        make_finding(
                            "py/django-secret-key-hardcoded",
                            Severity::High,
                            Some("CWE-798"),
                            "Django SECRET_KEY is hardcoded — use an environment variable or secrets manager",
                            tree,
                            i,
                            source,
                        ),
                    );
                        }
                    }
                },
                _ => {},
            }
        }
        assert(finding_views(out@) =~= py_django_secret_hit(src@, tree@, i as int));
        out
    }
}

impl Rule for DjangoSecretKeyHardcoded {
    fn id(&self) -> (res: &str)
        ensures
            res@ == "py/django-secret-key-hardcoded"@,
    {
        "py/django-secret-key-hardcoded"
    }

    fn severity(&self) -> (res: Severity)
        ensures
            res == Severity::High,
    {
        Severity::High
    }

    fn cwe(&self) -> (res: Option<&str>)
        ensures
            opt_str(res) == Some("CWE-798"@),
    {
        Some("CWE-798")
    }

    fn description(&self) -> (res: &str)
        ensures
            res@ == "Django SECRET_KEY hardcoded in source code"@,
    {
        "Django SECRET_KEY hardcoded in source code"
    }

    fn language(&self) -> (res: Language)
        ensures
            res == Language::Python,
    {
        Language::Python
    }

    fn check(&self, source: &str, tree: &SyntaxTree) -> (res: Vec<Finding>)
        ensures
            finding_views(res@) == collect_hits(
                tree@.len() as int,
                |k: int| py_django_secret_hit(source.spec_bytes(), tree@, k),
            ),
    {
        let c = DjangoSecretKeyHardcodedCheck;
        let res = walk_tree(&c, source, tree);
        assert((|k: int| c.node_hits(source.spec_bytes(), tree@, k)) =~= (|k: int|
            py_django_secret_hit(source.spec_bytes(), tree@, k)));
        res
    }
}

// ─── Rule 13: no-open-redirect ──────────────────────────────────────────────

pub open spec fn py_redirect_kinds() -> Seq<Seq<char>> {
    seq!["identifier"@, "call"@, "subscript"@, "attribute"@, "binary_operator"@]
}

pub open spec fn py_redirect_hit(src: Seq<u8>, t: Seq<NodeView>, i: int) -> Seq<FindingView> {
    match py_callee(src, t, i) {
        Some(c) => {
            let name = after_last(c, '.');
            if (name == "redirect"@ || name == "HttpResponseRedirect"@) && (match nth_arg(t, i, 0) {
                Some(a) => dynamic_arg_of(src, t, a as int, py_redirect_kinds()),
                None => false,
            }) {
                seq![finding_at_node("py/no-open-redirect"@, Severity::Medium, Some("CWE-601"@), name + "() with dynamic URL — validate target to prevent open redirect"@, src, t[i])]
            } else {
                Seq::empty()
            }
        },
        None => Seq::empty(),
    }
}

pub struct NoOpenRedirect;

struct NoOpenRedirectCheck;

impl NodeCheck for NoOpenRedirectCheck {
    closed spec fn node_hits(&self, src: Seq<u8>, t: Seq<NodeView>, i: int) -> Seq<FindingView> {
        py_redirect_hit(src, t, i)
    }

    fn hits_at(&self, source: &str, tree: &SyntaxTree, i: usize) -> (res: Vec<Finding>) {
        let src = source.as_bytes();
        let mut out: Vec<Finding> = Vec::new();
        let mut kinds: Vec<&'static str> = Vec::new();
        kinds.push("identifier");
        kinds.push("call");
        kinds.push("subscript");
        kinds.push("attribute");
        kinds.push("binary_operator");
        assert(kinds@.map_values(|n: &'static str| n@) =~= py_redirect_kinds());
        match py_callee_exec(tree, src, i) {
            Some(c) => {
                let name = after_last_char(c.as_slice(), '.');
                if chars_eq_str(name.as_slice(), "redirect") || chars_eq_str(name.as_slice(), "HttpResponseRedirect") {
                    match nth_arg_exec(tree, i, 0) {
                        Some(a) => {
                            if dynamic_arg_exec(tree, src, a, &kinds) {
                                let msg = join2(name.as_slice(), "() with dynamic URL — validate target to prevent open redirect");
                                out.push(
                        make_finding(
                            "py/no-open-redirect",
                            Severity::Medium,
                            Some("CWE-601"),
                            msg.as_str(),
                            tree,
                            i,
                            source,
                        ),
                    );
                            }
                        },
                        None => {},
                    }
                }
            },
            None => {},
        }
        assert(finding_views(out@) =~= py_redirect_hit(src@, tree@, i as int));
        out
    }
}

impl Rule for NoOpenRedirect {
    fn id(&self) -> (res: &str)
        ensures
            res@ == "py/no-open-redirect"@,
    {
        "py/no-open-redirect"
    }

    fn severity(&self) -> (res: Severity)
        ensures
            res == Severity::Medium,
    {
        Severity::Medium
    }

    fn cwe(&self) -> (res: Option<&str>)
        ensures
            opt_str(res) == Some("CWE-601"@),
    {
        Some("CWE-601")
    }

    fn description(&self) -> (res: &str)
        ensures
            res@ == "Open redirect via redirect() with user-controlled input"@,
    {
        "Open redirect via redirect() with user-controlled input"
    }

    fn language(&self) -> (res: Language)
        ensures
            res == Language::Python,
    {
        Language::Python
    }

    fn check(&self, source: &str, tree: &SyntaxTree) -> (res: Vec<Finding>)
        ensures
            finding_views(res@) == collect_hits(
                tree@.len() as int,
                |k: int| py_redirect_hit(source.spec_bytes(), tree@, k),
            ),
    {
        let c = NoOpenRedirectCheck;
        let res = walk_tree(&c, source, tree);
        assert((|k: int| c.node_hits(source.spec_bytes(), tree@, k)) =~= (|k: int|
            py_redirect_hit(source.spec_bytes(), tree@, k)));
        res
    }
}

// ─── Rule 14: no-cors-star ─────────────────────────────────────────────────

pub open spec fn py_cors_hit(src: Seq<u8>, t: Seq<NodeView>, i: int) -> Seq<FindingView> {
    let assign = match py_assign(src, t, i) {
        Some((l, r)) => if (l == "CORS_ALLOW_ALL_ORIGINS"@ || l == "CORS_ORIGIN_ALLOW_ALL"@) && r == "True"@ {
            seq![finding_at_node("py/no-cors-star"@, Severity::Medium, Some("CWE-942"@), l + " = True — restrict CORS to specific origins"@, src, t[i])]
        } else {
            Seq::empty()
        },
        None => Seq::empty(),
    };
    let header = match py_callee(src, t, i) {
        Some(c) => if (contains_seq(c, "header"@) || contains_seq(c, "Header"@)) && contains_seq(
            node_text(src, t[i]),
            "Access-Control-Allow-Origin"@,
        ) && contains_seq(node_text(src, t[i]), "*"@) {
            seq![finding_at_node("py/no-cors-star"@, Severity::Medium, Some("CWE-942"@), "Access-Control-Allow-Origin set to '*' — restrict to specific origins"@, src, t[i])]
        } else {
            Seq::empty()
        },
        None => Seq::empty(),
    };
    let keyword = if t[i].kind == "keyword_argument"@ {
        match (field_child(t, i, "name"@), field_child(t, i, "value"@)) {
            (Some(n), Some(v)) => {
                let name = node_text(src, t[n as int]);
                let value = node_text(src, t[v as int]);
                if (name == "allow_origins"@ || name == "origins"@) && (contains_seq(value, "\"*\""@)
                    || contains_seq(value, "'*'"@)) {
                    seq![finding_at_node("py/no-cors-star"@, Severity::Medium, Some("CWE-942"@), "CORS allow_origins includes '*' — restrict to specific origins"@, src, t[i])]
                } else {
                    Seq::empty()
                }
            },
            _ => Seq::empty(),
        }
    } else {
        Seq::empty()
    };
    assign + header + keyword
}

pub struct NoCorsStar;

struct NoCorsStarCheck;

impl NodeCheck for NoCorsStarCheck {
    closed spec fn node_hits(&self, src: Seq<u8>, t: Seq<NodeView>, i: int) -> Seq<FindingView> {
        py_cors_hit(src, t, i)
    }

    fn hits_at(&self, source: &str, tree: &SyntaxTree, i: usize) -> (res: Vec<Finding>) {
        let src = source.as_bytes();
        let mut out: Vec<Finding> = Vec::new();
        match py_assign_exec(tree, src, i) {
            Some((l, r)) => {
                let ls = l.as_slice();
                if (chars_eq_str(ls, "CORS_ALLOW_ALL_ORIGINS") || chars_eq_str(ls, "CORS_ORIGIN_ALLOW_ALL")) && chars_eq_str(r.as_slice(), "True") {
                    let msg = join2(ls, " = True — restrict CORS to specific origins");
                    out.push(
                        make_finding(
                            "py/no-cors-star",
                            Severity::Medium,
                            Some("CWE-942"),
                            msg.as_str(),
                            tree,
                            i,
                            source,
                        ),
                    );
                }
            },
            None => {},
        }
        let ghost a = out@;
        match py_callee_exec(tree, src, i) {
            Some(c) => {
                let cs = c.as_slice();
                if contains_str(cs, "header") || contains_str(cs, "Header") {
                    let text = tree.text(src, i);
                    if contains_str(text.as_slice(), "Access-Control-Allow-Origin") && contains_str(text.as_slice(), "*") {
                        out.push(
                        make_finding(
                            "py/no-cors-star",
                            Severity::Medium,
                            Some("CWE-942"),
                            "Access-Control-Allow-Origin set to '*' — restrict to specific origins",
                            tree,
                            i,
                            source,
                        ),
                    );
                    }
                }
            },
            None => {},
        }
        let ghost b = out@;
        if tree.kind_is(i, "keyword_argument") {
            match (tree.child_by_field(i, "name"), tree.child_by_field(i, "value")) {
                (Some(n), Some(v)) => {
                    let name = tree.text(src, n);
                    let value = tree.text(src, v);
                    if (chars_eq_str(name.as_slice(), "allow_origins") || chars_eq_str(name.as_slice(), "origins"))
                        && (contains_str(value.as_slice(), "\"*\"") || contains_str(value.as_slice(), "'*'")) {
                        out.push(
                        make_finding(
                            "py/no-cors-star",
                            Severity::Medium,
                            Some("CWE-942"),
                            "CORS allow_origins includes '*' — restrict to specific origins",
                            tree,
                            i,
                            source,
                        ),
                    );
                    }
                },
                _ => {},
            }
        }
        assert(finding_views(out@) =~= py_cors_hit(src@, tree@, i as int));
        out
    }
}

impl Rule for NoCorsStar {
    fn id(&self) -> (res: &str)
        ensures
            res@ == "py/no-cors-star"@,
    {
        "py/no-cors-star"
    }

    fn severity(&self) -> (res: Severity)
        ensures
            res == Severity::Medium,
    {
        Severity::Medium
    }

    fn cwe(&self) -> (res: Option<&str>)
        ensures
            opt_str(res) == Some("CWE-942"@),
    {
        Some("CWE-942")
    }

    fn description(&self) -> (res: &str)
        ensures
            res@ == "CORS misconfiguration allowing all origins"@,
    {
        "CORS misconfiguration allowing all origins"
    }

    fn language(&self) -> (res: Language)
        ensures
            res == Language::Python,
    {
        Language::Python
    }

    fn check(&self, source: &str, tree: &SyntaxTree) -> (res: Vec<Finding>)
        ensures
            finding_views(res@) == collect_hits(
                tree@.len() as int,
                |k: int| py_cors_hit(source.spec_bytes(), tree@, k),
            ),
    {
        let c = NoCorsStarCheck;
        let res = walk_tree(&c, source, tree);
        assert((|k: int| c.node_hits(source.spec_bytes(), tree@, k)) =~= (|k: int|
            py_cors_hit(source.spec_bytes(), tree@, k)));
        res
    }
}

// ─── Rule 15: flask-secret-key-hardcoded ─────────────────────────────────────────────────

pub open spec fn py_flask_secret_hit(src: Seq<u8>, t: Seq<NodeView>, i: int) -> Seq<FindingView> {
    if t[i].kind == "assignment"@ {
        match (field_child(t, i, "left"@), field_child(t, i, "right"@)) {
            (Some(l), Some(r)) => {
                let lt = node_text(src, t[l as int]);
                if (lt == "app.secret_key"@ || (contains_seq(lt, "config"@) && contains_seq(lt, "SECRET_KEY"@))) && t[r as int].kind == "string"@ && utf8_len(
                    trim_set(node_text(src, t[r as int]), TrimSet::QuoteOrApostrophe),
                ) >= 4 {
                    seq![finding_at_node("py/flask-secret-key-hardcoded"@, Severity::High, Some("CWE-798"@), "Flask SECRET_KEY is hardcoded — use an environment variable or secrets manager"@, src, t[i])]
                } else {
                    Seq::empty()
                }
            },
            _ => Seq::empty(),
        }
    } else {
        Seq::empty()
    }
}

pub struct FlaskSecretKeyHardcoded;

struct FlaskSecretKeyHardcodedCheck;

impl NodeCheck for FlaskSecretKeyHardcodedCheck {
    closed spec fn node_hits(&self, src: Seq<u8>, t: Seq<NodeView>, i: int) -> Seq<FindingView> {
        py_flask_secret_hit(src, t, i)
    }

    fn hits_at(&self, source: &str, tree: &SyntaxTree, i: usize) -> (res: Vec<Finding>) {
        let src = source.as_bytes();
        let mut out: Vec<Finding> = Vec::new();
        if tree.kind_is(i, "assignment") {
            match (tree.child_by_field(i, "left"), tree.child_by_field(i, "right")) {
                (Some(l), Some(r)) => {
                    let lt = tree.text(src, l);
                    let ls = lt.as_slice();
                    if (chars_eq_str(ls, "app.secret_key") || (contains_str(ls, "config") && contains_str(ls, "SECRET_KEY"))) && tree.kind_is(r, "string") {
                        let val = tree.text(src, r);
                        let inner = trim_chars(val.as_slice(), TrimSet::QuoteOrApostrophe);
                        if utf8_len_at_least(inner.as_slice(), 4) {
                            out.push(
                        make_finding(
                            "py/flask-secret-key-hardcoded",
                            Severity::High,
                            Some("CWE-798"),
                            "Flask SECRET_KEY is hardcoded — use an environment variable or secrets manager",
                            tree,
                            i,
                            source,
                        ),
                    );
                        }
                    }
                },
                _ => {},
            }
        }
        assert(finding_views(out@) =~= py_flask_secret_hit(src@, tree@, i as int));
        out
    }
}

impl Rule for FlaskSecretKeyHardcoded {
    fn id(&self) -> (res: &str)
        ensures
            res@ == "py/flask-secret-key-hardcoded"@,
    {
        "py/flask-secret-key-hardcoded"
    }

    fn severity(&self) -> (res: Severity)
        ensures
            res == Severity::High,
    {
        Severity::High
    }

    fn cwe(&self) -> (res: Option<&str>)
        ensures
            opt_str(res) == Some("CWE-798"@),
    {
        Some("CWE-798")
    }

    fn description(&self) -> (res: &str)
        ensures
            res@ == "Flask SECRET_KEY hardcoded in source code"@,
    {
        "Flask SECRET_KEY hardcoded in source code"
    }

    fn language(&self) -> (res: Language)
        ensures
            res == Language::Python,
    {
        Language::Python
    }

    fn check(&self, source: &str, tree: &SyntaxTree) -> (res: Vec<Finding>)
        ensures
            finding_views(res@) == collect_hits(
                tree@.len() as int,
                |k: int| py_flask_secret_hit(source.spec_bytes(), tree@, k),
            ),
    {
        let c = FlaskSecretKeyHardcodedCheck;
        let res = walk_tree(&c, source, tree);
        assert((|k: int| c.node_hits(source.spec_bytes(), tree@, k)) =~= (|k: int|
            py_flask_secret_hit(source.spec_bytes(), tree@, k)));
        res
    }
}

// ─── Rule 16: session-cookie-secure-disabled ──────────────────────────────────────────────────────────────

pub open spec fn py_session_secure_hit(src: Seq<u8>, t: Seq<NodeView>, i: int) -> Seq<FindingView> {
    match py_assign(src, t, i) {
        Some((l, r)) => if (l == "SESSION_COOKIE_SECURE"@ || contains_seq(l, "SESSION_COOKIE_SECURE"@)) && r == "False"@ {
            seq![finding_at_node("py/session-cookie-secure-disabled"@, Severity::Medium, Some("CWE-614"@), "SESSION_COOKIE_SECURE = False — session cookies may be sent over HTTP"@, src, t[i])]
        } else {
            Seq::empty()
        },
        None => Seq::empty(),
    }
}

pub struct SessionCookieSecureDisabled;

struct SessionCookieSecureDisabledCheck;

impl NodeCheck for SessionCookieSecureDisabledCheck {
    closed spec fn node_hits(&self, src: Seq<u8>, t: Seq<NodeView>, i: int) -> Seq<FindingView> {
        py_session_secure_hit(src, t, i)
    }

    fn hits_at(&self, source: &str, tree: &SyntaxTree, i: usize) -> (res: Vec<Finding>) {
        let mut out: Vec<Finding> = Vec::new();
        match py_assign_exec(tree, source.as_bytes(), i) {
            Some((l, r)) => {
                let ls = l.as_slice();
                let rs = r.as_slice();
                if (chars_eq_str(ls, "SESSION_COOKIE_SECURE") || contains_str(ls, "SESSION_COOKIE_SECURE")) && chars_eq_str(rs, "False") {
                    out.push(
                        make_finding(
                            "py/session-cookie-secure-disabled",
                            Severity::Medium,
                            Some("CWE-614"),
                            "SESSION_COOKIE_SECURE = False — session cookies may be sent over HTTP",
                            tree,
                            i,
                            source,
                        ),
                    );
                }
            },
            None => {},
        }
        assert(finding_views(out@) =~= py_session_secure_hit(source.spec_bytes(), tree@, i as int));
        out
    }
}

impl Rule for SessionCookieSecureDisabled {
    fn id(&self) -> (res: &str)
        ensures
            res@ == "py/session-cookie-secure-disabled"@,
    {
        "py/session-cookie-secure-disabled"
    }

    fn severity(&self) -> (res: Severity)
        ensures
            res == Severity::Medium,
    {
        Severity::Medium
    }

    fn cwe(&self) -> (res: Option<&str>)
        ensures
            opt_str(res) == Some("CWE-614"@),
    {
        Some("CWE-614")
    }

    fn description(&self) -> (res: &str)
        ensures
            res@ == "SESSION_COOKIE_SECURE disabled in source code"@,
    {
        "SESSION_COOKIE_SECURE disabled in source code"
    }

    fn language(&self) -> (res: Language)
        ensures
            res == Language::Python,
    {
        Language::Python
    }

    fn check(&self, source: &str, tree: &SyntaxTree) -> (res: Vec<Finding>)
        ensures
            finding_views(res@) == collect_hits(
                tree@.len() as int,
                |k: int| py_session_secure_hit(source.spec_bytes(), tree@, k),
            ),
    {
        let c = SessionCookieSecureDisabledCheck;
        let res = walk_tree(&c, source, tree);
        assert((|k: int| c.node_hits(source.spec_bytes(), tree@, k)) =~= (|k: int|
            py_session_secure_hit(source.spec_bytes(), tree@, k)));
        res
    }
}

// ─── Rule 17: session-cookie-httponly-disabled ──────────────────────────────────────────────────────────────

pub open spec fn py_session_httponly_hit(src: Seq<u8>, t: Seq<NodeView>, i: int) -> Seq<FindingView> {
    match py_assign(src, t, i) {
        Some((l, r)) => if (l == "SESSION_COOKIE_HTTPONLY"@ || contains_seq(l, "SESSION_COOKIE_HTTPONLY"@)) && r == "False"@ {
            seq![finding_at_node("py/session-cookie-httponly-disabled"@, Severity::Medium, Some("CWE-1004"@), "SESSION_COOKIE_HTTPONLY = False — session cookies may be exposed to client-side scripts"@, src, t[i])]
        } else {
            Seq::empty()
        },
        None => Seq::empty(),
    }
}

pub struct SessionCookieHttpOnlyDisabled;

struct SessionCookieHttpOnlyDisabledCheck;

impl NodeCheck for SessionCookieHttpOnlyDisabledCheck {
    closed spec fn node_hits(&self, src: Seq<u8>, t: Seq<NodeView>, i: int) -> Seq<FindingView> {
        py_session_httponly_hit(src, t, i)
    }

    fn hits_at(&self, source: &str, tree: &SyntaxTree, i: usize) -> (res: Vec<Finding>) {
        let mut out: Vec<Finding> = Vec::new();
        match py_assign_exec(tree, source.as_bytes(), i) {
            Some((l, r)) => {
                let ls = l.as_slice();
                let rs = r.as_slice();
                if (chars_eq_str(ls, "SESSION_COOKIE_HTTPONLY") || contains_str(ls, "SESSION_COOKIE_HTTPONLY")) && chars_eq_str(rs, "False") {
                    out.push(
                        make_finding(
                            "py/session-cookie-httponly-disabled",
                            Severity::Medium,
                            Some("CWE-1004"),
                            "SESSION_COOKIE_HTTPONLY = False — session cookies may be exposed to client-side scripts",
                            tree,
                            i,
                            source,
                        ),
                    );
                }
            },
            None => {},
        }
        assert(finding_views(out@) =~= py_session_httponly_hit(source.spec_bytes(), tree@, i as int));
        out
    }
}

impl Rule for SessionCookieHttpOnlyDisabled {
    fn id(&self) -> (res: &str)
        ensures
            res@ == "py/session-cookie-httponly-disabled"@,
    {
        "py/session-cookie-httponly-disabled"
    }

    fn severity(&self) -> (res: Severity)
        ensures
            res == Severity::Medium,
    {
        Severity::Medium
    }

    fn cwe(&self) -> (res: Option<&str>)
        ensures
            opt_str(res) == Some("CWE-1004"@),
    {
        Some("CWE-1004")
    }

    fn description(&self) -> (res: &str)
        ensures
            res@ == "SESSION_COOKIE_HTTPONLY disabled in source code"@,
    {
        "SESSION_COOKIE_HTTPONLY disabled in source code"
    }

    fn language(&self) -> (res: Language)
        ensures
            res == Language::Python,
    {
        Language::Python
    }

    fn check(&self, source: &str, tree: &SyntaxTree) -> (res: Vec<Finding>)
        ensures
            finding_views(res@) == collect_hits(
                tree@.len() as int,
                |k: int| py_session_httponly_hit(source.spec_bytes(), tree@, k),
            ),
    {
        let c = SessionCookieHttpOnlyDisabledCheck;
        let res = walk_tree(&c, source, tree);
        assert((|k: int| c.node_hits(source.spec_bytes(), tree@, k)) =~= (|k: int|
            py_session_httponly_hit(source.spec_bytes(), tree@, k)));
        res
    }
}

// ─── Rule 18: session-cookie-samesite-disabled ──────────────────────────────────────────────────────────────

pub open spec fn py_session_samesite_hit(src: Seq<u8>, t: Seq<NodeView>, i: int) -> Seq<FindingView> {
    match py_assign(src, t, i) {
        Some((l, r)) => if (l == "SESSION_COOKIE_SAMESITE"@ || contains_seq(l, "SESSION_COOKIE_SAMESITE"@)) && (r == "None"@ || r == "\"None\""@ || r == "'None'"@ || r == "\"none\""@ || r == "'none'"@ || r == "False"@) {
            seq![finding_at_node("py/session-cookie-samesite-disabled"@, Severity::Medium, Some("CWE-352"@), "SESSION_COOKIE_SAMESITE disabled — set it to 'Lax' or 'Strict' to reduce CSRF risk"@, src, t[i])]
        } else {
            Seq::empty()
        },
        None => Seq::empty(),
    }
}

pub struct SessionCookieSameSiteDisabled;

struct SessionCookieSameSiteDisabledCheck;

impl NodeCheck for SessionCookieSameSiteDisabledCheck {
    closed spec fn node_hits(&self, src: Seq<u8>, t: Seq<NodeView>, i: int) -> Seq<FindingView> {
        py_session_samesite_hit(src, t, i)
    }

    fn hits_at(&self, source: &str, tree: &SyntaxTree, i: usize) -> (res: Vec<Finding>) {
        let mut out: Vec<Finding> = Vec::new();
        match py_assign_exec(tree, source.as_bytes(), i) {
            Some((l, r)) => {
                let ls = l.as_slice();
                let rs = r.as_slice();
                if (chars_eq_str(ls, "SESSION_COOKIE_SAMESITE") || contains_str(ls, "SESSION_COOKIE_SAMESITE")) && (chars_eq_str(rs, "None") || chars_eq_str(rs, "\"None\"") || chars_eq_str(rs, "'None'") || chars_eq_str(rs, "\"none\"") || chars_eq_str(rs, "'none'") || chars_eq_str(rs, "False")) {
                    out.push(
                        make_finding(
                            "py/session-cookie-samesite-disabled",
                            Severity::Medium,
                            Some("CWE-352"),
                            "SESSION_COOKIE_SAMESITE disabled — set it to 'Lax' or 'Strict' to reduce CSRF risk",
                            tree,
                            i,
                            source,
                        ),
                    );
                }
            },
            None => {},
        }
        assert(finding_views(out@) =~= py_session_samesite_hit(source.spec_bytes(), tree@, i as int));
        out
    }
}

impl Rule for SessionCookieSameSiteDisabled {
    fn id(&self) -> (res: &str)
        ensures
            res@ == "py/session-cookie-samesite-disabled"@,
    {
        "py/session-cookie-samesite-disabled"
    }

    fn severity(&self) -> (res: Severity)
        ensures
            res == Severity::Medium,
    {
        Severity::Medium
    }

    fn cwe(&self) -> (res: Option<&str>)
        ensures
            opt_str(res) == Some("CWE-352"@),
    {
        Some("CWE-352")
    }

    fn description(&self) -> (res: &str)
        ensures
            res@ == "SESSION_COOKIE_SAMESITE disabled in source code"@,
    {
        "SESSION_COOKIE_SAMESITE disabled in source code"
    }

    fn language(&self) -> (res: Language)
        ensures
            res == Language::Python,
    {
        Language::Python
    }

    fn check(&self, source: &str, tree: &SyntaxTree) -> (res: Vec<Finding>)
        ensures
            finding_views(res@) == collect_hits(
                tree@.len() as int,
                |k: int| py_session_samesite_hit(source.spec_bytes(), tree@, k),
            ),
    {
        let c = SessionCookieSameSiteDisabledCheck;
        let res = walk_tree(&c, source, tree);
        assert((|k: int| c.node_hits(source.spec_bytes(), tree@, k)) =~= (|k: int|
            py_session_samesite_hit(source.spec_bytes(), tree@, k)));
        res
    }
}

// ─── Rule 19: csrf-cookie-secure-disabled ──────────────────────────────────────────────────────────────

pub open spec fn py_csrf_secure_hit(src: Seq<u8>, t: Seq<NodeView>, i: int) -> Seq<FindingView> {
    match py_assign(src, t, i) {
        Some((l, r)) => if (l == "CSRF_COOKIE_SECURE"@ || contains_seq(l, "CSRF_COOKIE_SECURE"@)) && r == "False"@ {
            seq![finding_at_node("py/csrf-cookie-secure-disabled"@, Severity::Medium, Some("CWE-614"@), "CSRF_COOKIE_SECURE = False — CSRF cookies may be sent over HTTP"@, src, t[i])]
        } else {
            Seq::empty()
        },
        None => Seq::empty(),
    }
}

pub struct CsrfCookieSecureDisabled;

struct CsrfCookieSecureDisabledCheck;

impl NodeCheck for CsrfCookieSecureDisabledCheck {
    closed spec fn node_hits(&self, src: Seq<u8>, t: Seq<NodeView>, i: int) -> Seq<FindingView> {
        py_csrf_secure_hit(src, t, i)
    }

    fn hits_at(&self, source: &str, tree: &SyntaxTree, i: usize) -> (res: Vec<Finding>) {
        let mut out: Vec<Finding> = Vec::new();
        match py_assign_exec(tree, source.as_bytes(), i) {
            Some((l, r)) => {
                let ls = l.as_slice();
                let rs = r.as_slice();
                if (chars_eq_str(ls, "CSRF_COOKIE_SECURE") || contains_str(ls, "CSRF_COOKIE_SECURE")) && chars_eq_str(rs, "False") {
                    out.push(
                        make_finding(
                            "py/csrf-cookie-secure-disabled",
                            Severity::Medium,
                            Some("CWE-614"),
                            "CSRF_COOKIE_SECURE = False — CSRF cookies may be sent over HTTP",
                            tree,
                            i,
                            source,
                        ),
                    );
                }
            },
            None => {},
        }
        assert(finding_views(out@) =~= py_csrf_secure_hit(source.spec_bytes(), tree@, i as int));
        out
    }
}

impl Rule for CsrfCookieSecureDisabled {
    fn id(&self) -> (res: &str)
        ensures
            res@ == "py/csrf-cookie-secure-disabled"@,
    {
        "py/csrf-cookie-secure-disabled"
    }

    fn severity(&self) -> (res: Severity)
        ensures
            res == Severity::Medium,
    {
        Severity::Medium
    }

    fn cwe(&self) -> (res: Option<&str>)
        ensures
            opt_str(res) == Some("CWE-614"@),
    {
        Some("CWE-614")
    }

    fn description(&self) -> (res: &str)
        ensures
            res@ == "CSRF_COOKIE_SECURE disabled in source code"@,
    {
        "CSRF_COOKIE_SECURE disabled in source code"
    }

    fn language(&self) -> (res: Language)
        ensures
            res == Language::Python,
    {
        Language::Python
    }

    fn check(&self, source: &str, tree: &SyntaxTree) -> (res: Vec<Finding>)
        ensures
            finding_views(res@) == collect_hits(
                tree@.len() as int,
                |k: int| py_csrf_secure_hit(source.spec_bytes(), tree@, k),
            ),
    {
        let c = CsrfCookieSecureDisabledCheck;
        let res = walk_tree(&c, source, tree);
        assert((|k: int| c.node_hits(source.spec_bytes(), tree@, k)) =~= (|k: int|
            py_csrf_secure_hit(source.spec_bytes(), tree@, k)));
        res
    }
}

// ─── Rule 20: csrf-cookie-httponly-disabled ──────────────────────────────────────────────────────────────

pub open spec fn py_csrf_httponly_hit(src: Seq<u8>, t: Seq<NodeView>, i: int) -> Seq<FindingView> {
    match py_assign(src, t, i) {
        Some((l, r)) => if (l == "CSRF_COOKIE_HTTPONLY"@ || contains_seq(l, "CSRF_COOKIE_HTTPONLY"@)) && r == "False"@ {
            seq![finding_at_node("py/csrf-cookie-httponly-disabled"@, Severity::Medium, Some("CWE-1004"@), "CSRF_COOKIE_HTTPONLY = False — CSRF cookies may be exposed to client-side scripts"@, src, t[i])]
        } else {
            Seq::empty()
        },
        None => Seq::empty(),
    }
}

pub struct CsrfCookieHttpOnlyDisabled;

struct CsrfCookieHttpOnlyDisabledCheck;

impl NodeCheck for CsrfCookieHttpOnlyDisabledCheck {
    closed spec fn node_hits(&self, src: Seq<u8>, t: Seq<NodeView>, i: int) -> Seq<FindingView> {
        py_csrf_httponly_hit(src, t, i)
    }

    fn hits_at(&self, source: &str, tree: &SyntaxTree, i: usize) -> (res: Vec<Finding>) {
        let mut out: Vec<Finding> = Vec::new();
        match py_assign_exec(tree, source.as_bytes(), i) {
            Some((l, r)) => {
                let ls = l.as_slice();
                let rs = r.as_slice();
                if (chars_eq_str(ls, "CSRF_COOKIE_HTTPONLY") || contains_str(ls, "CSRF_COOKIE_HTTPONLY")) && chars_eq_str(rs, "False") {
                    out.push(
                        make_finding(
                            "py/csrf-cookie-httponly-disabled",
                            Severity::Medium,
                            Some("CWE-1004"),
                            "CSRF_COOKIE_HTTPONLY = False — CSRF cookies may be exposed to client-side scripts",
                            tree,
                            i,
                            source,
                        ),
                    );
                }
            },
            None => {},
        }
        assert(finding_views(out@) =~= py_csrf_httponly_hit(source.spec_bytes(), tree@, i as int));
        out
    }
}

impl Rule for CsrfCookieHttpOnlyDisabled {
    fn id(&self) -> (res: &str)
        ensures
            res@ == "py/csrf-cookie-httponly-disabled"@,
    {
        "py/csrf-cookie-httponly-disabled"
    }

    fn severity(&self) -> (res: Severity)
        ensures
            res == Severity::Medium,
    {
        Severity::Medium
    }

    fn cwe(&self) -> (res: Option<&str>)
        ensures
            opt_str(res) == Some("CWE-1004"@),
    {
        Some("CWE-1004")
    }

    fn description(&self) -> (res: &str)
        ensures
            res@ == "CSRF_COOKIE_HTTPONLY disabled in source code"@,
    {
        "CSRF_COOKIE_HTTPONLY disabled in source code"
    }

    fn language(&self) -> (res: Language)
        ensures
            res == Language::Python,
    {
        Language::Python
    }

    fn check(&self, source: &str, tree: &SyntaxTree) -> (res: Vec<Finding>)
        ensures
            finding_views(res@) == collect_hits(
                tree@.len() as int,
                |k: int| py_csrf_httponly_hit(source.spec_bytes(), tree@, k),
            ),
    {
        let c = CsrfCookieHttpOnlyDisabledCheck;
        let res = walk_tree(&c, source, tree);
        assert((|k: int| c.node_hits(source.spec_bytes(), tree@, k)) =~= (|k: int|
            py_csrf_httponly_hit(source.spec_bytes(), tree@, k)));
        res
    }
}

// ─── Rule 21: csrf-cookie-samesite-disabled ──────────────────────────────────────────────────────────────

pub open spec fn py_csrf_samesite_hit(src: Seq<u8>, t: Seq<NodeView>, i: int) -> Seq<FindingView> {
    match py_assign(src, t, i) {
        Some((l, r)) => if (l == "CSRF_COOKIE_SAMESITE"@ || contains_seq(l, "CSRF_COOKIE_SAMESITE"@)) && (r == "None"@ || r == "\"None\""@ || r == "'None'"@ || r == "\"none\""@ || r == "'none'"@ || r == "False"@) {
            seq![finding_at_node("py/csrf-cookie-samesite-disabled"@, Severity::Medium, Some("CWE-352"@), "CSRF_COOKIE_SAMESITE disabled — set it to 'Lax' or 'Strict' to reduce CSRF risk"@, src, t[i])]
        } else {
            Seq::empty()
        },
        None => Seq::empty(),
    }
}

pub struct CsrfCookieSameSiteDisabled;

struct CsrfCookieSameSiteDisabledCheck;

impl NodeCheck for CsrfCookieSameSiteDisabledCheck {
    closed spec fn node_hits(&self, src: Seq<u8>, t: Seq<NodeView>, i: int) -> Seq<FindingView> {
        py_csrf_samesite_hit(src, t, i)
    }

    fn hits_at(&self, source: &str, tree: &SyntaxTree, i: usize) -> (res: Vec<Finding>) {
        let mut out: Vec<Finding> = Vec::new();
        match py_assign_exec(tree, source.as_bytes(), i) {
            Some((l, r)) => {
                let ls = l.as_slice();
                let rs = r.as_slice();
                if (chars_eq_str(ls, "CSRF_COOKIE_SAMESITE") || contains_str(ls, "CSRF_COOKIE_SAMESITE")) && (chars_eq_str(rs, "None") || chars_eq_str(rs, "\"None\"") || chars_eq_str(rs, "'None'") || chars_eq_str(rs, "\"none\"") || chars_eq_str(rs, "'none'") || chars_eq_str(rs, "False")) {
                    out.push(
                        make_finding(
                            "py/csrf-cookie-samesite-disabled",
                            Severity::Medium,
                            Some("CWE-352"),
                            "CSRF_COOKIE_SAMESITE disabled — set it to 'Lax' or 'Strict' to reduce CSRF risk",
                            tree,
                            i,
                            source,
                        ),
                    );
                }
            },
            None => {},
        }
        assert(finding_views(out@) =~= py_csrf_samesite_hit(source.spec_bytes(), tree@, i as int));
        out
    }
}

impl Rule for CsrfCookieSameSiteDisabled {
    fn id(&self) -> (res: &str)
        ensures
            res@ == "py/csrf-cookie-samesite-disabled"@,
    {
        "py/csrf-cookie-samesite-disabled"
    }

    fn severity(&self) -> (res: Severity)
        ensures
            res == Severity::Medium,
    {
        Severity::Medium
    }

    fn cwe(&self) -> (res: Option<&str>)
        ensures
            opt_str(res) == Some("CWE-352"@),
    {
        Some("CWE-352")
    }

    fn description(&self) -> (res: &str)
        ensures
            res@ == "CSRF_COOKIE_SAMESITE disabled in source code"@,
    {
        "CSRF_COOKIE_SAMESITE disabled in source code"
    }

    fn language(&self) -> (res: Language)
        ensures
            res == Language::Python,
    {
        Language::Python
    }

    fn check(&self, source: &str, tree: &SyntaxTree) -> (res: Vec<Finding>)
        ensures
            finding_views(res@) == collect_hits(
                tree@.len() as int,
                |k: int| py_csrf_samesite_hit(source.spec_bytes(), tree@, k),
            ),
    {
        let c = CsrfCookieSameSiteDisabledCheck;
        let res = walk_tree(&c, source, tree);
        assert((|k: int| c.node_hits(source.spec_bytes(), tree@, k)) =~= (|k: int|
            py_csrf_samesite_hit(source.spec_bytes(), tree@, k)));
        res
    }
}

// ─── Rule 22: csrf-exempt ──────────────────────────────────────────────────

pub open spec fn py_csrf_exempt_hit(src: Seq<u8>, t: Seq<NodeView>, i: int) -> Seq<FindingView> {
    if t[i].kind == "decorator"@ && contains_seq(node_text(src, t[i]), "csrf_exempt"@) {
        seq![finding_at_node("py/csrf-exempt"@, Severity::High, Some("CWE-352"@), "@csrf_exempt disables CSRF protection — prefer scoped exemptions or validated alternative controls"@, src, t[i])]
    } else {
        Seq::empty()
    }
}

pub struct CsrfExempt;

struct CsrfExemptCheck;

impl NodeCheck for CsrfExemptCheck {
    closed spec fn node_hits(&self, src: Seq<u8>, t: Seq<NodeView>, i: int) -> Seq<FindingView> {
        py_csrf_exempt_hit(src, t, i)
    }

    fn hits_at(&self, source: &str, tree: &SyntaxTree, i: usize) -> (res: Vec<Finding>) {
        let src = source.as_bytes();
        let mut out: Vec<Finding> = Vec::new();
        if tree.kind_is(i, "decorator") {
            let text = tree.text(src, i);
            if contains_str(text.as_slice(), "csrf_exempt") {
                out.push(
                        make_finding(
                            "py/csrf-exempt",
                            Severity::High,
                            Some("CWE-352"),
                            "@csrf_exempt disables CSRF protection — prefer scoped exemptions or validated alternative controls",
                            tree,
                            i,
                            source,
                        ),
                    );
            }
        }
        assert(finding_views(out@) =~= py_csrf_exempt_hit(src@, tree@, i as int));
        out
    }
}

impl Rule for CsrfExempt {
    fn id(&self) -> (res: &str)
        ensures
            res@ == "py/csrf-exempt"@,
    {
        "py/csrf-exempt"
    }

    fn severity(&self) -> (res: Severity)
        ensures
            res == Severity::High,
    {
        Severity::High
    }

    fn cwe(&self) -> (res: Option<&str>)
        ensures
            opt_str(res) == Some("CWE-352"@),
    {
        Some("CWE-352")
    }

    fn description(&self) -> (res: &str)
        ensures
            res@ == "View marked csrf_exempt"@,
    {
        "View marked csrf_exempt"
    }

    fn language(&self) -> (res: Language)
        ensures
            res == Language::Python,
    {
        Language::Python
    }

    fn check(&self, source: &str, tree: &SyntaxTree) -> (res: Vec<Finding>)
        ensures
            finding_views(res@) == collect_hits(
                tree@.len() as int,
                |k: int| py_csrf_exempt_hit(source.spec_bytes(), tree@, k),
            ),
    {
        let c = CsrfExemptCheck;
        let res = walk_tree(&c, source, tree);
        assert((|k: int| c.node_hits(source.spec_bytes(), tree@, k)) =~= (|k: int|
            py_csrf_exempt_hit(source.spec_bytes(), tree@, k)));
        res
    }
}

// ─── Rule 23: wtf-csrf-disabled ──────────────────────────────────────────────────────────────

pub open spec fn py_wtf_csrf_hit(src: Seq<u8>, t: Seq<NodeView>, i: int) -> Seq<FindingView> {
    match py_assign(src, t, i) {
        Some((l, r)) => if contains_seq(l, "WTF_CSRF_ENABLED"@) && r == "False"@ {
            seq![finding_at_node("py/wtf-csrf-disabled"@, Severity::High, Some("CWE-352"@), "Flask-WTF CSRF protection disabled — keep WTF_CSRF_ENABLED enabled"@, src, t[i])]
        } else {
            Seq::empty()
        },
        None => Seq::empty(),
    }
}

pub struct WtfCsrfDisabled;

struct WtfCsrfDisabledCheck;

impl NodeCheck for WtfCsrfDisabledCheck {
    closed spec fn node_hits(&self, src: Seq<u8>, t: Seq<NodeView>, i: int) -> Seq<FindingView> {
        py_wtf_csrf_hit(src, t, i)
    }

    fn hits_at(&self, source: &str, tree: &SyntaxTree, i: usize) -> (res: Vec<Finding>) {
        let mut out: Vec<Finding> = Vec::new();
        match py_assign_exec(tree, source.as_bytes(), i) {
            Some((l, r)) => {
                let ls = l.as_slice();
                let rs = r.as_slice();
                if contains_str(ls, "WTF_CSRF_ENABLED") && chars_eq_str(rs, "False") {
                    out.push(
                        make_finding(
                            "py/wtf-csrf-disabled",
                            Severity::High,
                            Some("CWE-352"),
                            "Flask-WTF CSRF protection disabled — keep WTF_CSRF_ENABLED enabled",
                            tree,
                            i,
                            source,
                        ),
                    );
                }
            },
            None => {},
        }
        assert(finding_views(out@) =~= py_wtf_csrf_hit(source.spec_bytes(), tree@, i as int));
        out
    }
}

impl Rule for WtfCsrfDisabled {
    fn id(&self) -> (res: &str)
        ensures
            res@ == "py/wtf-csrf-disabled"@,
    {
        "py/wtf-csrf-disabled"
    }

    fn severity(&self) -> (res: Severity)
        ensures
            res == Severity::High,
    {
        Severity::High
    }

    fn cwe(&self) -> (res: Option<&str>)
        ensures
            opt_str(res) == Some("CWE-352"@),
    {
        Some("CWE-352")
    }

    fn description(&self) -> (res: &str)
        ensures
            res@ == "Flask-WTF CSRF protection disabled in source code"@,
    {
        "Flask-WTF CSRF protection disabled in source code"
    }

    fn language(&self) -> (res: Language)
        ensures
            res == Language::Python,
    {
        Language::Python
    }

    fn check(&self, source: &str, tree: &SyntaxTree) -> (res: Vec<Finding>)
        ensures
            finding_views(res@) == collect_hits(
                tree@.len() as int,
                |k: int| py_wtf_csrf_hit(source.spec_bytes(), tree@, k),
            ),
    {
        let c = WtfCsrfDisabledCheck;
        let res = walk_tree(&c, source, tree);
        assert((|k: int| c.node_hits(source.spec_bytes(), tree@, k)) =~= (|k: int|
            py_wtf_csrf_hit(source.spec_bytes(), tree@, k)));
        res
    }
}

// ─── Rule 24: wtf-csrf-check-default-disabled ──────────────────────────────────────────────────────────────

pub open spec fn py_wtf_check_default_hit(src: Seq<u8>, t: Seq<NodeView>, i: int) -> Seq<FindingView> {
    match py_assign(src, t, i) {
        Some((l, r)) => if contains_seq(l, "WTF_CSRF_CHECK_DEFAULT"@) && r == "False"@ {
            seq![finding_at_node("py/wtf-csrf-check-default-disabled"@, Severity::High, Some("CWE-352"@), "Flask-WTF default CSRF checks disabled — keep WTF_CSRF_CHECK_DEFAULT enabled"@, src, t[i])]
        } else {
            Seq::empty()
        },
        None => Seq::empty(),
    }
}

pub struct WtfCsrfCheckDefaultDisabled;

struct WtfCsrfCheckDefaultDisabledCheck;

impl NodeCheck for WtfCsrfCheckDefaultDisabledCheck {
    closed spec fn node_hits(&self, src: Seq<u8>, t: Seq<NodeView>, i: int) -> Seq<FindingView> {
        py_wtf_check_default_hit(src, t, i)
    }

    fn hits_at(&self, source: &str, tree: &SyntaxTree, i: usize) -> (res: Vec<Finding>) {
        let mut out: Vec<Finding> = Vec::new();
        match py_assign_exec(tree, source.as_bytes(), i) {
            Some((l, r)) => {
                let ls = l.as_slice();
                let rs = r.as_slice();
                if contains_str(ls, "WTF_CSRF_CHECK_DEFAULT") && chars_eq_str(rs, "False") {
                    out.push(
                        make_finding(
                            "py/wtf-csrf-check-default-disabled",
                            Severity::High,
                            Some("CWE-352"),
                            "Flask-WTF default CSRF checks disabled — keep WTF_CSRF_CHECK_DEFAULT enabled",
                            tree,
                            i,
                            source,
                        ),
                    );
                }
            },
            None => {},
        }
        assert(finding_views(out@) =~= py_wtf_check_default_hit(source.spec_bytes(), tree@, i as int));
        out
    }
}

impl Rule for WtfCsrfCheckDefaultDisabled {
    fn id(&self) -> (res: &str)
        ensures
            res@ == "py/wtf-csrf-check-default-disabled"@,
    {
        "py/wtf-csrf-check-default-disabled"
    }

    fn severity(&self) -> (res: Severity)
        ensures
            res == Severity::High,
    {
        Severity::High
    }

    fn cwe(&self) -> (res: Option<&str>)
        ensures
            opt_str(res) == Some("CWE-352"@),
    {
        Some("CWE-352")
    }

    fn description(&self) -> (res: &str)
        ensures
            res@ == "Flask-WTF default CSRF checks disabled in source code"@,
    {
        "Flask-WTF default CSRF checks disabled in source code"
    }

    fn language(&self) -> (res: Language)
        ensures
            res == Language::Python,
    {
        Language::Python
    }

    fn check(&self, source: &str, tree: &SyntaxTree) -> (res: Vec<Finding>)
        ensures
            finding_views(res@) == collect_hits(
                tree@.len() as int,
                |k: int| py_wtf_check_default_hit(source.spec_bytes(), tree@, k),
            ),
    {
        let c = WtfCsrfCheckDefaultDisabledCheck;
        let res = walk_tree(&c, source, tree);
        assert((|k: int| c.node_hits(source.spec_bytes(), tree@, k)) =~= (|k: int|
            py_wtf_check_default_hit(source.spec_bytes(), tree@, k)));
        res
    }
}

// ─── Rule 25: django-allowed-hosts-wildcard ──────────────────────────────────────────────────────────────

pub open spec fn py_allowed_hosts_hit(src: Seq<u8>, t: Seq<NodeView>, i: int) -> Seq<FindingView> {
    match py_assign(src, t, i) {
        Some((l, r)) => if contains_seq(l, "ALLOWED_HOSTS"@) && contains_seq(r, "\"*\""@) {
            seq![finding_at_node("py/django-allowed-hosts-wildcard"@, Severity::Medium, Some("CWE-346"@), "Django ALLOWED_HOSTS contains '*' — restrict hostnames explicitly to reduce host header abuse risk"@, src, t[i])]
        } else {
            Seq::empty()
        },
        None => Seq::empty(),
    }
}

pub struct DjangoAllowedHostsWildcard;

struct DjangoAllowedHostsWildcardCheck;

impl NodeCheck for DjangoAllowedHostsWildcardCheck {
    closed spec fn node_hits(&self, src: Seq<u8>, t: Seq<NodeView>, i: int) -> Seq<FindingView> {
        py_allowed_hosts_hit(src, t, i)
    }

    fn hits_at(&self, source: &str, tree: &SyntaxTree, i: usize) -> (res: Vec<Finding>) {
        let mut out: Vec<Finding> = Vec::new();
        match py_assign_exec(tree, source.as_bytes(), i) {
            Some((l, r)) => {
                let ls = l.as_slice();
                let rs = r.as_slice();
                if contains_str(ls, "ALLOWED_HOSTS") && contains_str(rs, "\"*\"") {
                    out.push(
                        make_finding(
                            "py/django-allowed-hosts-wildcard",
                            Severity::Medium,
                            Some("CWE-346"),
                            "Django ALLOWED_HOSTS contains '*' — restrict hostnames explicitly to reduce host header abuse risk",
                            tree,
                            i,
                            source,
                        ),
                    );
                }
            },
            None => {},
        }
        assert(finding_views(out@) =~= py_allowed_hosts_hit(source.spec_bytes(), tree@, i as int));
        out
    }
}

impl Rule for DjangoAllowedHostsWildcard {
    fn id(&self) -> (res: &str)
        ensures
            res@ == "py/django-allowed-hosts-wildcard"@,
    {
        "py/django-allowed-hosts-wildcard"
    }

    fn severity(&self) -> (res: Severity)
        ensures
            res == Severity::Medium,
    {
        Severity::Medium
    }

    fn cwe(&self) -> (res: Option<&str>)
        ensures
            opt_str(res) == Some("CWE-346"@),
    {
        Some("CWE-346")
    }

    fn description(&self) -> (res: &str)
        ensures
            res@ == "Django ALLOWED_HOSTS allows all hosts"@,
    {
        "Django ALLOWED_HOSTS allows all hosts"
    }

    fn language(&self) -> (res: Language)
        ensures
            res == Language::Python,
    {
        Language::Python
    }

    fn check(&self, source: &str, tree: &SyntaxTree) -> (res: Vec<Finding>)
        ensures
            finding_views(res@) == collect_hits(
                tree@.len() as int,
                |k: int| py_allowed_hosts_hit(source.spec_bytes(), tree@, k),
            ),
    {
        let c = DjangoAllowedHostsWildcardCheck;
        let res = walk_tree(&c, source, tree);
        assert((|k: int| c.node_hits(source.spec_bytes(), tree@, k)) =~= (|k: int|
            py_allowed_hosts_hit(source.spec_bytes(), tree@, k)));
        res
    }
}

// ─── Rule 26: secure-ssl-redirect-disabled ──────────────────────────────────────────────────────────────

pub open spec fn py_ssl_redirect_hit(src: Seq<u8>, t: Seq<NodeView>, i: int) -> Seq<FindingView> {
    match py_assign(src, t, i) {
        Some((l, r)) => if contains_seq(l, "SECURE_SSL_REDIRECT"@) && r == "False"@ {
            seq![finding_at_node("py/secure-ssl-redirect-disabled"@, Severity::Medium, Some("CWE-319"@), "SECURE_SSL_REDIRECT = False — enable HTTPS redirect in production-facing Django deployments"@, src, t[i])]
        } else {
            Seq::empty()
        },
        None => Seq::empty(),
    }
}

pub struct SecureSslRedirectDisabled;

struct SecureSslRedirectDisabledCheck;

impl NodeCheck for SecureSslRedirectDisabledCheck {
    closed spec fn node_hits(&self, src: Seq<u8>, t: Seq<NodeView>, i: int) -> Seq<FindingView> {
        py_ssl_redirect_hit(src, t, i)
    }

    fn hits_at(&self, source: &str, tree: &SyntaxTree, i: usize) -> (res: Vec<Finding>) {
        let mut out: Vec<Finding> = Vec::new();
        match py_assign_exec(tree, source.as_bytes(), i) {
            Some((l, r)) => {
                let ls = l.as_slice();
                let rs = r.as_slice();
                if contains_str(ls, "SECURE_SSL_REDIRECT") && chars_eq_str(rs, "False") {
                    out.push(
                        make_finding(
                            "py/secure-ssl-redirect-disabled",
                            Severity::Medium,
                            Some("CWE-319"),
                            "SECURE_SSL_REDIRECT = False — enable HTTPS redirect in production-facing Django deployments",
                            tree,
                            i,
                            source,
                        ),
                    );
                }
            },
            None => {},
        }
        assert(finding_views(out@) =~= py_ssl_redirect_hit(source.spec_bytes(), tree@, i as int));
        out
    }
}

impl Rule for SecureSslRedirectDisabled {
    fn id(&self) -> (res: &str)
        ensures
            res@ == "py/secure-ssl-redirect-disabled"@,
    {
        "py/secure-ssl-redirect-disabled"
    }

    fn severity(&self) -> (res: Severity)
        ensures
            res == Severity::Medium,
    {
        Severity::Medium
    }

    fn cwe(&self) -> (res: Option<&str>)
        ensures
            opt_str(res) == Some("CWE-319"@),
    {
        Some("CWE-319")
    }

    fn description(&self) -> (res: &str)
        ensures
            res@ == "Django SECURE_SSL_REDIRECT disabled in source code"@,
    {
        "Django SECURE_SSL_REDIRECT disabled in source code"
    }

    fn language(&self) -> (res: Language)
        ensures
            res == Language::Python,
    {
        Language::Python
    }

    fn check(&self, source: &str, tree: &SyntaxTree) -> (res: Vec<Finding>)
        ensures
            finding_views(res@) == collect_hits(
                tree@.len() as int,
                |k: int| py_ssl_redirect_hit(source.spec_bytes(), tree@, k),
            ),
    {
        let c = SecureSslRedirectDisabledCheck;
        let res = walk_tree(&c, source, tree);
        assert((|k: int| c.node_hits(source.spec_bytes(), tree@, k)) =~= (|k: int|
            py_ssl_redirect_hit(source.spec_bytes(), tree@, k)));
        res
    }
}

} // verus!

verus! {

// ─── Laws ─────────────────────────────────────────────────────────────────

/// The callees the command-injection rule watches are exactly `os.system`,
/// `os.popen`, `subprocess.call`, `subprocess.run`, `subprocess.Popen`,
/// `subprocess.check_output` and `subprocess.check_call`.
pub proof fn law_command_runners_watched(callee: Seq<char>)
    ensures
        py_command_fns().contains(callee) <==> (callee == "os.system"@ || callee == "os.popen"@ || callee
            == "subprocess.call"@ || callee == "subprocess.run"@ || callee == "subprocess.Popen"@ || callee
            == "subprocess.check_output"@ || callee == "subprocess.check_call"@),
{
    let l = py_command_fns();
    assert(l[0] == "os.system"@ && l[1] == "os.popen"@ && l[2] == "subprocess.call"@);
    assert(l[3] == "subprocess.run"@ && l[4] == "subprocess.Popen"@);
    assert(l[5] == "subprocess.check_output"@ && l[6] == "subprocess.check_call"@);
    if l.contains(callee) {
        let m = choose|m: int| 0 <= m < l.len() && l[m] == callee;
        assert(0 <= m < 7);
    }
}

/// The callees the path-traversal rule watches are exactly `open`,
/// `os.remove`, `os.unlink`, `os.listdir` and `os.scandir`.
pub proof fn law_path_functions_watched(callee: Seq<char>)
    ensures
        py_path_fns().contains(callee) <==> (callee == "open"@ || callee == "os.remove"@ || callee
            == "os.unlink"@ || callee == "os.listdir"@ || callee == "os.scandir"@),
{
    let l = py_path_fns();
    assert(l[0] == "open"@ && l[1] == "os.remove"@ && l[2] == "os.unlink"@);
    assert(l[3] == "os.listdir"@ && l[4] == "os.scandir"@);
    if l.contains(callee) {
        let m = choose|m: int| 0 <= m < l.len() && l[m] == callee;
        assert(0 <= m < 5);
    }
}

/// The callees the SSRF rule watches are exactly `requests.get`, `.post`,
/// `.put`, `.delete`, `.head`, `.patch` and `.request`, `httpx.get`,
/// `.post`, `.put`, `.delete` and `.request`, and
/// `urllib.request.urlopen`.
pub proof fn law_request_functions_watched(callee: Seq<char>)
    ensures
        py_request_fns().contains(callee) <==> (callee == "requests.get"@ || callee == "requests.post"@
            || callee == "requests.put"@ || callee == "requests.delete"@ || callee == "requests.head"@
            || callee == "requests.patch"@ || callee == "requests.request"@ || callee == "httpx.get"@
            || callee == "httpx.post"@ || callee == "httpx.put"@ || callee == "httpx.delete"@ || callee
            == "httpx.request"@ || callee == "urllib.request.urlopen"@),
{
    let l = py_request_fns();
    assert(l[0] == "requests.get"@ && l[1] == "requests.post"@ && l[2] == "requests.put"@);
    assert(l[3] == "requests.delete"@ && l[4] == "requests.head"@ && l[5] == "requests.patch"@);
    assert(l[6] == "requests.request"@ && l[7] == "httpx.get"@ && l[8] == "httpx.post"@);
    assert(l[9] == "httpx.put"@ && l[10] == "httpx.delete"@ && l[11] == "httpx.request"@);
    assert(l[12] == "urllib.request.urlopen"@);
    if l.contains(callee) {
        let m = choose|m: int| 0 <= m < l.len() && l[m] == callee;
        assert(0 <= m < 13);
    }
}

/// `pickle.loads`, `pickle.load`, `cPickle.loads` and `cPickle.load` are the
/// calls the pickle rule watches, and only they: a call to one of them gives
/// exactly one high-severity `py/no-pickle` finding (CWE-502) at the call,
/// saying that `<callee>()` deserializes untrusted data, and the whole-file
/// check reports it; a call to any other callee gives none.
pub proof fn law_pickle_loaders_reported(src: Seq<u8>, t: Seq<NodeView>, i: int, callee: Seq<char>)
    requires
        0 <= i < t.len(),
        py_callee(src, t, i) == Some(callee),
    ensures
        (callee == "pickle.loads"@ || callee == "pickle.load"@ || callee == "cPickle.loads"@
            || callee == "cPickle.load"@) <==> py_pickle_hit(src, t, i).len() == 1,
        !(callee == "pickle.loads"@ || callee == "pickle.load"@ || callee == "cPickle.loads"@
            || callee == "cPickle.load"@) ==> py_pickle_hit(src, t, i).len() == 0,
        py_pickle_hit(src, t, i).len() == 1 ==> ({
            let f = py_pickle_hit(src, t, i)[0];
            &&& f.rule_id == "py/no-pickle"@
            &&& f.severity == Severity::High
            &&& f.cwe == Some("CWE-502"@)
            &&& f.description == callee + "() deserializes untrusted data — can execute arbitrary code"@
            &&& f.line == t[i].start_row + 1
            &&& f.column == t[i].start_column + 1
            &&& collect_hits(t.len() as int, |k: int| py_pickle_hit(src, t, k)).contains(f)
        }),
{
    let fns = py_pickle_fns();
    let named = callee == "pickle.loads"@ || callee == "pickle.load"@ || callee == "cPickle.loads"@
        || callee == "cPickle.load"@;
    if named {
        if callee == "pickle.loads"@ {
            assert(fns[0] == callee);
        } else if callee == "pickle.load"@ {
            assert(fns[1] == callee);
        } else if callee == "cPickle.loads"@ {
            assert(fns[2] == callee);
        } else {
            assert(fns[3] == callee);
        }
        assert(fns.contains(callee));
    } else if fns.contains(callee) {
        let m = choose|m: int| 0 <= m < fns.len() && fns[m] == callee;
        assert(m == 0 || m == 1 || m == 2 || m == 3);
        assert(false);
    }
    if py_pickle_hit(src, t, i).len() == 1 {
        crate::rules::common::lemma_collect_hits_keeps(
            t.len() as int,
            |k: int| py_pickle_hit(src, t, k),
            i,
            0,
        );
    }
}

} // verus!
