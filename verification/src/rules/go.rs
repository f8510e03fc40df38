//! Go rules: conservative sink rules over the syntax tree, a text rule,
//! and the taint rules that consume [`super::go_taint`].

use vstd::prelude::*;
use vstd::string::*;
use crate::pattern::{compile, is_match, find_all, regex_compiles, regex_is_match, regex_find_all, Pattern};
use crate::rules::common::{
    make_finding, make_finding_from_offsets, get_source_line, finding_at_node, finding_at_offsets,
    collect_hits, field_text_is, opt_str, source_line, walk_tree, NodeCheck,
};
use crate::rules::go_taint::{
    self, go_taint_sources, go_sources_spec, analyze, opt_chars, aliases_of, taint_views, Ctx,
    GoImportAliases, MatcherView, SpecView, TaintFinding, TaintFindingView,
    NodeMatcher as GoNodeMatcher, TaintSpec as GoTaintSpec,
};
use crate::rules::{FileContext, Rule};
use crate::text::{
    join2, join3,
    chars_of, contains_str, has_char_exec, has_char, contains_seq, string_of_chars, trim_chars,
    trim_set, push_chars, push_str, utf8_len, utf8_len_at_least, TrimSet,
};
use crate::tree::{NodeView, SyntaxTree, field_child, field_text, named_child, node_text, node_wf, tree_wf};
use crate::types::{finding_views, Finding, FindingView, Language, Severity};

verus! {

pub open spec fn is_go_string(k: Seq<char>) -> bool {
    k == "interpreted_string_literal"@ || k == "raw_string_literal"@
}

fn is_go_string_exec(tree: &SyntaxTree, i: usize) -> (res: bool)
    requires
        i < tree@.len(),
    ensures
        res == is_go_string(tree@[i as int].kind),
{
    tree.kind_is(i, "interpreted_string_literal") || tree.kind_is(i, "raw_string_literal")
}

/// The callee text of node `i` when it is a `call_expression`.
pub open spec fn callee_of(src: Seq<u8>, t: Seq<NodeView>, i: int) -> Option<Seq<char>> {
    if t[i].kind == "call_expression"@ {
        field_text(src, t, i, "function"@)
    } else {
        None
    }
}

fn callee_exec(tree: &SyntaxTree, src: &[u8], i: usize) -> (res: Option<Vec<char>>)
    requires
        i < tree@.len(),
    ensures
        opt_chars(res) == callee_of(src@, tree@, i as int),
{
    if tree.kind_is(i, "call_expression") {
        tree.field_text(src, i, "function")
    } else {
        None
    }
}

// ─── Rule 1: no-sql-injection ───────────────────────────────────────────────

pub const GO_SQL_PATTERN: &'static str = r"(?i)(SELECT\s+.{0,40}\s+FROM|INSERT\s+INTO|UPDATE\s+.{0,40}\s+SET|DELETE\s+FROM|DROP\s+TABLE|ALTER\s+TABLE|CREATE\s+TABLE|EXEC\s+)";

pub struct NoSqlInjection;

pub open spec fn go_sql_finding(src: Seq<u8>, n: NodeView, msg: Seq<char>) -> FindingView {
    finding_at_node("go/no-sql-injection"@, Severity::Critical, Some("CWE-89"@), msg, src, n)
}

pub open spec fn go_sql_hit(src: Seq<u8>, t: Seq<NodeView>, p: Seq<char>, i: int) -> Seq<FindingView> {
    let concat = if t[i].kind == "binary_expression"@ && has_char(node_text(src, t[i]), '+') && (
    match field_child(t, i, "left"@) {
        Some(l) => is_go_string(t[l as int].kind) && regex_is_match(p, node_text(src, t[l as int])),
        None => false,
    }) {
        seq![
            go_sql_finding(
                src,
                t[i],
                "SQL query built with string concatenation — use parameterized queries"@,
            ),
        ]
    } else {
        Seq::empty()
    };
    let sprintf = if callee_of(src, t, i) == Some("fmt.Sprintf"@) && (match field_child(
        t,
        i,
        "arguments"@,
    ) {
        Some(a) => match named_child(t, a as int, 0) {
            Some(f) => is_go_string(t[f as int].kind) && regex_is_match(p, node_text(src, t[f as int])),
            None => false,
        },
        None => false,
    }) {
        seq![
            go_sql_finding(
                src,
                t[i],
                "SQL query built with fmt.Sprintf — use parameterized queries"@,
            ),
        ]
    } else {
        Seq::empty()
    };
    concat + sprintf
}

struct SqlCheck {
    p: Pattern,
}

impl NodeCheck for SqlCheck {
    closed spec fn node_hits(&self, src: Seq<u8>, t: Seq<NodeView>, i: int) -> Seq<FindingView> {
        go_sql_hit(src, t, self.p.spec_source(), i)
    }

    fn hits_at(&self, source: &str, tree: &SyntaxTree, i: usize) -> (res: Vec<Finding>) {
        let p = &self.p;
        let src = source.as_bytes();
        let mut out: Vec<Finding> = Vec::new();
        if tree.kind_is(i, "binary_expression") {
            let text = tree.text(src, i);
            if has_char_exec(text.as_slice(), '+') {
                match tree.child_by_field(i, "left") {
                    Some(l) => {
                        if is_go_string_exec(tree, l) {
                            let lt = tree.text(src, l);
                            if is_match(p, string_of_chars(lt.as_slice()).as_str()) {
                                out.push(
                                    make_finding(
                                        "go/no-sql-injection",
                                        Severity::Critical,
                                        Some("CWE-89"),
                                        "SQL query built with string concatenation — use parameterized queries",
                                        tree,
                                        i,
                                        source,
                                    ),
                                );
                            }
                        }
                    },
                    None => {},
                }
            }
        }
        let is_sprintf = match callee_exec(tree, src, i) {
            Some(c) => crate::text::chars_eq_str(c.as_slice(), "fmt.Sprintf"),
            None => false,
        };
        if is_sprintf {
            match tree.child_by_field(i, "arguments") {
                Some(a) => {
                    match tree.named_child(a, 0) {
                        Some(f) => {
                            if is_go_string_exec(tree, f) {
                                let ft = tree.text(src, f);
                                if is_match(p, string_of_chars(ft.as_slice()).as_str()) {
                                    out.push(
                                        make_finding(
                                            "go/no-sql-injection",
                                            Severity::Critical,
                                            Some("CWE-89"),
                                            "SQL query built with fmt.Sprintf — use parameterized queries",
                                            tree,
                                            i,
                                            source,
                                        ),
                                    );
                                }
                            }
                        },
                        None => {},
                    }
                },
                None => {},
            }
        }
        assert(finding_views(out@) =~= go_sql_hit(source.spec_bytes(), tree@, p.spec_source(), i as int));
        out
    }
}

impl Rule for NoSqlInjection {
    fn id(&self) -> (res: &str)
        ensures
            res@ == "go/no-sql-injection"@,
    {
        "go/no-sql-injection"
    }

    fn severity(&self) -> (res: Severity)
        ensures
            res == Severity::Critical,
    {
        Severity::Critical
    }

    fn cwe(&self) -> (res: Option<&str>)
        ensures
            opt_str(res) == Some("CWE-89"@),
    {
        Some("CWE-89")
    }

    fn description(&self) -> (res: &str)
        ensures
            res@ == "Potential SQL injection via string concatenation or fmt.Sprintf"@,
    {
        "Potential SQL injection via string concatenation or fmt.Sprintf"
    }

    fn language(&self) -> (res: Language)
        ensures
            res == Language::Go,
    {
        Language::Go
    }

    fn check(&self, source: &str, tree: &SyntaxTree) -> (res: Vec<Finding>)
        ensures
            finding_views(res@) == (if regex_compiles(GO_SQL_PATTERN@) {
                collect_hits(
                    tree@.len() as int,
                    |k: int| go_sql_hit(source.spec_bytes(), tree@, GO_SQL_PATTERN@, k),
                )
            } else {
                Seq::empty()
            }),
    {
        match compile(GO_SQL_PATTERN) {
            Some(p) => {
                let c = SqlCheck { p };
                let res = walk_tree(&c, source, tree);
                assert((|k: int| c.node_hits(source.spec_bytes(), tree@, k)) =~= (|k: int|
                    go_sql_hit(source.spec_bytes(), tree@, GO_SQL_PATTERN@, k)));
                res
            },
            None => {
                let v: Vec<Finding> = Vec::new();
                assert(finding_views(v@) =~= Seq::<FindingView>::empty());
                v
            },
        }
    }
}

} // verus!

verus! {

/// The `n`-th named argument of call node `i`.
pub open spec fn call_arg(t: Seq<NodeView>, i: int, n: int) -> Option<usize> {
    match field_child(t, i, "arguments"@) {
        Some(a) => named_child(t, a as int, n),
        None => None,
    }
}

fn call_arg_exec(tree: &SyntaxTree, i: usize, n: usize) -> (res: Option<usize>)
    requires
        i < tree@.len(),
    ensures
        res == call_arg(tree@, i as int, n as int),
        res matches Some(c) ==> c < tree@.len(),
{
    match tree.child_by_field(i, "arguments") {
        Some(a) => tree.named_child(a, n),
        None => None,
    }
}

/// Whether the `n`-th named argument of call `i` exists and is not a string
/// literal.
pub open spec fn dynamic_arg(t: Seq<NodeView>, i: int, n: int) -> bool {
    match call_arg(t, i, n) {
        Some(f) => !is_go_string(t[f as int].kind),
        None => false,
    }
}

fn dynamic_arg_exec(tree: &SyntaxTree, i: usize, n: usize) -> (res: bool)
    requires
        i < tree@.len(),
    ensures
        res == dynamic_arg(tree@, i as int, n as int),
{
    match call_arg_exec(tree, i, n) {
        Some(f) => !is_go_string_exec(tree, f),
        None => false,
    }
}

// ─── Rule 2: no-command-injection ───────────────────────────────────────────

pub struct NoCommandInjection;

pub open spec fn go_cmd_hit(src: Seq<u8>, t: Seq<NodeView>, i: int) -> Seq<FindingView> {
    match callee_of(src, t, i) {
        Some(c) => if (c == "exec.Command"@ || c == "exec.CommandContext"@) && dynamic_arg(t, i, 0) {
            seq![
                finding_at_node(
                    "go/no-command-injection"@,
                    Severity::Critical,
                    Some("CWE-78"@),
                    "exec.Command called with dynamic argument — risk of command injection"@,
                    src,
                    t[i],
                ),
            ]
        } else {
            Seq::empty()
        },
        None => Seq::empty(),
    }
}

struct CmdCheck;

impl NodeCheck for CmdCheck {
    closed spec fn node_hits(&self, src: Seq<u8>, t: Seq<NodeView>, i: int) -> Seq<FindingView> {
        go_cmd_hit(src, t, i)
    }

    fn hits_at(&self, source: &str, tree: &SyntaxTree, i: usize) -> (res: Vec<Finding>) {
        let mut out: Vec<Finding> = Vec::new();
        match callee_exec(tree, source.as_bytes(), i) {
            Some(c) => {
                let cs = c.as_slice();
                if (crate::text::chars_eq_str(cs, "exec.Command") || crate::text::chars_eq_str(
                    cs,
                    "exec.CommandContext",
                )) && dynamic_arg_exec(tree, i, 0) {
                    out.push(
                        make_finding(
                            "go/no-command-injection",
                            Severity::Critical,
                            Some("CWE-78"),
                            "exec.Command called with dynamic argument — risk of command injection",
                            tree,
                            i,
                            source,
                        ),
                    );
                }
            },
            None => {},
        }
        assert(finding_views(out@) =~= go_cmd_hit(source.spec_bytes(), tree@, i as int));
        out
    }
}

impl Rule for NoCommandInjection {
    fn id(&self) -> (res: &str)
        ensures
            res@ == "go/no-command-injection"@,
    {
        "go/no-command-injection"
    }

    fn severity(&self) -> (res: Severity)
        ensures
            res == Severity::Critical,
    {
        Severity::Critical
    }

    fn cwe(&self) -> (res: Option<&str>)
        ensures
            opt_str(res) == Some("CWE-78"@),
    {
        Some("CWE-78")
    }

    fn description(&self) -> (res: &str)
        ensures
            res@ == "Potential command injection via exec.Command with dynamic input"@,
    {
        "Potential command injection via exec.Command with dynamic input"
    }

    fn language(&self) -> (res: Language)
        ensures
            res == Language::Go,
    {
        Language::Go
    }

    fn check(&self, source: &str, tree: &SyntaxTree) -> (res: Vec<Finding>)
        ensures
            finding_views(res@) == collect_hits(
                tree@.len() as int,
                |k: int| go_cmd_hit(source.spec_bytes(), tree@, k),
            ),
    {
        let c = CmdCheck;
        let res = walk_tree(&c, source, tree);
        assert((|k: int| c.node_hits(source.spec_bytes(), tree@, k)) =~= (|k: int|
            go_cmd_hit(source.spec_bytes(), tree@, k)));
        res
    }
}

// ─── Rule 3: no-hardcoded-secret ────────────────────────────────────────────

pub const GO_SECRET_PATTERN: &'static str = r"(?i)(password|secret|api_?key|token|auth|credential|private_?key)";

pub struct NoHardcodedSecret;

/// The node holding the value: the first named child of `v`, or `v`.
pub open spec fn value_node(t: Seq<NodeView>, v: int) -> int {
    match named_child(t, v, 0) {
        Some(c) => c as int,
        None => v,
    }
}

/// The value is a string literal whose contents, quotes and backticks
/// trimmed, take at least four bytes.
pub open spec fn secret_value(src: Seq<u8>, t: Seq<NodeView>, v: int) -> bool {
    let vn = value_node(t, v);
    is_go_string(t[vn].kind) && utf8_len(trim_set(node_text(src, t[vn]), TrimSet::QuoteOrBacktick))
        >= 4
}

pub open spec fn secret_message(name: Seq<char>) -> Seq<char> {
    "Hardcoded secret in '"@ + name + "' — use environment variables"@
}

pub open spec fn go_secret_finding(src: Seq<u8>, n: NodeView, name: Seq<char>) -> FindingView {
    finding_at_node(
        "go/no-hardcoded-secret"@,
        Severity::High,
        Some("CWE-798"@),
        secret_message(name),
        src,
        n,
    )
}

pub open spec fn go_secret_hit(src: Seq<u8>, t: Seq<NodeView>, p: Seq<char>, i: int) -> Seq<
    FindingView,
> {
    if t[i].kind == "short_var_declaration"@ {
        match (field_child(t, i, "left"@), field_child(t, i, "right"@)) {
            (Some(l), Some(r)) => {
                let lt = node_text(src, t[l as int]);
                if regex_is_match(p, lt) && secret_value(src, t, r as int) {
                    seq![go_secret_finding(src, t[i], trim_set(lt, TrimSet::Whitespace))]
                } else {
                    Seq::empty()
                }
            },
            _ => Seq::empty(),
        }
    } else if t[i].kind == "var_spec"@ || t[i].kind == "const_spec"@ {
        match field_child(t, i, "name"@) {
            Some(nm) => {
                let name = node_text(src, t[nm as int]);
                if regex_is_match(p, name) {
                    match field_child(t, i, "value"@) {
                        Some(v) => if secret_value(src, t, v as int) {
                            seq![go_secret_finding(src, t[i], name)]
                        } else {
                            Seq::empty()
                        },
                        None => Seq::empty(),
                    }
                } else {
                    Seq::empty()
                }
            },
            None => Seq::empty(),
        }
    } else {
        Seq::empty()
    }
}

fn secret_value_exec(tree: &SyntaxTree, src: &[u8], v: usize) -> (res: bool)
    requires
        v < tree@.len(),
    ensures
        res == secret_value(src@, tree@, v as int),
{
    let vn = match tree.named_child(v, 0) {
        Some(c) => c,
        None => v,
    };
    if !is_go_string_exec(tree, vn) {
        return false;
    }
    let text = tree.text(src, vn);
    let inner = trim_chars(text.as_slice(), TrimSet::QuoteOrBacktick);
    utf8_len_at_least(inner.as_slice(), 4)
}

struct SecretCheck {
    p: Pattern,
}

impl NodeCheck for SecretCheck {
    closed spec fn node_hits(&self, src: Seq<u8>, t: Seq<NodeView>, i: int) -> Seq<FindingView> {
        go_secret_hit(src, t, self.p.spec_source(), i)
    }

    fn hits_at(&self, source: &str, tree: &SyntaxTree, i: usize) -> (res: Vec<Finding>) {
        let src = source.as_bytes();
        let mut out: Vec<Finding> = Vec::new();
        if tree.kind_is(i, "short_var_declaration") {
            match (tree.child_by_field(i, "left"), tree.child_by_field(i, "right")) {
                (Some(l), Some(r)) => {
                    let lt = tree.text(src, l);
                    if is_match(&self.p, string_of_chars(lt.as_slice()).as_str())
                        && secret_value_exec(tree, src, r) {
                        let name = trim_chars(lt.as_slice(), TrimSet::Whitespace);
                        let msg = join3("Hardcoded secret in '", name.as_slice(), "' — use environment variables");
                        out.push(
                            make_finding(
                                "go/no-hardcoded-secret",
                                Severity::High,
                                Some("CWE-798"),
                                msg.as_str(),
                                tree,
                                i,
                                source,
                            ),
                        );
                    }
                },
                _ => {},
            }
        } else if tree.kind_is(i, "var_spec") || tree.kind_is(i, "const_spec") {
            match tree.child_by_field(i, "name") {
                Some(nm) => {
                    let name = tree.text(src, nm);
                    if is_match(&self.p, string_of_chars(name.as_slice()).as_str()) {
                        match tree.child_by_field(i, "value") {
                            Some(v) => {
                                if secret_value_exec(tree, src, v) {
                                    let msg = join3(
                                        "Hardcoded secret in '",
                                        name.as_slice(),
                                        "' — use environment variables",
                                    );
                                    out.push(
                                        make_finding(
                                            "go/no-hardcoded-secret",
                                            Severity::High,
                                            Some("CWE-798"),
                                            msg.as_str(),
                                            tree,
                                            i,
                                            source,
                                        ),
                                    );
                                }
                            },
                            None => {},
                        }
                    }
                },
                None => {},
            }
        }
        assert(finding_views(out@) =~= go_secret_hit(
            source.spec_bytes(),
            tree@,
            self.p.spec_source(),
            i as int,
        ));
        out
    }
}

impl Rule for NoHardcodedSecret {
    fn id(&self) -> (res: &str)
        ensures
            res@ == "go/no-hardcoded-secret"@,
    {
        "go/no-hardcoded-secret"
    }

    fn severity(&self) -> (res: Severity)
        ensures
            res == Severity::High,
    {
        Severity::High
    }

    fn cwe(&self) -> (res: Option<&str>)
        ensures
            opt_str(res) == Some("CWE-798"@),
    {
        Some("CWE-798")
    }

    fn description(&self) -> (res: &str)
        ensures
            res@ == "Hardcoded secret or credential detected"@,
    {
        "Hardcoded secret or credential detected"
    }

    fn language(&self) -> (res: Language)
        ensures
            res == Language::Go,
    {
        Language::Go
    }

    fn check(&self, source: &str, tree: &SyntaxTree) -> (res: Vec<Finding>)
        ensures
            finding_views(res@) == (if regex_compiles(GO_SECRET_PATTERN@) {
                collect_hits(
                    tree@.len() as int,
                    |k: int| go_secret_hit(source.spec_bytes(), tree@, GO_SECRET_PATTERN@, k),
                )
            } else {
                Seq::empty()
            }),
    {
        match compile(GO_SECRET_PATTERN) {
            Some(p) => {
                let c = SecretCheck { p };
                let res = walk_tree(&c, source, tree);
                assert((|k: int| c.node_hits(source.spec_bytes(), tree@, k)) =~= (|k: int|
                    go_secret_hit(source.spec_bytes(), tree@, GO_SECRET_PATTERN@, k)));
                res
            },
            None => {
                let v: Vec<Finding> = Vec::new();
                assert(finding_views(v@) =~= Seq::<FindingView>::empty());
                v
            },
        }
    }
}

} // verus!

verus! {

// ─── Rule 4: no-weak-crypto ────────────────────────────────────────────────

pub struct NoWeakCrypto;

pub open spec fn go_weak_crypto_finding(src: Seq<u8>, n: NodeView, msg: Seq<char>) -> FindingView {
    finding_at_node("go/no-weak-crypto"@, Severity::Medium, Some("CWE-327"@), msg, src, n)
}

pub open spec fn go_weak_crypto_hit(src: Seq<u8>, t: Seq<NodeView>, i: int) -> Seq<FindingView> {
    let call = match callee_of(src, t, i) {
        Some(c) => if c == "md5.New"@ || c == "md5.Sum"@ {
            seq![
                go_weak_crypto_finding(
                    src,
                    t[i],
                    "MD5 is cryptographically weak — use SHA-256 or stronger"@,
                ),
            ]
        } else if c == "sha1.New"@ || c == "sha1.Sum"@ {
            seq![
                go_weak_crypto_finding(
                    src,
                    t[i],
                    "SHA1 is cryptographically weak — use SHA-256 or stronger"@,
                ),
            ]
        } else {
            Seq::empty()
        },
        None => Seq::empty(),
    };
    let import = if t[i].kind == "import_spec"@ {
        match field_text(src, t, i, "path"@) {
            Some(p) => if p == "\"crypto/md5\""@ {
                seq![
                    go_weak_crypto_finding(
                        src,
                        t[i],
                        "Import of weak crypto package MD5 — use crypto/sha256 or stronger"@,
                    ),
                ]
            } else if p == "\"crypto/sha1\""@ {
                seq![
                    go_weak_crypto_finding(
                        src,
                        t[i],
                        "Import of weak crypto package SHA1 — use crypto/sha256 or stronger"@,
                    ),
                ]
            } else {
                Seq::empty()
            },
            None => Seq::empty(),
        }
    } else {
        Seq::empty()
    };
    call + import
}

struct WeakCryptoCheck;

impl NodeCheck for WeakCryptoCheck {
    closed spec fn node_hits(&self, src: Seq<u8>, t: Seq<NodeView>, i: int) -> Seq<FindingView> {
        go_weak_crypto_hit(src, t, i)
    }

    fn hits_at(&self, source: &str, tree: &SyntaxTree, i: usize) -> (res: Vec<Finding>) {
        let src = source.as_bytes();
        let mut out: Vec<Finding> = Vec::new();
        match callee_exec(tree, src, i) {
            Some(c) => {
                let cs = c.as_slice();
                if crate::text::chars_eq_str(cs, "md5.New") || crate::text::chars_eq_str(cs, "md5.Sum") {
                    out.push(
                        make_finding(
                            "go/no-weak-crypto",
                            Severity::Medium,
                            Some("CWE-327"),
                            "MD5 is cryptographically weak — use SHA-256 or stronger",
                            tree,
                            i,
                            source,
                        ),
                    );
                } else if crate::text::chars_eq_str(cs, "sha1.New") || crate::text::chars_eq_str(
                    cs,
                    "sha1.Sum",
                ) {
                    out.push(
                        make_finding(
                            "go/no-weak-crypto",
                            Severity::Medium,
                            Some("CWE-327"),
                            "SHA1 is cryptographically weak — use SHA-256 or stronger",
                            tree,
                            i,
                            source,
                        ),
                    );
                }
            },
            None => {},
        }
        let ghost first = out@;
        if tree.kind_is(i, "import_spec") {
            match tree.field_text(src, i, "path") {
                Some(p) => {
                    if crate::text::chars_eq_str(p.as_slice(), "\"crypto/md5\"") {
                        out.push(
                            make_finding(
                                "go/no-weak-crypto",
                                Severity::Medium,
                                Some("CWE-327"),
                                "Import of weak crypto package MD5 — use crypto/sha256 or stronger",
                                tree,
                                i,
                                source,
                            ),
                        );
                    } else if crate::text::chars_eq_str(p.as_slice(), "\"crypto/sha1\"") {
                        out.push(
                            make_finding(
                                "go/no-weak-crypto",
                                Severity::Medium,
                                Some("CWE-327"),
                                "Import of weak crypto package SHA1 — use crypto/sha256 or stronger",
                                tree,
                                i,
                                source,
                            ),
                        );
                    }
                },
                None => {},
            }
        }
        assert(finding_views(out@) =~= go_weak_crypto_hit(source.spec_bytes(), tree@, i as int));
        out
    }
}

impl Rule for NoWeakCrypto {
    fn id(&self) -> (res: &str)
        ensures
            res@ == "go/no-weak-crypto"@,
    {
        "go/no-weak-crypto"
    }

    fn severity(&self) -> (res: Severity)
        ensures
            res == Severity::Medium,
    {
        Severity::Medium
    }

    fn cwe(&self) -> (res: Option<&str>)
        ensures
            opt_str(res) == Some("CWE-327"@),
    {
        Some("CWE-327")
    }

    fn description(&self) -> (res: &str)
        ensures
            res@ == "Use of weak cryptographic hash (MD5/SHA1)"@,
    {
        "Use of weak cryptographic hash (MD5/SHA1)"
    }

    fn language(&self) -> (res: Language)
        ensures
            res == Language::Go,
    {
        Language::Go
    }

    fn check(&self, source: &str, tree: &SyntaxTree) -> (res: Vec<Finding>)
        ensures
            finding_views(res@) == collect_hits(
                tree@.len() as int,
                |k: int| go_weak_crypto_hit(source.spec_bytes(), tree@, k),
            ),
    {
        let c = WeakCryptoCheck;
        let res = walk_tree(&c, source, tree);
        assert((|k: int| c.node_hits(source.spec_bytes(), tree@, k)) =~= (|k: int|
            go_weak_crypto_hit(source.spec_bytes(), tree@, k)));
        res
    }
}

// ─── Rule 5: gin-no-trusted-proxies ────────────────────────────────────────

pub struct GinNoTrustedProxies;

pub open spec fn go_gin_hit(src: Seq<u8>, t: Seq<NodeView>, i: int) -> Seq<FindingView> {
    match callee_of(src, t, i) {
        Some(c) => if c == "gin.Default"@ || c == "gin.New"@ {
            seq![
                finding_at_node(
                    "go/gin-no-trusted-proxies"@,
                    Severity::Medium,
                    Some("CWE-346"@),
                    c
                        + "() called without SetTrustedProxies — configure trusted proxies to prevent IP spoofing"@,
                    src,
                    t[i],
                ),
            ]
        } else {
            Seq::empty()
        },
        None => Seq::empty(),
    }
}

/// The source creates a Gin engine and never configures trusted proxies.
pub open spec fn gin_unconfigured(text: Seq<char>) -> bool {
    (contains_seq(text, "gin.Default()"@) || contains_seq(text, "gin.New()"@)) && !contains_seq(
        text,
        "SetTrustedProxies"@,
    )
}

struct GinCheck;

impl NodeCheck for GinCheck {
    closed spec fn node_hits(&self, src: Seq<u8>, t: Seq<NodeView>, i: int) -> Seq<FindingView> {
        go_gin_hit(src, t, i)
    }

    fn hits_at(&self, source: &str, tree: &SyntaxTree, i: usize) -> (res: Vec<Finding>) {
        let mut out: Vec<Finding> = Vec::new();
        match callee_exec(tree, source.as_bytes(), i) {
            Some(c) => {
                let cs = c.as_slice();
                if crate::text::chars_eq_str(cs, "gin.Default") || crate::text::chars_eq_str(
                    cs,
                    "gin.New",
                ) {
                    let msg = join2(
                        cs,
                        "() called without SetTrustedProxies — configure trusted proxies to prevent IP spoofing",
                    );
                    out.push(
                        make_finding(
                            "go/gin-no-trusted-proxies",
                            Severity::Medium,
                            Some("CWE-346"),
                            msg.as_str(),
                            tree,
                            i,
                            source,
                        ),
                    );
                }
            },
            None => {},
        }
        assert(finding_views(out@) =~= go_gin_hit(source.spec_bytes(), tree@, i as int));
        out
    }
}

impl Rule for GinNoTrustedProxies {
    fn id(&self) -> (res: &str)
        ensures
            res@ == "go/gin-no-trusted-proxies"@,
    {
        "go/gin-no-trusted-proxies"
    }

    fn severity(&self) -> (res: Severity)
        ensures
            res == Severity::Medium,
    {
        Severity::Medium
    }

    fn cwe(&self) -> (res: Option<&str>)
        ensures
            opt_str(res) == Some("CWE-346"@),
    {
        Some("CWE-346")
    }

    fn description(&self) -> (res: &str)
        ensures
            res@ == "Gin engine created without SetTrustedProxies configuration"@,
    {
        "Gin engine created without SetTrustedProxies configuration"
    }

    fn language(&self) -> (res: Language)
        ensures
            res == Language::Go,
    {
        Language::Go
    }

    fn check(&self, source: &str, tree: &SyntaxTree) -> (res: Vec<Finding>)
        ensures
            finding_views(res@) == (if gin_unconfigured(source@) {
                collect_hits(tree@.len() as int, |k: int| go_gin_hit(source.spec_bytes(), tree@, k))
            } else {
                Seq::empty()
            }),
    {
        let text = chars_of(source);
        let has_init = contains_str(text.as_slice(), "gin.Default()") || contains_str(
            text.as_slice(),
            "gin.New()",
        );
        let has_proxies = contains_str(text.as_slice(), "SetTrustedProxies");
        if has_init && !has_proxies {
            let c = GinCheck;
            let res = walk_tree(&c, source, tree);
            assert((|k: int| c.node_hits(source.spec_bytes(), tree@, k)) =~= (|k: int|
                go_gin_hit(source.spec_bytes(), tree@, k)));
            res
        } else {
            let v: Vec<Finding> = Vec::new();
            assert(finding_views(v@) =~= Seq::<FindingView>::empty());
            v
        }
    }
}

// ─── Rule 6: net-http-no-timeout ──────────────────────────────────────────

pub struct NetHttpNoTimeout;

pub open spec fn go_timeout_hit(src: Seq<u8>, t: Seq<NodeView>, i: int) -> Seq<FindingView> {
    match callee_of(src, t, i) {
        Some(c) => if c == "http.ListenAndServe"@ || c == "http.ListenAndServeTLS"@ {
            seq![
                finding_at_node(
                    "go/net-http-no-timeout"@,
                    Severity::Medium,
                    Some("CWE-400"@),
                    c
                        + " used without timeout — use http.Server with ReadTimeout/WriteTimeout to prevent slowloris"@,
                    src,
                    t[i],
                ),
            ]
        } else {
            Seq::empty()
        },
        None => Seq::empty(),
    }
}

struct TimeoutCheck;

impl NodeCheck for TimeoutCheck {
    closed spec fn node_hits(&self, src: Seq<u8>, t: Seq<NodeView>, i: int) -> Seq<FindingView> {
        go_timeout_hit(src, t, i)
    }

    fn hits_at(&self, source: &str, tree: &SyntaxTree, i: usize) -> (res: Vec<Finding>) {
        let mut out: Vec<Finding> = Vec::new();
        match callee_exec(tree, source.as_bytes(), i) {
            Some(c) => {
                let cs = c.as_slice();
                if crate::text::chars_eq_str(cs, "http.ListenAndServe") || crate::text::chars_eq_str(
                    cs,
                    "http.ListenAndServeTLS",
                ) {
                    let msg = join2(
                        cs,
                        " used without timeout — use http.Server with ReadTimeout/WriteTimeout to prevent slowloris",
                    );
                    out.push(
                        make_finding(
                            "go/net-http-no-timeout",
                            Severity::Medium,
                            Some("CWE-400"),
                            msg.as_str(),
                            tree,
                            i,
                            source,
                        ),
                    );
                }
            },
            None => {},
        }
        assert(finding_views(out@) =~= go_timeout_hit(source.spec_bytes(), tree@, i as int));
        out
    }
}

impl Rule for NetHttpNoTimeout {
    fn id(&self) -> (res: &str)
        ensures
            res@ == "go/net-http-no-timeout"@,
    {
        "go/net-http-no-timeout"
    }

    fn severity(&self) -> (res: Severity)
        ensures
            res == Severity::Medium,
    {
        Severity::Medium
    }

    fn cwe(&self) -> (res: Option<&str>)
        ensures
            opt_str(res) == Some("CWE-400"@),
    {
        Some("CWE-400")
    }

    fn description(&self) -> (res: &str)
        ensures
            res@ == "http.ListenAndServe without timeout configuration enables slowloris attacks"@,
    {
        "http.ListenAndServe without timeout configuration enables slowloris attacks"
    }

    fn language(&self) -> (res: Language)
        ensures
            res == Language::Go,
    {
        Language::Go
    }

    fn check(&self, source: &str, tree: &SyntaxTree) -> (res: Vec<Finding>)
        ensures
            finding_views(res@) == collect_hits(
                tree@.len() as int,
                |k: int| go_timeout_hit(source.spec_bytes(), tree@, k),
            ),
    {
        let c = TimeoutCheck;
        let res = walk_tree(&c, source, tree);
        assert((|k: int| c.node_hits(source.spec_bytes(), tree@, k)) =~= (|k: int|
            go_timeout_hit(source.spec_bytes(), tree@, k)));
        res
    }
}

// ─── Rule 7: no-ssrf ───────────────────────────────────────────────────────

pub struct NoSsrf;

/// Which argument of an outbound `net/http` call carries the URL, for the
/// calls the rule watches.
pub open spec fn ssrf_url_index(c: Seq<char>) -> Option<int> {
    if c == "http.Get"@ || c == "http.Post"@ || c == "http.Head"@ || c == "http.PostForm"@ {
        Some(0)
    } else if c == "http.NewRequest"@ {
        Some(1)
    } else if c == "http.NewRequestWithContext"@ {
        Some(2)
    } else {
        None
    }
}

fn ssrf_url_index_exec(c: &[char]) -> (res: Option<usize>)
    ensures
        match res {
            Some(n) => ssrf_url_index(c@) == Some(n as int),
            None => ssrf_url_index(c@) is None,
        },
{
    if crate::text::chars_eq_str(c, "http.Get") || crate::text::chars_eq_str(c, "http.Post")
        || crate::text::chars_eq_str(c, "http.Head") || crate::text::chars_eq_str(c, "http.PostForm") {
        Some(0)
    } else if crate::text::chars_eq_str(c, "http.NewRequest") {
        Some(1)
    } else if crate::text::chars_eq_str(c, "http.NewRequestWithContext") {
        Some(2)
    } else {
        None
    }
}

pub open spec fn go_ssrf_hit(src: Seq<u8>, t: Seq<NodeView>, i: int) -> Seq<FindingView> {
    match callee_of(src, t, i) {
        Some(c) => match ssrf_url_index(c) {
            Some(n) => if dynamic_arg(t, i, n) {
                seq![
                    finding_at_node(
                        "go/no-ssrf"@,
                        Severity::High,
                        Some("CWE-918"@),
                        c
                            + " called with dynamic URL — validate and allowlist target hosts to prevent SSRF"@,
                        src,
                        t[i],
                    ),
                ]
            } else {
                Seq::empty()
            },
            None => Seq::empty(),
        },
        None => Seq::empty(),
    }
}

struct SsrfCheck;

impl NodeCheck for SsrfCheck {
    closed spec fn node_hits(&self, src: Seq<u8>, t: Seq<NodeView>, i: int) -> Seq<FindingView> {
        go_ssrf_hit(src, t, i)
    }

    fn hits_at(&self, source: &str, tree: &SyntaxTree, i: usize) -> (res: Vec<Finding>) {
        let mut out: Vec<Finding> = Vec::new();
        match callee_exec(tree, source.as_bytes(), i) {
            Some(c) => {
                let cs = c.as_slice();
                match ssrf_url_index_exec(cs) {
                    Some(n) => {
                        if dynamic_arg_exec(tree, i, n) {
                            let msg = join2(
                                cs,
                                " called with dynamic URL — validate and allowlist target hosts to prevent SSRF",
                            );
                            out.push(
                                make_finding(
                                    "go/no-ssrf",
                                    Severity::High,
                                    Some("CWE-918"),
                                    msg.as_str(),
                                    tree,
                                    i,
                                    source,
                                ),
                            );
                        }
                    },
                    None => {},
                }
            },
            None => {},
        }
        assert(finding_views(out@) =~= go_ssrf_hit(source.spec_bytes(), tree@, i as int));
        out
    }
}

impl Rule for NoSsrf {
    fn id(&self) -> (res: &str)
        ensures
            res@ == "go/no-ssrf"@,
    {
        "go/no-ssrf"
    }

    fn severity(&self) -> (res: Severity)
        ensures
            res == Severity::High,
    {
        Severity::High
    }

    fn cwe(&self) -> (res: Option<&str>)
        ensures
            opt_str(res) == Some("CWE-918"@),
    {
        Some("CWE-918")
    }

    fn description(&self) -> (res: &str)
        ensures
            res@ == "Potential SSRF via http.Get/http.Post with variable URL"@,
    {
        "Potential SSRF via http.Get/http.Post with variable URL"
    }

    fn language(&self) -> (res: Language)
        ensures
            res == Language::Go,
    {
        Language::Go
    }

    fn check(&self, source: &str, tree: &SyntaxTree) -> (res: Vec<Finding>)
        ensures
            finding_views(res@) == collect_hits(
                tree@.len() as int,
                |k: int| go_ssrf_hit(source.spec_bytes(), tree@, k),
            ),
    {
        let c = SsrfCheck;
        let res = walk_tree(&c, source, tree);
        assert((|k: int| c.node_hits(source.spec_bytes(), tree@, k)) =~= (|k: int|
            go_ssrf_hit(source.spec_bytes(), tree@, k)));
        res
    }
}

// ─── Rule 8: insecure-tls-skip-verify ──────────────────────────────────────

pub const GO_TLS_PATTERN: &'static str = r"InsecureSkipVerify\s*:\s*true";

pub struct InsecureTlsSkipVerify;

pub open spec fn go_tls_finding(src: Seq<u8>, m: (usize, usize)) -> FindingView {
    finding_at_offsets(
        "go/insecure-tls-skip-verify"@,
        Severity::High,
        Some("CWE-295"@),
        "InsecureSkipVerify: true disables TLS certificate verification — prefer proper CA validation"@,
        src,
        m.0 as int,
        m.1 as int,
    )
}

impl Rule for InsecureTlsSkipVerify {
    fn id(&self) -> (res: &str)
        ensures
            res@ == "go/insecure-tls-skip-verify"@,
    {
        "go/insecure-tls-skip-verify"
    }

    fn severity(&self) -> (res: Severity)
        ensures
            res == Severity::High,
    {
        Severity::High
    }

    fn cwe(&self) -> (res: Option<&str>)
        ensures
            opt_str(res) == Some("CWE-295"@),
    {
        Some("CWE-295")
    }

    fn description(&self) -> (res: &str)
        ensures
            res@ == "TLS certificate verification disabled with InsecureSkipVerify"@,
    {
        "TLS certificate verification disabled with InsecureSkipVerify"
    }

    fn language(&self) -> (res: Language)
        ensures
            res == Language::Go,
    {
        Language::Go
    }

    fn check(&self, source: &str, tree: &SyntaxTree) -> (res: Vec<Finding>)
        ensures
            finding_views(res@) == (if regex_compiles(GO_TLS_PATTERN@) {
                regex_find_all(GO_TLS_PATTERN@, source@).map_values(
                    |m: (usize, usize)| go_tls_finding(source.spec_bytes(), m),
                )
            } else {
                Seq::empty()
            }),
    {
        let mut out: Vec<Finding> = Vec::new();
        match compile(GO_TLS_PATTERN) {
            Some(p) => {
                let ms = find_all(&p, source);
                let mut k: usize = 0;
                while k < ms.len()
                    invariant
                        k <= ms@.len(),
                        finding_views(out@) == ms@.subrange(0, k as int).map_values(
                            |m: (usize, usize)| go_tls_finding(source.spec_bytes(), m),
                        ),
                    decreases ms@.len() - k,
                {
                    let (s, e) = ms[k];
                    let f = make_finding_from_offsets(
                        "go/insecure-tls-skip-verify",
                        Severity::High,
                        Some("CWE-295"),
                        "InsecureSkipVerify: true disables TLS certificate verification — prefer proper CA validation",
                        source,
                        s,
                        e,
                    );
                    let ghost before = out@;
                    out.push(f);
                    assert(finding_views(out@) =~= finding_views(before).push(f@));
                    assert(ms@.subrange(0, k + 1) =~= ms@.subrange(0, k as int).push(ms@[k as int]));
                    k = k + 1;
                }
                assert(ms@.subrange(0, ms@.len() as int) =~= ms@);
            },
            None => {
                assert(finding_views(out@) =~= Seq::<FindingView>::empty());
            },
        }
        out
    }
}

} // verus!

verus! {

// ─── Taint rules ───────────────────────────────────────────────────────────
//
// These rules consume the intraprocedural taint engine in `go_taint`. They
// coexist with the conservative `go/no-*` counterparts above: the
// conservative rule fires on any dynamic argument at the sink, the taint
// rule only when the argument is reachable from a known untrusted source
// within the same function / file.

/// A `Call` sink matcher whose description is its canonical path.
fn go_call_sink(canonical: &str) -> (res: GoNodeMatcher)
    ensures
        res@ == (MatcherView::Call { canonical: canonical@, description: canonical@ }),
{
    go_taint::call_matcher(canonical, canonical)
}

/// A `MethodName` sink matcher.
fn go_method_sink(method: &str, description: &str) -> (res: GoNodeMatcher)
    ensures
        res@ == (MatcherView::MethodName { method: method@, description: description@ }),
{
    GoNodeMatcher::MethodName {
        method: String::from_str(method),
        description: String::from_str(description),
    }
}

/// The message of a taint finding: the source, the sink, and what the flow
/// enables.
pub open spec fn taint_message(source: Seq<char>, sink: Seq<char>, consequence: Seq<char>) -> Seq<
    char,
> {
    source + " reaches "@ + sink + " — "@ + consequence
}

/// The finding reported for one flow of the engine.
pub open spec fn go_taint_finding(
    rule_id: Seq<char>,
    severity: Severity,
    cwe: Option<Seq<char>>,
    consequence: Seq<char>,
    src: Seq<u8>,
    f: TaintFindingView,
) -> FindingView {
    FindingView {
        rule_id,
        severity,
        cwe,
        description: taint_message(f.source_description, f.sink_description, consequence),
        file: Seq::empty(),
        line: f.sink_line as nat,
        column: f.sink_column as nat,
        end_line: f.sink_end_line as nat,
        end_column: f.sink_end_column as nat,
        snippet: source_line(src, f.sink_start_byte as int),
    }
}

/// The alias table a taint rule runs with: the scanner's, or the file's
/// own when the scanner built none.
pub open spec fn effective_aliases(
    src: Seq<u8>,
    t: Seq<NodeView>,
    given: Option<crate::rules::name_log::LogView>,
) -> crate::rules::name_log::LogView {
    match given {
        Some(a) => a,
        None => aliases_of(src, t),
    }
}

/// What a Go taint rule reports on a file: one finding per flow the
/// engine finds from the root, in the engine's order.
pub open spec fn go_taint_rule_findings(
    rule_id: Seq<char>,
    severity: Severity,
    cwe: Option<Seq<char>>,
    consequence: Seq<char>,
    src: Seq<u8>,
    t: Seq<NodeView>,
    spec: SpecView,
    given: Option<crate::rules::name_log::LogView>,
) -> Seq<FindingView> {
    if t.len() == 0 {
        Seq::empty()
    } else {
        analyze(
            Ctx { src, t, spec, aliases: Some(effective_aliases(src, t, given)) },
            0,
        ).map_values(
            |f: TaintFindingView| go_taint_finding(rule_id, severity, cwe, consequence, src, f),
        )
    }
}

pub open spec fn ctx_aliases(ctx: &FileContext<'_>) -> Option<crate::rules::name_log::LogView> {
    match ctx.go_aliases {
        Some(a) => Some(a@),
        None => None,
    }
}

fn map_go_taint_findings(
    rule_id: &str,
    severity: Severity,
    cwe: Option<&str>,
    source: &str,
    tree: &SyntaxTree,
    ctx: &FileContext<'_>,
    spec: &GoTaintSpec,
    consequence: &str,
) -> (res: Vec<Finding>)
    ensures
        finding_views(res@) == go_taint_rule_findings(
            rule_id@,
            severity,
            opt_str(cwe),
            consequence@,
            source.spec_bytes(),
            tree@,
            spec@,
            ctx_aliases(ctx),
        ),
{
    let mut out: Vec<Finding> = Vec::new();
    if tree.len() == 0 {
        assert(finding_views(out@) =~= Seq::<FindingView>::empty());
        return out;
    }
    let local: GoImportAliases;
    let aliases: &GoImportAliases = match ctx.go_aliases {
        Some(a) => a,
        None => {
            local = GoImportAliases::from_tree(source, tree);
            &local
        },
    };
    let raw = go_taint::analyze_tree(tree, 0, source, spec, Some(aliases));
    let ghost g = |f: TaintFindingView|
        go_taint_finding(rule_id@, severity, opt_str(cwe), consequence@, source.spec_bytes(), f);
    let mut k: usize = 0;
    while k < raw.len()
        invariant
            k <= raw@.len(),
            g == (|f: TaintFindingView|
                go_taint_finding(rule_id@, severity, opt_str(cwe), consequence@, source.spec_bytes(), f)),
            finding_views(out@) == taint_views(raw@).subrange(0, k as int).map_values(g),
        decreases raw@.len() - k,
    {
        let t = &raw[k];
        let mut d: Vec<char> = Vec::new();
        push_str(&mut d, t.source_description.as_str());
        push_str(&mut d, " reaches ");
        push_str(&mut d, t.sink_description.as_str());
        push_str(&mut d, " — ");
        push_str(&mut d, consequence);
        let f = Finding {
            rule_id: String::from_str(rule_id),
            severity,
            cwe: match cwe {
                Some(s) => Some(String::from_str(s)),
                None => None,
            },
            description: string_of_chars(d.as_slice()),
            file: String::new(),
            line: t.sink_line,
            column: t.sink_column,
            end_line: t.sink_end_line,
            end_column: t.sink_end_column,
            snippet: get_source_line(source, t.sink_start_byte),
        };
        let ghost before = out@;
        out.push(f);
        assert(f@ == g(raw@[k as int]@));
        assert(finding_views(out@) =~= finding_views(before).push(f@));
        assert(taint_views(raw@).subrange(0, k + 1) =~= taint_views(raw@).subrange(0, k as int).push(
            raw@[k as int]@,
        ));
        k = k + 1;
    }
    assert(taint_views(raw@).subrange(0, raw@.len() as int) =~= taint_views(raw@));
    out
}

} // verus!

verus! {

// ─── Rule: taint-command-injection ─────────────────────────────────────────

pub struct TaintCommandInjection;

pub open spec fn cmd_taint_spec() -> SpecView {
    SpecView {
        sources: go_sources_spec(),
        sinks: seq![
            MatcherView::Call { canonical: "exec.Command"@, description: "exec.Command"@ },
            MatcherView::Call {
                canonical: "exec.CommandContext"@,
                description: "exec.CommandContext"@,
            },
        ],
        sanitizers: Seq::empty(),
    }
}

impl TaintCommandInjection {
    fn spec() -> (res: GoTaintSpec)
        ensures
            res@ == cmd_taint_spec(),
    {
        let mut sinks: Vec<GoNodeMatcher> = Vec::new();
        sinks.push(go_call_sink("exec.Command"));
        sinks.push(go_call_sink("exec.CommandContext"));
        let res = GoTaintSpec { sources: go_taint_sources(), sinks, sanitizers: Vec::new() };
        assert(res@.sinks =~= cmd_taint_spec().sinks);
        assert(res@.sanitizers =~= Seq::<MatcherView>::empty());
        res
    }
}

impl Rule for TaintCommandInjection {
    fn id(&self) -> (res: &str)
        ensures
            res@ == "go/taint-command-injection"@,
    {
        "go/taint-command-injection"
    }

    fn severity(&self) -> (res: Severity)
        ensures
            res == Severity::Critical,
    {
        Severity::Critical
    }

    fn cwe(&self) -> (res: Option<&str>)
        ensures
            opt_str(res) == Some("CWE-78"@),
    {
        Some("CWE-78")
    }

    fn description(&self) -> (res: &str)
        ensures
            res@ == "Untrusted input reaches os/exec command execution sink"@,
    {
        "Untrusted input reaches os/exec command execution sink"
    }

    fn language(&self) -> (res: Language)
        ensures
            res == Language::Go,
    {
        Language::Go
    }

    fn check(&self, source: &str, tree: &SyntaxTree) -> (res: Vec<Finding>)
        ensures
            finding_views(res@) == go_taint_rule_findings(
                "go/taint-command-injection"@,
                Severity::Critical,
                Some("CWE-78"@),
                "untrusted input can inject OS commands"@,
                source.spec_bytes(),
                tree@,
                cmd_taint_spec(),
                None,
            ),
    {
        self.check_with_context(source, tree, &FileContext::empty())
    }

    fn check_with_context(&self, source: &str, tree: &SyntaxTree, ctx: &FileContext<'_>) -> (res:
        Vec<Finding>)
        ensures
            finding_views(res@) == go_taint_rule_findings(
                "go/taint-command-injection"@,
                Severity::Critical,
                Some("CWE-78"@),
                "untrusted input can inject OS commands"@,
                source.spec_bytes(),
                tree@,
                cmd_taint_spec(),
                ctx_aliases(ctx),
            ),
    {
        map_go_taint_findings(
            "go/taint-command-injection",
            Severity::Critical,
            Some("CWE-78"),
            source,
            tree,
            ctx,
            &Self::spec(),
            "untrusted input can inject OS commands",
        )
    }
}

// ─── Rule: taint-sql-injection ─────────────────────────────────────────────

pub struct TaintSqlInjection;

pub open spec fn sql_taint_spec() -> SpecView {
    SpecView {
        sources: go_sources_spec(),
        sinks: seq![
            MatcherView::MethodName { method: "Query"@, description: "db/tx/stmt.Query"@ },
            MatcherView::MethodName {
                method: "QueryContext"@,
                description: "db/tx/stmt.QueryContext"@,
            },
            MatcherView::MethodName { method: "QueryRow"@, description: "db/tx/stmt.QueryRow"@ },
            MatcherView::MethodName {
                method: "QueryRowContext"@,
                description: "db/tx/stmt.QueryRowContext"@,
            },
            MatcherView::MethodName { method: "Exec"@, description: "db/tx/stmt.Exec"@ },
            MatcherView::MethodName {
                method: "ExecContext"@,
                description: "db/tx/stmt.ExecContext"@,
            },
            MatcherView::MethodName { method: "Raw"@, description: "gorm.DB.Raw"@ },
        ],
        sanitizers: Seq::empty(),
    }
}

impl TaintSqlInjection {
    /// Go database APIs live on many receiver names (`db`, `conn`, `tx`,
    /// `stmt`…), so the sinks match by method name whatever the receiver.
    fn spec() -> (res: GoTaintSpec)
        ensures
            res@ == sql_taint_spec(),
    {
        let mut sinks: Vec<GoNodeMatcher> = Vec::new();
        sinks.push(go_method_sink("Query", "db/tx/stmt.Query"));
        sinks.push(go_method_sink("QueryContext", "db/tx/stmt.QueryContext"));
        sinks.push(go_method_sink("QueryRow", "db/tx/stmt.QueryRow"));
        sinks.push(go_method_sink("QueryRowContext", "db/tx/stmt.QueryRowContext"));
        sinks.push(go_method_sink("Exec", "db/tx/stmt.Exec"));
        sinks.push(go_method_sink("ExecContext", "db/tx/stmt.ExecContext"));
        sinks.push(go_method_sink("Raw", "gorm.DB.Raw"));
        let res = GoTaintSpec { sources: go_taint_sources(), sinks, sanitizers: Vec::new() };
        assert(res@.sinks =~= sql_taint_spec().sinks);
        assert(res@.sanitizers =~= Seq::<MatcherView>::empty());
        res
    }
}

impl Rule for TaintSqlInjection {
    fn id(&self) -> (res: &str)
        ensures
            res@ == "go/taint-sql-injection"@,
    {
        "go/taint-sql-injection"
    }

    fn severity(&self) -> (res: Severity)
        ensures
            res == Severity::Critical,
    {
        Severity::Critical
    }

    fn cwe(&self) -> (res: Option<&str>)
        ensures
            opt_str(res) == Some("CWE-89"@),
    {
        Some("CWE-89")
    }

    fn description(&self) -> (res: &str)
        ensures
            res@ == "Untrusted input reaches database Query/Exec sink"@,
    {
        "Untrusted input reaches database Query/Exec sink"
    }

    fn language(&self) -> (res: Language)
        ensures
            res == Language::Go,
    {
        Language::Go
    }

    fn check(&self, source: &str, tree: &SyntaxTree) -> (res: Vec<Finding>)
        ensures
            finding_views(res@) == go_taint_rule_findings(
                "go/taint-sql-injection"@,
                Severity::Critical,
                Some("CWE-89"@),
                "untrusted input can inject SQL"@,
                source.spec_bytes(),
                tree@,
                sql_taint_spec(),
                None,
            ),
    {
        self.check_with_context(source, tree, &FileContext::empty())
    }

    fn check_with_context(&self, source: &str, tree: &SyntaxTree, ctx: &FileContext<'_>) -> (res:
        Vec<Finding>)
        ensures
            finding_views(res@) == go_taint_rule_findings(
                "go/taint-sql-injection"@,
                Severity::Critical,
                Some("CWE-89"@),
                "untrusted input can inject SQL"@,
                source.spec_bytes(),
                tree@,
                sql_taint_spec(),
                ctx_aliases(ctx),
            ),
    {
        map_go_taint_findings(
            "go/taint-sql-injection",
            Severity::Critical,
            Some("CWE-89"),
            source,
            tree,
            ctx,
            &Self::spec(),
            "untrusted input can inject SQL",
        )
    }
}

// ─── Rule: taint-ssrf ──────────────────────────────────────────────────────

pub struct TaintSsrf;

pub open spec fn ssrf_taint_spec() -> SpecView {
    SpecView {
        sources: go_sources_spec(),
        sinks: seq![
            MatcherView::Call { canonical: "http.Get"@, description: "http.Get"@ },
            MatcherView::Call { canonical: "http.Post"@, description: "http.Post"@ },
            MatcherView::Call { canonical: "http.PostForm"@, description: "http.PostForm"@ },
            MatcherView::Call { canonical: "http.NewRequest"@, description: "http.NewRequest"@ },
            MatcherView::Call {
                canonical: "http.NewRequestWithContext"@,
                description: "http.NewRequestWithContext"@,
            },
            MatcherView::Call { canonical: "http.Head"@, description: "http.Head"@ },
        ],
        sanitizers: Seq::empty(),
    }
}

impl TaintSsrf {
    fn spec() -> (res: GoTaintSpec)
        ensures
            res@ == ssrf_taint_spec(),
    {
        let mut sinks: Vec<GoNodeMatcher> = Vec::new();
        sinks.push(go_call_sink("http.Get"));
        sinks.push(go_call_sink("http.Post"));
        sinks.push(go_call_sink("http.PostForm"));
        sinks.push(go_call_sink("http.NewRequest"));
        sinks.push(go_call_sink("http.NewRequestWithContext"));
        sinks.push(go_call_sink("http.Head"));
        let res = GoTaintSpec { sources: go_taint_sources(), sinks, sanitizers: Vec::new() };
        assert(res@.sinks =~= ssrf_taint_spec().sinks);
        assert(res@.sanitizers =~= Seq::<MatcherView>::empty());
        res
    }
}

impl Rule for TaintSsrf {
    fn id(&self) -> (res: &str)
        ensures
            res@ == "go/taint-ssrf"@,
    {
        "go/taint-ssrf"
    }

    fn severity(&self) -> (res: Severity)
        ensures
            res == Severity::High,
    {
        Severity::High
    }

    fn cwe(&self) -> (res: Option<&str>)
        ensures
            opt_str(res) == Some("CWE-918"@),
    {
        Some("CWE-918")
    }

    fn description(&self) -> (res: &str)
        ensures
            res@ == "Untrusted input reaches outbound net/http sink (potential SSRF)"@,
    {
        "Untrusted input reaches outbound net/http sink (potential SSRF)"
    }

    fn language(&self) -> (res: Language)
        ensures
            res == Language::Go,
    {
        Language::Go
    }

    fn check(&self, source: &str, tree: &SyntaxTree) -> (res: Vec<Finding>)
        ensures
            finding_views(res@) == go_taint_rule_findings(
                "go/taint-ssrf"@,
                Severity::High,
                Some("CWE-918"@),
                "untrusted input can drive server-side request forgery"@,
                source.spec_bytes(),
                tree@,
                ssrf_taint_spec(),
                None,
            ),
    {
        self.check_with_context(source, tree, &FileContext::empty())
    }

    fn check_with_context(&self, source: &str, tree: &SyntaxTree, ctx: &FileContext<'_>) -> (res:
        Vec<Finding>)
        ensures
            finding_views(res@) == go_taint_rule_findings(
                "go/taint-ssrf"@,
                Severity::High,
                Some("CWE-918"@),
                "untrusted input can drive server-side request forgery"@,
                source.spec_bytes(),
                tree@,
                ssrf_taint_spec(),
                ctx_aliases(ctx),
            ),
    {
        map_go_taint_findings(
            "go/taint-ssrf",
            Severity::High,
            Some("CWE-918"),
            source,
            tree,
            ctx,
            &Self::spec(),
            "untrusted input can drive server-side request forgery",
        )
    }
}

} // verus!

verus! {

// ─── Laws ─────────────────────────────────────────────────────────────────

/// Argument `n` of the argument list `a` exists and is not a Go string
/// literal (neither `"..."` nor a raw string).
pub open spec fn non_literal_argument(t: Seq<NodeView>, a: int, n: int) -> bool {
    let args = crate::tree::named_children(t, a);
    &&& 0 <= n < args.len()
    &&& t[args[n] as int].kind != "interpreted_string_literal"@
    &&& t[args[n] as int].kind != "raw_string_literal"@
}

proof fn lemma_ssrf_callee_texts()
    ensures
        "http.Get"@.len() == 8,
        "http.Post"@.len() == 9,
        "http.Head"@.len() == 9,
        "http.PostForm"@.len() == 13,
        "http.NewRequest"@.len() == 15,
        "http.NewRequestWithContext"@.len() == 26,
        "http.Post"@[5] == 'P',
        "http.Head"@[5] == 'H',
{
    reveal_strlit("http.Get");
    reveal_strlit("http.Post");
    reveal_strlit("http.Head");
    reveal_strlit("http.PostForm");
    reveal_strlit("http.NewRequest");
    reveal_strlit("http.NewRequestWithContext");
}

/// The URL argument of each outbound `net/http` call the SSRF rule
/// watches: the first of `http.Get`, `http.Post`, `http.Head` and
/// `http.PostForm`, the second of `http.NewRequest(method, url, body)` and
/// the third of `http.NewRequestWithContext(ctx, method, url, body)`. Such a
/// call is reported, once, exactly when that argument is there and is not a
/// string literal, whatever the other arguments are; the report is a
/// high-severity `go/no-ssrf` (CWE-918) at the call, saying that the callee
/// is called with a dynamic URL, and the whole-file check holds it. A call
/// to anything else is never reported.
pub proof fn law_ssrf_checks_the_url_argument(src: Seq<u8>, t: Seq<NodeView>, i: int, callee: Seq<char>, a: usize)
    requires
        0 <= i < t.len(),
        t[i].kind == "call_expression"@,
        field_text(src, t, i, "function"@) == Some(callee),
        field_child(t, i, "arguments"@) == Some(a),
    ensures
        (callee == "http.Get"@ || callee == "http.Post"@ || callee == "http.Head"@ || callee
            == "http.PostForm"@) ==> (go_ssrf_hit(src, t, i).len() == 1 <==> non_literal_argument(t, a as int, 0)),
        callee == "http.NewRequest"@ ==> (go_ssrf_hit(src, t, i).len() == 1 <==> non_literal_argument(t, a as int, 1)),
        callee == "http.NewRequestWithContext"@ ==> (go_ssrf_hit(src, t, i).len() == 1
            <==> non_literal_argument(t, a as int, 2)),
        !(callee == "http.Get"@ || callee == "http.Post"@ || callee == "http.Head"@ || callee
            == "http.PostForm"@ || callee == "http.NewRequest"@ || callee == "http.NewRequestWithContext"@)
            ==> go_ssrf_hit(src, t, i).len() == 0,
        go_ssrf_hit(src, t, i).len() == 0 || go_ssrf_hit(src, t, i).len() == 1,
        go_ssrf_hit(src, t, i).len() == 1 ==> ({
            let f = go_ssrf_hit(src, t, i)[0];
            &&& f.rule_id == "go/no-ssrf"@
            &&& f.severity == Severity::High
            &&& f.cwe == Some("CWE-918"@)
            &&& f.description == callee
                + " called with dynamic URL — validate and allowlist target hosts to prevent SSRF"@
            &&& f.line == t[i].start_row + 1
            &&& f.column == t[i].start_column + 1
            &&& collect_hits(t.len() as int, |k: int| go_ssrf_hit(src, t, k)).contains(f)
        }),
{
    lemma_ssrf_callee_texts();
    assert(callee_of(src, t, i) == Some(callee));
    if go_ssrf_hit(src, t, i).len() == 1 {
        crate::rules::common::lemma_collect_hits_keeps(
            t.len() as int,
            |k: int| go_ssrf_hit(src, t, k),
            i,
            0,
        );
    }
}

} // verus!

verus! {

/// The sinks of the Go taint rules: command injection flows
/// into `exec.Command` and `exec.CommandContext`; SQL injection into the
/// `Query`, `QueryContext`, `QueryRow`, `QueryRowContext`, `Exec` and
/// `ExecContext` methods of a database, transaction or statement and into
/// gorm's `Raw`; SSRF into `http.Get`, `http.Post`, `http.PostForm`,
/// `http.Head`, `http.NewRequest` and `http.NewRequestWithContext`. All
/// three read the shared Go sources and declare no sanitizer.
pub proof fn law_go_taint_sinks_documented()
    ensures
        cmd_taint_spec().sources == go_sources_spec(),
        cmd_taint_spec().sinks.len() == 2,
        cmd_taint_spec().sinks.contains((MatcherView::Call { description: "exec.Command"@, canonical: "exec.Command"@ })),
        cmd_taint_spec().sinks.contains(
            (MatcherView::Call { description: "exec.CommandContext"@, canonical: "exec.CommandContext"@ }),
        ),
        cmd_taint_spec().sanitizers.len() == 0,
        sql_taint_spec().sources == go_sources_spec(),
        sql_taint_spec().sinks.len() == 7,
        sql_taint_spec().sinks.contains((MatcherView::MethodName { description: "db/tx/stmt.Query"@, method: "Query"@ })),
        sql_taint_spec().sinks.contains(
            (MatcherView::MethodName { description: "db/tx/stmt.QueryContext"@, method: "QueryContext"@ }),
        ),
        sql_taint_spec().sinks.contains((MatcherView::MethodName { description: "db/tx/stmt.QueryRow"@, method: "QueryRow"@ })),
        sql_taint_spec().sinks.contains(
            (MatcherView::MethodName { description: "db/tx/stmt.QueryRowContext"@, method: "QueryRowContext"@ }),
        ),
        sql_taint_spec().sinks.contains((MatcherView::MethodName { description: "db/tx/stmt.Exec"@, method: "Exec"@ })),
        sql_taint_spec().sinks.contains(
            (MatcherView::MethodName { description: "db/tx/stmt.ExecContext"@, method: "ExecContext"@ }),
        ),
        sql_taint_spec().sinks.contains((MatcherView::MethodName { description: "gorm.DB.Raw"@, method: "Raw"@ })),
        sql_taint_spec().sanitizers.len() == 0,
        ssrf_taint_spec().sources == go_sources_spec(),
        ssrf_taint_spec().sinks.len() == 6,
        ssrf_taint_spec().sinks.contains((MatcherView::Call { description: "http.Get"@, canonical: "http.Get"@ })),
        ssrf_taint_spec().sinks.contains((MatcherView::Call { description: "http.Post"@, canonical: "http.Post"@ })),
        ssrf_taint_spec().sinks.contains((MatcherView::Call { description: "http.PostForm"@, canonical: "http.PostForm"@ })),
        ssrf_taint_spec().sinks.contains((MatcherView::Call { description: "http.Head"@, canonical: "http.Head"@ })),
        ssrf_taint_spec().sinks.contains(
            (MatcherView::Call { description: "http.NewRequest"@, canonical: "http.NewRequest"@ }),
        ),
        ssrf_taint_spec().sinks.contains(
            (MatcherView::Call { description: "http.NewRequestWithContext"@, canonical: "http.NewRequestWithContext"@ }),
        ),
        ssrf_taint_spec().sanitizers.len() == 0,
{
    let c = cmd_taint_spec().sinks;
    assert(c[0] == (MatcherView::Call { description: "exec.Command"@, canonical: "exec.Command"@ }));
    assert(c[1] == (MatcherView::Call { description: "exec.CommandContext"@, canonical: "exec.CommandContext"@ }));
    let q = sql_taint_spec().sinks;
    assert(q[0] == (MatcherView::MethodName { description: "db/tx/stmt.Query"@, method: "Query"@ }));
    assert(q[1] == (MatcherView::MethodName { description: "db/tx/stmt.QueryContext"@, method: "QueryContext"@ }));
    assert(q[2] == (MatcherView::MethodName { description: "db/tx/stmt.QueryRow"@, method: "QueryRow"@ }));
    assert(q[3] == (MatcherView::MethodName { description: "db/tx/stmt.QueryRowContext"@, method: "QueryRowContext"@ }));
    assert(q[4] == (MatcherView::MethodName { description: "db/tx/stmt.Exec"@, method: "Exec"@ }));
    assert(q[5] == (MatcherView::MethodName { description: "db/tx/stmt.ExecContext"@, method: "ExecContext"@ }));
    assert(q[6] == (MatcherView::MethodName { description: "gorm.DB.Raw"@, method: "Raw"@ }));
    let r = ssrf_taint_spec().sinks;
    assert(r[0] == (MatcherView::Call { description: "http.Get"@, canonical: "http.Get"@ }));
    assert(r[1] == (MatcherView::Call { description: "http.Post"@, canonical: "http.Post"@ }));
    assert(r[2] == (MatcherView::Call { description: "http.PostForm"@, canonical: "http.PostForm"@ }));
    assert(r[3] == (MatcherView::Call { description: "http.NewRequest"@, canonical: "http.NewRequest"@ }));
    assert(r[4] == (MatcherView::Call { description: "http.NewRequestWithContext"@, canonical: "http.NewRequestWithContext"@ }));
    assert(r[5] == (MatcherView::Call { description: "http.Head"@, canonical: "http.Head"@ }));
}

} // verus!
