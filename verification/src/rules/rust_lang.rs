//! Rust rules: unsafe code, transmute, command and SQL injection, weak
//! hashes, hardcoded secrets, disabled TLS verification, SSRF, path
//! traversal and panicking unwraps.

use vstd::prelude::*;
use vstd::string::*;
use crate::pattern::{compile, is_match, regex_compiles, regex_is_match, Pattern};
use crate::rules::common::{
    collect_hits, finding_at_node, kind_callee, kind_callee_exec, make_finding, nth_arg,
    nth_arg_exec, opt_str, walk_tree, NodeCheck,
};
use crate::rules::Rule;
use crate::text::{
    chars_eq_str, chars_of, contains_seq, contains_str, ends_with_seq, ends_with_str, join2, join3,
    starts_with_seq, starts_with_str, string_of_chars, trim_chars, trim_set, utf8_len,
    utf8_len_at_least, TrimSet,
};
use crate::tree::{field_child, named_child, node_text, NodeView, SyntaxTree};
use crate::types::{finding_views, Finding, FindingView, Language, Severity};

verus! {

pub open spec fn rs_callee(src: Seq<u8>, t: Seq<NodeView>, i: int) -> Option<Seq<char>> {
    kind_callee(src, t, i, "call_expression"@)
}

fn rs_callee_exec(tree: &SyntaxTree, src: &[u8], i: usize) -> (res: Option<Vec<char>>)
    requires
        i < tree@.len(),
    ensures
        match res {
            Some(v) => rs_callee(src@, tree@, i as int) == Some(v@),
            None => rs_callee(src@, tree@, i as int) is None,
        },
{
    kind_callee_exec(tree, src, i, "call_expression")
}

/// The first argument exists and is not a string literal.
pub open spec fn rs_dynamic_first_arg(t: Seq<NodeView>, i: int) -> bool {
    match nth_arg(t, i, 0) {
        Some(f) => t[f as int].kind != "string_literal"@,
        None => false,
    }
}

fn rs_dynamic_first_arg_exec(tree: &SyntaxTree, i: usize) -> (res: bool)
    requires
        i < tree@.len(),
    ensures
        res == rs_dynamic_first_arg(tree@, i as int),
{
    match nth_arg_exec(tree, i, 0) {
        Some(f) => !tree.kind_is(f, "string_literal"),
        None => false,
    }
}

// ─── Rule 1: unsafe-block ─────────────────────────────────────────────────────

pub open spec fn rs_unsafe_hit(src: Seq<u8>, t: Seq<NodeView>, i: int) -> Seq<FindingView> {
    if t[i].kind == "unsafe_block"@ {
        seq![finding_at_node("rs/unsafe-block"@, Severity::Medium, Some("CWE-676"@), "unsafe block bypasses Rust memory safety — ensure correctness is manually verified"@, src, t[i])]
    } else {
        Seq::empty()
    }
}

pub struct UnsafeBlock;

struct UnsafeBlockCheck;

impl NodeCheck for UnsafeBlockCheck {
    closed spec fn node_hits(&self, src: Seq<u8>, t: Seq<NodeView>, i: int) -> Seq<FindingView> {
        rs_unsafe_hit(src, t, i)
    }

    fn hits_at(&self, source: &str, tree: &SyntaxTree, i: usize) -> (res: Vec<Finding>) {
        let mut out: Vec<Finding> = Vec::new();
        if tree.kind_is(i, "unsafe_block") {
            out.push(
                        make_finding(
                            "rs/unsafe-block",
                            Severity::Medium,
                            Some("CWE-676"),
                            "unsafe block bypasses Rust memory safety — ensure correctness is manually verified",
                            tree,
                            i,
                            source,
                        ),
                    );
        }
        assert(finding_views(out@) =~= rs_unsafe_hit(source.spec_bytes(), tree@, i as int));
        out
    }
}

impl Rule for UnsafeBlock {
    fn id(&self) -> (res: &str)
        ensures
            res@ == "rs/unsafe-block"@,
    {
        "rs/unsafe-block"
    }

    fn severity(&self) -> (res: Severity)
        ensures
            res == Severity::Medium,
    {
        Severity::Medium
    }

    fn cwe(&self) -> (res: Option<&str>)
        ensures
            opt_str(res) == Some("CWE-676"@),
    {
        Some("CWE-676")
    }

    fn description(&self) -> (res: &str)
        ensures
            res@ == "Use of unsafe block bypasses Rust memory safety guarantees"@,
    {
        "Use of unsafe block bypasses Rust memory safety guarantees"
    }

    fn language(&self) -> (res: Language)
        ensures
            res == Language::Rust,
    {
        Language::Rust
    }

    fn check(&self, source: &str, tree: &SyntaxTree) -> (res: Vec<Finding>)
        ensures
            finding_views(res@) == collect_hits(
                tree@.len() as int,
                |k: int| rs_unsafe_hit(source.spec_bytes(), tree@, k),
            ),
    {
        let c = UnsafeBlockCheck;
        let res = walk_tree(&c, source, tree);
        assert((|k: int| c.node_hits(source.spec_bytes(), tree@, k)) =~= (|k: int|
            rs_unsafe_hit(source.spec_bytes(), tree@, k)));
        res
    }
}

// ─── Rule 2: transmute-usage ──────────────────────────────────────────────────

pub open spec fn rs_transmute_hit(src: Seq<u8>, t: Seq<NodeView>, i: int) -> Seq<FindingView> {
    match rs_callee(src, t, i) {
        Some(c) => if contains_seq(c, "transmute"@) {
            seq![finding_at_node("rs/transmute-usage"@, Severity::High, Some("CWE-843"@), "std::mem::transmute can cause type confusion and undefined behavior — prefer safe casts"@, src, t[i])]
        } else {
            Seq::empty()
        },
        None => Seq::empty(),
    }
}

pub struct TransmuteUsage;

struct TransmuteUsageCheck;

impl NodeCheck for TransmuteUsageCheck {
    closed spec fn node_hits(&self, src: Seq<u8>, t: Seq<NodeView>, i: int) -> Seq<FindingView> {
        rs_transmute_hit(src, t, i)
    }

    fn hits_at(&self, source: &str, tree: &SyntaxTree, i: usize) -> (res: Vec<Finding>) {
        let mut out: Vec<Finding> = Vec::new();
        match rs_callee_exec(tree, source.as_bytes(), i) {
            Some(c) => {
                if contains_str(c.as_slice(), "transmute") {
                    out.push(
                        make_finding(
                            "rs/transmute-usage",
                            Severity::High,
                            Some("CWE-843"),
                            "std::mem::transmute can cause type confusion and undefined behavior — prefer safe casts",
                            tree,
                            i,
                            source,
                        ),
                    );
                }
            },
            None => {},
        }
        assert(finding_views(out@) =~= rs_transmute_hit(source.spec_bytes(), tree@, i as int));
        out
    }
}

impl Rule for TransmuteUsage {
    fn id(&self) -> (res: &str)
        ensures
            res@ == "rs/transmute-usage"@,
    {
        "rs/transmute-usage"
    }

    fn severity(&self) -> (res: Severity)
        ensures
            res == Severity::High,
    {
        Severity::High
    }

    fn cwe(&self) -> (res: Option<&str>)
        ensures
            opt_str(res) == Some("CWE-843"@),
    {
        Some("CWE-843")
    }

    fn description(&self) -> (res: &str)
        ensures
            res@ == "Use of std::mem::transmute can cause type confusion and undefined behavior"@,
    {
        "Use of std::mem::transmute can cause type confusion and undefined behavior"
    }

    fn language(&self) -> (res: Language)
        ensures
            res == Language::Rust,
    {
        Language::Rust
    }

    fn check(&self, source: &str, tree: &SyntaxTree) -> (res: Vec<Finding>)
        ensures
            finding_views(res@) == collect_hits(
                tree@.len() as int,
                |k: int| rs_transmute_hit(source.spec_bytes(), tree@, k),
            ),
    {
        let c = TransmuteUsageCheck;
        let res = walk_tree(&c, source, tree);
        assert((|k: int| c.node_hits(source.spec_bytes(), tree@, k)) =~= (|k: int|
            rs_transmute_hit(source.spec_bytes(), tree@, k)));
        res
    }
}

// ─── Rule 3: no-command-injection ─────────────────────────────────────────────

pub open spec fn is_command_new(c: Seq<char>) -> bool {
    c == "Command::new"@ || c == "std::process::Command::new"@ || c == "process::Command::new"@
}

/// The call has an argument list whose first argument is not a string
/// literal (or which is empty).
pub open spec fn rs_no_literal_first_arg(t: Seq<NodeView>, i: int) -> bool {
    match field_child(t, i, "arguments"@) {
        Some(a) => !(match named_child(t, a as int, 0) {
            Some(f) => t[f as int].kind == "string_literal"@,
            None => false,
        }),
        None => false,
    }
}

pub open spec fn rs_cmd_hit(src: Seq<u8>, t: Seq<NodeView>, i: int) -> Seq<FindingView> {
    match rs_callee(src, t, i) {
        Some(c) => if is_command_new(c) && rs_no_literal_first_arg(t, i) {
            seq![finding_at_node("rs/no-command-injection"@, Severity::Critical, Some("CWE-78"@), "Command::new called with dynamic argument — risk of command injection"@, src, t[i])]
        } else {
            Seq::empty()
        },
        None => Seq::empty(),
    }
}

pub struct NoCommandInjection;

struct NoCommandInjectionCheck;

impl NodeCheck for NoCommandInjectionCheck {
    closed spec fn node_hits(&self, src: Seq<u8>, t: Seq<NodeView>, i: int) -> Seq<FindingView> {
        rs_cmd_hit(src, t, i)
    }

    fn hits_at(&self, source: &str, tree: &SyntaxTree, i: usize) -> (res: Vec<Finding>) {
        let mut out: Vec<Finding> = Vec::new();
        match rs_callee_exec(tree, source.as_bytes(), i) {
            Some(c) => {
                let cs = c.as_slice();
                if chars_eq_str(cs, "Command::new") || chars_eq_str(cs, "std::process::Command::new")
                    || chars_eq_str(cs, "process::Command::new") {
                    match tree.child_by_field(i, "arguments") {
                        Some(a) => {
                            let has_literal = match tree.named_child(a, 0) {
                                Some(f) => tree.kind_is(f, "string_literal"),
                                None => false,
                            };
                            if !has_literal {
                                out.push(
                        make_finding(
                            "rs/no-command-injection",
                            Severity::Critical,
                            Some("CWE-78"),
                            "Command::new called with dynamic argument — risk of command injection",
                            tree,
                            i,
                            source,
                        ),
                    );
                            }
                        },
                        None => {},
                    }
                }
            },
            None => {},
        }
        assert(finding_views(out@) =~= rs_cmd_hit(source.spec_bytes(), tree@, i as int));
        out
    }
}

impl Rule for NoCommandInjection {
    fn id(&self) -> (res: &str)
        ensures
            res@ == "rs/no-command-injection"@,
    {
        "rs/no-command-injection"
    }

    fn severity(&self) -> (res: Severity)
        ensures
            res == Severity::Critical,
    {
        Severity::Critical
    }

    fn cwe(&self) -> (res: Option<&str>)
        ensures
            opt_str(res) == Some("CWE-78"@),
    {
        Some("CWE-78")
    }

    fn description(&self) -> (res: &str)
        ensures
            res@ == "Potential command injection via Command::new with dynamic input"@,
    {
        "Potential command injection via Command::new with dynamic input"
    }

    fn language(&self) -> (res: Language)
        ensures
            res == Language::Rust,
    {
        Language::Rust
    }

    fn check(&self, source: &str, tree: &SyntaxTree) -> (res: Vec<Finding>)
        ensures
            finding_views(res@) == collect_hits(
                tree@.len() as int,
                |k: int| rs_cmd_hit(source.spec_bytes(), tree@, k),
            ),
    {
        let c = NoCommandInjectionCheck;
        let res = walk_tree(&c, source, tree);
        assert((|k: int| c.node_hits(source.spec_bytes(), tree@, k)) =~= (|k: int|
            rs_cmd_hit(source.spec_bytes(), tree@, k)));
        res
    }
}

// ─── Rule 4: no-sql-injection ─────────────────────────────────────────────────

pub const RS_SQL_METHODS: &'static str = r"(?i)\b(query|sql_query|execute|raw_sql)\b";

/// One finding at call `i` for each of the first `k` children of the
/// argument list `a` that is a `format!` macro invocation.
pub open spec fn rs_format_args(src: Seq<u8>, t: Seq<NodeView>, i: int, a: int, k: int) -> Seq<
    FindingView,
>
    decreases k,
{
    if k <= 0 || k > t[a].children.len() {
        Seq::empty()
    } else {
        let c = t[a].children[k - 1] as int;
        rs_format_args(src, t, i, a, k - 1) + (if t[c].kind == "macro_invocation"@ && starts_with_seq(
            node_text(src, t[c]),
            "format!"@,
        ) {
            seq![finding_at_node("rs/no-sql-injection"@, Severity::Critical, Some("CWE-89"@), "SQL query built with format! macro — use parameterized queries"@, src, t[i])]
        } else {
            Seq::empty()
        })
    }
}

pub open spec fn rs_sql_hit(src: Seq<u8>, t: Seq<NodeView>, p: Seq<char>, i: int) -> Seq<FindingView> {
    match rs_callee(src, t, i) {
        Some(c) => if regex_is_match(p, c) {
            match field_child(t, i, "arguments"@) {
                Some(a) => rs_format_args(src, t, i, a as int, t[a as int].children.len() as int),
                None => Seq::empty(),
            }
        } else {
            Seq::empty()
        },
        None => Seq::empty(),
    }
}

pub struct NoSqlInjection;

struct NoSqlInjectionCheck {
    p: Pattern,
}

impl NodeCheck for NoSqlInjectionCheck {
    closed spec fn node_hits(&self, src: Seq<u8>, t: Seq<NodeView>, i: int) -> Seq<FindingView> {
        rs_sql_hit(src, t, self.p.spec_source(), i)
    }

    fn hits_at(&self, source: &str, tree: &SyntaxTree, i: usize) -> (res: Vec<Finding>) {
        let src = source.as_bytes();
        let mut out: Vec<Finding> = Vec::new();
        let ghost p = self.p.spec_source();
        match rs_callee_exec(tree, src, i) {
            Some(c) => {
                if is_match(&self.p, string_of_chars(c.as_slice()).as_str()) {
                    match tree.child_by_field(i, "arguments") {
                        Some(a) => {
                            let _ = tree.len();
                            assert(crate::tree::node_wf(tree@, a as int));
                            let kids = tree.node(a).children.clone();
                            assert(kids@ == tree@[a as int].children);
                            let mut k: usize = 0;
                            while k < kids.len()
                                invariant
                                    k <= kids@.len(),
                                    kids@ == tree@[a as int].children,
                                    src@ == source.spec_bytes(),
                                    i < tree@.len(),
                                    a < tree@.len(),
                                    crate::tree::tree_wf(tree@),
                                    finding_views(out@) == rs_format_args(
                                        src@,
                                        tree@,
                                        i as int,
                                        a as int,
                                        k as int,
                                    ),
                                decreases kids@.len() - k,
                            {
                                let ch = kids[k];
                                assert(crate::tree::node_wf(tree@, a as int));
                                let ghost before = out@;
                                if tree.kind_is(ch, "macro_invocation") {
                                    let text = tree.text(src, ch);
                                    if starts_with_str(text.as_slice(), "format!") {
                                        out.push(
                        make_finding(
                            "rs/no-sql-injection",
                            Severity::Critical,
                            Some("CWE-89"),
                            "SQL query built with format! macro — use parameterized queries",
                            tree,
                            i,
                            source,
                        ),
                    );
                                        assert(finding_views(out@) =~= finding_views(before).push(out@.last()@));
                                    }
                                }
                                assert(rs_format_args(src@, tree@, i as int, a as int, k + 1)
                                    == rs_format_args(src@, tree@, i as int, a as int, k as int) + (if tree@[ch as int].kind == "macro_invocation"@ && starts_with_seq(
                                    node_text(src@, tree@[ch as int]),
                                    "format!"@,
                                ) {
                                    seq![finding_at_node("rs/no-sql-injection"@, Severity::Critical, Some("CWE-89"@), "SQL query built with format! macro — use parameterized queries"@, src@, tree@[i as int])]
                                } else {
                                    Seq::empty()
                                }));
                                assert(finding_views(out@) =~= rs_format_args(
                                    src@,
                                    tree@,
                                    i as int,
                                    a as int,
                                    k + 1,
                                ));
                                k = k + 1;
                            }
                        },
                        None => {
                            assert(finding_views(out@) =~= Seq::<FindingView>::empty());
                        },
                    }
                }
            },
            None => {},
        }
        assert(finding_views(out@) =~= rs_sql_hit(src@, tree@, p, i as int));
        out
    }
}

impl Rule for NoSqlInjection {
    fn id(&self) -> (res: &str)
        ensures
            res@ == "rs/no-sql-injection"@,
    {
        "rs/no-sql-injection"
    }

    fn severity(&self) -> (res: Severity)
        ensures
            res == Severity::Critical,
    {
        Severity::Critical
    }

    fn cwe(&self) -> (res: Option<&str>)
        ensures
            opt_str(res) == Some("CWE-89"@),
    {
        Some("CWE-89")
    }

    fn description(&self) -> (res: &str)
        ensures
            res@ == "Potential SQL injection via format! macro in query argument"@,
    {
        "Potential SQL injection via format! macro in query argument"
    }

    fn language(&self) -> (res: Language)
        ensures
            res == Language::Rust,
    {
        Language::Rust
    }

    fn check(&self, source: &str, tree: &SyntaxTree) -> (res: Vec<Finding>)
        ensures
            finding_views(res@) == (if regex_compiles(RS_SQL_METHODS@) {
                collect_hits(
                    tree@.len() as int,
                    |k: int| rs_sql_hit(source.spec_bytes(), tree@, RS_SQL_METHODS@, k),
                )
            } else {
                Seq::empty()
            }),
    {
        match compile(RS_SQL_METHODS) {
            Some(p) => {
                let c = NoSqlInjectionCheck { p };
                let res = walk_tree(&c, source, tree);
                assert((|k: int| c.node_hits(source.spec_bytes(), tree@, k)) =~= (|k: int|
                    rs_sql_hit(source.spec_bytes(), tree@, RS_SQL_METHODS@, k)));
                res
            },
            None => {
                let v: Vec<Finding> = Vec::new();
                assert(finding_views(v@) =~= Seq::<FindingView>::empty());
                v
            },
        }
    }
}

// ─── Rule 5: no-weak-hash ────────────────────────────────────────────────────

pub const RS_WEAK_HASH: &'static str = r"\b(md5|sha1|Md5|Sha1|MD5|SHA1)\b";

/// `MD5` when the text names MD5 in any of its usual spellings, else `SHA1`.
pub open spec fn hash_algo(text: Seq<char>) -> Seq<char> {
    if contains_seq(text, "md5"@) || contains_seq(text, "Md5"@) || contains_seq(text, "MD5"@) {
        "MD5"@
    } else {
        "SHA1"@
    }
}

fn hash_algo_exec(text: &[char]) -> (res: &'static str)
    ensures
        res@ == hash_algo(text@),
{
    if contains_str(text, "md5") || contains_str(text, "Md5") || contains_str(text, "MD5") {
        "MD5"
    } else {
        "SHA1"
    }
}

pub open spec fn rs_weak_hash_hit(src: Seq<u8>, t: Seq<NodeView>, p: Seq<char>, i: int) -> Seq<
    FindingView,
> {
    let import = if t[i].kind == "use_declaration"@ && regex_is_match(p, node_text(src, t[i])) {
        seq![
            finding_at_node("rs/no-weak-hash"@, Severity::Medium, Some("CWE-328"@), "Import of weak hash algorithm "@ + hash_algo(node_text(src, t[i])) + " — use SHA-256 or stronger"@, src, t[i])
        ]
    } else {
        Seq::empty()
    };
    let call = match rs_callee(src, t, i) {
        Some(c) => if regex_is_match(p, c) {
            seq![finding_at_node("rs/no-weak-hash"@, Severity::Medium, Some("CWE-328"@), hash_algo(c) + " is cryptographically weak — use SHA-256 or stronger"@, src, t[i])]
        } else {
            Seq::empty()
        },
        None => Seq::empty(),
    };
    import + call
}

pub struct NoWeakHash;

struct NoWeakHashCheck {
    p: Pattern,
}

impl NodeCheck for NoWeakHashCheck {
    closed spec fn node_hits(&self, src: Seq<u8>, t: Seq<NodeView>, i: int) -> Seq<FindingView> {
        rs_weak_hash_hit(src, t, self.p.spec_source(), i)
    }

    fn hits_at(&self, source: &str, tree: &SyntaxTree, i: usize) -> (res: Vec<Finding>) {
        let src = source.as_bytes();
        let mut out: Vec<Finding> = Vec::new();
        if tree.kind_is(i, "use_declaration") {
            let text = tree.text(src, i);
            if is_match(&self.p, string_of_chars(text.as_slice()).as_str()) {
                let algo = hash_algo_exec(text.as_slice());
                let msg = join3("Import of weak hash algorithm ", chars_of(algo).as_slice(), " — use SHA-256 or stronger");
                out.push(
                        make_finding(
                            "rs/no-weak-hash",
                            Severity::Medium,
                            Some("CWE-328"),
                            msg.as_str(),
                            tree,
                            i,
                            source,
                        ),
                    );
            }
        }
        let ghost first = out@;
        match rs_callee_exec(tree, src, i) {
            Some(c) => {
                if is_match(&self.p, string_of_chars(c.as_slice()).as_str()) {
                    let algo = hash_algo_exec(c.as_slice());
                    let msg = join2(chars_of(algo).as_slice(), " is cryptographically weak — use SHA-256 or stronger");
                    out.push(
                        make_finding(
                            "rs/no-weak-hash",
                            Severity::Medium,
                            Some("CWE-328"),
                            msg.as_str(),
                            tree,
                            i,
                            source,
                        ),
                    );
                }
            },
            None => {},
        }
        assert(finding_views(out@) =~= rs_weak_hash_hit(src@, tree@, self.p.spec_source(), i as int));
        out
    }
}

impl Rule for NoWeakHash {
    fn id(&self) -> (res: &str)
        ensures
            res@ == "rs/no-weak-hash"@,
    {
        "rs/no-weak-hash"
    }

    fn severity(&self) -> (res: Severity)
        ensures
            res == Severity::Medium,
    {
        Severity::Medium
    }

    fn cwe(&self) -> (res: Option<&str>)
        ensures
            opt_str(res) == Some("CWE-328"@),
    {
        Some("CWE-328")
    }

    fn description(&self) -> (res: &str)
        ensures
            res@ == "Use of weak cryptographic hash (MD5/SHA1)"@,
    {
        "Use of weak cryptographic hash (MD5/SHA1)"
    }

    fn language(&self) -> (res: Language)
        ensures
            res == Language::Rust,
    {
        Language::Rust
    }

    fn check(&self, source: &str, tree: &SyntaxTree) -> (res: Vec<Finding>)
        ensures
            finding_views(res@) == (if regex_compiles(RS_WEAK_HASH@) {
                collect_hits(
                    tree@.len() as int,
                    |k: int| rs_weak_hash_hit(source.spec_bytes(), tree@, RS_WEAK_HASH@, k),
                )
            } else {
                Seq::empty()
            }),
    {
        match compile(RS_WEAK_HASH) {
            Some(p) => {
                let c = NoWeakHashCheck { p };
                let res = walk_tree(&c, source, tree);
                assert((|k: int| c.node_hits(source.spec_bytes(), tree@, k)) =~= (|k: int|
                    rs_weak_hash_hit(source.spec_bytes(), tree@, RS_WEAK_HASH@, k)));
                res
            },
            None => {
                let v: Vec<Finding> = Vec::new();
                assert(finding_views(v@) =~= Seq::<FindingView>::empty());
                v
            },
        }
    }
}

// ─── Rule 6: no-hardcoded-secret ──────────────────────────────────────────────

pub const RS_SECRET_PATTERN: &'static str = r"(?i)(password|secret|api_?key|token|auth|credential|private_?key)";

pub open spec fn rs_secret_hit(src: Seq<u8>, t: Seq<NodeView>, p: Seq<char>, i: int) -> Seq<FindingView> {
    if t[i].kind == "let_declaration"@ {
        match field_child(t, i, "pattern"@) {
            Some(pt) => {
                let name = node_text(src, t[pt as int]);
                match field_child(t, i, "value"@) {
                    Some(v) => if regex_is_match(p, name) && t[v as int].kind == "string_literal"@ && utf8_len(
                        trim_set(node_text(src, t[v as int]), TrimSet::DoubleQuote),
                    ) >= 4 {
                        seq![
                            finding_at_node("rs/no-hardcoded-secret"@, Severity::High, Some("CWE-798"@), "Hardcoded secret in '"@ + trim_set(name, TrimSet::Whitespace) + "' — use environment variables"@, src, t[i])
                        ]
                    } else {
                        Seq::empty()
                    },
                    None => Seq::empty(),
                }
            },
            None => Seq::empty(),
        }
    } else {
        Seq::empty()
    }
}

pub struct NoHardcodedSecret;

struct NoHardcodedSecretCheck {
    p: Pattern,
}

impl NodeCheck for NoHardcodedSecretCheck {
    closed spec fn node_hits(&self, src: Seq<u8>, t: Seq<NodeView>, i: int) -> Seq<FindingView> {
        rs_secret_hit(src, t, self.p.spec_source(), i)
    }

    fn hits_at(&self, source: &str, tree: &SyntaxTree, i: usize) -> (res: Vec<Finding>) {
        let src = source.as_bytes();
        let mut out: Vec<Finding> = Vec::new();
        if tree.kind_is(i, "let_declaration") {
            match tree.child_by_field(i, "pattern") {
                Some(pt) => {
                    let name = tree.text(src, pt);
                    if is_match(&self.p, string_of_chars(name.as_slice()).as_str()) {
                        match tree.child_by_field(i, "value") {
                            Some(v) => {
                                if tree.kind_is(v, "string_literal") {
                                    let val = tree.text(src, v);
                                    let inner = trim_chars(val.as_slice(), TrimSet::DoubleQuote);
                                    if utf8_len_at_least(inner.as_slice(), 4) {
                                        let nm = trim_chars(name.as_slice(), TrimSet::Whitespace);
                                        let msg = join3("Hardcoded secret in '", nm.as_slice(), "' — use environment variables");
                                        out.push(
                        make_finding(
                            "rs/no-hardcoded-secret",
                            Severity::High,
                            Some("CWE-798"),
                            msg.as_str(),
                            tree,
                            i,
                            source,
                        ),
                    );
                                    }
                                }
                            },
                            None => {},
                        }
                    }
                },
                None => {},
            }
        }
        assert(finding_views(out@) =~= rs_secret_hit(src@, tree@, self.p.spec_source(), i as int));
        out
    }
}

impl Rule for NoHardcodedSecret {
    fn id(&self) -> (res: &str)
        ensures
            res@ == "rs/no-hardcoded-secret"@,
    {
        "rs/no-hardcoded-secret"
    }

    fn severity(&self) -> (res: Severity)
        ensures
            res == Severity::High,
    {
        Severity::High
    }

    fn cwe(&self) -> (res: Option<&str>)
        ensures
            opt_str(res) == Some("CWE-798"@),
    {
        Some("CWE-798")
    }

    fn description(&self) -> (res: &str)
        ensures
            res@ == "Hardcoded secret or credential detected"@,
    {
        "Hardcoded secret or credential detected"
    }

    fn language(&self) -> (res: Language)
        ensures
            res == Language::Rust,
    {
        Language::Rust
    }

    fn check(&self, source: &str, tree: &SyntaxTree) -> (res: Vec<Finding>)
        ensures
            finding_views(res@) == (if regex_compiles(RS_SECRET_PATTERN@) {
                collect_hits(
                    tree@.len() as int,
                    |k: int| rs_secret_hit(source.spec_bytes(), tree@, RS_SECRET_PATTERN@, k),
                )
            } else {
                Seq::empty()
            }),
    {
        match compile(RS_SECRET_PATTERN) {
            Some(p) => {
                let c = NoHardcodedSecretCheck { p };
                let res = walk_tree(&c, source, tree);
                assert((|k: int| c.node_hits(source.spec_bytes(), tree@, k)) =~= (|k: int|
                    rs_secret_hit(source.spec_bytes(), tree@, RS_SECRET_PATTERN@, k)));
                res
            },
            None => {
                let v: Vec<Finding> = Vec::new();
                assert(finding_views(v@) =~= Seq::<FindingView>::empty());
                v
            },
        }
    }
}

// ─── Rule 7: tls-verify-disabled ──────────────────────────────────────────────

pub open spec fn rs_tls_hit(src: Seq<u8>, t: Seq<NodeView>, i: int) -> Seq<FindingView> {
    match rs_callee(src, t, i) {
        Some(c) => if contains_seq(c, "danger_accept_invalid_certs"@) && (match nth_arg(t, i, 0) {
            Some(f) => node_text(src, t[f as int]) == "true"@,
            None => false,
        }) {
            seq![finding_at_node("rs/tls-verify-disabled"@, Severity::High, Some("CWE-295"@), "danger_accept_invalid_certs(true) disables TLS verification — prefer proper CA validation"@, src, t[i])]
        } else {
            Seq::empty()
        },
        None => Seq::empty(),
    }
}

pub struct TlsVerifyDisabled;

struct TlsVerifyDisabledCheck;

impl NodeCheck for TlsVerifyDisabledCheck {
    closed spec fn node_hits(&self, src: Seq<u8>, t: Seq<NodeView>, i: int) -> Seq<FindingView> {
        rs_tls_hit(src, t, i)
    }

    fn hits_at(&self, source: &str, tree: &SyntaxTree, i: usize) -> (res: Vec<Finding>) {
        let src = source.as_bytes();
        let mut out: Vec<Finding> = Vec::new();
        match rs_callee_exec(tree, src, i) {
            Some(c) => {
                if contains_str(c.as_slice(), "danger_accept_invalid_certs") {
                    match nth_arg_exec(tree, i, 0) {
                        Some(f) => {
                            let at = tree.text(src, f);
                            if chars_eq_str(at.as_slice(), "true") {
                                out.push(
                        make_finding(
                            "rs/tls-verify-disabled",
                            Severity::High,
                            Some("CWE-295"),
                            "danger_accept_invalid_certs(true) disables TLS verification — prefer proper CA validation",
                            tree,
                            i,
                            source,
                        ),
                    );
                            }
                        },
                        None => {},
                    }
                }
            },
            None => {},
        }
        assert(finding_views(out@) =~= rs_tls_hit(src@, tree@, i as int));
        out
    }
}

impl Rule for TlsVerifyDisabled {
    fn id(&self) -> (res: &str)
        ensures
            res@ == "rs/tls-verify-disabled"@,
    {
        "rs/tls-verify-disabled"
    }

    fn severity(&self) -> (res: Severity)
        ensures
            res == Severity::High,
    {
        Severity::High
    }

    fn cwe(&self) -> (res: Option<&str>)
        ensures
            opt_str(res) == Some("CWE-295"@),
    {
        Some("CWE-295")
    }

    fn description(&self) -> (res: &str)
        ensures
            res@ == "TLS certificate verification disabled with danger_accept_invalid_certs"@,
    {
        "TLS certificate verification disabled with danger_accept_invalid_certs"
    }

    fn language(&self) -> (res: Language)
        ensures
            res == Language::Rust,
    {
        Language::Rust
    }

    fn check(&self, source: &str, tree: &SyntaxTree) -> (res: Vec<Finding>)
        ensures
            finding_views(res@) == collect_hits(
                tree@.len() as int,
                |k: int| rs_tls_hit(source.spec_bytes(), tree@, k),
            ),
    {
        let c = TlsVerifyDisabledCheck;
        let res = walk_tree(&c, source, tree);
        assert((|k: int| c.node_hits(source.spec_bytes(), tree@, k)) =~= (|k: int|
            rs_tls_hit(source.spec_bytes(), tree@, k)));
        res
    }
}

// ─── Rule 8: no-ssrf ─────────────────────────────────────────────────────────

/// `reqwest::get(url)` or a `.get(url)` / `.post(url)` call, in a file that
/// mentions reqwest, with a URL that is not a string literal.
pub open spec fn rs_ssrf_hit(src: Seq<u8>, t: Seq<NodeView>, mentions_reqwest: bool, i: int) -> Seq<
    FindingView,
> {
    match rs_callee(src, t, i) {
        Some(c) => if (c == "reqwest::get"@ || ends_with_seq(c, ".get"@) || ends_with_seq(c, ".post"@))
            && (contains_seq(c, "reqwest"@) || mentions_reqwest) && rs_dynamic_first_arg(t, i) {
            seq![
                finding_at_node("rs/no-ssrf"@, Severity::High, Some("CWE-918"@), c + " called with dynamic URL — validate and allowlist target hosts to prevent SSRF"@, src, t[i])
            ]
        } else {
            Seq::empty()
        },
        None => Seq::empty(),
    }
}

pub struct NoSsrf;

struct NoSsrfCheck {
    mentions_reqwest: bool,
}

impl NodeCheck for NoSsrfCheck {
    closed spec fn node_hits(&self, src: Seq<u8>, t: Seq<NodeView>, i: int) -> Seq<FindingView> {
        rs_ssrf_hit(src, t, self.mentions_reqwest, i)
    }

    fn hits_at(&self, source: &str, tree: &SyntaxTree, i: usize) -> (res: Vec<Finding>) {
        let src = source.as_bytes();
        let mut out: Vec<Finding> = Vec::new();
        match rs_callee_exec(tree, src, i) {
            Some(c) => {
                let cs = c.as_slice();
                if (chars_eq_str(cs, "reqwest::get") || ends_with_str(cs, ".get") || ends_with_str(cs, ".post"))
                    && (contains_str(cs, "reqwest") || self.mentions_reqwest) && rs_dynamic_first_arg_exec(tree, i) {
                    let msg = join2(cs, " called with dynamic URL — validate and allowlist target hosts to prevent SSRF");
                    out.push(
                        make_finding(
                            "rs/no-ssrf",
                            Severity::High,
                            Some("CWE-918"),
                            msg.as_str(),
                            tree,
                            i,
                            source,
                        ),
                    );
                }
            },
            None => {},
        }
        assert(finding_views(out@) =~= rs_ssrf_hit(src@, tree@, self.mentions_reqwest, i as int));
        out
    }
}

impl Rule for NoSsrf {
    fn id(&self) -> (res: &str)
        ensures
            res@ == "rs/no-ssrf"@,
    {
        "rs/no-ssrf"
    }

    fn severity(&self) -> (res: Severity)
        ensures
            res == Severity::High,
    {
        Severity::High
    }

    fn cwe(&self) -> (res: Option<&str>)
        ensures
            opt_str(res) == Some("CWE-918"@),
    {
        Some("CWE-918")
    }

    fn description(&self) -> (res: &str)
        ensures
            res@ == "Potential SSRF via reqwest with dynamic URL"@,
    {
        "Potential SSRF via reqwest with dynamic URL"
    }

    fn language(&self) -> (res: Language)
        ensures
            res == Language::Rust,
    {
        Language::Rust
    }

    fn check(&self, source: &str, tree: &SyntaxTree) -> (res: Vec<Finding>)
        ensures
            finding_views(res@) == collect_hits(
                tree@.len() as int,
                |k: int| rs_ssrf_hit(source.spec_bytes(), tree@, contains_seq(source@, "reqwest"@), k),
            ),
    {
        let text = chars_of(source);
        let mentions_reqwest = contains_str(text.as_slice(), "reqwest");
        let c = NoSsrfCheck { mentions_reqwest };
        let res = walk_tree(&c, source, tree);
        assert((|k: int| c.node_hits(source.spec_bytes(), tree@, k)) =~= (|k: int|
            rs_ssrf_hit(source.spec_bytes(), tree@, contains_seq(source@, "reqwest"@), k)));
        res
    }
}

// ─── Rule 9: no-path-traversal ────────────────────────────────────────────────

pub open spec fn rs_path_hit(src: Seq<u8>, t: Seq<NodeView>, i: int) -> Seq<FindingView> {
    match rs_callee(src, t, i) {
        Some(c) => if (contains_seq(c, "Path::new"@) || contains_seq(c, "PathBuf::from"@))
            && rs_dynamic_first_arg(t, i) {
            seq![
                finding_at_node("rs/no-path-traversal"@, Severity::Medium, Some("CWE-22"@), c + " called with dynamic path — validate input to prevent path traversal"@, src, t[i])
            ]
        } else {
            Seq::empty()
        },
        None => Seq::empty(),
    }
}

pub struct NoPathTraversal;

struct NoPathTraversalCheck;

impl NodeCheck for NoPathTraversalCheck {
    closed spec fn node_hits(&self, src: Seq<u8>, t: Seq<NodeView>, i: int) -> Seq<FindingView> {
        rs_path_hit(src, t, i)
    }

    fn hits_at(&self, source: &str, tree: &SyntaxTree, i: usize) -> (res: Vec<Finding>) {
        let src = source.as_bytes();
        let mut out: Vec<Finding> = Vec::new();
        match rs_callee_exec(tree, src, i) {
            Some(c) => {
                let cs = c.as_slice();
                if (contains_str(cs, "Path::new") || contains_str(cs, "PathBuf::from")) && rs_dynamic_first_arg_exec(tree, i) {
                    let msg = join2(cs, " called with dynamic path — validate input to prevent path traversal");
                    out.push(
                        make_finding(
                            "rs/no-path-traversal",
                            Severity::Medium,
                            Some("CWE-22"),
                            msg.as_str(),
                            tree,
                            i,
                            source,
                        ),
                    );
                }
            },
            None => {},
        }
        assert(finding_views(out@) =~= rs_path_hit(src@, tree@, i as int));
        out
    }
}

impl Rule for NoPathTraversal {
    fn id(&self) -> (res: &str)
        ensures
            res@ == "rs/no-path-traversal"@,
    {
        "rs/no-path-traversal"
    }

    fn severity(&self) -> (res: Severity)
        ensures
            res == Severity::Medium,
    {
        Severity::Medium
    }

    fn cwe(&self) -> (res: Option<&str>)
        ensures
            opt_str(res) == Some("CWE-22"@),
    {
        Some("CWE-22")
    }

    fn description(&self) -> (res: &str)
        ensures
            res@ == "Potential path traversal via Path::new or PathBuf::from with dynamic input"@,
    {
        "Potential path traversal via Path::new or PathBuf::from with dynamic input"
    }

    fn language(&self) -> (res: Language)
        ensures
            res == Language::Rust,
    {
        Language::Rust
    }

    fn check(&self, source: &str, tree: &SyntaxTree) -> (res: Vec<Finding>)
        ensures
            finding_views(res@) == collect_hits(
                tree@.len() as int,
                |k: int| rs_path_hit(source.spec_bytes(), tree@, k),
            ),
    {
        let c = NoPathTraversalCheck;
        let res = walk_tree(&c, source, tree);
        assert((|k: int| c.node_hits(source.spec_bytes(), tree@, k)) =~= (|k: int|
            rs_path_hit(source.spec_bytes(), tree@, k)));
        res
    }
}

// ─── Rule 10: no-unwrap-in-lib ────────────────────────────────────────────────

pub open spec fn rs_unwrap_hit(src: Seq<u8>, t: Seq<NodeView>, i: int) -> Seq<FindingView> {
    match rs_callee(src, t, i) {
        Some(c) => if ends_with_seq(c, ".unwrap"@) {
            seq![finding_at_node("rs/no-unwrap-in-lib"@, Severity::Medium, Some("CWE-248"@), ".unwrap() can panic at runtime — use proper error handling with ? or match"@, src, t[i])]
        } else if ends_with_seq(c, ".expect"@) {
            seq![finding_at_node("rs/no-unwrap-in-lib"@, Severity::Medium, Some("CWE-248"@), ".expect() can panic at runtime — use proper error handling with ? or match"@, src, t[i])]
        } else {
            Seq::empty()
        },
        None => Seq::empty(),
    }
}

pub struct NoUnwrapInLib;

struct NoUnwrapInLibCheck;

impl NodeCheck for NoUnwrapInLibCheck {
    closed spec fn node_hits(&self, src: Seq<u8>, t: Seq<NodeView>, i: int) -> Seq<FindingView> {
        rs_unwrap_hit(src, t, i)
    }

    fn hits_at(&self, source: &str, tree: &SyntaxTree, i: usize) -> (res: Vec<Finding>) {
        let src = source.as_bytes();
        let mut out: Vec<Finding> = Vec::new();
        match rs_callee_exec(tree, src, i) {
            Some(c) => {
                let cs = c.as_slice();
                if ends_with_str(cs, ".unwrap") {
                    out.push(
                        make_finding(
                            "rs/no-unwrap-in-lib",
                            Severity::Medium,
                            Some("CWE-248"),
                            ".unwrap() can panic at runtime — use proper error handling with ? or match",
                            tree,
                            i,
                            source,
                        ),
                    );
                } else if ends_with_str(cs, ".expect") {
                    out.push(
                        make_finding(
                            "rs/no-unwrap-in-lib",
                            Severity::Medium,
                            Some("CWE-248"),
                            ".expect() can panic at runtime — use proper error handling with ? or match",
                            tree,
                            i,
                            source,
                        ),
                    );
                }
            },
            None => {},
        }
        assert(finding_views(out@) =~= rs_unwrap_hit(src@, tree@, i as int));
        out
    }
}

impl Rule for NoUnwrapInLib {
    fn id(&self) -> (res: &str)
        ensures
            res@ == "rs/no-unwrap-in-lib"@,
    {
        "rs/no-unwrap-in-lib"
    }

    fn severity(&self) -> (res: Severity)
        ensures
            res == Severity::Medium,
    {
        Severity::Medium
    }

    fn cwe(&self) -> (res: Option<&str>)
        ensures
            opt_str(res) == Some("CWE-248"@),
    {
        Some("CWE-248")
    }

    fn description(&self) -> (res: &str)
        ensures
            res@ == "Use of .unwrap() or .expect() can cause panics in production"@,
    {
        "Use of .unwrap() or .expect() can cause panics in production"
    }

    fn language(&self) -> (res: Language)
        ensures
            res == Language::Rust,
    {
        Language::Rust
    }

    fn check(&self, source: &str, tree: &SyntaxTree) -> (res: Vec<Finding>)
        ensures
            finding_views(res@) == collect_hits(
                tree@.len() as int,
                |k: int| rs_unwrap_hit(source.spec_bytes(), tree@, k),
            ),
    {
        let c = NoUnwrapInLibCheck;
        let res = walk_tree(&c, source, tree);
        assert((|k: int| c.node_hits(source.spec_bytes(), tree@, k)) =~= (|k: int|
            rs_unwrap_hit(source.spec_bytes(), tree@, k)));
        res
    }
}
} // verus!
