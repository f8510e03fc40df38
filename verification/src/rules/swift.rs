//! Swift rules: hardcoded secrets, process execution, weak hashes,
//! plain-HTTP URLs, JavaScript evaluation in web views, SQL built by
//! interpolation or concatenation, insecure Keychain access levels,
//! disabled TLS validation, path traversal and SSRF.

use vstd::prelude::*;
use vstd::string::*;
use crate::pattern::{compile, find_all, is_match, regex_compiles, regex_find_all, regex_is_match, Pattern};
use crate::rules::common::{
    collect_hits, finding_at_node, finding_at_offsets, fold_hits, line_seen, make_finding,
    make_finding_from_offsets, match_text, match_text_exec, opt_str, walk_tree, walk_tree_lines,
    LineCheck, NodeCheck,
};
use crate::rules::Rule;
use crate::text::{
    after_last, chars_eq_str, chars_of, contains_seq, contains_str, find_char, first_index, has_char,
    has_char_exec, join2, join3, starts_with_seq, starts_with_str, string_of_chars, sub_chars,
    trim_chars, trim_set, utf8_len, utf8_len_at_least, TrimSet,
};
use crate::tree::{field_child, node_text, node_wf, tree_wf, NodeView, SyntaxTree};
use crate::types::{finding_views, Finding, FindingView, Language, Severity};

verus! {

pub open spec fn swift_string_kind(k: Seq<char>) -> bool {
    k == "line_string_literal"@ || k == "string_literal"@
}

fn swift_string_kind_exec(tree: &SyntaxTree, c: usize) -> (res: bool)
    requires
        c < tree@.len(),
    ensures
        res == swift_string_kind(tree@[c as int].kind),
{
    tree.kind_is(c, "line_string_literal") || tree.kind_is(c, "string_literal")
}

/// The findings for each match of a pattern, all with the same message.
pub open spec fn offset_findings(
    rule_id: Seq<char>,
    severity: Severity,
    cwe: Seq<char>,
    msg: Seq<char>,
    src: Seq<u8>,
    ms: Seq<(usize, usize)>,
) -> Seq<FindingView> {
    ms.map_values(
        |m: (usize, usize)| finding_at_offsets(rule_id, severity, Some(cwe), msg, src, m.0 as int, m.1 as int),
    )
}

fn push_offset_findings(
    out: &mut Vec<Finding>,
    rule_id: &str,
    severity: Severity,
    cwe: &str,
    msg: &str,
    source: &str,
    ms: &Vec<(usize, usize)>,
)
    ensures
        finding_views(final(out)@) == finding_views(old(out)@) + offset_findings(
            rule_id@,
            severity,
            cwe@,
            msg@,
            source.spec_bytes(),
            ms@,
        ),
{
    let ghost start = out@;
    let mut k: usize = 0;
    while k < ms.len()
        invariant
            k <= ms@.len(),
            finding_views(out@) == finding_views(start) + offset_findings(
                rule_id@,
                severity,
                cwe@,
                msg@,
                source.spec_bytes(),
                ms@.subrange(0, k as int),
            ),
        decreases ms@.len() - k,
    {
        let (s, e) = ms[k];
        let f = make_finding_from_offsets(rule_id, severity, Some(cwe), msg, source, s, e);
        let ghost before = out@;
        out.push(f);
        assert(finding_views(out@) =~= finding_views(before).push(f@));
        assert(ms@.subrange(0, k + 1) =~= ms@.subrange(0, k as int).push(ms@[k as int]));
        k = k + 1;
    }
    assert(ms@.subrange(0, ms@.len() as int) =~= ms@);
}


// ─── Rule 1: no-hardcoded-secret ────────────────────────────────────────────

pub const SWIFT_SECRET_PATTERN: &'static str = r"(?i)(password|secret|api_?key|token|auth|credential|private_?key)";

/// The last child of `d`, among its first `k`, that is a string literal.
pub open spec fn last_string_child(t: Seq<NodeView>, d: int, k: int) -> Option<int>
    decreases k,
{
    if k <= 0 || k > t[d].children.len() {
        None
    } else {
        let c = t[d].children[k - 1] as int;
        if swift_string_kind(t[c].kind) {
            Some(c)
        } else {
            last_string_child(t, d, k - 1)
        }
    }
}

/// Some child of `d`, among its first `k`, is a string literal whose
/// contents, quotes trimmed, take at least four bytes.
pub open spec fn long_string_child(src: Seq<u8>, t: Seq<NodeView>, d: int, k: int) -> bool
    decreases k,
{
    if k <= 0 || k > t[d].children.len() {
        false
    } else {
        let c = t[d].children[k - 1] as int;
        long_string_child(src, t, d, k - 1) || (swift_string_kind(t[c].kind) && utf8_len(
            trim_set(node_text(src, t[c]), TrimSet::DoubleQuote),
        ) >= 4)
    }
}

/// A property declaration whose name looks secret and whose (last) string
/// value is long enough; failing that, a binding pattern that looks secret
/// inside a declaration with a long string value. One finding per line.
pub open spec fn swift_secret_step(
    src: Seq<u8>,
    t: Seq<NodeView>,
    p: Seq<char>,
    i: int,
    seen: Seq<usize>,
) -> (Seq<FindingView>, Seq<usize>) {
    if t[i].kind == "property_declaration"@ {
        match field_child(t, i, "name"@) {
            Some(nm) => {
                let name = node_text(src, t[nm as int]);
                if regex_is_match(p, name) {
                    match last_string_child(t, i, t[i].children.len() as int) {
                        Some(c) => if utf8_len(trim_set(node_text(src, t[c]), TrimSet::DoubleQuote)) >= 4
                            && !seen.contains(t[i].start_row) {
                            (seq![finding_at_node("swift/no-hardcoded-secret"@, Severity::High, Some("CWE-798"@), "Hardcoded secret in '"@ + name + "' — use environment variables or Keychain"@, src, t[i])], seen.push(t[i].start_row))
                        } else {
                            (Seq::empty(), seen)
                        },
                        None => (Seq::empty(), seen),
                    }
                } else {
                    (Seq::empty(), seen)
                }
            },
            None => (Seq::empty(), seen),
        }
    } else if t[i].kind == "value_binding_pattern"@ || t[i].kind == "pattern"@ {
        let name = node_text(src, t[i]);
        if regex_is_match(p, name) {
            match t[i].parent {
                Some(par) => if !seen.contains(t[par as int].start_row) && long_string_child(
                    src,
                    t,
                    par as int,
                    t[par as int].children.len() as int,
                ) {
                    (
                        seq![finding_at_node("swift/no-hardcoded-secret"@, Severity::High, Some("CWE-798"@), "Hardcoded secret in '"@ + name + "' — use environment variables or Keychain"@, src, t[par as int])],
                        seen.push(t[par as int].start_row),
                    )
                } else {
                    (Seq::empty(), seen)
                },
                None => (Seq::empty(), seen),
            }
        } else {
            (Seq::empty(), seen)
        }
    } else {
        (Seq::empty(), seen)
    }
}

fn last_string_child_exec(tree: &SyntaxTree, d: usize) -> (res: Option<usize>)
    requires
        d < tree@.len(),
    ensures
        match res {
            Some(c) => last_string_child(tree@, d as int, tree@[d as int].children.len() as int) == Some(
                c as int,
            ) && c < tree@.len(),
            None => last_string_child(tree@, d as int, tree@[d as int].children.len() as int) is None,
        },
{
    let _ = tree.len();
    assert(node_wf(tree@, d as int));
    let n = tree.node(d);
    let mut k: usize = n.children.len();
    while k > 0
        invariant
            k <= n.children@.len(),
            n@ == tree@[d as int],
            n.children@ == tree@[d as int].children,
            node_wf(tree@, d as int),
            last_string_child(tree@, d as int, tree@[d as int].children.len() as int)
                == last_string_child(tree@, d as int, k as int),
        decreases k,
    {
        let c = n.children[k - 1];
        if swift_string_kind_exec(tree, c) {
            return Some(c);
        }
        k = k - 1;
    }
    None
}

fn long_string_child_exec(tree: &SyntaxTree, src: &[u8], d: usize) -> (res: bool)
    requires
        d < tree@.len(),
    ensures
        res == long_string_child(src@, tree@, d as int, tree@[d as int].children.len() as int),
{
    let _ = tree.len();
    assert(node_wf(tree@, d as int));
    let n = tree.node(d);
    let mut k: usize = 0;
    while k < n.children.len()
        invariant
            k <= n.children@.len(),
            n@ == tree@[d as int],
            n.children@ == tree@[d as int].children,
            node_wf(tree@, d as int),
            !long_string_child(src@, tree@, d as int, k as int),
        decreases n.children@.len() - k,
    {
        let c = n.children[k];
        if swift_string_kind_exec(tree, c) {
            let text = tree.text(src, c);
            let inner = trim_chars(text.as_slice(), TrimSet::DoubleQuote);
            if utf8_len_at_least(inner.as_slice(), 4) {
                assert(long_string_child(src@, tree@, d as int, k + 1));
                proof {
                    lemma_long_string_child_mono(src@, tree@, d as int, k + 1, n.children@.len() as int);
                }
                return true;
            }
        }
        k = k + 1;
    }
    false
}

proof fn lemma_long_string_child_mono(src: Seq<u8>, t: Seq<NodeView>, d: int, k: int, m: int)
    requires
        0 < k <= m <= t[d].children.len(),
        long_string_child(src, t, d, k),
    ensures
        long_string_child(src, t, d, m),
    decreases m - k,
{
    if k < m {
        lemma_long_string_child_mono(src, t, d, k, m - 1);
    }
}

pub struct NoHardcodedSecret;

struct NoHardcodedSecretCheck {
    p: Pattern,
}

impl LineCheck for NoHardcodedSecretCheck {
    closed spec fn node_step(&self, src: Seq<u8>, t: Seq<NodeView>, i: int, seen: Seq<usize>) -> (
        Seq<FindingView>,
        Seq<usize>,
    ) {
        swift_secret_step(src, t, self.p.spec_source(), i, seen)
    }

    fn step_at(&self, source: &str, tree: &SyntaxTree, i: usize, seen: &mut Vec<usize>) -> (res: Vec<Finding>) {
        let src = source.as_bytes();
        let ghost seen0 = seen@;
        let mut out: Vec<Finding> = Vec::new();
        let _ = tree.len();
        assert(node_wf(tree@, i as int));
        if tree.kind_is(i, "property_declaration") {
            match tree.child_by_field(i, "name") {
                Some(nm) => {
                    let name = tree.text(src, nm);
                    if is_match(&self.p, string_of_chars(name.as_slice()).as_str()) {
                        match last_string_child_exec(tree, i) {
                            Some(c) => {
                                let text = tree.text(src, c);
                                let inner = trim_chars(text.as_slice(), TrimSet::DoubleQuote);
                                let line = tree.node(i).start_row;
                                if utf8_len_at_least(inner.as_slice(), 4) && !line_seen(seen, line) {
                                    seen.push(line);
                                    let msg = join3("Hardcoded secret in '", name.as_slice(), "' — use environment variables or Keychain");
                                    out.push(
                        make_finding(
                            "swift/no-hardcoded-secret",
                            Severity::High,
                            Some("CWE-798"),
                            msg.as_str(),
                            tree,
                            i,
                            source,
                        ),
                    );
                                }
                            },
                            None => {},
                        }
                    }
                },
                None => {},
            }
        } else if tree.kind_is(i, "value_binding_pattern") || tree.kind_is(i, "pattern") {
            let name = tree.text(src, i);
            if is_match(&self.p, string_of_chars(name.as_slice()).as_str()) {
                match tree.node(i).parent {
                    Some(par) => {
                        let line = tree.node(par).start_row;
                        if !line_seen(seen, line) && long_string_child_exec(tree, src, par) {
                            seen.push(line);
                            let msg = join3("Hardcoded secret in '", name.as_slice(), "' — use environment variables or Keychain");
                            out.push(
                        make_finding(
                            "swift/no-hardcoded-secret",
                            Severity::High,
                            Some("CWE-798"),
                            msg.as_str(),
                            tree,
                            par,
                            source,
                        ),
                    );
                        }
                    },
                    None => {},
                }
            }
        }
        assert(finding_views(out@) =~= swift_secret_step(src@, tree@, self.p.spec_source(), i as int, seen0).0);
        out
    }
}

impl Rule for NoHardcodedSecret {
    fn id(&self) -> (res: &str)
        ensures
            res@ == "swift/no-hardcoded-secret"@,
    {
        "swift/no-hardcoded-secret"
    }

    fn severity(&self) -> (res: Severity)
        ensures
            res == Severity::High,
    {
        Severity::High
    }

    fn cwe(&self) -> (res: Option<&str>)
        ensures
            opt_str(res) == Some("CWE-798"@),
    {
        Some("CWE-798")
    }

    fn description(&self) -> (res: &str)
        ensures
            res@ == "Hardcoded secret or credential detected"@,
    {
        "Hardcoded secret or credential detected"
    }

    fn language(&self) -> (res: Language)
        ensures
            res == Language::Swift,
    {
        Language::Swift
    }

    fn check(&self, source: &str, tree: &SyntaxTree) -> (res: Vec<Finding>)
        ensures
            finding_views(res@) == (if regex_compiles(SWIFT_SECRET_PATTERN@) {
                fold_hits(
                    tree@.len() as int,
                    |k: int, seen: Seq<usize>| swift_secret_step(source.spec_bytes(), tree@, SWIFT_SECRET_PATTERN@, k, seen),
                ).0
            } else {
                Seq::empty()
            }),
    {
        match compile(SWIFT_SECRET_PATTERN) {
            Some(p) => {
                let c = NoHardcodedSecretCheck { p };
                let res = walk_tree_lines(&c, source, tree);
                assert((|k: int, seen: Seq<usize>| c.node_step(source.spec_bytes(), tree@, k, seen)) =~= (|k: int, seen: Seq<usize>|
                    swift_secret_step(source.spec_bytes(), tree@, SWIFT_SECRET_PATTERN@, k, seen)));
                res
            },
            None => {
                let v: Vec<Finding> = Vec::new();
                assert(finding_views(v@) =~= Seq::<FindingView>::empty());
                v
            },
        }
    }
}

// ─── Rule 2: no-command-injection ───────────────────────────────────────────

pub open spec fn swift_cmd_hit(src: Seq<u8>, t: Seq<NodeView>, i: int) -> Seq<FindingView> {
    let text = node_text(src, t[i]);
    let call = if t[i].kind == "call_expression"@ && (starts_with_seq(text, "Process("@)
        || starts_with_seq(text, "NSTask("@)) {
        seq![finding_at_node("swift/no-command-injection"@, Severity::Critical, Some("CWE-78"@), "Process/NSTask created — ensure arguments are not user-controlled to prevent command injection"@, src, t[i])]
    } else {
        Seq::empty()
    };
    let assign = if t[i].kind == "assignment"@ && (contains_seq(text, ".launchPath"@) || contains_seq(
        text,
        ".arguments"@,
    )) && !has_char(text, '"') {
        seq![finding_at_node("swift/no-command-injection"@, Severity::Critical, Some("CWE-78"@), "Process arguments set with dynamic value — risk of command injection"@, src, t[i])]
    } else {
        Seq::empty()
    };
    call + assign
}

pub struct NoCommandInjection;

struct NoCommandInjectionCheck;

impl NodeCheck for NoCommandInjectionCheck {
    closed spec fn node_hits(&self, src: Seq<u8>, t: Seq<NodeView>, i: int) -> Seq<FindingView> {
        swift_cmd_hit(src, t, i)
    }

    fn hits_at(&self, source: &str, tree: &SyntaxTree, i: usize) -> (res: Vec<Finding>) {
        let src = source.as_bytes();
        let mut out: Vec<Finding> = Vec::new();
        let text = tree.text(src, i);
        let ts = text.as_slice();
        if tree.kind_is(i, "call_expression") && (starts_with_str(ts, "Process(") || starts_with_str(ts, "NSTask(")) {
            out.push(
                        make_finding(
                            "swift/no-command-injection",
                            Severity::Critical,
                            Some("CWE-78"),
                            "Process/NSTask created — ensure arguments are not user-controlled to prevent command injection",
                            tree,
                            i,
                            source,
                        ),
                    );
        }
        let ghost first = out@;
        if tree.kind_is(i, "assignment") && (contains_str(ts, ".launchPath") || contains_str(ts, ".arguments"))
            && !has_char_exec(ts, '"') {
            out.push(
                        make_finding(
                            "swift/no-command-injection",
                            Severity::Critical,
                            Some("CWE-78"),
                            "Process arguments set with dynamic value — risk of command injection",
                            tree,
                            i,
                            source,
                        ),
                    );
        }
        assert(finding_views(out@) =~= swift_cmd_hit(src@, tree@, i as int));
        out
    }
}

impl Rule for NoCommandInjection {
    fn id(&self) -> (res: &str)
        ensures
            res@ == "swift/no-command-injection"@,
    {
        "swift/no-command-injection"
    }

    fn severity(&self) -> (res: Severity)
        ensures
            res == Severity::Critical,
    {
        Severity::Critical
    }

    fn cwe(&self) -> (res: Option<&str>)
        ensures
            opt_str(res) == Some("CWE-78"@),
    {
        Some("CWE-78")
    }

    fn description(&self) -> (res: &str)
        ensures
            res@ == "Potential command injection via Process or NSTask with dynamic arguments"@,
    {
        "Potential command injection via Process or NSTask with dynamic arguments"
    }

    fn language(&self) -> (res: Language)
        ensures
            res == Language::Swift,
    {
        Language::Swift
    }

    fn check(&self, source: &str, tree: &SyntaxTree) -> (res: Vec<Finding>)
        ensures
            finding_views(res@) == collect_hits(
                tree@.len() as int,
                |k: int| swift_cmd_hit(source.spec_bytes(), tree@, k),
            ),
    {
        let c = NoCommandInjectionCheck;
        let res = walk_tree(&c, source, tree);
        assert((|k: int| c.node_hits(source.spec_bytes(), tree@, k)) =~= (|k: int|
            swift_cmd_hit(source.spec_bytes(), tree@, k)));
        res
    }
}

// ─── Rule 3: no-weak-crypto ────────────────────────────────────────────────

pub const SWIFT_WEAK_HASH: &'static str = r"\b(CC_MD5|CC_SHA1|\.md5|\.sha1|Insecure\.MD5|Insecure\.SHA1)\b";

pub open spec fn swift_algo(text: Seq<char>) -> Seq<char> {
    if contains_seq(text, "MD5"@) || contains_seq(text, "md5"@) {
        "MD5"@
    } else {
        "SHA1"@
    }
}

pub open spec fn swift_weak_crypto_finding(src: Seq<u8>, m: (usize, usize)) -> FindingView {
    finding_at_offsets(
        "swift/no-weak-crypto"@,
        Severity::Medium,
        Some("CWE-327"@),
        swift_algo(match_text(src, m)) + " is cryptographically weak — use SHA-256 or stronger"@,
        src,
        m.0 as int,
        m.1 as int,
    )
}

pub struct NoWeakCrypto;

impl Rule for NoWeakCrypto {
    fn id(&self) -> (res: &str)
        ensures
            res@ == "swift/no-weak-crypto"@,
    {
        "swift/no-weak-crypto"
    }

    fn severity(&self) -> (res: Severity)
        ensures
            res == Severity::Medium,
    {
        Severity::Medium
    }

    fn cwe(&self) -> (res: Option<&str>)
        ensures
            opt_str(res) == Some("CWE-327"@),
    {
        Some("CWE-327")
    }

    fn description(&self) -> (res: &str)
        ensures
            res@ == "Use of weak cryptographic hash (MD5/SHA1)"@,
    {
        "Use of weak cryptographic hash (MD5/SHA1)"
    }

    fn language(&self) -> (res: Language)
        ensures
            res == Language::Swift,
    {
        Language::Swift
    }

    fn check(&self, source: &str, tree: &SyntaxTree) -> (res: Vec<Finding>)
        ensures
            finding_views(res@) == (if regex_compiles(SWIFT_WEAK_HASH@) {
                regex_find_all(SWIFT_WEAK_HASH@, source@).map_values(
                    |m: (usize, usize)| swift_weak_crypto_finding(source.spec_bytes(), m),
                )
            } else {
                Seq::empty()
            }),
    {
        let mut out: Vec<Finding> = Vec::new();
        match compile(SWIFT_WEAK_HASH) {
            Some(p) => {
                let ms = find_all(&p, source);
                let mut k: usize = 0;
                while k < ms.len()
                    invariant
                        k <= ms@.len(),
                        forall|j: int| 0 <= j < ms@.len() ==> (#[trigger] ms@[j]).0 <= ms@[j].1 <= source.spec_bytes().len(),
                        finding_views(out@) == ms@.subrange(0, k as int).map_values(
                            |m: (usize, usize)| swift_weak_crypto_finding(source.spec_bytes(), m),
                        ),
                    decreases ms@.len() - k,
                {
                    let m = ms[k];
                    let text = match_text_exec(source, m);
                    let algo = if contains_str(text.as_slice(), "MD5") || contains_str(text.as_slice(), "md5") {
                        "MD5"
                    } else {
                        "SHA1"
                    };
                    let msg = join2(chars_of(algo).as_slice(), " is cryptographically weak — use SHA-256 or stronger");
                    let f = make_finding_from_offsets("swift/no-weak-crypto", Severity::Medium, Some("CWE-327"), msg.as_str(), source, m.0, m.1);
                    let ghost before = out@;
                    out.push(f);
                    assert(finding_views(out@) =~= finding_views(before).push(f@));
                    assert(ms@.subrange(0, k + 1) =~= ms@.subrange(0, k as int).push(ms@[k as int]));
                    k = k + 1;
                }
                assert(ms@.subrange(0, ms@.len() as int) =~= ms@);
            },
            None => {
                assert(finding_views(out@) =~= Seq::<FindingView>::empty());
            },
        }
        out
    }
}

// ─── Rule 4: no-insecure-transport ─────────────────────────────────────────

pub open spec fn swift_http_hit(src: Seq<u8>, t: Seq<NodeView>, i: int) -> Seq<FindingView> {
    let text = node_text(src, t[i]);
    if swift_string_kind(t[i].kind) && contains_seq(text, "http://"@) && !contains_seq(
        text,
        "http://localhost"@,
    ) && !contains_seq(text, "http://127.0.0.1"@) {
        seq![finding_at_node("swift/no-insecure-transport"@, Severity::High, Some("CWE-319"@), "Insecure HTTP URL — use HTTPS to protect data in transit"@, src, t[i])]
    } else {
        Seq::empty()
    }
}

pub struct NoInsecureTransport;

struct NoInsecureTransportCheck;

impl NodeCheck for NoInsecureTransportCheck {
    closed spec fn node_hits(&self, src: Seq<u8>, t: Seq<NodeView>, i: int) -> Seq<FindingView> {
        swift_http_hit(src, t, i)
    }

    fn hits_at(&self, source: &str, tree: &SyntaxTree, i: usize) -> (res: Vec<Finding>) {
        let src = source.as_bytes();
        let mut out: Vec<Finding> = Vec::new();
        if swift_string_kind_exec(tree, i) {
            let text = tree.text(src, i);
            let ts = text.as_slice();
            if contains_str(ts, "http://") && !contains_str(ts, "http://localhost") && !contains_str(ts, "http://127.0.0.1") {
                out.push(
                        make_finding(
                            "swift/no-insecure-transport",
                            Severity::High,
                            Some("CWE-319"),
                            "Insecure HTTP URL — use HTTPS to protect data in transit",
                            tree,
                            i,
                            source,
                        ),
                    );
            }
        }
        assert(finding_views(out@) =~= swift_http_hit(src@, tree@, i as int));
        out
    }
}

impl Rule for NoInsecureTransport {
    fn id(&self) -> (res: &str)
        ensures
            res@ == "swift/no-insecure-transport"@,
    {
        "swift/no-insecure-transport"
    }

    fn severity(&self) -> (res: Severity)
        ensures
            res == Severity::High,
    {
        Severity::High
    }

    fn cwe(&self) -> (res: Option<&str>)
        ensures
            opt_str(res) == Some("CWE-319"@),
    {
        Some("CWE-319")
    }

    fn description(&self) -> (res: &str)
        ensures
            res@ == "Insecure HTTP URL detected — use HTTPS instead"@,
    {
        "Insecure HTTP URL detected — use HTTPS instead"
    }

    fn language(&self) -> (res: Language)
        ensures
            res == Language::Swift,
    {
        Language::Swift
    }

    fn check(&self, source: &str, tree: &SyntaxTree) -> (res: Vec<Finding>)
        ensures
            finding_views(res@) == collect_hits(
                tree@.len() as int,
                |k: int| swift_http_hit(source.spec_bytes(), tree@, k),
            ),
    {
        let c = NoInsecureTransportCheck;
        let res = walk_tree(&c, source, tree);
        assert((|k: int| c.node_hits(source.spec_bytes(), tree@, k)) =~= (|k: int|
            swift_http_hit(source.spec_bytes(), tree@, k)));
        res
    }
}

// ─── Rule 5: no-eval-js ────────────────────────────────────────────────────

/// A call that evaluates JavaScript whose argument is not a plain string
/// literal, or that interpolates (`\(`).
pub open spec fn swift_eval_js_hit(src: Seq<u8>, t: Seq<NodeView>, i: int) -> Seq<FindingView> {
    let text = node_text(src, t[i]);
    if t[i].kind == "call_expression"@ && contains_seq(text, "evaluateJavaScript"@) && (!contains_seq(
        text,
        "evaluateJavaScript(\""@,
    ) || contains_seq(text, "\\("@)) {
        seq![finding_at_node("swift/no-eval-js"@, Severity::Critical, Some("CWE-95"@), "evaluateJavaScript called with dynamic input — risk of JavaScript injection in WKWebView"@, src, t[i])]
    } else {
        Seq::empty()
    }
}

pub struct NoEvalJs;

struct NoEvalJsCheck;

impl NodeCheck for NoEvalJsCheck {
    closed spec fn node_hits(&self, src: Seq<u8>, t: Seq<NodeView>, i: int) -> Seq<FindingView> {
        swift_eval_js_hit(src, t, i)
    }

    fn hits_at(&self, source: &str, tree: &SyntaxTree, i: usize) -> (res: Vec<Finding>) {
        let src = source.as_bytes();
        let mut out: Vec<Finding> = Vec::new();
        if tree.kind_is(i, "call_expression") {
            let text = tree.text(src, i);
            let ts = text.as_slice();
            if contains_str(ts, "evaluateJavaScript") {
                let has_interpolation = contains_str(ts, "\\(");
                let is_variable_arg = !contains_str(ts, "evaluateJavaScript(\"") || has_interpolation;
                if is_variable_arg {
                    out.push(
                        make_finding(
                            "swift/no-eval-js",
                            Severity::Critical,
                            Some("CWE-95"),
                            "evaluateJavaScript called with dynamic input — risk of JavaScript injection in WKWebView",
                            tree,
                            i,
                            source,
                        ),
                    );
                }
            }
        }
        assert(finding_views(out@) =~= swift_eval_js_hit(src@, tree@, i as int));
        out
    }
}

impl Rule for NoEvalJs {
    fn id(&self) -> (res: &str)
        ensures
            res@ == "swift/no-eval-js"@,
    {
        "swift/no-eval-js"
    }

    fn severity(&self) -> (res: Severity)
        ensures
            res == Severity::Critical,
    {
        Severity::Critical
    }

    fn cwe(&self) -> (res: Option<&str>)
        ensures
            opt_str(res) == Some("CWE-95"@),
    {
        Some("CWE-95")
    }

    fn description(&self) -> (res: &str)
        ensures
            res@ == "WKWebView evaluateJavaScript with dynamic input enables code injection"@,
    {
        "WKWebView evaluateJavaScript with dynamic input enables code injection"
    }

    fn language(&self) -> (res: Language)
        ensures
            res == Language::Swift,
    {
        Language::Swift
    }

    fn check(&self, source: &str, tree: &SyntaxTree) -> (res: Vec<Finding>)
        ensures
            finding_views(res@) == collect_hits(
                tree@.len() as int,
                |k: int| swift_eval_js_hit(source.spec_bytes(), tree@, k),
            ),
    {
        let c = NoEvalJsCheck;
        let res = walk_tree(&c, source, tree);
        assert((|k: int| c.node_hits(source.spec_bytes(), tree@, k)) =~= (|k: int|
            swift_eval_js_hit(source.spec_bytes(), tree@, k)));
        res
    }
}

// ─── Rule 6: no-sql-injection ──────────────────────────────────────────────

pub const SWIFT_SQL_KEYWORDS: &'static str = r"(?i)(SELECT|INSERT|UPDATE|DELETE|DROP|ALTER|CREATE)\s";

pub const SWIFT_INTERP_STRING: &'static str = r#""[^"]*\\\([^)]+\)[^"]*""#;

pub const SWIFT_SQL_CONCAT: &'static str = r#"(?i)(execute|prepare|sqlite3_exec)\s*\([^)]*(?:SELECT|INSERT|UPDATE|DELETE|DROP)[^)]*\+\s*"#;

/// The interpolated string literals among the first `k` matches that hold
/// an SQL keyword.
pub open spec fn swift_interp_sql(src: Seq<u8>, text: Seq<char>, ms: Seq<(usize, usize)>, k: int) -> Seq<
    FindingView,
>
    decreases k,
{
    if k <= 0 {
        Seq::empty()
    } else {
        swift_interp_sql(src, text, ms, k - 1) + (if regex_is_match(SWIFT_SQL_KEYWORDS@, match_text(src, ms[k - 1])) {
            seq![
                finding_at_offsets(
                    "swift/no-sql-injection"@,
                    Severity::Critical,
                    Some("CWE-89"@),
                    "SQL query with string interpolation — use parameterized queries to prevent SQL injection"@,
                    src,
                    ms[k - 1].0 as int,
                    ms[k - 1].1 as int,
                ),
            ]
        } else {
            Seq::empty()
        })
    }
}

/// SQL strings with interpolation, then execute/prepare calls that
/// concatenate onto SQL; each pattern contributes only when it compiles.
pub open spec fn swift_sql_findings(src: Seq<u8>, text: Seq<char>) -> Seq<FindingView> {
    let interp = if regex_compiles(SWIFT_SQL_KEYWORDS@) && regex_compiles(SWIFT_INTERP_STRING@) {
        let ms = regex_find_all(SWIFT_INTERP_STRING@, text);
        swift_interp_sql(src, text, ms, ms.len() as int)
    } else {
        Seq::empty()
    };
    let concat = if regex_compiles(SWIFT_SQL_CONCAT@) {
        offset_findings("swift/no-sql-injection"@, Severity::Critical, "CWE-89"@, "SQL query built with string concatenation — use parameterized queries"@, src, regex_find_all(SWIFT_SQL_CONCAT@, text))
    } else {
        Seq::empty()
    };
    interp + concat
}

pub struct NoSqlInjection;

impl Rule for NoSqlInjection {
    fn id(&self) -> (res: &str)
        ensures
            res@ == "swift/no-sql-injection"@,
    {
        "swift/no-sql-injection"
    }

    fn severity(&self) -> (res: Severity)
        ensures
            res == Severity::Critical,
    {
        Severity::Critical
    }

    fn cwe(&self) -> (res: Option<&str>)
        ensures
            opt_str(res) == Some("CWE-89"@),
    {
        Some("CWE-89")
    }

    fn description(&self) -> (res: &str)
        ensures
            res@ == "Potential SQL injection via string interpolation in SQLite queries"@,
    {
        "Potential SQL injection via string interpolation in SQLite queries"
    }

    fn language(&self) -> (res: Language)
        ensures
            res == Language::Swift,
    {
        Language::Swift
    }

    fn check(&self, source: &str, tree: &SyntaxTree) -> (res: Vec<Finding>)
        ensures
            finding_views(res@) == swift_sql_findings(source.spec_bytes(), source@),
    {
        let mut out: Vec<Finding> = Vec::new();
        match (compile(SWIFT_SQL_KEYWORDS), compile(SWIFT_INTERP_STRING)) {
            (Some(kw), Some(interp)) => {
                let ms = find_all(&interp, source);
                let mut k: usize = 0;
                while k < ms.len()
                    invariant
                        k <= ms@.len(),
                        kw.spec_source() == SWIFT_SQL_KEYWORDS@,
                        forall|j: int| 0 <= j < ms@.len() ==> (#[trigger] ms@[j]).0 <= ms@[j].1 <= source.spec_bytes().len(),
                        finding_views(out@) == swift_interp_sql(source.spec_bytes(), source@, ms@, k as int),
                    decreases ms@.len() - k,
                {
                    let m = ms[k];
                    let text = match_text_exec(source, m);
                    let ghost before = out@;
                    if is_match(&kw, string_of_chars(text.as_slice()).as_str()) {
                        let f = make_finding_from_offsets("swift/no-sql-injection", Severity::Critical, Some("CWE-89"), "SQL query with string interpolation — use parameterized queries to prevent SQL injection", source, m.0, m.1);
                        out.push(f);
                        assert(finding_views(out@) =~= finding_views(before).push(f@));
                    }
                    k = k + 1;
                }
            },
            _ => {
                assert(finding_views(out@) =~= Seq::<FindingView>::empty());
            },
        }
        let ghost first = out@;
        match compile(SWIFT_SQL_CONCAT) {
            Some(concat) => {
                let ms = find_all(&concat, source);
                push_offset_findings(&mut out, "swift/no-sql-injection", Severity::Critical, "CWE-89", "SQL query built with string concatenation — use parameterized queries", source, &ms);
            },
            None => {
                assert(finding_views(out@) =~= finding_views(first) + Seq::<FindingView>::empty());
            },
        }
        out
    }
}

// ─── Rule 7: no-insecure-keychain ──────────────────────────────────────────

pub const SWIFT_KEYCHAIN_PATTERN: &'static str = r"\b(kSecAttrAccessibleAlways|kSecAttrAccessibleAlwaysThisDeviceOnly)\b";

pub open spec fn swift_keychain_finding(src: Seq<u8>, m: (usize, usize)) -> FindingView {
    finding_at_offsets(
        "swift/no-insecure-keychain"@,
        Severity::High,
        Some("CWE-311"@),
        match_text(src, m)
            + " allows Keychain access when device is locked — use kSecAttrAccessibleWhenUnlocked"@,
        src,
        m.0 as int,
        m.1 as int,
    )
}

pub struct NoInsecureKeychain;

impl Rule for NoInsecureKeychain {
    fn id(&self) -> (res: &str)
        ensures
            res@ == "swift/no-insecure-keychain"@,
    {
        "swift/no-insecure-keychain"
    }

    fn severity(&self) -> (res: Severity)
        ensures
            res == Severity::High,
    {
        Severity::High
    }

    fn cwe(&self) -> (res: Option<&str>)
        ensures
            opt_str(res) == Some("CWE-311"@),
    {
        Some("CWE-311")
    }

    fn description(&self) -> (res: &str)
        ensures
            res@ == "Insecure Keychain accessibility level allows access when device is locked"@,
    {
        "Insecure Keychain accessibility level allows access when device is locked"
    }

    fn language(&self) -> (res: Language)
        ensures
            res == Language::Swift,
    {
        Language::Swift
    }

    fn check(&self, source: &str, tree: &SyntaxTree) -> (res: Vec<Finding>)
        ensures
            finding_views(res@) == (if regex_compiles(SWIFT_KEYCHAIN_PATTERN@) {
                regex_find_all(SWIFT_KEYCHAIN_PATTERN@, source@).map_values(
                    |m: (usize, usize)| swift_keychain_finding(source.spec_bytes(), m),
                )
            } else {
                Seq::empty()
            }),
    {
        let mut out: Vec<Finding> = Vec::new();
        match compile(SWIFT_KEYCHAIN_PATTERN) {
            Some(p) => {
                let ms = find_all(&p, source);
                let mut k: usize = 0;
                while k < ms.len()
                    invariant
                        k <= ms@.len(),
                        forall|j: int| 0 <= j < ms@.len() ==> (#[trigger] ms@[j]).0 <= ms@[j].1 <= source.spec_bytes().len(),
                        finding_views(out@) == ms@.subrange(0, k as int).map_values(
                            |m: (usize, usize)| swift_keychain_finding(source.spec_bytes(), m),
                        ),
                    decreases ms@.len() - k,
                {
                    let m = ms[k];
                    let text = match_text_exec(source, m);
                    let msg = join2(text.as_slice(), " allows Keychain access when device is locked — use kSecAttrAccessibleWhenUnlocked");
                    let f = make_finding_from_offsets("swift/no-insecure-keychain", Severity::High, Some("CWE-311"), msg.as_str(), source, m.0, m.1);
                    let ghost before = out@;
                    out.push(f);
                    assert(finding_views(out@) =~= finding_views(before).push(f@));
                    assert(ms@.subrange(0, k + 1) =~= ms@.subrange(0, k as int).push(ms@[k as int]));
                    k = k + 1;
                }
                assert(ms@.subrange(0, ms@.len() as int) =~= ms@);
            },
            None => {
                assert(finding_views(out@) =~= Seq::<FindingView>::empty());
            },
        }
        out
    }
}

// ─── Rule 8: no-tls-disabled ───────────────────────────────────────────────

pub const SWIFT_EXPIRED_CERTS: &'static str = r"allowsExpiredCertificates\\s*=\\s*true";

pub const SWIFT_EXPIRED_ROOTS: &'static str = r"allowsExpiredRoots\\s*=\\s*true";

pub const SWIFT_DISABLE_EVALUATION: &'static str = r"\\.disableEvaluation";

/// Expired certificates allowed, expired roots allowed, trust evaluation
/// disabled: the matches of each pattern in turn.
pub open spec fn swift_tls_findings(src: Seq<u8>, text: Seq<char>) -> Seq<FindingView> {
    (if regex_compiles(SWIFT_EXPIRED_CERTS@) {
        offset_findings("swift/no-tls-disabled"@, Severity::High, "CWE-295"@, "allowsExpiredCertificates = true disables certificate expiry validation"@, src, regex_find_all(SWIFT_EXPIRED_CERTS@, text))
    } else {
        Seq::empty()
    }) + (if regex_compiles(SWIFT_EXPIRED_ROOTS@) {
        offset_findings("swift/no-tls-disabled"@, Severity::High, "CWE-295"@, "allowsExpiredRoots = true disables root certificate expiry validation"@, src, regex_find_all(SWIFT_EXPIRED_ROOTS@, text))
    } else {
        Seq::empty()
    }) + (if regex_compiles(SWIFT_DISABLE_EVALUATION@) {
        offset_findings("swift/no-tls-disabled"@, Severity::High, "CWE-295"@, ".disableEvaluation disables TLS server trust evaluation entirely"@, src, regex_find_all(SWIFT_DISABLE_EVALUATION@, text))
    } else {
        Seq::empty()
    })
}

pub struct NoTlsDisabled;

impl Rule for NoTlsDisabled {
    fn id(&self) -> (res: &str)
        ensures
            res@ == "swift/no-tls-disabled"@,
    {
        "swift/no-tls-disabled"
    }

    fn severity(&self) -> (res: Severity)
        ensures
            res == Severity::High,
    {
        Severity::High
    }

    fn cwe(&self) -> (res: Option<&str>)
        ensures
            opt_str(res) == Some("CWE-295"@),
    {
        Some("CWE-295")
    }

    fn description(&self) -> (res: &str)
        ensures
            res@ == "TLS certificate validation disabled or weakened"@,
    {
        "TLS certificate validation disabled or weakened"
    }

    fn language(&self) -> (res: Language)
        ensures
            res == Language::Swift,
    {
        Language::Swift
    }

    fn check(&self, source: &str, tree: &SyntaxTree) -> (res: Vec<Finding>)
        ensures
            finding_views(res@) == swift_tls_findings(source.spec_bytes(), source@),
    {
        let mut out: Vec<Finding> = Vec::new();
        let ghost before0 = out@;
        match compile(SWIFT_EXPIRED_CERTS) {
            Some(p) => {
                let ms = find_all(&p, source);
                push_offset_findings(&mut out, "swift/no-tls-disabled", Severity::High, "CWE-295", "allowsExpiredCertificates = true disables certificate expiry validation", source, &ms);
            },
            None => {
                assert(finding_views(out@) =~= finding_views(before0) + Seq::<FindingView>::empty());
            },
        }
        let ghost before1 = out@;
        match compile(SWIFT_EXPIRED_ROOTS) {
            Some(p) => {
                let ms = find_all(&p, source);
                push_offset_findings(&mut out, "swift/no-tls-disabled", Severity::High, "CWE-295", "allowsExpiredRoots = true disables root certificate expiry validation", source, &ms);
            },
            None => {
                assert(finding_views(out@) =~= finding_views(before1) + Seq::<FindingView>::empty());
            },
        }
        let ghost before2 = out@;
        match compile(SWIFT_DISABLE_EVALUATION) {
            Some(p) => {
                let ms = find_all(&p, source);
                push_offset_findings(&mut out, "swift/no-tls-disabled", Severity::High, "CWE-295", ".disableEvaluation disables TLS server trust evaluation entirely", source, &ms);
            },
            None => {
                assert(finding_views(out@) =~= finding_views(before2) + Seq::<FindingView>::empty());
            },
        }
        assert(finding_views(out@) =~= swift_tls_findings(source.spec_bytes(), source@));
        out
    }
}

// ─── Rule 9: no-path-traversal ─────────────────────────────────────────────

pub open spec fn file_manager_ops() -> Seq<Seq<char>> {
    seq![
        "contentsOfDirectory"@,
        "createDirectory"@,
        "removeItem"@,
        "copyItem"@,
        "moveItem"@,
        "fileExists"@,
        "contents(atPath"@,
    ]
}

/// A FileManager call whose path argument is not written as a literal.
pub open spec fn fm_dynamic_path(text: Seq<char>) -> bool {
    (exists|k: int| 0 <= k < file_manager_ops().len() && contains_seq(text, #[trigger] file_manager_ops()[k]))
        && (contains_seq(text, "atPath:"@) || contains_seq(text, "path:"@)) && !contains_seq(
        text,
        "atPath: \""@,
    ) && !contains_seq(text, "path: \""@)
}

pub open spec fn swift_path_step(src: Seq<u8>, t: Seq<NodeView>, i: int, seen: Seq<usize>) -> (
    Seq<FindingView>,
    Seq<usize>,
) {
    if t[i].kind == "call_expression"@ && fm_dynamic_path(node_text(src, t[i])) && !seen.contains(
        t[i].start_row,
    ) {
        (seq![finding_at_node("swift/no-path-traversal"@, Severity::High, Some("CWE-22"@), "FileManager operation with dynamic path — validate and sanitize to prevent path traversal"@, src, t[i])], seen.push(t[i].start_row))
    } else {
        (Seq::empty(), seen)
    }
}

fn fm_dynamic_path_exec(text: &[char]) -> (res: bool)
    ensures
        res == fm_dynamic_path(text@),
{
    let ops: [&str; 7] = [
        "contentsOfDirectory",
        "createDirectory",
        "removeItem",
        "copyItem",
        "moveItem",
        "fileExists",
        "contents(atPath",
    ];
    assert(ops@.map_values(|o: &str| o@) =~= file_manager_ops());
    let mut has_op = false;
    let mut k: usize = 0;
    while k < 7
        invariant
            k <= 7,
            ops@.map_values(|o: &str| o@) == file_manager_ops(),
            has_op == (exists|j: int| 0 <= j < k && contains_seq(text@, #[trigger] file_manager_ops()[j])),
        decreases 7 - k,
    {
        assert(ops@.map_values(|o: &str| o@)[k as int] == ops[k as int]@);
        if contains_str(text, ops[k]) {
            has_op = true;
        }
        k = k + 1;
    }
    has_op && (contains_str(text, "atPath:") || contains_str(text, "path:")) && !contains_str(text, "atPath: \"")
        && !contains_str(text, "path: \"")
}

pub struct NoPathTraversal;

struct NoPathTraversalCheck;

impl LineCheck for NoPathTraversalCheck {
    closed spec fn node_step(&self, src: Seq<u8>, t: Seq<NodeView>, i: int, seen: Seq<usize>) -> (
        Seq<FindingView>,
        Seq<usize>,
    ) {
        swift_path_step(src, t, i, seen)
    }

    fn step_at(&self, source: &str, tree: &SyntaxTree, i: usize, seen: &mut Vec<usize>) -> (res: Vec<Finding>) {
        let src = source.as_bytes();
        let ghost seen0 = seen@;
        let mut out: Vec<Finding> = Vec::new();
        let _ = tree.len();
        assert(node_wf(tree@, i as int));
        if tree.kind_is(i, "call_expression") {
            let text = tree.text(src, i);
            let line = tree.node(i).start_row;
            if fm_dynamic_path_exec(text.as_slice()) && !line_seen(seen, line) {
                seen.push(line);
                out.push(
                        make_finding(
                            "swift/no-path-traversal",
                            Severity::High,
                            Some("CWE-22"),
                            "FileManager operation with dynamic path — validate and sanitize to prevent path traversal",
                            tree,
                            i,
                            source,
                        ),
                    );
            }
        }
        assert(finding_views(out@) =~= swift_path_step(src@, tree@, i as int, seen0).0);
        out
    }
}

impl Rule for NoPathTraversal {
    fn id(&self) -> (res: &str)
        ensures
            res@ == "swift/no-path-traversal"@,
    {
        "swift/no-path-traversal"
    }

    fn severity(&self) -> (res: Severity)
        ensures
            res == Severity::High,
    {
        Severity::High
    }

    fn cwe(&self) -> (res: Option<&str>)
        ensures
            opt_str(res) == Some("CWE-22"@),
    {
        Some("CWE-22")
    }

    fn description(&self) -> (res: &str)
        ensures
            res@ == "Potential path traversal via FileManager with dynamic path"@,
    {
        "Potential path traversal via FileManager with dynamic path"
    }

    fn language(&self) -> (res: Language)
        ensures
            res == Language::Swift,
    {
        Language::Swift
    }

    fn check(&self, source: &str, tree: &SyntaxTree) -> (res: Vec<Finding>)
        ensures
            finding_views(res@) == fold_hits(
                tree@.len() as int,
                |k: int, seen: Seq<usize>| swift_path_step(source.spec_bytes(), tree@, k, seen),
            ).0,
    {
        let c = NoPathTraversalCheck;
        let res = walk_tree_lines(&c, source, tree);
        assert((|k: int, seen: Seq<usize>| c.node_step(source.spec_bytes(), tree@, k, seen)) =~= (|k: int, seen: Seq<usize>|
            swift_path_step(source.spec_bytes(), tree@, k, seen)));
        res
    }
}

// ─── Rule 10: no-ssrf ──────────────────────────────────────────────────────

/// What follows the first `:` of the text (empty when there is none).
pub open spec fn after_first_colon(text: Seq<char>) -> Seq<char> {
    if has_char(text, ':') {
        text.subrange(first_index(text, ':') + 1, text.len() as int)
    } else {
        Seq::empty()
    }
}

/// `URL(string:` with a value that does not start as a string literal.
pub open spec fn url_from_dynamic_string(text: Seq<char>) -> bool {
    (starts_with_seq(text, "URL(string:"@) || starts_with_seq(text, "URL(string :"@)) && !starts_with_seq(
        trim_set(after_first_colon(text), TrimSet::Whitespace),
        "\""@,
    )
}

/// A `dataTask` call on a URL that is not written inline.
pub open spec fn data_task_dynamic(text: Seq<char>) -> bool {
    contains_seq(text, "dataTask"@) && contains_seq(text, "url"@) && !contains_seq(text, "\"http"@)
}

pub open spec fn swift_ssrf_step(src: Seq<u8>, t: Seq<NodeView>, i: int, seen: Seq<usize>) -> (
    Seq<FindingView>,
    Seq<usize>,
) {
    if t[i].kind == "call_expression"@ {
        let text = node_text(src, t[i]);
        let line = t[i].start_row;
        let first: (Seq<FindingView>, Seq<usize>) = if url_from_dynamic_string(text) && !seen.contains(line) {
            (seq![finding_at_node("swift/no-ssrf"@, Severity::High, Some("CWE-918"@), "URL(string:) called with dynamic value — validate and allowlist target hosts to prevent SSRF"@, src, t[i])], seen.push(line))
        } else {
            (Seq::empty(), seen)
        };
        if data_task_dynamic(text) && !first.1.contains(line) {
            (first.0 + seq![finding_at_node("swift/no-ssrf"@, Severity::High, Some("CWE-918"@), "URLSession.dataTask called with dynamic URL — validate and allowlist target hosts to prevent SSRF"@, src, t[i])], first.1.push(line))
        } else {
            first
        }
    } else {
        (Seq::empty(), seen)
    }
}

fn url_from_dynamic_string_exec(text: &[char]) -> (res: bool)
    ensures
        res == url_from_dynamic_string(text@),
{
    if !(starts_with_str(text, "URL(string:") || starts_with_str(text, "URL(string :")) {
        return false;
    }
    let after = match find_char(text, ':') {
        Some(c) => {
            let n = text.len();
            sub_chars(text, c + 1, n)
        },
        None => Vec::new(),
    };
    assert(after@ == after_first_colon(text@));
    let trimmed = trim_chars(after.as_slice(), TrimSet::Whitespace);
    !starts_with_str(trimmed.as_slice(), "\"")
}

pub struct NoSsrf;

struct NoSsrfCheck;

impl LineCheck for NoSsrfCheck {
    closed spec fn node_step(&self, src: Seq<u8>, t: Seq<NodeView>, i: int, seen: Seq<usize>) -> (
        Seq<FindingView>,
        Seq<usize>,
    ) {
        swift_ssrf_step(src, t, i, seen)
    }

    fn step_at(&self, source: &str, tree: &SyntaxTree, i: usize, seen: &mut Vec<usize>) -> (res: Vec<Finding>) {
        let src = source.as_bytes();
        let ghost seen0 = seen@;
        let mut out: Vec<Finding> = Vec::new();
        let _ = tree.len();
        assert(node_wf(tree@, i as int));
        if tree.kind_is(i, "call_expression") {
            let text = tree.text(src, i);
            let ts = text.as_slice();
            let line = tree.node(i).start_row;
            if url_from_dynamic_string_exec(ts) && !line_seen(seen, line) {
                seen.push(line);
                out.push(
                        make_finding(
                            "swift/no-ssrf",
                            Severity::High,
                            Some("CWE-918"),
                            "URL(string:) called with dynamic value — validate and allowlist target hosts to prevent SSRF",
                            tree,
                            i,
                            source,
                        ),
                    );
            }
            let ghost first = out@;
            if contains_str(ts, "dataTask") && contains_str(ts, "url") && !contains_str(ts, "\"http")
                && !line_seen(seen, line) {
                seen.push(line);
                out.push(
                        make_finding(
                            "swift/no-ssrf",
                            Severity::High,
                            Some("CWE-918"),
                            "URLSession.dataTask called with dynamic URL — validate and allowlist target hosts to prevent SSRF",
                            tree,
                            i,
                            source,
                        ),
                    );
            }
        }
        assert(finding_views(out@) =~= swift_ssrf_step(src@, tree@, i as int, seen0).0);
        out
    }
}

impl Rule for NoSsrf {
    fn id(&self) -> (res: &str)
        ensures
            res@ == "swift/no-ssrf"@,
    {
        "swift/no-ssrf"
    }

    fn severity(&self) -> (res: Severity)
        ensures
            res == Severity::High,
    {
        Severity::High
    }

    fn cwe(&self) -> (res: Option<&str>)
        ensures
            opt_str(res) == Some("CWE-918"@),
    {
        Some("CWE-918")
    }

    fn description(&self) -> (res: &str)
        ensures
            res@ == "Potential SSRF via URLSession or URL with dynamic input"@,
    {
        "Potential SSRF via URLSession or URL with dynamic input"
    }

    fn language(&self) -> (res: Language)
        ensures
            res == Language::Swift,
    {
        Language::Swift
    }

    fn check(&self, source: &str, tree: &SyntaxTree) -> (res: Vec<Finding>)
        ensures
            finding_views(res@) == fold_hits(
                tree@.len() as int,
                |k: int, seen: Seq<usize>| swift_ssrf_step(source.spec_bytes(), tree@, k, seen),
            ).0,
    {
        let c = NoSsrfCheck;
        let res = walk_tree_lines(&c, source, tree);
        assert((|k: int, seen: Seq<usize>| c.node_step(source.spec_bytes(), tree@, k, seen)) =~= (|k: int, seen: Seq<usize>|
            swift_ssrf_step(source.spec_bytes(), tree@, k, seen)));
        res
    }
}
} // verus!
