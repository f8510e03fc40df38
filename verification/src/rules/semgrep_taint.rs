//! Semgrep-compatible bridge for `mode: taint` rules: compiling the
//! pattern strings of `pattern-sources`, `pattern-sinks` and
//! `pattern-sanitizers` into declarative taint matchers.
//!
//! Supported pattern shapes:
//! - bare identifier (`request`): a parameter-name source;
//! - dotted attribute chain (`request.data`): an attribute matcher on the
//!   *leftmost* identifier and the *outermost* field (`request.session.id`
//!   flattens to root `request`, field `id`);
//! - call form (`pickle.loads($X)`, `func(...)`, `func()`): a call matcher
//!   on the callee, arguments stripped. The parenthesis that closes the
//!   first `(` must be the pattern's last character, so `f($X) + g($Y)`
//!   is no call form.
//!
//! A `pattern:` string of any other shape refuses the whole rule, which is
//! then skipped with a message naming that pattern. Entries under other
//! keys (`patterns:`, `pattern-inside:`, ...) are dropped with a warning
//! and the rest of the rule still compiles.

use vstd::prelude::*;
use vstd::string::*;
use crate::rules::go_taint::{MatcherView, NodeMatcher, TaintSpec};
use crate::rules::name_log::opt_view;
use crate::text::{ascii_lower, to_ascii_lower};
use crate::types::Language;
use crate::text::{
    after_last, after_last_char, chars_of, ends_with_seq, ends_with_str, find_char, first_index,
    has_char, push_chars, push_str, rfind_char, split_on, split_pieces, string_of_chars, sub_chars,
    trim_chars, trim_set, ascii_upper, ascii_upper_exec, TrimSet,
};
use crate::types::Severity;
use crate::rules::yaml_value::{str_of, yaml_get, YamlValue};

verus! {

/// Which list of a taint rule a pattern comes from.
#[derive(Clone, Copy, Debug, PartialEq, Eq, Structural)]
pub enum MatcherRole {
    Source,
    Sink,
    Sanitizer,
}

pub open spec fn role_label(role: MatcherRole) -> Seq<char> {
    match role {
        MatcherRole::Source => "pattern-sources"@,
        MatcherRole::Sink => "pattern-sinks"@,
        MatcherRole::Sanitizer => "pattern-sanitizers"@,
    }
}

impl MatcherRole {
    /// The YAML key of the list this role reads.
    pub fn label(self) -> (res: &'static str)
        ensures
            res@ == role_label(self),
    {
        match self {
            MatcherRole::Source => "pattern-sources",
            MatcherRole::Sink => "pattern-sinks",
            MatcherRole::Sanitizer => "pattern-sanitizers",
        }
    }
}

pub open spec fn describe_spec(canonical: Seq<char>, role: MatcherRole) -> Seq<char> {
    match role {
        MatcherRole::Source => "semgrep source `"@ + canonical + "`"@,
        MatcherRole::Sink => "semgrep sink `"@ + canonical + "`"@,
        MatcherRole::Sanitizer => "semgrep sanitizer `"@ + canonical + "`"@,
    }
}

fn wrap(prefix: &str, middle: &[char], suffix: &str) -> (res: String)
    ensures
        res@ == prefix@ + middle@ + suffix@,
{
    let mut v: Vec<char> = Vec::new();
    push_str(&mut v, prefix);
    push_chars(&mut v, middle);
    push_str(&mut v, suffix);
    string_of_chars(v.as_slice())
}

/// The description a compiled matcher carries.
pub fn describe(canonical: &str, role: MatcherRole) -> (res: String)
    ensures
        res@ == describe_spec(canonical@, role),
{
    let c = chars_of(canonical);
    match role {
        MatcherRole::Source => wrap("semgrep source `", c.as_slice(), "`"),
        MatcherRole::Sink => wrap("semgrep sink `", c.as_slice(), "`"),
        MatcherRole::Sanitizer => wrap("semgrep sanitizer `", c.as_slice(), "`"),
    }
}

pub open spec fn ident_start(c: char) -> bool {
    ('a' <= c && c <= 'z') || ('A' <= c && c <= 'Z') || c == '_'
}

pub open spec fn ident_char(c: char) -> bool {
    ident_start(c) || ('0' <= c && c <= '9')
}

/// An ASCII identifier: `[A-Za-z_][A-Za-z0-9_]*`.
pub open spec fn is_ident(s: Seq<char>) -> bool {
    s.len() > 0 && ident_start(s[0]) && forall|i: int| 1 <= i < s.len() ==> ident_char(#[trigger] s[i])
}

/// A non-empty `.`-separated chain of identifiers.
pub open spec fn is_dotted_ident(s: Seq<char>) -> bool {
    s.len() > 0 && forall|k: int|
        0 <= k < split_on(s, '.').len() ==> is_ident(#[trigger] split_on(s, '.')[k])
}

fn is_identifier_chars(s: &[char]) -> (res: bool)
    ensures
        res == is_ident(s@),
{
    if s.len() == 0 {
        return false;
    }
    let c = s[0];
    if !(('a' <= c && c <= 'z') || ('A' <= c && c <= 'Z') || c == '_') {
        return false;
    }
    let mut i: usize = 1;
    while i < s.len()
        invariant
            1 <= i <= s@.len(),
            forall|j: int| 1 <= j < i ==> ident_char(#[trigger] s@[j]),
        decreases s@.len() - i,
    {
        let c = s[i];
        if !(('a' <= c && c <= 'z') || ('A' <= c && c <= 'Z') || c == '_' || ('0' <= c && c <= '9')) {
            return false;
        }
        i = i + 1;
    }
    true
}

/// True when `s` is an ASCII identifier (`[A-Za-z_][A-Za-z0-9_]*`).
pub fn is_identifier(s: &str) -> (res: bool)
    ensures
        res == is_ident(s@),
{
    let c = chars_of(s);
    is_identifier_chars(c.as_slice())
}

fn is_dotted_chars(s: &[char]) -> (res: bool)
    ensures
        res == is_dotted_ident(s@),
{
    if s.len() == 0 {
        return false;
    }
    let pieces = split_pieces(s, '.');
    let ghost pv = pieces@.map_values(|v: Vec<char>| v@);
    let mut k: usize = 0;
    while k < pieces.len()
        invariant
            k <= pieces@.len(),
            pv == pieces@.map_values(|v: Vec<char>| v@),
            pv == split_on(s@, '.'),
            forall|j: int| 0 <= j < k ==> is_ident(#[trigger] pv[j]),
        decreases pieces@.len() - k,
    {
        assert(pv[k as int] == pieces@[k as int]@);
        if !is_identifier_chars(pieces[k].as_slice()) {
            return false;
        }
        k = k + 1;
    }
    true
}

/// True when `s` is a `.`-separated chain of identifier segments. Used to
/// reject pattern strings that contain metavariables, operators or
/// whitespace outside of a call form.
pub fn is_dotted_identifier(s: &str) -> (res: bool)
    ensures
        res == is_dotted_ident(s@),
{
    let c = chars_of(s);
    is_dotted_chars(c.as_slice())
}

/// `(` minus `)` among the characters `s[from..i]`.
pub open spec fn paren_depth(s: Seq<char>, from: int, i: int) -> int
    decreases i - from,
{
    if i <= from {
        0
    } else {
        paren_depth(s, from, i - 1) + (if s[i - 1] == '(' {
            1int
        } else if s[i - 1] == ')' {
            -1int
        } else {
            0int
        })
    }
}

/// The parenthesis opened at `open` closes at the last character and not
/// before: the depth stays positive inside and is back to zero at the end.
pub open spec fn closes_at_end(s: Seq<char>, open: int) -> bool {
    &&& forall|i: int| open < i < s.len() ==> #[trigger] paren_depth(s, open, i) > 0
    &&& paren_depth(s, open, s.len() as int) == 0
}

/// Whether the parenthesis opened at `open` closes at the last character.
fn closes_at_end_exec(s: &[char], open: usize) -> (res: bool)
    requires
        open < s@.len(),
        s@[open as int] == '(',
    ensures
        res == closes_at_end(s@, open as int),
{
    let n = s.len();
    let mut depth: usize = 0;
    let mut i: usize = open;
    while i < n
        invariant
            open <= i <= n == s@.len(),
            s@[open as int] == '(',
            depth as int == paren_depth(s@, open as int, i as int),
            depth <= i - open,
            forall|j: int| open < j <= i && j < n ==> #[trigger] paren_depth(s@, open as int, j) > 0,
        decreases n - i,
    {
        if s[i] == '(' {
            depth = depth + 1;
        } else if s[i] == ')' {
            assert(i > open);
            depth = depth - 1;
        }
        i = i + 1;
        if i < n && depth == 0 {
            assert(paren_depth(s@, open as int, i as int) == 0);
            assert(!closes_at_end(s@, open as int));
            return false;
        }
    }
    depth == 0
}

/// The matcher a pattern string compiles to, if its shape is supported.
pub open spec fn compiled_pattern(pattern: Seq<char>, role: MatcherRole) -> Option<MatcherView> {
    let pat = trim_set(pattern, TrimSet::Whitespace);
    if pat.len() == 0 {
        None
    } else if has_char(pat, '(') {
        let callee = trim_set(pat.subrange(0, first_index(pat, '(')), TrimSet::Whitespace);
        if !ends_with_seq(pat, ")"@) || !closes_at_end(pat, first_index(pat, '(')) || !is_dotted_ident(
            callee,
        ) {
            None
        } else {
            Some(MatcherView::Call { canonical: callee, description: describe_spec(callee, role) })
        }
    } else if !is_dotted_ident(pat) {
        None
    } else if has_char(pat, '.') {
        let root = pat.subrange(0, first_index(pat, '.'));
        let field = after_last(pat, '.');
        if root.len() == 0 || field.len() == 0 {
            None
        } else {
            Some(MatcherView::Attribute { root, field, description: describe_spec(pat, role) })
        }
    } else {
        match role {
            MatcherRole::Source => Some(
                MatcherView::ParamName {
                    names: seq![pat],
                    description: "untrusted `"@ + pat + "` parameter"@,
                },
            ),
            _ => None,
        }
    }
}

pub open spec fn opt_matcher_view(o: Option<NodeMatcher>) -> Option<MatcherView> {
    match o {
        Some(m) => Some(m@),
        None => None,
    }
}

/// Compile a single Semgrep pattern string into a taint matcher; `None`
/// when its shape is not one of the supported forms.
pub fn compile_pattern(pattern: &str, role: MatcherRole) -> (res: Option<NodeMatcher>)
    ensures
        opt_matcher_view(res) == compiled_pattern(pattern@, role),
{
    let all = chars_of(pattern);
    let pat = trim_chars(all.as_slice(), TrimSet::Whitespace);
    if pat.len() == 0 {
        return None;
    }
    match find_char(pat.as_slice(), '(') {
        Some(open) => {
            if !ends_with_str(pat.as_slice(), ")") {
                return None;
            }
            if !closes_at_end_exec(pat.as_slice(), open) {
                return None;
            }
            let head = sub_chars(pat.as_slice(), 0, open);
            let callee = trim_chars(head.as_slice(), TrimSet::Whitespace);
            if !is_dotted_chars(callee.as_slice()) {
                return None;
            }
            let canonical = string_of_chars(callee.as_slice());
            let description = describe(canonical.as_str(), role);
            Some(NodeMatcher::Call { canonical, description })
        },
        None => {
            if !is_dotted_chars(pat.as_slice()) {
                return None;
            }
            match find_char(pat.as_slice(), '.') {
                Some(dot) => {
                    let root = sub_chars(pat.as_slice(), 0, dot);
                    let field = after_last_char(pat.as_slice(), '.');
                    if root.len() == 0 || field.len() == 0 {
                        return None;
                    }
                    let whole = string_of_chars(pat.as_slice());
                    let description = describe(whole.as_str(), role);
                    Some(
                        NodeMatcher::Attribute {
                            root: string_of_chars(root.as_slice()),
                            field: string_of_chars(field.as_slice()),
                            description,
                        },
                    )
                },
                None => {
                    match role {
                        MatcherRole::Source => {
                            let mut names: Vec<String> = Vec::new();
                            names.push(string_of_chars(pat.as_slice()));
                            assert(names@.map_values(|n: String| n@) =~= seq![pat@]);
                            let description = wrap("untrusted `", pat.as_slice(), "` parameter");
                            Some(NodeMatcher::ParamName { names, description })
                        },
                        _ => None,
                    }
                },
            }
        },
    }
}

/// The severity a Semgrep severity name maps to, compared after ASCII
/// upper-casing: `ERROR` is critical, `WARNING` high, anything else medium.
pub open spec fn severity_of_name(s: Seq<char>) -> Severity {
    let u = s.map_values(|c: char| ascii_upper(c));
    if u == "ERROR"@ {
        Severity::Critical
    } else if u == "WARNING"@ {
        Severity::High
    } else {
        Severity::Medium
    }
}

/// The text with every ASCII letter upper-cased (`str::to_ascii_uppercase`).
pub fn to_ascii_upper(s: &str) -> (res: Vec<char>)
    ensures
        res@ == s@.map_values(|c: char| ascii_upper(c)),
{
    let cs = chars_of(s);
    let mut out: Vec<char> = Vec::new();
    let mut i: usize = 0;
    while i < cs.len()
        invariant
            i <= cs@.len(),
            cs@ == s@,
            out@ == cs@.subrange(0, i as int).map_values(|c: char| ascii_upper(c)),
        decreases cs@.len() - i,
    {
        out.push(ascii_upper_exec(cs[i]));
        assert(cs@.subrange(0, i + 1) =~= cs@.subrange(0, i as int).push(cs@[i as int]));
        assert(out@ =~= cs@.subrange(0, i + 1).map_values(|c: char| ascii_upper(c)));
        i = i + 1;
    }
    assert(cs@.subrange(0, cs@.len() as int) =~= cs@);
    out
}

pub fn map_severity(s: &str) -> (res: Severity)
    ensures
        res == severity_of_name(s@),
{
    let u = to_ascii_upper(s);
    if crate::text::chars_eq_str(u.as_slice(), "ERROR") {
        Severity::Critical
    } else if crate::text::chars_eq_str(u.as_slice(), "WARNING") {
        Severity::High
    } else {
        Severity::Medium
    }
}

} // verus!

verus! {

// ─── Numbers in messages ──────────────────────────────────────────────────

pub open spec fn digit_char(d: nat) -> char {
    (48 + d) as char
}

/// The decimal digits of `n`.
pub open spec fn decimal(n: nat) -> Seq<char>
    decreases n,
{
    if n < 10 {
        seq![digit_char(n)]
    } else {
        decimal(n / 10).push(digit_char(n % 10))
    }
}

fn decimal_exec(n: usize) -> (res: Vec<char>)
    ensures
        res@ == decimal(n as nat),
    decreases n,
{
    let d = n % 10;
    let c = (48u8 + d as u8) as char;
    assert(c == digit_char(d as nat));
    if n < 10 {
        let mut v: Vec<char> = Vec::new();
        v.push(c);
        assert(v@ =~= seq![c]);
        v
    } else {
        let mut v = decimal_exec(n / 10);
        v.push(c);
        v
    }
}

// ─── Compiling the matcher lists of a taint rule ──────────────────────────

pub open spec fn warn_prefix(rule_id: Seq<char>, role: MatcherRole) -> Seq<char> {
    "taint rule `"@ + rule_id + "` "@ + role_label(role)
}

pub open spec fn key_count_warning(rule_id: Seq<char>, role: MatcherRole, n: nat) -> Seq<char> {
    warn_prefix(rule_id, role) + " entry has "@ + decimal(n)
        + " keys (expected a single `pattern:` or `pattern-either:`); skipping entry"@
}

/// Why a rule is refused when one of its `pattern:` strings has an
/// unsupported shape.
pub open spec fn shape_error(role: MatcherRole, p: Seq<char>) -> Seq<char> {
    role_label(role) + " unsupported pattern shape `"@ + p + "`"@
}

pub open spec fn first_err(a: Option<Seq<char>>, b: Option<Seq<char>>) -> Option<Seq<char>> {
    if a is Some {
        a
    } else {
        b
    }
}

pub open spec fn key_warning(rule_id: Seq<char>, role: MatcherRole, k: Seq<char>) -> Seq<char> {
    warn_prefix(rule_id, role) + " uses unsupported key `"@ + k
        + "` (only `pattern:` and `pattern-either:` are supported); skipping entry"@
}

/// The matchers one entry of a source / sink / sanitizer list gives, the
/// warnings it raises, and the first `pattern:` string of an unsupported
/// shape it holds, if any. An entry is a mapping with a single key: a
/// supported `pattern:` gives one matcher, a non-empty `pattern-either:`
/// the matchers of its entries in order; a `pattern:` of an unsupported
/// shape refuses the whole rule; any other entry is skipped with a warning.
pub open spec fn entry_result(e: YamlValue, role: MatcherRole, rule_id: Seq<char>) -> (
    Seq<MatcherView>,
    Seq<Seq<char>>,
    Option<Seq<char>>,
)
    decreases e, 0int,
{
    match e {
        YamlValue::Mapping(m) => if m@.len() != 1 {
            (Seq::empty(), seq![key_count_warning(rule_id, role, m@.len())], None)
        } else {
            match str_of(m@[0].0) {
                None => (
                    Seq::empty(),
                    seq![warn_prefix(rule_id, role) + " entry has a non-string key; skipping"@],
                    None,
                ),
                Some(k) => if k == "pattern"@ {
                    match str_of(m@[0].1) {
                        None => (
                            Seq::empty(),
                            seq![warn_prefix(rule_id, role) + " `pattern:` value must be a string; skipping entry"@],
                            None,
                        ),
                        Some(p) => match compiled_pattern(p, role) {
                            Some(mv) => (seq![mv], Seq::empty(), None),
                            None => (Seq::empty(), Seq::empty(), Some(shape_error(role, p))),
                        },
                    }
                } else if k == "pattern-either"@ {
                    match m@[0].1 {
                        YamlValue::Sequence(inner) => if inner@.len() == 0 {
                            (
                                Seq::empty(),
                                seq![warn_prefix(rule_id, role) + " `pattern-either:` is empty; producing no matchers"@],
                                None,
                            )
                        } else {
                            entries_result(inner@, inner@.len() as int, role, rule_id)
                        },
                        _ => (
                            Seq::empty(),
                            seq![warn_prefix(rule_id, role) + " `pattern-either:` must be a list; skipping"@],
                            None,
                        ),
                    }
                } else {
                    (Seq::empty(), seq![key_warning(rule_id, role, k)], None)
                },
            }
        },
        _ => (Seq::empty(), seq![warn_prefix(rule_id, role) + " entry is not a mapping; skipping"@], None),
    }
}

/// The matchers and warnings of the first `k` entries, in order, and the
/// first unsupported pattern shape among them.
pub open spec fn entries_result(es: Seq<YamlValue>, k: int, role: MatcherRole, rule_id: Seq<char>) -> (
    Seq<MatcherView>,
    Seq<Seq<char>>,
    Option<Seq<char>>,
)
    decreases es, k,
{
    if k <= 0 || k > es.len() {
        (Seq::empty(), Seq::empty(), None)
    } else {
        let p = entries_result(es, k - 1, role, rule_id);
        let r = entry_result(es[k - 1], role, rule_id);
        (p.0 + r.0, p.1 + r.1, first_err(p.2, r.2))
    }
}

pub open spec fn matcher_views(v: Seq<NodeMatcher>) -> Seq<MatcherView> {
    v.map_values(|m: NodeMatcher| m@)
}

pub open spec fn string_views(v: Seq<String>) -> Seq<Seq<char>> {
    v.map_values(|s: String| s@)
}

fn push_warning(warnings: &mut Vec<String>, w: String)
    ensures
        string_views(final(warnings)@) == string_views(old(warnings)@) + seq![w@],
{
    warnings.push(w);
    assert(string_views(warnings@) =~= string_views(old(warnings)@) + seq![w@]);
}

fn prefix_text(rule_id: &str, role: MatcherRole) -> (res: String)
    ensures
        res@ == warn_prefix(rule_id@, role),
{
    let mut s = String::new();
    s.append("taint rule `");
    s.append(rule_id);
    s.append("` ");
    s.append(role.label());
    s
}

/// Compiles one entry of a source / sink / sanitizer list, flattening
/// nested `pattern-either:` blocks; invalid entries are skipped with a
/// warning. Returns the first `pattern:` of an unsupported shape, which
/// refuses the whole rule.
pub fn compile_entry(
    entry: &YamlValue,
    role: MatcherRole,
    rule_id: &str,
    out: &mut Vec<NodeMatcher>,
    warnings: &mut Vec<String>,
) -> (refused: Option<String>)
    ensures
        matcher_views(final(out)@) == matcher_views(old(out)@) + entry_result(*entry, role, rule_id@).0,
        string_views(final(warnings)@) == string_views(old(warnings)@) + entry_result(*entry, role, rule_id@).1,
        opt_view(refused) == entry_result(*entry, role, rule_id@).2,
    decreases entry,
{
    let ghost r = entry_result(*entry, role, rule_id@);
    let m = match entry {
        YamlValue::Mapping(m) => m,
        _ => {
            let mut w = prefix_text(rule_id, role);
            w.append(" entry is not a mapping; skipping");
            push_warning(warnings, w);
            assert(matcher_views(out@) =~= matcher_views(out@) + Seq::<MatcherView>::empty());
            return None;
        },
    };
    if m.len() != 1 {
        let mut w = prefix_text(rule_id, role);
        w.append(" entry has ");
        let digits = decimal_exec(m.len());
        w.append(string_of_chars(digits.as_slice()).as_str());
        w.append(" keys (expected a single `pattern:` or `pattern-either:`); skipping entry");
        push_warning(warnings, w);
        assert(matcher_views(out@) =~= matcher_views(out@) + Seq::<MatcherView>::empty());
        return None;
    }
    let k = &m[0].0;
    let v = &m[0].1;
    match k.as_str() {
        None => {
            let mut w = prefix_text(rule_id, role);
            w.append(" entry has a non-string key; skipping");
            push_warning(warnings, w);
            assert(matcher_views(out@) =~= matcher_views(out@) + Seq::<MatcherView>::empty());
        },
        Some(ks) => {
            if crate::text::str_eq(ks, "pattern") {
                match v.as_str() {
                    None => {
                        let mut w = prefix_text(rule_id, role);
                        w.append(" `pattern:` value must be a string; skipping entry");
                        push_warning(warnings, w);
                        assert(matcher_views(out@) =~= matcher_views(out@) + Seq::<MatcherView>::empty());
                    },
                    Some(p) => match compile_pattern(p, role) {
                        Some(mm) => {
                            let ghost before = out@;
                            out.push(mm);
                            assert(matcher_views(out@) =~= matcher_views(before) + seq![mm@]);
                            assert(string_views(warnings@) =~= string_views(warnings@) + Seq::<Seq<char>>::empty());
                        },
                        None => {
                            let mut e = String::new();
                            e.append(role.label());
                            e.append(" unsupported pattern shape `");
                            e.append(p);
                            e.append("`");
                            assert(matcher_views(out@) =~= matcher_views(out@) + Seq::<MatcherView>::empty());
                            assert(string_views(warnings@) =~= string_views(warnings@) + Seq::<Seq<char>>::empty());
                            return Some(e);
                        },
                    },
                }
            } else if crate::text::str_eq(ks, "pattern-either") {
                match v {
                    YamlValue::Sequence(inner) => {
                        if inner.len() == 0 {
                            let mut w = prefix_text(rule_id, role);
                            w.append(" `pattern-either:` is empty; producing no matchers");
                            push_warning(warnings, w);
                            assert(matcher_views(out@) =~= matcher_views(out@) + Seq::<MatcherView>::empty());
                        } else {
                            let ghost out0 = matcher_views(out@);
                            let ghost w0 = string_views(warnings@);
                            let mut refused: Option<String> = None;
                            let mut j: usize = 0;
                            assert(out0 =~= out0 + entries_result(inner@, 0, role, rule_id@).0);
                            assert(w0 =~= w0 + entries_result(inner@, 0, role, rule_id@).1);
                            while j < inner.len()
                                invariant
                                    j <= inner@.len(),
                                    *entry == YamlValue::Mapping(*m),
                                    m@.len() == 1,
                                    m@[0].1 == YamlValue::Sequence(*inner),
                                    matcher_views(out@) == out0 + entries_result(inner@, j as int, role, rule_id@).0,
                                    string_views(warnings@) == w0 + entries_result(inner@, j as int, role, rule_id@).1,
                                    opt_view(refused) == entries_result(inner@, j as int, role, rule_id@).2,
                                decreases inner@.len() - j,
                            {
                                assert(decreases_to!(*entry => (*entry)->Mapping_0));
                                assert(decreases_to!(*m => m@));
                                assert(decreases_to!(m@ => m@[0]));
                                assert(decreases_to!(m@[0] => m@[0].1));
                                assert(decreases_to!(m@[0].1 => (m@[0].1)->Sequence_0));
                                assert(decreases_to!(*inner => inner@));
                                assert(decreases_to!(inner@ => inner@[j as int]));
                                let r = compile_entry(&inner[j], role, rule_id, out, warnings);
                                if refused.is_none() {
                                    refused = r;
                                }
                                let ghost p = entries_result(inner@, j as int, role, rule_id@);
                                let ghost q = entry_result(inner@[j as int], role, rule_id@);
                                assert(out0 + p.0 + q.0 =~= out0 + (p.0 + q.0));
                                assert(w0 + p.1 + q.1 =~= w0 + (p.1 + q.1));
                                j = j + 1;
                            }
                            return refused;
                        }
                    },
                    _ => {
                        let mut w = prefix_text(rule_id, role);
                        w.append(" `pattern-either:` must be a list; skipping");
                        push_warning(warnings, w);
                        assert(matcher_views(out@) =~= matcher_views(out@) + Seq::<MatcherView>::empty());
                    },
                }
            } else {
                let mut w = prefix_text(rule_id, role);
                w.append(" uses unsupported key `");
                w.append(ks);
                w.append("` (only `pattern:` and `pattern-either:` are supported); skipping entry");
                push_warning(warnings, w);
                assert(matcher_views(out@) =~= matcher_views(out@) + Seq::<MatcherView>::empty());
            }
        },
    }
    None
}

} // verus!

verus! {

/// The matchers of a `pattern-sources` / `pattern-sinks` /
/// `pattern-sanitizers` value and the warnings its entries raise: none when
/// the key is absent, an error when it is not a list or when one of its
/// `pattern:` strings has an unsupported shape (which refuses the rule).
pub open spec fn list_result(node: Option<YamlValue>, role: MatcherRole, rule_id: Seq<char>) -> (
    Result<Seq<MatcherView>, Seq<char>>,
    Seq<Seq<char>>,
) {
    match node {
        None => (Ok(Seq::empty()), Seq::empty()),
        Some(YamlValue::Sequence(es)) => {
            let r = entries_result(es@, es@.len() as int, role, rule_id);
            match r.2 {
                Some(e) => (Err(e), r.1),
                None => (Ok(r.0), r.1),
            }
        },
        Some(_) => (Err(role_label(role) + " must be a list"@), Seq::empty()),
    }
}

/// Compiles a top-level source / sink / sanitizer list, entry by entry.
pub fn compile_matcher_list(
    node: Option<&YamlValue>,
    role: MatcherRole,
    rule_id: &str,
    warnings: &mut Vec<String>,
) -> (res: Result<Vec<NodeMatcher>, String>)
    ensures
        ({
            let r = list_result(
                match node {
                    Some(v) => Some(*v),
                    None => None,
                },
                role,
                rule_id@,
            );
            &&& string_views(final(warnings)@) == string_views(old(warnings)@) + r.1
            &&& match r.0 {
                Ok(ms) => res matches Ok(v) && matcher_views(v@) == ms,
                Err(e) => res matches Err(x) && x@ == e,
            }
        }),
{
    let node = match node {
        None => {
            let v: Vec<NodeMatcher> = Vec::new();
            assert(matcher_views(v@) =~= Seq::<MatcherView>::empty());
            assert(string_views(warnings@) =~= string_views(warnings@) + Seq::<Seq<char>>::empty());
            return Ok(v);
        },
        Some(n) => n,
    };
    let entries = match node {
        YamlValue::Sequence(es) => es,
        _ => {
            let mut e = String::new();
            e.append(role.label());
            e.append(" must be a list");
            assert(string_views(warnings@) =~= string_views(warnings@) + Seq::<Seq<char>>::empty());
            return Err(e);
        },
    };
    let mut out: Vec<NodeMatcher> = Vec::new();
    let ghost w0 = string_views(warnings@);
    assert(matcher_views(out@) =~= entries_result(entries@, 0, role, rule_id@).0);
    assert(w0 =~= w0 + entries_result(entries@, 0, role, rule_id@).1);
    let mut refused: Option<String> = None;
    let mut j: usize = 0;
    while j < entries.len()
        invariant
            j <= entries@.len(),
            matcher_views(out@) == entries_result(entries@, j as int, role, rule_id@).0,
            string_views(warnings@) == w0 + entries_result(entries@, j as int, role, rule_id@).1,
            opt_view(refused) == entries_result(entries@, j as int, role, rule_id@).2,
        decreases entries@.len() - j,
    {
        let r = compile_entry(&entries[j], role, rule_id, &mut out, warnings);
        if refused.is_none() {
            refused = r;
        }
        let ghost p = entries_result(entries@, j as int, role, rule_id@);
        let ghost q = entry_result(entries@[j as int], role, rule_id@);
        assert(w0 + p.1 + q.1 =~= w0 + (p.1 + q.1));
        j = j + 1;
    }
    match refused {
        Some(e) => Err(e),
        None => Ok(out),
    }
}

// ─── Taint rules ──────────────────────────────────────────────────────────

/// A compiled Semgrep `mode: taint` rule: the specification it hands to
/// the Python taint engine.
pub struct SemgrepTaintRule {
    pub id: String,
    pub message: String,
    pub severity: Severity,
    pub cwe: Option<String>,
    pub lang: Language,
    pub spec: TaintSpec,
}

/// Outcome of trying to read one YAML rule as a taint rule.
pub enum TaintRuleParse {
    /// The rule is `mode: taint` and was compiled.
    Compiled(SemgrepTaintRule),
    /// The rule is `mode: taint` but could not be compiled (language, shape
    /// of its patterns, missing sections); the message says why.
    Skip(String),
    /// The rule is not `mode: taint`.
    NotTaint,
}

pub struct TaintRuleView {
    pub id: Seq<char>,
    pub message: Seq<char>,
    pub severity: Severity,
    pub cwe: Option<Seq<char>>,
    pub lang: Language,
    pub sources: Seq<MatcherView>,
    pub sinks: Seq<MatcherView>,
    pub sanitizers: Seq<MatcherView>,
}

pub enum ParseView {
    Compiled(TaintRuleView),
    Skip(Seq<char>),
    NotTaint,
}

pub open spec fn parse_view(p: TaintRuleParse) -> ParseView {
    match p {
        TaintRuleParse::Compiled(r) => ParseView::Compiled(
            TaintRuleView {
                id: r.id@,
                message: r.message@,
                severity: r.severity,
                cwe: match r.cwe {
                    Some(c) => Some(c@),
                    None => None,
                },
                lang: r.lang,
                sources: matcher_views(r.spec.sources@),
                sinks: matcher_views(r.spec.sinks@),
                sanitizers: matcher_views(r.spec.sanitizers@),
            },
        ),
        TaintRuleParse::Skip(m) => ParseView::Skip(m@),
        TaintRuleParse::NotTaint => ParseView::NotTaint,
    }
}

pub open spec fn get_str(v: YamlValue, key: Seq<char>) -> Option<Seq<char>> {
    match yaml_get(v, key) {
        Some(x) => str_of(x),
        None => None,
    }
}

pub open spec fn lowered(s: Seq<char>) -> Seq<char> {
    s.map_values(|c: char| ascii_lower(c))
}

/// Some language of the list names Python.
pub open spec fn names_python(ls: Seq<YamlValue>) -> bool {
    exists|i: int|
        0 <= i < ls.len() && match str_of(#[trigger] ls[i]) {
            Some(s) => lowered(s) == "python"@ || lowered(s) == "py"@,
            None => false,
        }
}

/// `metadata.cwe`: a string, or the first entry of a list when it is one.
pub open spec fn taint_cwe(y: YamlValue) -> Option<Seq<char>> {
    match yaml_get(y, "metadata"@) {
        None => None,
        Some(meta) => match yaml_get(meta, "cwe"@) {
            Some(YamlValue::String(s)) => Some(s@),
            Some(YamlValue::Sequence(v)) => if v@.len() > 0 {
                str_of(v@[0])
            } else {
                None
            },
            _ => None,
        },
    }
}

pub open spec fn skipped(id: Seq<char>, why: Seq<char>) -> ParseView {
    ParseView::Skip("taint rule `"@ + id + "` "@ + why)
}

/// What reading one YAML rule as a taint rule gives, with the warnings its
/// list entries raise (in order).
///
/// Only `mode: taint` rules are read. They need an `id` and a `languages`
/// list naming Python; `message` defaults to empty and `severity` to
/// `WARNING`. Sources and sinks must each yield at least one matcher;
/// sanitizers may yield none. The compiled rule's id is prefixed with
/// `semgrep/`.
pub open spec fn taint_parse(y: YamlValue) -> (ParseView, Seq<Seq<char>>) {
    if get_str(y, "mode"@) != Some("taint"@) {
        (ParseView::NotTaint, Seq::empty())
    } else {
        match get_str(y, "id"@) {
            None => (ParseView::Skip("taint rule missing `id`"@), Seq::empty()),
            Some(id) => match yaml_get(y, "languages"@) {
                Some(YamlValue::Sequence(ls)) if !names_python(ls@) => (
                    skipped(id, "targets non-Python languages; only Python is supported"@),
                    Seq::empty(),
                ),
                Some(YamlValue::Sequence(ls)) => {
                    let src = list_result(yaml_get(y, "pattern-sources"@), MatcherRole::Source, id);
                    match src.0 {
                        Err(e) => (skipped(id, "skipped: "@ + e), src.1),
                        Ok(s) => if s.len() == 0 {
                            (skipped(id, "has no valid `pattern-sources`"@), src.1)
                        } else {
                            let snk = list_result(yaml_get(y, "pattern-sinks"@), MatcherRole::Sink, id);
                            match snk.0 {
                                Err(e) => (skipped(id, "skipped: "@ + e), src.1 + snk.1),
                                Ok(k) => if k.len() == 0 {
                                    (skipped(id, "has no valid `pattern-sinks`"@), src.1 + snk.1)
                                } else {
                                    let san = list_result(
                                        yaml_get(y, "pattern-sanitizers"@),
                                        MatcherRole::Sanitizer,
                                        id,
                                    );
                                    match san.0 {
                                        Err(e) => (skipped(id, "skipped: "@ + e), src.1 + snk.1 + san.1),
                                        Ok(z) => (
                                            ParseView::Compiled(
                                                TaintRuleView {
                                                    id: "semgrep/"@ + id,
                                                    message: match get_str(y, "message"@) {
                                                        Some(m) => m,
                                                        None => Seq::empty(),
                                                    },
                                                    severity: severity_of_name(
                                                        match get_str(y, "severity"@) {
                                                            Some(s) => s,
                                                            None => "WARNING"@,
                                                        },
                                                    ),
                                                    cwe: taint_cwe(y),
                                                    lang: Language::Python,
                                                    sources: s,
                                                    sinks: k,
                                                    sanitizers: z,
                                                },
                                            ),
                                            src.1 + snk.1 + san.1,
                                        ),
                                    }
                                },
                            }
                        },
                    }
                },
                _ => (skipped(id, "missing `languages`"@), Seq::empty()),
            },
        }
    }
}

fn skip_message(id: &str, why: &str) -> (res: String)
    ensures
        res@ == "taint rule `"@ + id@ + "` "@ + why@,
{
    let mut s = String::new();
    s.append("taint rule `");
    s.append(id);
    s.append("` ");
    s.append(why);
    s
}

fn get_str_exec<'a>(y: &'a YamlValue, key: &str) -> (res: Option<&'a str>)
    ensures
        match res {
            Some(s) => get_str(*y, key@) == Some(s@),
            None => get_str(*y, key@) is None,
        },
{
    match y.get(key) {
        Some(v) => v.as_str(),
        None => None,
    }
}

fn names_python_exec(ls: &Vec<YamlValue>) -> (res: bool)
    ensures
        res == names_python(ls@),
{
    let mut i: usize = 0;
    while i < ls.len()
        invariant
            i <= ls@.len(),
            forall|j: int|
                0 <= j < i ==> !(match str_of(#[trigger] ls@[j]) {
                    Some(s) => lowered(s) == "python"@ || lowered(s) == "py"@,
                    None => false,
                }),
        decreases ls@.len() - i,
    {
        match ls[i].as_str() {
            Some(s) => {
                let l = to_ascii_lower(s);
                if crate::text::chars_eq_str(l.as_slice(), "python") || crate::text::chars_eq_str(l.as_slice(), "py") {
                    assert(str_of(ls@[i as int]) == Some(s@));
                    return true;
                }
            },
            None => {},
        }
        i = i + 1;
    }
    false
}

fn extract_cwe(yaml: &YamlValue) -> (res: Option<String>)
    ensures
        match res {
            Some(s) => taint_cwe(*yaml) == Some(s@),
            None => taint_cwe(*yaml) is None,
        },
{
    let meta = match yaml.get("metadata") {
        Some(m) => m,
        None => {
            return None;
        },
    };
    match meta.get("cwe") {
        Some(YamlValue::String(s)) => Some(s.clone()),
        Some(YamlValue::Sequence(v)) => {
            if v.len() > 0 {
                match v[0].as_str() {
                    Some(s) => Some(String::from_str(s)),
                    None => None,
                }
            } else {
                None
            }
        },
        _ => None,
    }
}

/// Reads one Semgrep YAML rule as a `mode: taint` rule; also gives the
/// warnings its list entries raise, in order.
pub fn parse_taint_rule(yaml: &YamlValue) -> (res: (TaintRuleParse, Vec<String>))
    ensures
        parse_view(res.0) == taint_parse(*yaml).0,
        string_views(res.1@) == taint_parse(*yaml).1,
{
    let mut warnings: Vec<String> = Vec::new();
    assert(string_views(warnings@) =~= Seq::<Seq<char>>::empty());
    match get_str_exec(yaml, "mode") {
        Some(m) => {
            if !crate::text::str_eq(m, "taint") {
                return (TaintRuleParse::NotTaint, warnings);
            }
        },
        None => {
            return (TaintRuleParse::NotTaint, warnings);
        },
    }
    let id = match get_str_exec(yaml, "id") {
        Some(s) => s,
        None => {
            return (TaintRuleParse::Skip(String::from_str("taint rule missing `id`")), warnings);
        },
    };
    match yaml.get("languages") {
        Some(YamlValue::Sequence(ls)) => {
            if !names_python_exec(ls) {
                return (
                    TaintRuleParse::Skip(
                        skip_message(id, "targets non-Python languages; only Python is supported"),
                    ),
                    warnings,
                );
            }
        },
        _ => {
            return (TaintRuleParse::Skip(skip_message(id, "missing `languages`")), warnings);
        },
    }
    let message = match get_str_exec(yaml, "message") {
        Some(m) => String::from_str(m),
        None => String::new(),
    };
    let severity = match get_str_exec(yaml, "severity") {
        Some(s) => map_severity(s),
        None => map_severity("WARNING"),
    };
    let cwe = extract_cwe(yaml);
    let ghost w0 = string_views(warnings@);
    let sources = match compile_matcher_list(yaml.get("pattern-sources"), MatcherRole::Source, id, &mut warnings) {
        Ok(v) => v,
        Err(e) => {
            let mut why = String::from_str("skipped: ");
            why.append(e.as_str());
            return (TaintRuleParse::Skip(skip_message(id, why.as_str())), warnings);
        },
    };
    if sources.len() == 0 {
        return (TaintRuleParse::Skip(skip_message(id, "has no valid `pattern-sources`")), warnings);
    }
    let ghost w1 = string_views(warnings@);
    let sinks = match compile_matcher_list(yaml.get("pattern-sinks"), MatcherRole::Sink, id, &mut warnings) {
        Ok(v) => v,
        Err(e) => {
            let mut why = String::from_str("skipped: ");
            why.append(e.as_str());
            return (TaintRuleParse::Skip(skip_message(id, why.as_str())), warnings);
        },
    };
    if sinks.len() == 0 {
        return (TaintRuleParse::Skip(skip_message(id, "has no valid `pattern-sinks`")), warnings);
    }
    let sanitizers = match compile_matcher_list(
        yaml.get("pattern-sanitizers"),
        MatcherRole::Sanitizer,
        id,
        &mut warnings,
    ) {
        Ok(v) => v,
        Err(e) => {
            let mut why = String::from_str("skipped: ");
            why.append(e.as_str());
            return (TaintRuleParse::Skip(skip_message(id, why.as_str())), warnings);
        },
    };
    let mut full_id = String::from_str("semgrep/");
    full_id.append(id);
    (
        TaintRuleParse::Compiled(
            SemgrepTaintRule {
                id: full_id,
                message,
                severity,
                cwe,
                lang: Language::Python,
                spec: TaintSpec { sources, sinks, sanitizers },
            },
        ),
        warnings,
    )
}

} // verus!
