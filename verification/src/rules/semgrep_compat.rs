//! Semgrep-compatible rules: the YAML rule schema as plain values, the
//! compilation of a rule into a matcher, and the structural pattern matcher
//! that runs it over a syntax tree.
//!
//! A pattern is parsed as source code of the rule's language and matched
//! node by node against the target: `$X` metavariables bind the text they
//! match (and must match the same text again), `...` matches any run of
//! children, `"..."` matches any string literal, and kinds may differ when
//! one side is a single-child wrapper. Reading YAML files is left to the
//! program around the library.

use vstd::prelude::*;
use vstd::string::*;
use crate::rules::common::{get_source_line, line_start, newlines_before, newlines_exec, source_line};
use crate::rules::semgrep_taint::ident_char;
use crate::text::{
    ascii_lower, chars_eq, chars_eq_str, chars_of, push_chars, push_str, split_on, split_pieces,
    string_of_chars, sub_chars, to_ascii_lower, trim_chars, trim_set, TrimSet,
};
use crate::types::{Language, Severity};
use crate::text::char_boundary;

verus! {

// ─── YAML schema ──────────────────────────────────────────────────────────

/// A Semgrep rules file.
pub struct SemgrepFile {
    pub rules: Vec<SemgrepRuleYaml>,
}

/// One rule of a Semgrep rules file, as written.
pub struct SemgrepRuleYaml {
    pub id: String,
    pub pattern: Option<String>,
    pub pattern_regex: Option<String>,
    pub pattern_either: Option<Vec<PatternEntry>>,
    pub pattern_not: Option<String>,
    pub pattern_not_regex: Option<String>,
    pub pattern_inside: Option<String>,
    pub pattern_not_inside: Option<String>,
    pub patterns: Option<Vec<PatternClause>>,
    pub message: String,
    pub severity: SemgrepSeverity,
    pub languages: Vec<String>,
    pub metadata: Option<SemgrepMetadata>,
    pub paths: Option<SemgrepPaths>,
}

/// One alternative of a `pattern-either` list.
pub struct PatternEntry {
    pub pattern: Option<String>,
    pub pattern_regex: Option<String>,
}

/// One clause of a `patterns` list.
pub struct PatternClause {
    pub pattern: Option<String>,
    pub pattern_regex: Option<String>,
    pub pattern_not: Option<String>,
    pub pattern_not_regex: Option<String>,
    pub pattern_inside: Option<String>,
    pub pattern_not_inside: Option<String>,
    pub pattern_either: Option<Vec<PatternEntry>>,
    pub metavariable_regex: Option<SemgrepMetavariableRegexClause>,
}

#[derive(Clone, Copy, Debug, PartialEq, Eq, Structural)]
pub enum SemgrepSeverity {
    Error,
    Warning,
    Info,
}

pub struct SemgrepMetadata {
    pub cwe: Option<CweValue>,
}

/// `paths`: the globs a file must match (`include` in YAML), and those it
/// must not (`exclude`).
pub struct SemgrepPaths {
    pub included: Vec<String>,
    pub excluded: Vec<String>,
}

pub struct SemgrepMetavariableRegexClause {
    pub metavariable: String,
    pub regex: String,
}

/// `metadata.cwe`: one name, or a list of them.
pub enum CweValue {
    Single(String),
    List(Vec<String>),
}

// ─── Small helpers ────────────────────────────────────────────────────────

pub open spec fn severity_of(s: SemgrepSeverity) -> Severity {
    match s {
        SemgrepSeverity::Error => Severity::Critical,
        SemgrepSeverity::Warning => Severity::High,
        SemgrepSeverity::Info => Severity::Medium,
    }
}

pub fn map_severity(s: &SemgrepSeverity) -> (res: Severity)
    ensures
        res == severity_of(*s),
{
    match s {
        SemgrepSeverity::Error => Severity::Critical,
        SemgrepSeverity::Warning => Severity::High,
        SemgrepSeverity::Info => Severity::Medium,
    }
}

/// The language a Semgrep language name selects, compared case-blind. No
/// character outside ASCII lower-cases to one of these names' letters, so
/// ASCII lower-casing decides as full lower-casing would.
pub open spec fn language_of_name(name: Seq<char>) -> Option<Language> {
    let l = name.map_values(|c: char| ascii_lower(c));
    if l == "javascript"@ || l == "js"@ || l == "typescript"@ || l == "ts"@ || l == "jsx"@ || l
        == "tsx"@ {
        Some(Language::JavaScript)
    } else if l == "python"@ || l == "py"@ {
        Some(Language::Python)
    } else if l == "go"@ || l == "golang"@ {
        Some(Language::Go)
    } else if l == "ruby"@ || l == "rb"@ {
        Some(Language::Ruby)
    } else if l == "java"@ {
        Some(Language::Java)
    } else if l == "php"@ {
        Some(Language::Php)
    } else if l == "rust"@ || l == "rs"@ {
        Some(Language::Rust)
    } else if l == "csharp"@ || l == "c#"@ || l == "cs"@ {
        Some(Language::CSharp)
    } else if l == "swift"@ {
        Some(Language::Swift)
    } else {
        None
    }
}

pub fn map_language(lang_str: &str) -> (res: Option<Language>)
    ensures
        res == language_of_name(lang_str@),
{
    let l = to_ascii_lower(lang_str);
    let s = l.as_slice();
    if chars_eq_str(s, "javascript") || chars_eq_str(s, "js") || chars_eq_str(s, "typescript")
        || chars_eq_str(s, "ts") || chars_eq_str(s, "jsx") || chars_eq_str(s, "tsx") {
        Some(Language::JavaScript)
    } else if chars_eq_str(s, "python") || chars_eq_str(s, "py") {
        Some(Language::Python)
    } else if chars_eq_str(s, "go") || chars_eq_str(s, "golang") {
        Some(Language::Go)
    } else if chars_eq_str(s, "ruby") || chars_eq_str(s, "rb") {
        Some(Language::Ruby)
    } else if chars_eq_str(s, "java") {
        Some(Language::Java)
    } else if chars_eq_str(s, "php") {
        Some(Language::Php)
    } else if chars_eq_str(s, "rust") || chars_eq_str(s, "rs") {
        Some(Language::Rust)
    } else if chars_eq_str(s, "csharp") || chars_eq_str(s, "c#") || chars_eq_str(s, "cs") {
        Some(Language::CSharp)
    } else if chars_eq_str(s, "swift") {
        Some(Language::Swift)
    } else {
        None
    }
}

pub open spec fn opt_string(o: Option<String>) -> Option<Seq<char>> {
    match o {
        Some(s) => Some(s@),
        None => None,
    }
}

/// The first CWE name of the rule's metadata, if any.
pub open spec fn cwe_of(yaml: &SemgrepRuleYaml) -> Option<Seq<char>> {
    match &yaml.metadata {
        Some(m) => match &m.cwe {
            Some(CweValue::Single(s)) => Some(s@),
            Some(CweValue::List(v)) => if v@.len() > 0 {
                Some(v@[0]@)
            } else {
                None
            },
            None => None,
        },
        None => None,
    }
}

pub fn extract_cwe(yaml: &SemgrepRuleYaml) -> (res: Option<String>)
    ensures
        opt_string(res) == cwe_of(yaml),
{
    match &yaml.metadata {
        Some(m) => match &m.cwe {
            Some(CweValue::Single(s)) => Some(s.clone()),
            Some(CweValue::List(v)) => if v.len() > 0 {
                Some(v[0].clone())
            } else {
                None
            },
            None => None,
        },
        None => None,
    }
}

/// The components of a `/`-separated path (`Path::components`): a leading
/// `/`, or a leading `.`, then every other segment that is neither empty
/// nor `.`.
pub open spec fn path_components(p: Seq<char>) -> Seq<Seq<char>> {
    let pieces = split_on(p, '/');
    let rooted = p.len() > 0 && p[0] == '/';
    let cur = !rooted && pieces[0] == "."@;
    let head: Seq<Seq<char>> = if rooted {
        seq!["/"@]
    } else if cur {
        seq!["."@]
    } else {
        Seq::empty()
    };
    head + kept_segments(pieces, if cur { 1 } else { 0 }, pieces.len() as int)
}

/// The segments from `start` up to `k` that are neither empty nor `.`.
pub open spec fn kept_segments(pieces: Seq<Seq<char>>, start: int, k: int) -> Seq<Seq<char>>
    decreases k - start,
{
    if k <= start {
        Seq::empty()
    } else {
        kept_segments(pieces, start, k - 1) + (if pieces[k - 1].len() > 0 && pieces[k - 1] != "."@ {
            seq![pieces[k - 1]]
        } else {
            Seq::empty()
        })
    }
}

/// The texts joined with `/` between them.
pub open spec fn join_slash(parts: Seq<Seq<char>>) -> Seq<char>
    decreases parts.len(),
{
    if parts.len() == 0 {
        Seq::empty()
    } else if parts.len() == 1 {
        parts[0]
    } else {
        join_slash(parts.drop_last()) + "/"@ + parts.last()
    }
}

/// A path in the form rule path filters match against: its components
/// joined with `/`.
pub fn normalize_rule_path(path: &str) -> (res: String)
    ensures
        res@ == join_slash(path_components(path@)),
{
    let p = chars_of(path);
    let pieces = split_pieces(p.as_slice(), '/');
    proof {
        crate::text::lemma_split_nonempty(p@, '/', 0, 0);
        reveal_strlit("/");
    }
    let ghost pv = pieces@.map_values(|v: Vec<char>| v@);
    let rooted = p.len() > 0 && p[0] == '/';
    let cur = !rooted && chars_eq_str(pieces[0].as_slice(), ".");
    let mut parts: Vec<Vec<char>> = Vec::new();
    if rooted {
        parts.push(chars_of("/"));
    } else if cur {
        parts.push(chars_of("."));
    }
    let ghost head = parts@.map_values(|v: Vec<char>| v@);
    let start: usize = if cur {
        1
    } else {
        0
    };
    let mut k: usize = start;
    assert(parts@.map_values(|v: Vec<char>| v@) =~= head + kept_segments(pv, start as int, k as int));
    while k < pieces.len()
        invariant
            start <= k <= pieces@.len(),
            pv == pieces@.map_values(|v: Vec<char>| v@),
            parts@.map_values(|v: Vec<char>| v@) == head + kept_segments(pv, start as int, k as int),
        decreases pieces@.len() - k,
    {
        let ghost before = parts@.map_values(|v: Vec<char>| v@);
        let piece = &pieces[k];
        assert(pv[k as int] == piece@);
        if piece.len() > 0 && !chars_eq_str(piece.as_slice(), ".") {
            parts.push(sub_chars(piece.as_slice(), 0, piece.len()));
            assert(piece@.subrange(0, piece@.len() as int) =~= piece@);
            assert(parts@.map_values(|v: Vec<char>| v@) =~= before.push(piece@));
        } else {
            assert(kept_segments(pv, start as int, k + 1) =~= kept_segments(pv, start as int, k as int));
        }
        k = k + 1;
    }
    let ghost comps = parts@.map_values(|v: Vec<char>| v@);
    assert(comps == path_components(path@));
    let mut out: Vec<char> = Vec::new();
    let mut j: usize = 0;
    while j < parts.len()
        invariant
            j <= parts@.len(),
            comps == parts@.map_values(|v: Vec<char>| v@),
            "/"@ == seq!['/'],
            out@ == join_slash(comps.subrange(0, j as int)),
        decreases parts@.len() - j,
    {
        if j > 0 {
            out.push('/');
        }
        push_chars(&mut out, parts[j].as_slice());
        let ghost sub = comps.subrange(0, j + 1);
        assert(sub.drop_last() =~= comps.subrange(0, j as int));
        assert(sub.last() == parts@[j as int]@);
        proof {
            if j == 0 {
                assert(sub.len() == 1);
            }
        }
        j = j + 1;
    }
    assert(comps.subrange(0, comps.len() as int) =~= comps);
    string_of_chars(out.as_slice())
}

/// A Semgrep metavariable: `$` followed by letters, digits or `_`, blanks
/// around it ignored.
pub open spec fn metavar(text: Seq<char>) -> bool {
    let t = trim_set(text, TrimSet::Whitespace);
    t.len() > 1 && t[0] == '$' && forall|i: int| 1 <= i < t.len() ==> ident_char(#[trigger] t[i])
}

fn metavar_chars(text: &[char]) -> (res: bool)
    ensures
        res == metavar(text@),
{
    let t = trim_chars(text, TrimSet::Whitespace);
    if t.len() <= 1 || t[0] != '$' {
        return false;
    }
    let mut i: usize = 1;
    while i < t.len()
        invariant
            1 <= i <= t@.len(),
            t@ == trim_set(text@, TrimSet::Whitespace),
            t@[0] == '$',
            forall|j: int| 1 <= j < i ==> ident_char(#[trigger] t@[j]),
        decreases t@.len() - i,
    {
        let c = t[i];
        if !(('a' <= c && c <= 'z') || ('A' <= c && c <= 'Z') || c == '_' || ('0' <= c && c <= '9')) {
            assert(!ident_char(t@[i as int]));
            return false;
        }
        i = i + 1;
    }
    true
}

/// Check if text looks like a Semgrep metavariable: `$VAR`, `$X`, `$DB`.
pub fn is_metavar(text: &str) -> (res: bool)
    ensures
        res == metavar(text@),
{
    let c = chars_of(text);
    metavar_chars(c.as_slice())
}

/// The pattern `"..."` or `'...'`: any string literal.
pub open spec fn any_string_pattern(text: Seq<char>) -> bool {
    let t = trim_set(text, TrimSet::Whitespace);
    t == "\"...\""@ || t == "'...'"@
}

fn any_string_chars(text: &[char]) -> (res: bool)
    ensures
        res == any_string_pattern(text@),
{
    let t = trim_chars(text, TrimSet::Whitespace);
    chars_eq_str(t.as_slice(), "\"...\"") || chars_eq_str(t.as_slice(), "'...'")
}

pub fn is_any_string_pattern(text: &str) -> (res: bool)
    ensures
        res == any_string_pattern(text@),
{
    let c = chars_of(text);
    any_string_chars(c.as_slice())
}

/// String-literal node kinds across the supported grammars.
pub open spec fn string_kind(k: Seq<char>) -> bool {
    k == "string"@ || k == "string_literal"@ || k == "interpreted_string_literal"@ || k
        == "raw_string_literal"@ || k == "template_string"@
}

/// Line (one-based) and byte column (one-based) of a byte offset.
pub open spec fn position_of(b: Seq<u8>, off: int) -> (int, int) {
    (
        crate::rules::common::one_based(newlines_before(b, off)) as int,
        crate::rules::common::one_based((off - line_start(b, off)) as nat) as int,
    )
}

pub fn byte_offset_to_position(source: &str, byte_offset: usize) -> (res: (usize, usize))
    requires
        byte_offset <= source.spec_bytes().len(),
        char_boundary(source.spec_bytes(), byte_offset as int),
    ensures
        (res.0 as int, res.1 as int) == position_of(source.spec_bytes(), byte_offset as int),
{
    let b = source.as_bytes();
    let nl = newlines_exec(b, byte_offset);
    let line = if nl < usize::MAX {
        nl + 1
    } else {
        nl
    };
    let start = crate::rules::common::line_start_exec(b, byte_offset);
    let col = byte_offset - start;
    let column = if col < usize::MAX {
        col + 1
    } else {
        col
    };
    (line, column)
}

} // verus!

verus! {

// ─── Metavariable bindings ────────────────────────────────────────────────

/// The bindings of a match: metavariable text to matched text, in the
/// order they were bound; a name is bound at most once.
pub open spec fn bview(b: Seq<(String, String)>) -> Seq<(Seq<char>, Seq<char>)> {
    b.map_values(|e: (String, String)| (e.0@, e.1@))
}

pub open spec fn opt_bview(o: Option<Vec<(String, String)>>) -> Option<Seq<(Seq<char>, Seq<char>)>> {
    match o {
        Some(b) => Some(bview(b@)),
        None => None,
    }
}

/// The first position at or after `i` where `k` is bound.
pub open spec fn lookup_from(b: Seq<(Seq<char>, Seq<char>)>, k: Seq<char>, i: int) -> Option<int>
    decreases b.len() - i,
{
    if i < 0 || i >= b.len() {
        None
    } else if b[i].0 == k {
        Some(i)
    } else {
        lookup_from(b, k, i + 1)
    }
}

/// The text bound to `k`, if any.
pub open spec fn lookup(b: Seq<(Seq<char>, Seq<char>)>, k: Seq<char>) -> Option<Seq<char>> {
    match lookup_from(b, k, 0) {
        Some(x) => Some(b[x].1),
        None => None,
    }
}

fn lookup_exec(b: &Vec<(String, String)>, k: &[char]) -> (res: Option<usize>)
    ensures
        match res {
            Some(x) => lookup_from(bview(b@), k@, 0) == Some(x as int) && x < b@.len(),
            None => lookup_from(bview(b@), k@, 0) is None,
        },
{
    let ghost bv = bview(b@);
    let mut i: usize = 0;
    while i < b.len()
        invariant
            i <= b@.len(),
            bv == bview(b@),
            lookup_from(bv, k@, 0) == lookup_from(bv, k@, i as int),
        decreases b@.len() - i,
    {
        assert(bv[i as int] == (b@[i as int].0@, b@[i as int].1@));
        if crate::text::chars_eq_string(k, &b[i].0) {
            return Some(i);
        }
        i = i + 1;
    }
    None
}

fn clone_bindings(b: &Vec<(String, String)>) -> (res: Vec<(String, String)>)
    ensures
        bview(res@) == bview(b@),
{
    let mut out: Vec<(String, String)> = Vec::new();
    let mut i: usize = 0;
    while i < b.len()
        invariant
            i <= b@.len(),
            bview(out@) == bview(b@).subrange(0, i as int),
        decreases b@.len() - i,
    {
        let ghost before = out@;
        out.push((b[i].0.clone(), b[i].1.clone()));
        assert(bview(out@) =~= bview(before).push((b@[i as int].0@, b@[i as int].1@)));
        assert(bview(b@).subrange(0, i + 1) =~= bview(b@).subrange(0, i as int).push(bview(b@)[i as int]));
        i = i + 1;
    }
    assert(bview(b@).subrange(0, b@.len() as int) =~= bview(b@));
    out
}

/// `left` extended by the entries of `right` from `k` on; `None` when a
/// name is bound to different texts.
pub open spec fn merge_from(
    acc: Seq<(Seq<char>, Seq<char>)>,
    right: Seq<(Seq<char>, Seq<char>)>,
    k: int,
) -> Option<Seq<(Seq<char>, Seq<char>)>>
    decreases right.len() - k,
{
    if k < 0 || k >= right.len() {
        Some(acc)
    } else {
        match lookup(acc, right[k].0) {
            Some(e) => if e != right[k].1 {
                None
            } else {
                merge_from(acc, right, k + 1)
            },
            None => merge_from(acc.push(right[k]), right, k + 1),
        }
    }
}

/// Combine two binding sets; `None` when they bind a name differently.
pub fn merge_bindings(left: &Vec<(String, String)>, right: &Vec<(String, String)>) -> (res: Option<
    Vec<(String, String)>,
>)
    ensures
        opt_bview(res) == merge_from(bview(left@), bview(right@), 0),
{
    let mut merged = clone_bindings(left);
    let mut k: usize = 0;
    while k < right.len()
        invariant
            k <= right@.len(),
            merge_from(bview(left@), bview(right@), 0) == merge_from(bview(merged@), bview(right@), k as int),
        decreases right@.len() - k,
    {
        let key = chars_of(right[k].0.as_str());
        assert(bview(right@)[k as int] == (right@[k as int].0@, right@[k as int].1@));
        match lookup_exec(&merged, key.as_slice()) {
            Some(x) => {
                assert(bview(merged@)[x as int] == (merged@[x as int].0@, merged@[x as int].1@));
                if !crate::text::str_eq(merged[x].1.as_str(), right[k].1.as_str()) {
                    return None;
                }
            },
            None => {
                let ghost before = merged@;
                merged.push((right[k].0.clone(), right[k].1.clone()));
                assert(bview(merged@) =~= bview(before).push(bview(right@)[k as int]));
            },
        }
        k = k + 1;
    }
    Some(merged)
}

// ─── Match ranges ─────────────────────────────────────────────────────────

/// Where a pattern matched, with the bindings of the match.
pub struct MatchRange {
    pub start_byte: usize,
    pub end_byte: usize,
    pub line: usize,
    pub column: usize,
    pub end_line: usize,
    pub end_column: usize,
    pub snippet: String,
    pub bindings: Vec<(String, String)>,
}

pub struct MatchView {
    pub start_byte: usize,
    pub end_byte: usize,
    pub line: usize,
    pub column: usize,
    pub end_line: usize,
    pub end_column: usize,
    pub snippet: Seq<char>,
    pub bindings: Seq<(Seq<char>, Seq<char>)>,
}

impl View for MatchRange {
    type V = MatchView;

    open spec fn view(&self) -> MatchView {
        MatchView {
            start_byte: self.start_byte,
            end_byte: self.end_byte,
            line: self.line,
            column: self.column,
            end_line: self.end_line,
            end_column: self.end_column,
            snippet: self.snippet@,
            bindings: bview(self.bindings@),
        }
    }
}

pub open spec fn match_views(v: Seq<MatchRange>) -> Seq<MatchView> {
    v.map_values(|m: MatchRange| m@)
}

pub open spec fn overlap(l: MatchView, r: MatchView) -> bool {
    l.start_byte < r.end_byte && r.start_byte < l.end_byte
}

/// The two byte ranges share at least one byte.
pub fn ranges_overlap(left: &MatchRange, right: &MatchRange) -> (res: bool)
    ensures
        res == overlap(left@, right@),
{
    left.start_byte < right.end_byte && right.start_byte < left.end_byte
}

impl MatchRange {
    /// A copy of the range, with the given bindings.
    fn with_bindings(&self, bindings: Vec<(String, String)>) -> (res: MatchRange)
        ensures
            res@ == (MatchView { bindings: bview(bindings@), ..self@ }),
    {
        MatchRange {
            start_byte: self.start_byte,
            end_byte: self.end_byte,
            line: self.line,
            column: self.column,
            end_line: self.end_line,
            end_column: self.end_column,
            snippet: self.snippet.clone(),
            bindings,
        }
    }

    fn copy(&self) -> (res: MatchRange)
        ensures
            res@ == self@,
    {
        self.with_bindings(clone_bindings(&self.bindings))
    }
}

} // verus!

verus! {

// ─── Matching a pattern node against a target node ───────────────────────

pub open spec fn trimmed(s: Seq<char>) -> Seq<char> {
    trim_set(s, TrimSet::Whitespace)
}

/// Binary-operator node kinds across the supported grammars.
pub open spec fn operator_kind(k: Seq<char>) -> bool {
    k == "binary_expression"@ || k == "binary_operator"@ || k == "boolean_operator"@ || k
        == "comparison_operator"@
}

/// The characters of `s` that are neither whitespace nor `$`.
pub open spec fn operator_chars(s: Seq<char>) -> Seq<char>
    decreases s.len(),
{
    if s.len() == 0 {
        Seq::empty()
    } else {
        operator_chars(s.drop_last()) + (if crate::text::is_unicode_whitespace(s.last()) || s.last()
            == '$' {
            Seq::empty()
        } else {
            seq![s.last()]
        })
    }
}

/// The operator of a binary-operator node: the text between its first two
/// named operands, blanks and `$` dropped; `None` when that is empty.
pub open spec fn operator_token(src: Seq<u8>, t: Seq<crate::tree::NodeView>, i: int) -> Option<
    Seq<char>,
> {
    let nc = crate::tree::named_children(t, i);
    if !operator_kind(t[i].kind) || nc.len() < 2 {
        None
    } else {
        let a = t[nc[0] as int].end_byte as int;
        let b = t[nc[1] as int].start_byte as int;
        let gap = if 0 <= a <= b <= src.len() {
            operator_chars(crate::text::utf8_lossy(src.subrange(a, b)))
        } else {
            Seq::empty()
        };
        if gap.len() == 0 {
            None
        } else {
            Some(gap)
        }
    }
}

/// A metavariable the pattern parser split in two (`$` as an error node,
/// then the name), or an error node holding a whole metavariable.
pub open spec fn split_metavar(
    psrc: Seq<u8>,
    p: Seq<crate::tree::NodeView>,
    pc: Seq<usize>,
    pk: int,
) -> Option<Seq<char>> {
    if pk < 0 || pk + 1 >= pc.len() {
        None
    } else {
        let first = p[pc[pk] as int];
        let second = p[pc[pk + 1] as int];
        let ft = crate::tree::node_text(psrc, first);
        if first.kind == "ERROR"@ && trimmed(ft) == "$"@ && second.kind == "identifier"@ {
            Some("$"@ + crate::tree::node_text(psrc, second))
        } else if first.kind == "ERROR"@ && metavar(ft) {
            Some(ft)
        } else {
            None
        }
    }
}

/// Whether pattern node `pi` matches target node `ti`, extending bindings
/// `b`; the bindings after the match, or `None`.
pub open spec fn match_node(
    tsrc: Seq<u8>,
    t: Seq<crate::tree::NodeView>,
    ti: int,
    psrc: Seq<u8>,
    p: Seq<crate::tree::NodeView>,
    pi: int,
    b: Seq<(Seq<char>, Seq<char>)>,
) -> Option<Seq<(Seq<char>, Seq<char>)>>
    decreases (p.len() - pi) + (t.len() - ti), 1int, 0int,
{
    if !(0 <= ti < t.len() && 0 <= pi < p.len()) {
        None
    } else {
        let pt = crate::tree::node_text(psrc, p[pi]);
        let tt = crate::tree::node_text(tsrc, t[ti]);
        if metavar(pt) {
            match lookup(b, pt) {
                Some(e) => if e == tt {
                    Some(b)
                } else {
                    None
                },
                None => Some(b.push((pt, tt))),
            }
        } else if trimmed(pt) == "..."@ {
            Some(b)
        } else if any_string_pattern(pt) && string_kind(t[ti].kind) {
            Some(b)
        } else if p[pi].children.len() == 0 {
            if pt == tt {
                Some(b)
            } else {
                None
            }
        } else if p[pi].kind != t[ti].kind {
            if p[pi].children.len() == 1 {
                let pc = p[pi].children[0] as int;
                if pi < pc < p.len() {
                    match_node(tsrc, t, ti, psrc, p, pc, b)
                } else {
                    None
                }
            } else if t[ti].children.len() == 1 {
                let tc = t[ti].children[0] as int;
                if ti < tc < t.len() {
                    match_node(tsrc, t, tc, psrc, p, pi, b)
                } else {
                    None
                }
            } else {
                None
            }
        } else if operator_token(psrc, p, pi) is Some && operator_token(tsrc, t, ti) != operator_token(
            psrc,
            p,
            pi,
        ) {
            None
        } else {
            match_children(tsrc, t, ti, psrc, p, pi, 0, 0, b, false)
        }
    }
}

/// Match the named children of pattern node `pp` against those of target
/// node `tp`, from positions `tk` and `pk`: `...` skips to the first later
/// target child that matches the next pattern child; while `searching`,
/// `pk` is that next pattern child.
pub open spec fn match_children(
    tsrc: Seq<u8>,
    t: Seq<crate::tree::NodeView>,
    tp: int,
    psrc: Seq<u8>,
    p: Seq<crate::tree::NodeView>,
    pp: int,
    tk: int,
    pk: int,
    b: Seq<(Seq<char>, Seq<char>)>,
    searching: bool,
) -> Option<Seq<(Seq<char>, Seq<char>)>>
    decreases (p.len() - pp) + (t.len() - tp), 0int, 2 * (crate::tree::named_children(p, pp).len()
        - pk) + 2 * (crate::tree::named_children(t, tp).len() - tk) + (if searching {
        1int
    } else {
        0int
    }),
{
    let tc = crate::tree::named_children(t, tp);
    let pc = crate::tree::named_children(p, pp);
    if !(0 <= tp < t.len() && 0 <= pp < p.len() && 0 <= tk <= tc.len() && 0 <= pk <= pc.len()) {
        None
    } else if searching {
        if pk >= pc.len() {
            None
        } else if tk >= tc.len() {
            match_children(tsrc, t, tp, psrc, p, pp, tk, pk, b, false)
        } else {
            let ct = tc[tk] as int;
            let cp = pc[pk] as int;
            if tp < ct < t.len() && pp < cp < p.len() {
                match match_node(tsrc, t, ct, psrc, p, cp, b) {
                    Some(b2) => match_children(tsrc, t, tp, psrc, p, pp, tk + 1, pk + 1, b2, false),
                    None => match_children(tsrc, t, tp, psrc, p, pp, tk + 1, pk, b, true),
                }
            } else {
                None
            }
        }
    } else if pk >= pc.len() {
        Some(b)
    } else {
        let cp = pc[pk] as int;
        let ptxt = crate::tree::node_text(psrc, p[cp]);
        if trimmed(ptxt) == "..."@ {
            if pk + 1 >= pc.len() {
                Some(b)
            } else {
                match_children(tsrc, t, tp, psrc, p, pp, tk, pk + 1, b, true)
            }
        } else {
            match split_metavar(psrc, p, pc, pk) {
                Some(mv) => if tk >= tc.len() {
                    None
                } else {
                    let tt = crate::tree::node_text(tsrc, t[tc[tk] as int]);
                    match lookup(b, mv) {
                        Some(e) => if e != tt {
                            None
                        } else {
                            match_children(tsrc, t, tp, psrc, p, pp, tk + 1, pk + 2, b, false)
                        },
                        None => match_children(
                            tsrc,
                            t,
                            tp,
                            psrc,
                            p,
                            pp,
                            tk + 1,
                            pk + 2,
                            b.push((mv, tt)),
                            false,
                        ),
                    }
                },
                None => if p[cp].kind == "ERROR"@ && trimmed(ptxt) == "$"@ {
                    match_children(tsrc, t, tp, psrc, p, pp, tk, pk + 1, b, false)
                } else if tk >= tc.len() {
                    None
                } else {
                    let ct = tc[tk] as int;
                    if tp < ct < t.len() && pp < cp < p.len() {
                        match match_node(tsrc, t, ct, psrc, p, cp, b) {
                            Some(b2) => match_children(tsrc, t, tp, psrc, p, pp, tk + 1, pk + 1, b2, false),
                            None => None,
                        }
                    } else {
                        None
                    }
                },
            }
        }
    }
}

} // verus!

verus! {

use crate::tree::{SyntaxTree, node_text, named_children, node_wf, tree_wf};

fn operator_chars_exec(s: &[char]) -> (res: Vec<char>)
    ensures
        res@ == operator_chars(s@),
{
    let mut out: Vec<char> = Vec::new();
    let mut i: usize = 0;
    while i < s.len()
        invariant
            i <= s@.len(),
            out@ == operator_chars(s@.subrange(0, i as int)),
        decreases s@.len() - i,
    {
        let c = s[i];
        assert(s@.subrange(0, i + 1).drop_last() =~= s@.subrange(0, i as int));
        if !(crate::text::in_set(TrimSet::Whitespace, c) || c == '$') {
            out.push(c);
        }
        i = i + 1;
    }
    assert(s@.subrange(0, s@.len() as int) =~= s@);
    out
}

fn operator_token_exec(tree: &SyntaxTree, src: &[u8], i: usize) -> (res: Option<Vec<char>>)
    requires
        i < tree@.len(),
    ensures
        crate::rules::go_taint::opt_chars(res) == operator_token(src@, tree@, i as int),
{
    let k = &tree.node(i).kind;
    let kind = k.as_str();
    let is_op = crate::text::str_eq(kind, "binary_expression") || crate::text::str_eq(
        kind,
        "binary_operator",
    ) || crate::text::str_eq(kind, "boolean_operator") || crate::text::str_eq(
        kind,
        "comparison_operator",
    );
    let nc = tree.named_children(i);
    if !is_op || nc.len() < 2 {
        return None;
    }
    let a = tree.node(nc[0]).end_byte;
    let b = tree.node(nc[1]).start_byte;
    let gap = if a <= b && b <= src.len() {
        let s = crate::text::utf8_lossy_string(&src[a..b]);
        let cs = chars_of(s.as_str());
        operator_chars_exec(cs.as_slice())
    } else {
        Vec::new()
    };
    if gap.len() == 0 {
        None
    } else {
        Some(gap)
    }
}

fn split_metavar_exec(p: &SyntaxTree, psrc: &[u8], pc: &Vec<usize>, pk: usize) -> (res: Option<
    Vec<char>,
>)
    requires
        forall|j: int| 0 <= j < pc@.len() ==> #[trigger] pc@[j] < p@.len(),
    ensures
        crate::rules::go_taint::opt_chars(res) == split_metavar(psrc@, p@, pc@, pk as int),
{
    if pk >= pc.len() || pc.len() - pk < 2 {
        return None;
    }
    let f = pc[pk];
    let s = pc[pk + 1];
    let ft = p.text(psrc, f);
    let tf = trim_chars(ft.as_slice(), TrimSet::Whitespace);
    if p.kind_is(f, "ERROR") && chars_eq_str(tf.as_slice(), "$") && p.kind_is(s, "identifier") {
        let mut out: Vec<char> = Vec::new();
        out.push('$');
        let st = p.text(psrc, s);
        push_chars(&mut out, st.as_slice());
        proof {
            reveal_strlit("$");
        }
        assert(out@ =~= "$"@ + st@);
        Some(out)
    } else if p.kind_is(f, "ERROR") && metavar_chars(ft.as_slice()) {
        Some(ft)
    } else {
        None
    }
}

/// Whether pattern node `pi` of `p` matches target node `ti` of `t`,
/// extending the bindings; the bindings after the match, or `None`.
pub fn match_node_exec(
    t: &SyntaxTree,
    tsrc: &[u8],
    ti: usize,
    p: &SyntaxTree,
    psrc: &[u8],
    pi: usize,
    b: &Vec<(String, String)>,
) -> (res: Option<Vec<(String, String)>>)
    requires
        ti < t@.len(),
        pi < p@.len(),
    ensures
        opt_bview(res) == match_node(tsrc@, t@, ti as int, psrc@, p@, pi as int, bview(b@)),
    decreases (p@.len() - pi) + (t@.len() - ti), 1int, 0int,
{
    let _ = t.len();
    let _ = p.len();
    assert(node_wf(t@, ti as int));
    assert(node_wf(p@, pi as int));
    let pt = p.text(psrc, pi);
    let tt = t.text(tsrc, ti);
    if metavar_chars(pt.as_slice()) {
        return match lookup_exec(b, pt.as_slice()) {
            Some(x) => {
                assert(bview(b@)[x as int] == (b@[x as int].0@, b@[x as int].1@));
                if crate::text::chars_eq_string(tt.as_slice(), &b[x].1) {
                    Some(clone_bindings(b))
                } else {
                    None
                }
            },
            None => {
                let mut nb = clone_bindings(b);
                let ghost before = nb@;
                nb.push((string_of_chars(pt.as_slice()), string_of_chars(tt.as_slice())));
                assert(bview(nb@) =~= bview(before).push((pt@, tt@)));
                Some(nb)
            },
        };
    }
    let ptrim = trim_chars(pt.as_slice(), TrimSet::Whitespace);
    if chars_eq_str(ptrim.as_slice(), "...") {
        return Some(clone_bindings(b));
    }
    let tk = &t.node(ti).kind;
    let tkind = tk.as_str();
    let is_string = crate::text::str_eq(tkind, "string") || crate::text::str_eq(tkind, "string_literal")
        || crate::text::str_eq(tkind, "interpreted_string_literal") || crate::text::str_eq(
        tkind,
        "raw_string_literal",
    ) || crate::text::str_eq(tkind, "template_string");
    if any_string_chars(pt.as_slice()) && is_string {
        return Some(clone_bindings(b));
    }
    let pnode = p.node(pi);
    let tnode = t.node(ti);
    if pnode.children.len() == 0 {
        return if crate::text::chars_eq(pt.as_slice(), tt.as_slice()) {
            Some(clone_bindings(b))
        } else {
            None
        };
    }
    if !crate::text::str_eq(pnode.kind.as_str(), tnode.kind.as_str()) {
        if pnode.children.len() == 1 {
            let pc = pnode.children[0];
            return match_node_exec(t, tsrc, ti, p, psrc, pc, b);
        }
        if tnode.children.len() == 1 {
            let tc = tnode.children[0];
            return match_node_exec(t, tsrc, tc, p, psrc, pi, b);
        }
        return None;
    }
    match operator_token_exec(p, psrc, pi) {
        Some(pg) => {
            match operator_token_exec(t, tsrc, ti) {
                Some(tg) => {
                    if !crate::text::chars_eq(tg.as_slice(), pg.as_slice()) {
                        return None;
                    }
                },
                None => {
                    return None;
                },
            }
        },
        None => {},
    }
    let tcs = t.named_children(ti);
    let pcs = p.named_children(pi);
    match_children_exec(t, tsrc, ti, &tcs, p, psrc, pi, &pcs, 0, 0, b, false)
}

fn match_children_exec(
    t: &SyntaxTree,
    tsrc: &[u8],
    tp: usize,
    tcs: &Vec<usize>,
    p: &SyntaxTree,
    psrc: &[u8],
    pp: usize,
    pcs: &Vec<usize>,
    tk: usize,
    pk: usize,
    b: &Vec<(String, String)>,
    searching: bool,
) -> (res: Option<Vec<(String, String)>>)
    requires
        tp < t@.len(),
        pp < p@.len(),
        tcs@ == named_children(t@, tp as int),
        pcs@ == named_children(p@, pp as int),
        forall|j: int| 0 <= j < tcs@.len() ==> tp < #[trigger] tcs@[j] < t@.len(),
        forall|j: int| 0 <= j < pcs@.len() ==> pp < #[trigger] pcs@[j] < p@.len(),
        tk <= tcs@.len(),
        pk <= pcs@.len(),
    ensures
        opt_bview(res) == match_children(
            tsrc@,
            t@,
            tp as int,
            psrc@,
            p@,
            pp as int,
            tk as int,
            pk as int,
            bview(b@),
            searching,
        ),
    decreases (p@.len() - pp) + (t@.len() - tp), 0int, 2 * (named_children(p@, pp as int).len() - pk)
        + 2 * (named_children(t@, tp as int).len() - tk) + (if searching {
        1int
    } else {
        0int
    }),
{
    if searching {
        if pk >= pcs.len() {
            return None;
        }
        if tk >= tcs.len() {
            return match_children_exec(t, tsrc, tp, tcs, p, psrc, pp, pcs, tk, pk, b, false);
        }
        let ct = tcs[tk];
        let cp = pcs[pk];
        return match match_node_exec(t, tsrc, ct, p, psrc, cp, b) {
            Some(b2) => match_children_exec(t, tsrc, tp, tcs, p, psrc, pp, pcs, tk + 1, pk + 1, &b2, false),
            None => match_children_exec(t, tsrc, tp, tcs, p, psrc, pp, pcs, tk + 1, pk, b, true),
        };
    }
    if pk >= pcs.len() {
        return Some(clone_bindings(b));
    }
    let cp = pcs[pk];
    let ptxt = p.text(psrc, cp);
    let ptrim = trim_chars(ptxt.as_slice(), TrimSet::Whitespace);
    if chars_eq_str(ptrim.as_slice(), "...") {
        if pcs.len() - pk < 2 {
            return Some(clone_bindings(b));
        }
        return match_children_exec(t, tsrc, tp, tcs, p, psrc, pp, pcs, tk, pk + 1, b, true);
    }
    match split_metavar_exec(p, psrc, pcs, pk) {
        Some(mv) => {
            if tk >= tcs.len() {
                return None;
            }
            let tt = t.text(tsrc, tcs[tk]);
            match lookup_exec(b, mv.as_slice()) {
                Some(x) => {
                    assert(bview(b@)[x as int] == (b@[x as int].0@, b@[x as int].1@));
                    if !crate::text::chars_eq_string(tt.as_slice(), &b[x].1) {
                        return None;
                    }
                    match_children_exec(t, tsrc, tp, tcs, p, psrc, pp, pcs, tk + 1, pk + 2, b, false)
                },
                None => {
                    let mut nb = clone_bindings(b);
                    let ghost before = nb@;
                    nb.push((string_of_chars(mv.as_slice()), string_of_chars(tt.as_slice())));
                    assert(bview(nb@) =~= bview(before).push((mv@, tt@)));
                    match_children_exec(t, tsrc, tp, tcs, p, psrc, pp, pcs, tk + 1, pk + 2, &nb, false)
                },
            }
        },
        None => {
            if p.kind_is(cp, "ERROR") && chars_eq_str(ptrim.as_slice(), "$") {
                return match_children_exec(t, tsrc, tp, tcs, p, psrc, pp, pcs, tk, pk + 1, b, false);
            }
            if tk >= tcs.len() {
                return None;
            }
            let ct = tcs[tk];
            match match_node_exec(t, tsrc, ct, p, psrc, cp, b) {
                Some(b2) => match_children_exec(t, tsrc, tp, tcs, p, psrc, pp, pcs, tk + 1, pk + 1, &b2, false),
                None => None,
            }
        },
    }
}

} // verus!

verus! {

// ─── Walking the target ───────────────────────────────────────────────────

/// The match range at target node `j`, with bindings `b`.
pub open spec fn range_at(
    tsrc: Seq<u8>,
    t: Seq<crate::tree::NodeView>,
    j: int,
    b: Seq<(Seq<char>, Seq<char>)>,
) -> MatchView {
    MatchView {
        start_byte: t[j].start_byte,
        end_byte: t[j].end_byte,
        line: (t[j].start_row + 1) as usize,
        column: (t[j].start_column + 1) as usize,
        end_line: (t[j].end_row + 1) as usize,
        end_column: (t[j].end_column + 1) as usize,
        snippet: source_line(tsrc, t[j].start_byte as int),
        bindings: b,
    }
}

/// The target nodes from `j` (in pre-order, before `end`) that pattern node
/// `pat` matches; the subtree of a matched node is not searched again.
pub open spec fn walk_match(
    tsrc: Seq<u8>,
    t: Seq<crate::tree::NodeView>,
    psrc: Seq<u8>,
    p: Seq<crate::tree::NodeView>,
    pat: int,
    j: int,
    end: int,
) -> Seq<MatchView>
    decreases end - j,
{
    if j < 0 || j >= end || end > t.len() {
        Seq::empty()
    } else {
        match match_node(tsrc, t, j, psrc, p, pat, Seq::empty()) {
            Some(b) => seq![range_at(tsrc, t, j, b)] + (if j < t[j].subtree_end <= end {
                walk_match(tsrc, t, psrc, p, pat, t[j].subtree_end as int, end)
            } else {
                Seq::empty()
            }),
            None => walk_match(tsrc, t, psrc, p, pat, j + 1, end),
        }
    }
}

fn range_at_exec(tree: &SyntaxTree, source: &str, j: usize, b: Vec<(String, String)>) -> (res: MatchRange)
    requires
        j < tree@.len(),
    ensures
        res@ == range_at(source.spec_bytes(), tree@, j as int, bview(b@)),
{
    let _ = tree.len();
    assert(node_wf(tree@, j as int));
    let n = tree.node(j);
    MatchRange {
        start_byte: n.start_byte,
        end_byte: n.end_byte,
        line: n.start_row + 1,
        column: n.start_column + 1,
        end_line: n.end_row + 1,
        end_column: n.end_column + 1,
        snippet: get_source_line(source, n.start_byte),
        bindings: b,
    }
}

fn walk_match_exec(t: &SyntaxTree, source: &str, p: &SyntaxTree, psrc: &[u8], pat: usize) -> (res: Vec<
    MatchRange,
>)
    requires
        pat < p@.len(),
    ensures
        match_views(res@) == walk_match(source.spec_bytes(), t@, psrc@, p@, pat as int, 0, t@.len() as int),
{
    let n = t.len();
    let tsrc = source.as_bytes();
    let mut out: Vec<MatchRange> = Vec::new();
    let empty: Vec<(String, String)> = Vec::new();
    assert(bview(empty@) =~= Seq::<(Seq<char>, Seq<char>)>::empty());
    let mut j: usize = 0;
    assert(match_views(out@) + walk_match(tsrc@, t@, psrc@, p@, pat as int, 0, n as int) =~= walk_match(
        tsrc@,
        t@,
        psrc@,
        p@,
        pat as int,
        0,
        n as int,
    ));
    while j < n
        invariant
            j <= n == t@.len(),
            tree_wf(t@),
            pat < p@.len(),
            tsrc@ == source.spec_bytes(),
            bview(empty@) == Seq::<(Seq<char>, Seq<char>)>::empty(),
            match_views(out@) + walk_match(tsrc@, t@, psrc@, p@, pat as int, j as int, n as int)
                == walk_match(tsrc@, t@, psrc@, p@, pat as int, 0, n as int),
        decreases n - j,
    {
        assert(node_wf(t@, j as int));
        let ghost before = out@;
        match match_node_exec(t, tsrc, j, p, psrc, pat, &empty) {
            Some(b) => {
                let r = range_at_exec(t, source, j, b);
                out.push(r);
                assert(match_views(out@) =~= match_views(before).push(r@));
                j = t.node(j).subtree_end;
            },
            None => {
                j = j + 1;
            },
        }
    }
    assert(match_views(out@) =~= match_views(out@) + walk_match(tsrc@, t@, psrc@, p@, pat as int, j as int, n as int));
    out
}

/// The node a pattern means: past the top-level wrapper of the file (its
/// first child that is not an extra, recursively) and past an
/// `expression_statement` (its first child).
pub open spec fn first_meaningful(p: Seq<crate::tree::NodeView>, i: int) -> Option<int>
    decreases p.len() - i,
{
    if i < 0 || i >= p.len() {
        None
    } else {
        let k = p[i].kind;
        if k == "module"@ || k == "program"@ || k == "source_file"@ || k == "script"@ {
            match first_non_extra(p, i, 0) {
                Some(c) => if i < c < p.len() {
                    first_meaningful(p, c)
                } else {
                    None
                },
                None => None,
            }
        } else if k == "expression_statement"@ && p[i].children.len() > 0 {
            Some(p[i].children[0] as int)
        } else {
            Some(i)
        }
    }
}

/// The first child of `i`, from position `k`, that is not an extra.
pub open spec fn first_non_extra(p: Seq<crate::tree::NodeView>, i: int, k: int) -> Option<int>
    decreases p[i].children.len() - k,
{
    if k < 0 || k >= p[i].children.len() {
        None
    } else if !p[p[i].children[k] as int].extra {
        Some(p[i].children[k] as int)
    } else {
        first_non_extra(p, i, k + 1)
    }
}

fn first_meaningful_exec(p: &SyntaxTree, i: usize) -> (res: Option<usize>)
    requires
        i < p@.len(),
    ensures
        match res {
            Some(x) => first_meaningful(p@, i as int) == Some(x as int) && x < p@.len(),
            None => first_meaningful(p@, i as int) is None,
        },
    decreases p@.len() - i,
{
    let _ = p.len();
    assert(node_wf(p@, i as int));
    let n = p.node(i);
    let k = n.kind.as_str();
    if crate::text::str_eq(k, "module") || crate::text::str_eq(k, "program") || crate::text::str_eq(
        k,
        "source_file",
    ) || crate::text::str_eq(k, "script") {
        let mut c: usize = 0;
        while c < n.children.len()
            invariant
                c <= n.children@.len(),
                n@ == p@[i as int],
                node_wf(p@, i as int),
                i < p@.len(),
                p@[i as int].kind == "module"@ || p@[i as int].kind == "program"@ || p@[i as int].kind
                    == "source_file"@ || p@[i as int].kind == "script"@,
                first_non_extra(p@, i as int, 0) == first_non_extra(p@, i as int, c as int),
            decreases n.children@.len() - c,
        {
            let ch = n.children[c];
            if !p.node(ch).extra {
                assert(first_non_extra(p@, i as int, c as int) == Some(ch as int));
                assert(i < ch < p@.len());
                assert(p@[i as int].kind == n.kind@);
                let r = first_meaningful_exec(p, ch);
                assert(first_meaningful(p@, i as int) == first_meaningful(p@, ch as int));
                return r;
            }
            c = c + 1;
        }
        return None;
    }
    if crate::text::str_eq(k, "expression_statement") && n.children.len() > 0 {
        return Some(n.children[0]);
    }
    Some(i)
}

/// A pattern of a Semgrep rule, parsed with the grammar of the rule's
/// language once, when the rule is compiled.
pub struct CompiledPattern {
    pub text: String,
    pub bytes: Vec<u8>,
    pub tree: Option<SyntaxTree>,
}

pub open spec fn pattern_tree(cp: &CompiledPattern) -> Option<Seq<crate::tree::NodeView>> {
    match &cp.tree {
        Some(tr) => Some(tr@),
        None => None,
    }
}

/// The matches of a single pattern in the target: none when the pattern
/// did not parse or holds no meaningful node.
pub open spec fn single_matches(tsrc: Seq<u8>, t: Seq<crate::tree::NodeView>, cp: &CompiledPattern) -> Seq<
    MatchView,
> {
    match pattern_tree(cp) {
        Some(p) => match first_meaningful(p, 0) {
            Some(pn) => walk_match(tsrc, t, cp.bytes@, p, pn, 0, t.len() as int),
            None => Seq::empty(),
        },
        None => Seq::empty(),
    }
}

impl CompiledPattern {
    /// Parse the pattern text with the grammar of the language.
    pub fn new(text: &str, language: Language) -> (res: CompiledPattern)
        ensures
            res.text@ == text@,
            res.bytes@ == text.spec_bytes(),
            pattern_tree(&res) is None <==> (language == Language::Ruby || language == Language::Java
                || language == Language::CSharp),
            pattern_tree(&res) matches Some(p) ==> crate::tree::parsed_arena(p, language, text@),
    {
        let bytes = crate::text::bytes_of(text);
        CompiledPattern {
            text: String::from_str(text),
            bytes,
            tree: crate::engine::parser::parse_file(text, language),
        }
    }

    /// Every node of the target that the pattern matches, outermost first.
    pub fn matches(&self, t: &SyntaxTree, source: &str) -> (res: Vec<MatchRange>)
        ensures
            match_views(res@) == single_matches(source.spec_bytes(), t@, self),
    {
        match &self.tree {
            Some(p) => {
                if p.len() == 0 {
                    return Vec::new();
                }
                match first_meaningful_exec(p, 0) {
                    Some(pn) => walk_match_exec(t, source, p, self.bytes.as_slice(), pn),
                    None => Vec::new(),
                }
            },
            None => Vec::new(),
        }
    }
}

} // verus!

verus! {

use crate::pattern::{find_all, is_match, regex_find_all, regex_is_match, Pattern};

// ─── Regular-expression matches ───────────────────────────────────────────

pub open spec fn regex_range(src: Seq<u8>, m: (usize, usize)) -> MatchView {
    let s = position_of(src, m.0 as int);
    let e = position_of(src, m.1 as int);
    MatchView {
        start_byte: m.0,
        end_byte: m.1,
        line: s.0 as usize,
        column: s.1 as usize,
        end_line: e.0 as usize,
        end_column: e.1 as usize,
        snippet: source_line(src, m.0 as int),
        bindings: Seq::empty(),
    }
}

/// Each match of the expression in the source, in order.
pub open spec fn regex_matches(p: Seq<char>, src: Seq<u8>, text: Seq<char>) -> Seq<MatchView> {
    regex_find_all(p, text).map_values(|m: (usize, usize)| regex_range(src, m))
}

pub fn match_regex_pattern(regex: &Pattern, source: &str) -> (res: Vec<MatchRange>)
    ensures
        match_views(res@) == regex_matches(regex.spec_source(), source.spec_bytes(), source@),
{
    let ms = find_all(regex, source);
    let mut out: Vec<MatchRange> = Vec::new();
    let mut k: usize = 0;
    while k < ms.len()
        invariant
            k <= ms@.len(),
            ms@ == regex_find_all(regex.spec_source(), source@),
            forall|j: int| 0 <= j < ms@.len() ==> (#[trigger] ms@[j]).0 <= ms@[j].1 <= source.spec_bytes().len(),
            forall|j: int|
                0 <= j < ms@.len() ==> char_boundary(source.spec_bytes(), (#[trigger] ms@[j]).0 as int)
                    && char_boundary(source.spec_bytes(), ms@[j].1 as int),
            match_views(out@) == ms@.subrange(0, k as int).map_values(
                |m: (usize, usize)| regex_range(source.spec_bytes(), m),
            ),
        decreases ms@.len() - k,
    {
        let (s, e) = ms[k];
        let (line, column) = byte_offset_to_position(source, s);
        let (end_line, end_column) = byte_offset_to_position(source, e);
        let empty: Vec<(String, String)> = Vec::new();
        let r = MatchRange {
            start_byte: s,
            end_byte: e,
            line,
            column,
            end_line,
            end_column,
            snippet: get_source_line(source, s),
            bindings: empty,
        };
        assert(bview(r.bindings@) =~= Seq::<(Seq<char>, Seq<char>)>::empty());
        let ghost before = out@;
        out.push(r);
        assert(match_views(out@) =~= match_views(before).push(r@));
        assert(ms@.subrange(0, k + 1) =~= ms@.subrange(0, k as int).push(ms@[k as int]));
        k = k + 1;
    }
    assert(ms@.subrange(0, ms@.len() as int) =~= ms@);
    out
}

// ─── One result per span, ordered by span ─────────────────────────────────

pub open spec fn same_span(a: MatchView, b: MatchView) -> bool {
    a.start_byte == b.start_byte && a.end_byte == b.end_byte
}

pub open spec fn span_lt(a: MatchView, b: MatchView) -> bool {
    a.start_byte < b.start_byte || (a.start_byte == b.start_byte && a.end_byte < b.end_byte)
}

pub open spec fn has_span(r: Seq<MatchView>, x: MatchView) -> bool {
    exists|k: int| 0 <= k < r.len() && same_span(#[trigger] r[k], x)
}

/// The first position from `k` whose span comes after that of `x`.
pub open spec fn ins_pos(r: Seq<MatchView>, x: MatchView, k: int) -> int
    decreases r.len() - k,
{
    if k < 0 || k >= r.len() {
        r.len() as int
    } else if span_lt(x, r[k]) {
        k
    } else {
        ins_pos(r, x, k + 1)
    }
}

/// The first `n` results, ordered by (start, end) span with one result
/// per span: the earliest of those sharing it (sort then dedup by span).
pub open spec fn dedup_spans_upto(s: Seq<MatchView>, n: int) -> Seq<MatchView>
    decreases n,
{
    if n <= 0 {
        Seq::empty()
    } else {
        let r = dedup_spans_upto(s, n - 1);
        let x = s[n - 1];
        if has_span(r, x) {
            r
        } else {
            r.insert(ins_pos(r, x, 0), x)
        }
    }
}

pub open spec fn dedup_spans(s: Seq<MatchView>) -> Seq<MatchView> {
    dedup_spans_upto(s, s.len() as int)
}

fn sort_dedup_spans(v: &Vec<MatchRange>) -> (res: Vec<MatchRange>)
    ensures
        match_views(res@) == dedup_spans(match_views(v@)),
{
    let ghost s = match_views(v@);
    let mut out: Vec<MatchRange> = Vec::new();
    let mut i: usize = 0;
    while i < v.len()
        invariant
            i <= v@.len(),
            s == match_views(v@),
            match_views(out@) == dedup_spans_upto(s, i as int),
        decreases v@.len() - i,
    {
        let x = &v[i];
        assert(s[i as int] == x@);
        let ghost r = match_views(out@);
        let mut found = false;
        let mut k: usize = 0;
        while k < out.len()
            invariant
                k <= out@.len(),
                r == match_views(out@),
                found == (exists|j: int| 0 <= j < k && same_span(#[trigger] r[j], x@)),
            decreases out@.len() - k,
        {
            assert(r[k as int] == out@[k as int]@);
            if out[k].start_byte == x.start_byte && out[k].end_byte == x.end_byte {
                found = true;
            }
            k = k + 1;
        }
        if !found {
            let mut p: usize = 0;
            while p < out.len() && !(x.start_byte < out[p].start_byte || (x.start_byte == out[p].start_byte
                && x.end_byte < out[p].end_byte))
                invariant
                    p <= out@.len(),
                    r == match_views(out@),
                    ins_pos(r, x@, 0) == ins_pos(r, x@, p as int),
                decreases out@.len() - p,
            {
                assert(r[p as int] == out@[p as int]@);
                p = p + 1;
            }
            proof {
                if p < out@.len() {
                    assert(r[p as int] == out@[p as int]@);
                }
            }
            assert(ins_pos(r, x@, p as int) == p);
            let c = x.copy();
            let ghost before = out@;
            out.insert(p, c);
            assert(match_views(out@) =~= r.insert(p as int, x@)) by {
                before.insert_ensures(p as int, c);
                r.insert_ensures(p as int, x@);
            }
        }
        i = i + 1;
    }
    out
}

// ─── Intersecting two result sets ─────────────────────────────────────────

/// The combinations of left result `l` with the first `k` right results:
/// `l` with merged bindings wherever the spans overlap and the bindings
/// agree.
pub open spec fn combine_row(l: MatchView, right: Seq<MatchView>, k: int) -> Seq<MatchView>
    decreases k,
{
    if k <= 0 || k > right.len() {
        Seq::empty()
    } else {
        combine_row(l, right, k - 1) + (if overlap(l, right[k - 1]) {
            match merge_from(l.bindings, right[k - 1].bindings, 0) {
                Some(m) => seq![MatchView { bindings: m, ..l }],
                None => Seq::empty(),
            }
        } else {
            Seq::empty()
        })
    }
}

pub open spec fn combine_rows(left: Seq<MatchView>, right: Seq<MatchView>, k: int) -> Seq<MatchView>
    decreases k,
{
    if k <= 0 || k > left.len() {
        Seq::empty()
    } else {
        combine_rows(left, right, k - 1) + combine_row(left[k - 1], right, right.len() as int)
    }
}

/// Matches that both sets agree on, one per span, ordered by span.
pub open spec fn intersected(left: Seq<MatchView>, right: Seq<MatchView>) -> Seq<MatchView> {
    dedup_spans(combine_rows(left, right, left.len() as int))
}

pub fn intersect_match_sets(left: Vec<MatchRange>, right: Vec<MatchRange>) -> (res: Vec<MatchRange>)
    ensures
        match_views(res@) == intersected(match_views(left@), match_views(right@)),
{
    let ghost lv = match_views(left@);
    let ghost rv = match_views(right@);
    let mut merged: Vec<MatchRange> = Vec::new();
    let mut i: usize = 0;
    while i < left.len()
        invariant
            i <= left@.len(),
            lv == match_views(left@),
            rv == match_views(right@),
            match_views(merged@) == combine_rows(lv, rv, i as int),
        decreases left@.len() - i,
    {
        let l = &left[i];
        assert(lv[i as int] == l@);
        let ghost row_start = match_views(merged@);
        let mut j: usize = 0;
        while j < right.len()
            invariant
                i < left@.len(),
                j <= right@.len(),
                lv == match_views(left@),
                rv == match_views(right@),
                l@ == lv[i as int],
                match_views(merged@) == row_start + combine_row(lv[i as int], rv, j as int),
            decreases right@.len() - j,
        {
            let r = &right[j];
            assert(rv[j as int] == r@);
            let ghost before = match_views(merged@);
            if ranges_overlap(l, r) {
                match merge_bindings(&l.bindings, &r.bindings) {
                    Some(b) => {
                        let c = l.with_bindings(b);
                        merged.push(c);
                        assert(match_views(merged@) =~= before.push(c@));
                    },
                    None => {},
                }
            }
            j = j + 1;
        }
        i = i + 1;
    }
    sort_dedup_spans(&merged)
}

} // verus!

verus! {

// ─── Matchers ─────────────────────────────────────────────────────────────

/// `metavariable-regex`: the text bound to the metavariable must match.
pub struct MetavariableRegexConstraint {
    pub metavariable: String,
    pub regex: Pattern,
}

pub open spec fn constraint_holds(c: &MetavariableRegexConstraint, b: Seq<(Seq<char>, Seq<char>)>) -> bool {
    match lookup(b, c.metavariable@) {
        Some(v) => regex_is_match(c.regex.spec_source(), v),
        None => false,
    }
}

impl MetavariableRegexConstraint {
    pub fn matches(&self, bindings: &Vec<(String, String)>) -> (res: bool)
        ensures
            res == constraint_holds(self, bview(bindings@)),
    {
        let key = chars_of(self.metavariable.as_str());
        match lookup_exec(bindings, key.as_slice()) {
            Some(x) => {
                assert(bview(bindings@)[x as int] == (bindings@[x as int].0@, bindings@[x as int].1@));
                is_match(&self.regex, bindings[x].1.as_str())
            },
            None => false,
        }
    }
}

/// A clause that removes the results it overlaps.
pub enum CompiledNegative {
    Pattern(CompiledPattern),
    Regex(Pattern),
}

pub open spec fn negative_matches(n: &CompiledNegative, tsrc: Seq<u8>, t: Seq<crate::tree::NodeView>, text: Seq<char>) -> Seq<
    MatchView,
> {
    match n {
        CompiledNegative::Pattern(cp) => single_matches(tsrc, t, cp),
        CompiledNegative::Regex(re) => regex_matches(re.spec_source(), tsrc, text),
    }
}

/// The matching strategy of a compiled rule.
pub enum CompiledMatcher {
    /// One structural pattern.
    Single(CompiledPattern),
    /// A regular expression over the source text.
    Regex(Pattern),
    /// Any of these (OR).
    Either(Vec<CompiledMatcher>),
    /// All positives must match; negatives must not overlap; inside / not
    /// inside restrict where; metavariable constraints filter bindings.
    Combined {
        positives: Vec<CompiledMatcher>,
        negatives: Vec<CompiledNegative>,
        inside: Option<CompiledPattern>,
        not_inside: Option<CompiledPattern>,
        metavariable_regexes: Vec<MetavariableRegexConstraint>,
    },
}

/// `r` lies within the span of some match in `roots`.
pub open spec fn within_some(r: MatchView, roots: Seq<MatchView>) -> bool {
    exists|k: int|
        0 <= k < roots.len() && r.start_byte >= (#[trigger] roots[k]).start_byte && r.end_byte
            <= roots[k].end_byte
}

/// `r` overlaps no match of any negative clause.
pub open spec fn clear_of(r: MatchView, negs: Seq<Seq<MatchView>>) -> bool {
    forall|k: int, j: int| 0 <= k < negs.len() && 0 <= j < negs[k].len() ==> !overlap(r, #[trigger] negs[k][j])
}

/// Whether a candidate survives the filters of a combined matcher.
pub open spec fn survives(
    r: MatchView,
    negs: Seq<Seq<MatchView>>,
    roots: Seq<MatchView>,
    excluded: Seq<MatchView>,
    constraints: Seq<MetavariableRegexConstraint>,
) -> bool {
    &&& clear_of(r, negs)
    &&& (roots.len() == 0 || within_some(r, roots))
    &&& (excluded.len() == 0 || !within_some(r, excluded))
    &&& forall|k: int| 0 <= k < constraints.len() ==> constraint_holds(&#[trigger] constraints[k], r.bindings)
}

/// The candidates among the first `k` that survive, in order.
pub open spec fn surviving(
    cands: Seq<MatchView>,
    k: int,
    negs: Seq<Seq<MatchView>>,
    roots: Seq<MatchView>,
    excluded: Seq<MatchView>,
    constraints: Seq<MetavariableRegexConstraint>,
) -> Seq<MatchView>
    decreases k,
{
    if k <= 0 || k > cands.len() {
        Seq::empty()
    } else {
        surviving(cands, k - 1, negs, roots, excluded, constraints) + (if survives(
            cands[k - 1],
            negs,
            roots,
            excluded,
            constraints,
        ) {
            seq![cands[k - 1]]
        } else {
            Seq::empty()
        })
    }
}

/// The results of a matcher on the target.
pub open spec fn matcher_results(
    m: CompiledMatcher,
    tsrc: Seq<u8>,
    t: Seq<crate::tree::NodeView>,
    text: Seq<char>,
) -> Seq<MatchView>
    decreases m, 0int,
{
    match m {
        CompiledMatcher::Single(cp) => single_matches(tsrc, t, &cp),
        CompiledMatcher::Regex(re) => regex_matches(re.spec_source(), tsrc, text),
        CompiledMatcher::Either(ms) => dedup_spans(either_results(ms@, ms@.len() as int, tsrc, t, text)),
        CompiledMatcher::Combined { positives, negatives, inside, not_inside, metavariable_regexes } => {
            let cands = match positive_results(positives@, positives@.len() as int, tsrc, t, text) {
                Some(c) => c,
                None => Seq::empty(),
            };
            let negs = negatives@.map_values(|n: CompiledNegative| negative_matches(&n, tsrc, t, text));
            let roots = match inside {
                Some(cp) => single_matches(tsrc, t, &cp),
                None => Seq::empty(),
            };
            let excluded = match not_inside {
                Some(cp) => single_matches(tsrc, t, &cp),
                None => Seq::empty(),
            };
            surviving(cands, cands.len() as int, negs, roots, excluded, metavariable_regexes@)
        },
    }
}

/// The results of the first `k` alternatives, one after another.
pub open spec fn either_results(
    ms: Seq<CompiledMatcher>,
    k: int,
    tsrc: Seq<u8>,
    t: Seq<crate::tree::NodeView>,
    text: Seq<char>,
) -> Seq<MatchView>
    decreases ms, k,
{
    if k <= 0 || k > ms.len() {
        Seq::empty()
    } else {
        either_results(ms, k - 1, tsrc, t, text) + matcher_results(ms[k - 1], tsrc, t, text)
    }
}

/// The results of the first `k` positives, intersected; `None` with none.
pub open spec fn positive_results(
    ps: Seq<CompiledMatcher>,
    k: int,
    tsrc: Seq<u8>,
    t: Seq<crate::tree::NodeView>,
    text: Seq<char>,
) -> Option<Seq<MatchView>>
    decreases ps, k,
{
    if k <= 0 || k > ps.len() {
        None
    } else {
        let next = matcher_results(ps[k - 1], tsrc, t, text);
        match positive_results(ps, k - 1, tsrc, t, text) {
            None => Some(next),
            Some(prev) => Some(intersected(prev, next)),
        }
    }
}

} // verus!

verus! {

fn negative_matches_exec(n: &CompiledNegative, t: &SyntaxTree, source: &str) -> (res: Vec<MatchRange>)
    ensures
        match_views(res@) == negative_matches(n, source.spec_bytes(), t@, source@),
{
    match n {
        CompiledNegative::Pattern(cp) => cp.matches(t, source),
        CompiledNegative::Regex(re) => match_regex_pattern(re, source),
    }
}

/// All results of a matcher on the target.
pub fn match_pattern_in_tree(m: &CompiledMatcher, t: &SyntaxTree, source: &str) -> (res: Vec<MatchRange>)
    ensures
        match_views(res@) == matcher_results(*m, source.spec_bytes(), t@, source@),
    decreases m,
{
    match m {
        CompiledMatcher::Single(cp) => cp.matches(t, source),
        CompiledMatcher::Regex(re) => match_regex_pattern(re, source),
        CompiledMatcher::Either(ms) => {
            let ghost tsrc = source.spec_bytes();
            let mut results: Vec<MatchRange> = Vec::new();
            let mut k: usize = 0;
            while k < ms.len()
                invariant
                    k <= ms@.len(),
                    *m == CompiledMatcher::Either(*ms),
                    tsrc == source.spec_bytes(),
                    match_views(results@) == either_results(ms@, k as int, tsrc, t@, source@),
                decreases ms@.len() - k,
            {
                assert(decreases_to!(*m => (*m)->Either_0));
                assert((*m)->Either_0 == *ms);
                assert(decreases_to!(*ms => ms@));
                assert(decreases_to!(ms@ => ms@[k as int]));
                let mut more = match_pattern_in_tree(&ms[k], t, source);
                let ghost before = match_views(results@);
                let ghost extra = match_views(more@);
                results.append(&mut more);
                assert(match_views(results@) =~= before + extra);
                k = k + 1;
            }
            let r = sort_dedup_spans(&results);
            assert(match_views(r@) == matcher_results(*m, source.spec_bytes(), t@, source@));
            r
        },
        CompiledMatcher::Combined { positives, negatives, inside, not_inside, metavariable_regexes } => {
            let ghost tsrc = source.spec_bytes();
            let roots: Vec<MatchRange> = match inside {
                Some(cp) => cp.matches(t, source),
                None => Vec::new(),
            };
            let excluded: Vec<MatchRange> = match not_inside {
                Some(cp) => cp.matches(t, source),
                None => Vec::new(),
            };
            let mut cands: Option<Vec<MatchRange>> = None;
            let mut k: usize = 0;
            while k < positives.len()
                invariant
                    k <= positives@.len(),
                    *m == (CompiledMatcher::Combined {
                        positives: *positives,
                        negatives: *negatives,
                        inside: *inside,
                        not_inside: *not_inside,
                        metavariable_regexes: *metavariable_regexes,
                    }),
                    tsrc == source.spec_bytes(),
                    match cands {
                        Some(c) => positive_results(positives@, k as int, tsrc, t@, source@) == Some(
                            match_views(c@),
                        ),
                        None => positive_results(positives@, k as int, tsrc, t@, source@) is None,
                    },
                decreases positives@.len() - k,
            {
                assert(decreases_to!(*m => (*m)->positives));
                assert((*m)->positives == *positives);
                assert(decreases_to!(*positives => positives@));
                assert(decreases_to!(positives@ => positives@[k as int]));
                let next = match_pattern_in_tree(&positives[k], t, source);
                cands = match cands {
                    None => Some(next),
                    Some(prev) => Some(intersect_match_sets(prev, next)),
                };
                k = k + 1;
            }
            let cands = match cands {
                Some(c) => c,
                None => Vec::new(),
            };
            let ghost cv = match_views(cands@);
            let mut negs: Vec<Vec<MatchRange>> = Vec::new();
            let mut j: usize = 0;
            while j < negatives.len()
                invariant
                    j <= negatives@.len(),
                    negs@.len() == j,
                    forall|x: int|
                        0 <= x < j ==> match_views((#[trigger] negs@[x])@) == negative_matches(
                            &negatives@[x],
                            source.spec_bytes(),
                            t@,
                            source@,
                        ),
                decreases negatives@.len() - j,
            {
                negs.push(negative_matches_exec(&negatives[j], t, source));
                j = j + 1;
            }
            let ghost nv = negatives@.map_values(|n: CompiledNegative| negative_matches(&n, tsrc, t@, source@));
            let ghost rv = match_views(roots@);
            let ghost ev = match_views(excluded@);
            let mut out: Vec<MatchRange> = Vec::new();
            let mut i: usize = 0;
            while i < cands.len()
                invariant
                    i <= cands@.len(),
                    cv == match_views(cands@),
                    tsrc == source.spec_bytes(),
                    negs@.len() == negatives@.len(),
                    nv == negatives@.map_values(|n: CompiledNegative| negative_matches(&n, tsrc, t@, source@)),
                    forall|x: int|
                        0 <= x < negs@.len() ==> match_views((#[trigger] negs@[x])@) == nv[x],
                    rv == match_views(roots@),
                    ev == match_views(excluded@),
                    match_views(out@) == surviving(cv, i as int, nv, rv, ev, metavariable_regexes@),
                decreases cands@.len() - i,
            {
                let r = &cands[i];
                assert(cv[i as int] == r@);
                let keep = survives_exec(r, &negs, &roots, &excluded, metavariable_regexes);
                assert(negs@.map_values(|v: Vec<MatchRange>| match_views(v@)) =~= nv);
                assert(keep == survives(r@, nv, rv, ev, metavariable_regexes@));
                let ghost before = match_views(out@);
                if keep {
                    let c = r.copy();
                    out.push(c);
                    assert(match_views(out@) =~= before.push(c@));
                } else {
                    assert(match_views(out@) =~= before);
                }
                i = i + 1;
            }
            assert(cv == match (positive_results(positives@, positives@.len() as int, tsrc, t@, source@)) {
                Some(c) => c,
                None => Seq::empty(),
            });
            assert(nv == negatives@.map_values(|n: CompiledNegative| negative_matches(&n, tsrc, t@, source@)));
            assert(rv == match inside {
                Some(cp) => single_matches(tsrc, t@, cp),
                None => Seq::empty(),
            });
            assert(ev == match not_inside {
                Some(cp) => single_matches(tsrc, t@, cp),
                None => Seq::empty(),
            });
            assert(match_views(out@) == matcher_results(*m, source.spec_bytes(), t@, source@));
            out
        },
    }
}

fn within_some_exec(r: &MatchRange, roots: &Vec<MatchRange>) -> (res: bool)
    ensures
        res == within_some(r@, match_views(roots@)),
{
    let ghost rv = match_views(roots@);
    let mut k: usize = 0;
    while k < roots.len()
        invariant
            k <= roots@.len(),
            rv == match_views(roots@),
            forall|j: int|
                0 <= j < k ==> !(r@.start_byte >= (#[trigger] rv[j]).start_byte && r@.end_byte <= rv[j].end_byte),
        decreases roots@.len() - k,
    {
        assert(rv[k as int] == roots@[k as int]@);
        if r.start_byte >= roots[k].start_byte && r.end_byte <= roots[k].end_byte {
            return true;
        }
        k = k + 1;
    }
    false
}

fn survives_exec(
    r: &MatchRange,
    negs: &Vec<Vec<MatchRange>>,
    roots: &Vec<MatchRange>,
    excluded: &Vec<MatchRange>,
    constraints: &Vec<MetavariableRegexConstraint>,
) -> (res: bool)
    ensures
        res == survives(
            r@,
            negs@.map_values(|v: Vec<MatchRange>| match_views(v@)),
            match_views(roots@),
            match_views(excluded@),
            constraints@,
        ),
{
    let ghost nv = negs@.map_values(|v: Vec<MatchRange>| match_views(v@));
    let mut k: usize = 0;
    while k < negs.len()
        invariant
            k <= negs@.len(),
            nv == negs@.map_values(|v: Vec<MatchRange>| match_views(v@)),
            forall|a: int, b: int| 0 <= a < k && 0 <= b < nv[a].len() ==> !overlap(r@, #[trigger] nv[a][b]),
        decreases negs@.len() - k,
    {
        let n = &negs[k];
        assert(nv[k as int] == match_views(n@));
        let mut j: usize = 0;
        while j < n.len()
            invariant
                k < negs@.len(),
                j <= n@.len(),
                nv == negs@.map_values(|v: Vec<MatchRange>| match_views(v@)),
                nv[k as int] == match_views(n@),
                forall|b: int| 0 <= b < j ==> !overlap(r@, #[trigger] nv[k as int][b]),
            decreases n@.len() - j,
        {
            assert(nv[k as int][j as int] == n@[j as int]@);
            if ranges_overlap(r, &n[j]) {
                assert(overlap(r@, nv[k as int][j as int]));
                assert(!clear_of(r@, nv));
                return false;
            }
            j = j + 1;
        }
        k = k + 1;
    }
    if roots.len() > 0 && !within_some_exec(r, roots) {
        return false;
    }
    if excluded.len() > 0 && within_some_exec(r, excluded) {
        return false;
    }
    let mut c: usize = 0;
    while c < constraints.len()
        invariant
            c <= constraints@.len(),
            forall|x: int| 0 <= x < c ==> constraint_holds(&#[trigger] constraints@[x], r@.bindings),
        decreases constraints@.len() - c,
    {
        if !constraints[c].matches(&r.bindings) {
            return false;
        }
        c = c + 1;
    }
    true
}

} // verus!

verus! {

// ─── Laws ─────────────────────────────────────────────────────────────────

/// Results strictly ascending by (start, end) span: ordered, and no two
/// with the same span.
pub open spec fn spans_ascending(r: Seq<MatchView>) -> bool {
    forall|i: int, j: int| 0 <= i < j < r.len() ==> span_lt(#[trigger] r[i], #[trigger] r[j])
}

proof fn lemma_ins_pos(r: Seq<MatchView>, x: MatchView, k: int)
    requires
        spans_ascending(r),
        !has_span(r, x),
        0 <= k <= r.len(),
        forall|m: int| 0 <= m < k ==> span_lt(#[trigger] r[m], x),
    ensures
        k <= ins_pos(r, x, k) <= r.len(),
        forall|m: int| 0 <= m < ins_pos(r, x, k) ==> span_lt(#[trigger] r[m], x),
        forall|m: int| ins_pos(r, x, k) <= m < r.len() ==> span_lt(x, #[trigger] r[m]),
    decreases r.len() - k,
{
    if k < r.len() {
        if span_lt(x, r[k]) {
            assert forall|m: int| k <= m < r.len() implies span_lt(x, #[trigger] r[m]) by {
                if m > k {
                    assert(span_lt(r[k], r[m]));
                }
            }
        } else {
            assert(!same_span(r[k], x));
            lemma_ins_pos(r, x, k + 1);
        }
    }
}

proof fn lemma_dedup_ascending(s: Seq<MatchView>, n: int)
    ensures
        spans_ascending(dedup_spans_upto(s, n)),
    decreases n,
{
    if n > 0 {
        lemma_dedup_ascending(s, n - 1);
        let r = dedup_spans_upto(s, n - 1);
        let x = s[n - 1];
        if !has_span(r, x) {
            lemma_ins_pos(r, x, 0);
            let p = ins_pos(r, x, 0);
            let r2 = r.insert(p, x);
            assert forall|i: int, j: int| 0 <= i < j < r2.len() implies span_lt(#[trigger] r2[i], #[trigger] r2[j]) by {
                if j < p {
                    assert(r2[i] == r[i] && r2[j] == r[j]);
                } else if j == p {
                    assert(r2[i] == r[i] && r2[j] == x);
                } else if i == p {
                    assert(r2[i] == x && r2[j] == r[j - 1]);
                } else if i < p {
                    assert(r2[i] == r[i] && r2[j] == r[j - 1]);
                } else {
                    assert(r2[i] == r[i - 1] && r2[j] == r[j - 1]);
                }
            }
        }
    }
}

/// `pattern-either` reports one result per span, in span order: its
/// results are strictly ascending by (start, end) byte span.
pub proof fn law_either_results_ordered(ms: Vec<CompiledMatcher>, tsrc: Seq<u8>, t: Seq<crate::tree::NodeView>, text: Seq<char>)
    ensures
        spans_ascending(matcher_results(CompiledMatcher::Either(ms), tsrc, t, text)),
{
    let all = either_results(ms@, ms@.len() as int, tsrc, t, text);
    lemma_dedup_ascending(all, all.len() as int);
}

} // verus!
