//! The decisions the file scanner makes about each file and each finding:
//! which language a path holds, which paths and sources are skipped, which
//! findings inline `foxguard: ignore` comments suppress, and the order in
//! which findings are reported. Walking directories, reading files and
//! running rules in parallel belong to the program around the library.

use vstd::prelude::*;
use std::collections::HashMap;
use vstd::string::*;
use crate::text::{
    after_last, after_last_char, chars_of, contains_seq, contains_str, last_index, rfind_char,
    starts_with_seq, starts_with_str, string_of_chars, sub_chars, trim_chars, trim_set, TrimSet,
};
use crate::rules::common::{newlines_before, newlines_exec};
use crate::text::chars_eq_str as eq;
use crate::text::{split_on, split_pieces};
use crate::rules::semgrep_compat::kept_segments;
use crate::types::{finding_views, Finding, FindingView, Language};

verus! {

// ─── Languages and paths ──────────────────────────────────────────────────

/// The final component of a `/`-separated path (`Path::file_name`): the
/// last segment that is neither empty nor `.`, unless that segment is `..`;
/// the empty text when there is none.
pub open spec fn file_name_of(path: Seq<char>) -> Seq<char> {
    let pieces = split_on(path, '/');
    let kept = kept_segments(pieces, 0, pieces.len() as int);
    if kept.len() > 0 && kept.last() != ".."@ {
        kept.last()
    } else {
        Seq::empty()
    }
}

/// The file name of a path, as `file_name_of` states it.
fn file_name_exec(p: &[char]) -> (res: Vec<char>)
    ensures
        res@ == file_name_of(p@),
{
    let pieces = split_pieces(p, '/');
    let ghost pv = pieces@.map_values(|v: Vec<char>| v@);
    let mut last: Option<usize> = None;
    let mut k: usize = 0;
    while k < pieces.len()
        invariant
            k <= pieces@.len(),
            pv == pieces@.map_values(|v: Vec<char>| v@),
            match last {
                None => kept_segments(pv, 0, k as int).len() == 0,
                Some(i) => i < k && kept_segments(pv, 0, k as int).len() > 0 && kept_segments(
                    pv,
                    0,
                    k as int,
                ).last() == pv[i as int],
            },
        decreases pieces@.len() - k,
    {
        assert(pv[k as int] == pieces@[k as int]@);
        if pieces[k].len() > 0 && !eq(pieces[k].as_slice(), ".") {
            last = Some(k);
        }
        k = k + 1;
    }
    assert(pv.len() == split_on(p@, '/').len());
    match last {
        Some(i) => {
            assert(pv[i as int] == pieces@[i as int]@);
            if eq(pieces[i].as_slice(), "..") {
                Vec::new()
            } else {
                let n = pieces[i].len();
                let r = sub_chars(pieces[i].as_slice(), 0, n);
                assert(r@ =~= pieces@[i as int]@);
                r
            }
        },
        None => Vec::new(),
    }
}

/// The extension of the file name (`Path::extension`): what follows its
/// last `.`, unless that `.` is the name's first character or absent.
pub open spec fn extension_of(path: Seq<char>) -> Option<Seq<char>> {
    let name = file_name_of(path);
    if last_index(name, '.') > 0 {
        Some(after_last(name, '.'))
    } else {
        None
    }
}

pub open spec fn language_for_extension(ext: Seq<char>) -> Option<Language> {
    if ext == "js"@ || ext == "jsx"@ || ext == "ts"@ || ext == "tsx"@ || ext == "mjs"@ || ext
        == "cjs"@ {
        Some(Language::JavaScript)
    } else if ext == "py"@ || ext == "pyw"@ {
        Some(Language::Python)
    } else if ext == "go"@ {
        Some(Language::Go)
    } else if ext == "rb"@ || ext == "rake"@ || ext == "gemspec"@ {
        Some(Language::Ruby)
    } else if ext == "java"@ {
        Some(Language::Java)
    } else if ext == "php"@ {
        Some(Language::Php)
    } else if ext == "rs"@ {
        Some(Language::Rust)
    } else if ext == "cs"@ {
        Some(Language::CSharp)
    } else if ext == "swift"@ {
        Some(Language::Swift)
    } else {
        None
    }
}

pub open spec fn language_of_path(path: Seq<char>) -> Option<Language> {
    match extension_of(path) {
        Some(e) => language_for_extension(e),
        None => None,
    }
}

fn language_for_extension_exec(ext: &[char]) -> (res: Option<Language>)
    ensures
        res == language_for_extension(ext@),
{
    if eq(ext, "js") || eq(ext, "jsx") || eq(ext, "ts") || eq(ext, "tsx") || eq(ext, "mjs") || eq(
        ext,
        "cjs",
    ) {
        Some(Language::JavaScript)
    } else if eq(ext, "py") || eq(ext, "pyw") {
        Some(Language::Python)
    } else if eq(ext, "go") {
        Some(Language::Go)
    } else if eq(ext, "rb") || eq(ext, "rake") || eq(ext, "gemspec") {
        Some(Language::Ruby)
    } else if eq(ext, "java") {
        Some(Language::Java)
    } else if eq(ext, "php") {
        Some(Language::Php)
    } else if eq(ext, "rs") {
        Some(Language::Rust)
    } else if eq(ext, "cs") {
        Some(Language::CSharp)
    } else if eq(ext, "swift") {
        Some(Language::Swift)
    } else {
        None
    }
}

/// Detect the language of a file from the extension of its path.
pub fn detect_language(path: &str) -> (res: Option<Language>)
    ensures
        res == language_of_path(path@),
{
    let p = chars_of(path);
    let name = file_name_exec(p.as_slice());
    match rfind_char(name.as_slice(), '.') {
        Some(d) => {
            if d == 0 {
                None
            } else {
                let n = name.len();
                let ext = sub_chars(name.as_slice(), d + 1, n);
                language_for_extension_exec(ext.as_slice())
            }
        },
        None => None,
    }
}

/// Directories that typically hold test fixtures, vendored code or
/// generated assets.
pub open spec fn noise_dirs() -> Seq<Seq<char>> {
    seq![
        "/vendor/"@,
        "/node_modules/"@,
        "/__fixtures__/"@,
        "/__mocks__/"@,
        "/dist/"@,
        "/build/"@,
        "/.next/"@,
        "/coverage/"@,
        "/.cache/"@,
    ]
}

/// A path is noise when it runs through one of the noise directories or
/// its file name is a minified bundle (`.min.` in the name).
pub open spec fn noise_path(path: Seq<char>) -> bool {
    (exists|k: int| 0 <= k < noise_dirs().len() && contains_seq(path, #[trigger] noise_dirs()[k]))
        || contains_seq(file_name_of(path), ".min."@)
}

/// Check whether a file path lies in a directory that typically contains
/// test fixtures, vendored code or generated assets.
pub fn is_noise_path(path: &str) -> (res: bool)
    ensures
        res == noise_path(path@),
{
    let p = chars_of(path);
    let dirs: [&str; 9] = [
        "/vendor/",
        "/node_modules/",
        "/__fixtures__/",
        "/__mocks__/",
        "/dist/",
        "/build/",
        "/.next/",
        "/coverage/",
        "/.cache/",
    ];
    proof {
        reveal_strlit("/vendor/");
    }
    assert(dirs@.map_values(|d: &str| d@) =~= noise_dirs());
    let mut k: usize = 0;
    while k < 9
        invariant
            k <= 9,
            dirs@.map_values(|d: &str| d@) == noise_dirs(),
            p@ == path@,
            forall|j: int| 0 <= j < k ==> !contains_seq(path@, #[trigger] noise_dirs()[j]),
        decreases 9 - k,
    {
        assert(dirs@.map_values(|d: &str| d@)[k as int] == dirs[k as int]@);
        if contains_str(p.as_slice(), dirs[k]) {
            return true;
        }
        k = k + 1;
    }
    let name = file_name_exec(p.as_slice());
    contains_str(name.as_slice(), ".min.")
}

// ─── Minified sources ─────────────────────────────────────────────────────

/// Index of the first `\n` byte, if any.
pub open spec fn first_newline(b: Seq<u8>) -> Option<int> {
    if exists|i: int| 0 <= i < b.len() && b[i] == 10u8 {
        Some(choose|i: int| 0 <= i < b.len() && b[i] == 10u8 && forall|j: int| 0 <= j < i ==> b[j] != 10u8)
    } else {
        None
    }
}

/// The number of characters before the first line break (all of them
/// when there is none).
pub open spec fn first_line_len(s: Seq<char>) -> int {
    if exists|i: int| 0 <= i < s.len() && s[i] == '\n' {
        choose|i: int| 0 <= i < s.len() && s[i] == '\n' && forall|j: int| 0 <= j < i ==> s[j] != '\n'
    } else {
        s.len() as int
    }
}

/// Very long lines suggest bundled or compiled code: a source whose first
/// line is longer than 1000 characters, whatever its size, or one that
/// `minified_by_size` flags.
pub open spec fn minified(s: Seq<char>, b: Seq<u8>) -> bool {
    first_line_len(s) > 1000 || minified_by_size(b)
}

/// A source of at least 2000 bytes whose first line runs past byte 1000,
/// which has no line break at all (and more than 2000 bytes), or whose
/// lines average more than 300 bytes.
pub open spec fn minified_by_size(b: Seq<u8>) -> bool {
    if b.len() < 2000 {
        false
    } else {
        match first_newline(b) {
            Some(i) => if i > 1000 {
                true
            } else {
                let lines = newlines_before(b, b.len() as int);
                b.len() / (if lines < 1 { 1 } else { lines }) > 300
            },
            None => b.len() > 2000,
        }
    }
}

/// Detect minified files: very long lines suggest bundled/compiled code.
pub fn is_minified(source: &str) -> (res: bool)
    ensures
        res == minified(source@, source.spec_bytes()),
{
    let c = chars_of(source);
    let mut i: usize = 0;
    while i < c.len() && c[i] != '\n'
        invariant
            i <= c@.len(),
            c@ == source@,
            forall|j: int| 0 <= j < i ==> c@[j] != '\n',
        decreases c@.len() - i,
    {
        i = i + 1;
    }
    proof {
        if i < c@.len() {
            let w = choose|j: int| 0 <= j < c@.len() && c@[j] == '\n' && forall|m: int| 0 <= m < j ==> c@[m] != '\n';
            assert(c@[i as int] == '\n');
            assert(w == i) by {
                if w < i {
                } else if w > i {
                    assert(c@[i as int] != '\n');
                }
            }
        }
    }
    if i > 1000 {
        return true;
    }
    is_minified_by_size(source)
}

fn is_minified_by_size(source: &str) -> (res: bool)
    ensures
        res == minified_by_size(source.spec_bytes()),
{
    let b = source.as_bytes();
    let n = b.len();
    if n < 2000 {
        return false;
    }
    let mut i: usize = 0;
    while i < n && b[i] != 10u8
        invariant
            i <= n == b@.len(),
            forall|j: int| 0 <= j < i ==> b@[j] != 10u8,
        decreases n - i,
    {
        i = i + 1;
    }
    if i == n {
        assert(!(exists|j: int| 0 <= j < b@.len() && b@[j] == 10u8));
        return n > 2000;
    }
    assert(b@[i as int] == 10u8);
    let ghost w = choose|j: int| 0 <= j < b@.len() && b@[j] == 10u8 && forall|m: int| 0 <= m < j ==> b@[m] != 10u8;
    assert(w == i) by {
        assert(0 <= w < b@.len() && b@[w] == 10u8);
        if w < i {
        } else if w > i {
            assert(b@[i as int] != 10u8);
        }
    }
    if i > 1000 {
        return true;
    }
    let lines = newlines_exec(b, n);
    let lines = if lines < 1 {
        1
    } else {
        lines
    };
    n / lines > 300
}

} // verus!

verus! {

// ─── Comments ─────────────────────────────────────────────────────────────

/// The line-comment markers of each language.
pub open spec fn markers_of(language: Language) -> Seq<Seq<char>> {
    match language {
        Language::Python | Language::Ruby => seq!["#"@],
        Language::Php => seq!["//"@, "#"@],
        _ => seq!["//"@],
    }
}

pub fn comment_markers(language: Language) -> (res: Vec<&'static str>)
    ensures
        res@.map_values(|m: &'static str| m@) == markers_of(language),
        forall|k: int| 0 <= k < res@.len() ==> (#[trigger] res@[k])@.len() > 0,
{
    let mut v: Vec<&'static str> = Vec::new();
    proof {
        reveal_strlit("#");
        reveal_strlit("//");
    }
    match language {
        Language::Python | Language::Ruby => {
            v.push("#");
        },
        Language::Php => {
            v.push("//");
            v.push("#");
        },
        _ => {
            v.push("//");
        },
    }
    assert(v@.map_values(|m: &'static str| m@) =~= markers_of(language));
    v
}

/// The trimmed line starts with one of the language's comment markers.
pub open spec fn comment_only(trimmed: Seq<char>, language: Language) -> bool {
    exists|k: int|
        0 <= k < markers_of(language).len() && starts_with_seq(trimmed, #[trigger] markers_of(language)[k])
}

pub fn is_comment_only_line(trimmed_line: &str, language: Language) -> (res: bool)
    ensures
        res == comment_only(trimmed_line@, language),
{
    let t = chars_of(trimmed_line);
    let ms = comment_markers(language);
    let mut k: usize = 0;
    while k < ms.len()
        invariant
            k <= ms@.len(),
            t@ == trimmed_line@,
            ms@.map_values(|m: &'static str| m@) == markers_of(language),
            forall|j: int| 0 <= j < k ==> !starts_with_seq(trimmed_line@, #[trigger] markers_of(language)[j]),
        decreases ms@.len() - k,
    {
        assert(ms@.map_values(|m: &'static str| m@)[k as int] == ms[k as int]@);
        if starts_with_str(t.as_slice(), ms[k]) {
            return true;
        }
        k = k + 1;
    }
    false
}

// ─── Lines ────────────────────────────────────────────────────────────────

pub open spec fn strip_cr(x: Seq<char>) -> Seq<char> {
    if x.len() > 0 && x.last() == '\r' {
        x.drop_last()
    } else {
        x
    }
}

/// The lines of `s` from the line that starts at `from`, scanning at `i`.
pub open spec fn lines_from(s: Seq<char>, from: int, i: int) -> Seq<Seq<char>>
    decreases s.len() - i,
{
    if i >= s.len() {
        if from < s.len() {
            seq![s.subrange(from, s.len() as int)]
        } else {
            Seq::empty()
        }
    } else if s[i] == '\n' {
        seq![strip_cr(s.subrange(from, i))] + lines_from(s, i + 1, i + 1)
    } else {
        lines_from(s, from, i + 1)
    }
}

/// `str::lines`: split at `\n`, drop a `\r` before each `\n`, and no empty
/// last line after a final line break.
pub open spec fn lines_of(s: Seq<char>) -> Seq<Seq<char>> {
    lines_from(s, 0, 0)
}

pub fn source_lines(source: &str) -> (res: Vec<Vec<char>>)
    ensures
        res@.map_values(|l: Vec<char>| l@) == lines_of(source@),
{
    let s = chars_of(source);
    let n = s.len();
    let mut out: Vec<Vec<char>> = Vec::new();
    let mut from: usize = 0;
    let mut i: usize = 0;
    while i < n
        invariant
            s@ == source@,
            n == s@.len(),
            from <= i <= n,
            out@.map_values(|l: Vec<char>| l@) + lines_from(s@, from as int, i as int) == lines_of(
                source@,
            ),
        decreases n - i,
    {
        if s[i] == '\n' {
            let mut piece = sub_chars(s.as_slice(), from, i);
            if piece.len() > 0 && piece[piece.len() - 1] == '\r' {
                piece.pop();
            }
            let ghost before = out@;
            assert(piece@ == strip_cr(s@.subrange(from as int, i as int)));
            out.push(piece);
            assert(out@.map_values(|l: Vec<char>| l@) =~= before.map_values(|l: Vec<char>| l@).push(
                piece@,
            ));
            assert(out@.map_values(|l: Vec<char>| l@) + lines_from(s@, i + 1, i + 1) =~= before.map_values(
                |l: Vec<char>| l@,
            ) + lines_from(s@, from as int, i as int));
            from = i + 1;
        }
        i = i + 1;
    }
    if from < n {
        let piece = sub_chars(s.as_slice(), from, n);
        let ghost before = out@;
        out.push(piece);
        assert(out@.map_values(|l: Vec<char>| l@) =~= before.map_values(|l: Vec<char>| l@).push(
            piece@,
        ));
    } else {
        assert(out@.map_values(|l: Vec<char>| l@) =~= out@.map_values(|l: Vec<char>| l@)
            + lines_from(s@, from as int, i as int));
    }
    out
}

/// The first line at index `k` or later that holds code (neither blank nor
/// comment-only), one-based.
pub open spec fn code_line_from(lines: Seq<Seq<char>>, k: int, language: Language) -> Option<nat>
    decreases lines.len() - k,
{
    if k < 0 || k >= lines.len() {
        None
    } else {
        let t = trim_set(lines[k], TrimSet::Whitespace);
        if t.len() == 0 || comment_only(t, language) {
            code_line_from(lines, k + 1, language)
        } else {
            Some((k + 1) as nat)
        }
    }
}

/// The one-based number of the first code line after line `line_number`.
pub fn next_code_line(lines: &[Vec<char>], line_number: usize, language: Language) -> (res: Option<
    usize,
>)
    ensures
        match res {
            Some(n) => code_line_from(lines@.map_values(|l: Vec<char>| l@), line_number as int, language)
                == Some(n as nat),
            None => code_line_from(lines@.map_values(|l: Vec<char>| l@), line_number as int, language)
                is None,
        },
{
    let ghost ls = lines@.map_values(|l: Vec<char>| l@);
    let mut k: usize = line_number;
    while k < lines.len()
        invariant
            ls == lines@.map_values(|l: Vec<char>| l@),
            line_number <= k,
            code_line_from(ls, line_number as int, language) == code_line_from(ls, k as int, language),
        decreases lines@.len() - k,
    {
        let t = trim_chars(lines[k].as_slice(), TrimSet::Whitespace);
        assert(ls[k as int] == lines@[k as int]@);
        if t.len() == 0 || is_comment_only_line(string_of_chars(t.as_slice()).as_str(), language) {
            k = k + 1;
        } else {
            return Some(k + 1);
        }
    }
    None
}

} // verus!

verus! {

// ─── Inline ignore directives ─────────────────────────────────────────────

/// The rules one `foxguard: ignore` comment suppresses: all of them, or
/// those named.
pub struct InlineIgnoreSpec {
    pub all_rules: bool,
    pub rule_ids: Vec<String>,
}

pub struct IgnoreView {
    pub all_rules: bool,
    pub rule_ids: Seq<Seq<char>>,
}

impl View for InlineIgnoreSpec {
    type V = IgnoreView;

    open spec fn view(&self) -> IgnoreView {
        IgnoreView {
            all_rules: self.all_rules,
            rule_ids: self.rule_ids@.map_values(|s: String| s@),
        }
    }
}

pub open spec fn ignore_matches(v: IgnoreView, rule_id: Seq<char>) -> bool {
    v.all_rules || v.rule_ids.contains(rule_id)
}

impl Default for InlineIgnoreSpec {
    fn default() -> (res: Self)
        ensures
            res@.all_rules == false,
            res@.rule_ids.len() == 0,
    {
        InlineIgnoreSpec { all_rules: false, rule_ids: Vec::new() }
    }
}

impl InlineIgnoreSpec {
    /// Whether this directive suppresses the rule.
    pub fn matches(&self, rule_id: &str) -> (res: bool)
        ensures
            res == ignore_matches(self@, rule_id@),
    {
        if self.all_rules {
            return true;
        }
        let mut k: usize = 0;
        while k < self.rule_ids.len()
            invariant
                k <= self.rule_ids@.len(),
                forall|j: int| 0 <= j < k ==> self@.rule_ids[j] != rule_id@,
            decreases self.rule_ids@.len() - k,
        {
            if crate::text::str_eq(self.rule_ids[k].as_str(), rule_id) {
                assert(self@.rule_ids[k as int] == rule_id@);
                return true;
            }
            k = k + 1;
        }
        false
    }

    /// Combine two directives that target the same line.
    pub fn merge(&mut self, other: Self)
        ensures
            final(self)@.all_rules == (old(self)@.all_rules || other@.all_rules),
            final(self)@.rule_ids == old(self)@.rule_ids + other@.rule_ids,
    {
        self.all_rules = self.all_rules || other.all_rules;
        let mut ids = other.rule_ids;
        let ghost before = self.rule_ids@;
        let ghost theirs = ids@;
        self.rule_ids.append(&mut ids);
        assert(self.rule_ids@ == before + theirs);
        assert(self@.rule_ids =~= before.map_values(|s: String| s@) + theirs.map_values(
            |s: String| s@,
        ));
    }
}

/// The start of each non-overlapping occurrence of `t` in `s`, scanning
/// left to right from `pos`.
pub open spec fn occurrences_from(s: Seq<char>, t: Seq<char>, pos: int) -> Seq<int>
    decreases s.len() - pos,
{
    if t.len() == 0 || pos < 0 || pos + t.len() > s.len() {
        Seq::empty()
    } else if crate::text::occurs_at(s, t, pos) {
        seq![pos] + occurrences_from(s, t, pos + t.len())
    } else {
        occurrences_from(s, t, pos + 1)
    }
}

fn marker_positions(s: &[char], t: &[char]) -> (res: Vec<(usize, usize)>)
    requires
        t@.len() > 0,
    ensures
        res@.map_values(|p: (usize, usize)| p.0 as int) == occurrences_from(s@, t@, 0),
        forall|k: int| 0 <= k < res@.len() ==> (#[trigger] res@[k]).1 == t@.len(),
        forall|k: int| 0 <= k < res@.len() ==> (#[trigger] res@[k]).0 + t@.len() <= s@.len(),
{
    let mut out: Vec<(usize, usize)> = Vec::new();
    let mut pos: usize = 0;
    while pos < s.len() && t.len() <= s.len() - pos
        invariant
            t@.len() > 0,
            pos <= s@.len(),
            out@.map_values(|p: (usize, usize)| p.0 as int) + occurrences_from(s@, t@, pos as int)
                == occurrences_from(s@, t@, 0),
            forall|k: int| 0 <= k < out@.len() ==> (#[trigger] out@[k]).1 == t@.len(),
            forall|k: int| 0 <= k < out@.len() ==> (#[trigger] out@[k]).0 + t@.len() <= s@.len(),
        decreases s@.len() - pos,
    {
        if crate::text::occurs_at_exec(s, t, pos) {
            let ghost before = out@;
            out.push((pos, t.len()));
            assert(out@.map_values(|p: (usize, usize)| p.0 as int) =~= before.map_values(
                |p: (usize, usize)| p.0 as int,
            ).push(pos as int));
            assert(out@.map_values(|p: (usize, usize)| p.0 as int) + occurrences_from(
                s@,
                t@,
                pos + t@.len(),
            ) =~= before.map_values(|p: (usize, usize)| p.0 as int) + occurrences_from(
                s@,
                t@,
                pos as int,
            ));
            pos = pos + t.len();
        } else {
            pos = pos + 1;
        }
    }
    assert(occurrences_from(s@, t@, pos as int) =~= Seq::<int>::empty());
    assert(out@.map_values(|p: (usize, usize)| p.0 as int) =~= out@.map_values(
        |p: (usize, usize)| p.0 as int,
    ) + occurrences_from(s@, t@, pos as int));
    out
}

/// Two position lists merged by position; on a tie the first list's entry
/// comes first (a stable sort of their concatenation).
pub open spec fn merge_by_pos(a: Seq<(int, int)>, b: Seq<(int, int)>) -> Seq<(int, int)>
    decreases a.len() + b.len(),
{
    if a.len() == 0 {
        b
    } else if b.len() == 0 {
        a
    } else if a[0].0 <= b[0].0 {
        seq![a[0]] + merge_by_pos(a.drop_first(), b)
    } else {
        seq![b[0]] + merge_by_pos(a, b.drop_first())
    }
}

/// Each occurrence of a marker, as (position, marker length).
pub open spec fn marker_hits(line: Seq<char>, m: Seq<char>) -> Seq<(int, int)> {
    occurrences_from(line, m, 0).map_values(|i: int| (i, m.len() as int))
}

/// Every comment-marker occurrence in the line, ordered by position,
/// markers of equal position in marker order.
pub open spec fn candidates_upto(line: Seq<char>, ms: Seq<Seq<char>>, k: int) -> Seq<(int, int)>
    decreases k,
{
    if k <= 0 {
        Seq::empty()
    } else {
        merge_by_pos(candidates_upto(line, ms, k - 1), marker_hits(line, ms[k - 1]))
    }
}

pub open spec fn pair_views(v: Seq<(usize, usize)>) -> Seq<(int, int)> {
    v.map_values(|p: (usize, usize)| (p.0 as int, p.1 as int))
}

fn merge_positions(a: &Vec<(usize, usize)>, b: &Vec<(usize, usize)>) -> (res: Vec<(usize, usize)>)
    ensures
        pair_views(res@) == merge_by_pos(pair_views(a@), pair_views(b@)),
        forall|k: int|
            0 <= k < res@.len() ==> (exists|j: int| 0 <= j < a@.len() && a@[j] == #[trigger] res@[k])
                || (exists|j: int| 0 <= j < b@.len() && b@[j] == res@[k]),
{
    let mut out: Vec<(usize, usize)> = Vec::new();
    let mut i: usize = 0;
    let mut j: usize = 0;
    assert(pair_views(a@).subrange(0, a@.len() as int) =~= pair_views(a@));
    assert(pair_views(b@).subrange(0, b@.len() as int) =~= pair_views(b@));
    assert(pair_views(out@) + merge_by_pos(pair_views(a@), pair_views(b@)) =~= merge_by_pos(
        pair_views(a@),
        pair_views(b@),
    ));
    while i < a.len() || j < b.len()
        invariant
            i <= a@.len(),
            j <= b@.len(),
            pair_views(out@) + merge_by_pos(
                pair_views(a@).subrange(i as int, a@.len() as int),
                pair_views(b@).subrange(j as int, b@.len() as int),
            ) == merge_by_pos(pair_views(a@), pair_views(b@)),
            forall|k: int|
                0 <= k < out@.len() ==> (exists|x: int| 0 <= x < a@.len() && a@[x] == #[trigger] out@[k])
                    || (exists|x: int| 0 <= x < b@.len() && b@[x] == out@[k]),
        decreases a@.len() + b@.len() - i - j,
    {
        let ghost ra = pair_views(a@).subrange(i as int, a@.len() as int);
        let ghost rb = pair_views(b@).subrange(j as int, b@.len() as int);
        let ghost before = out@;
        if i < a.len() && (j >= b.len() || a[i].0 <= b[j].0) {
            out.push(a[i]);
            proof {
                if rb.len() == 0 {
                    assert(merge_by_pos(ra, rb) == ra);
                    assert(ra =~= seq![ra[0]] + ra.drop_first());
                }
                assert(ra.drop_first() =~= pair_views(a@).subrange(i + 1, a@.len() as int));
            }
            i = i + 1;
        } else {
            out.push(b[j]);
            proof {
                if ra.len() == 0 {
                    assert(merge_by_pos(ra, rb) == rb);
                    assert(rb =~= seq![rb[0]] + rb.drop_first());
                }
                assert(rb.drop_first() =~= pair_views(b@).subrange(j + 1, b@.len() as int));
            }
            j = j + 1;
        }
        assert(pair_views(out@) =~= pair_views(before).push(pair_views(out@).last()));
        assert(pair_views(out@) + merge_by_pos(
            pair_views(a@).subrange(i as int, a@.len() as int),
            pair_views(b@).subrange(j as int, b@.len() as int),
        ) =~= pair_views(before) + merge_by_pos(ra, rb));
    }
    assert(pair_views(a@).subrange(i as int, a@.len() as int) =~= Seq::<(int, int)>::empty());
    assert(pair_views(out@) + merge_by_pos(Seq::empty(), Seq::empty()) =~= pair_views(out@));
    out
}

} // verus!

verus! {

fn comment_candidates(line: &[char], ms: &Vec<&'static str>) -> (res: Vec<(usize, usize)>)
    requires
        forall|k: int| 0 <= k < ms@.len() ==> (#[trigger] ms@[k])@.len() > 0,
    ensures
        pair_views(res@) == candidates_upto(line@, ms@.map_values(|m: &'static str| m@), ms@.len() as int),
        forall|k: int| 0 <= k < res@.len() ==> (#[trigger] res@[k]).0 + res@[k].1 <= line@.len(),
{
    let ghost mv = ms@.map_values(|m: &'static str| m@);
    let mut cands: Vec<(usize, usize)> = Vec::new();
    let mut k: usize = 0;
    while k < ms.len()
        invariant
            k <= ms@.len(),
            mv == ms@.map_values(|m: &'static str| m@),
            forall|j: int| 0 <= j < ms@.len() ==> (#[trigger] ms@[j])@.len() > 0,
            pair_views(cands@) == candidates_upto(line@, mv, k as int),
            forall|j: int| 0 <= j < cands@.len() ==> (#[trigger] cands@[j]).0 + cands@[j].1 <= line@.len(),
        decreases ms@.len() - k,
    {
        let m = chars_of(ms[k]);
        assert(mv[k as int] == m@);
        let hits = marker_positions(line, m.as_slice());
        assert(pair_views(hits@) =~= marker_hits(line@, mv[k as int])) by {
            assert(hits@.map_values(|p: (usize, usize)| p.0 as int) == occurrences_from(line@, m@, 0));
            assert forall|x: int| 0 <= x < hits@.len() implies #[trigger] pair_views(hits@)[x] == marker_hits(
                line@,
                m@,
            )[x] by {
                assert(hits@.map_values(|p: (usize, usize)| p.0 as int)[x] == hits@[x].0 as int);
            }
        }
        cands = merge_positions(&cands, &hits);
        k = k + 1;
    }
    cands
}

/// The non-empty trimmed pieces among the first `k`.
pub open spec fn ids_upto(pieces: Seq<Seq<char>>, k: int) -> Seq<Seq<char>>
    decreases k,
{
    if k <= 0 {
        Seq::empty()
    } else {
        let t = trim_set(pieces[k - 1], TrimSet::Whitespace);
        ids_upto(pieces, k - 1) + (if t.len() > 0 {
            seq![t]
        } else {
            Seq::empty()
        })
    }
}

/// The rules named in `[...]`: absent or blank means every rule;
/// otherwise the comma-separated names, trimmed, blanks dropped (and every
/// rule when none is left).
pub open spec fn ignore_spec_of(group: Option<Seq<char>>) -> IgnoreView {
    match group {
        None => IgnoreView { all_rules: true, rule_ids: Seq::empty() },
        Some(g) => {
            let t = trim_set(g, TrimSet::Whitespace);
            if t.len() == 0 {
                IgnoreView { all_rules: true, rule_ids: Seq::empty() }
            } else {
                let pieces = split_on(t, ',');
                let ids = ids_upto(pieces, pieces.len() as int);
                IgnoreView { all_rules: ids.len() == 0, rule_ids: ids }
            }
        },
    }
}

fn ignore_spec_from_group(group: Option<String>) -> (res: InlineIgnoreSpec)
    ensures
        res@ == ignore_spec_of(crate::types::opt_str_view(group)),
{
    match group {
        None => {
            let r = InlineIgnoreSpec { all_rules: true, rule_ids: Vec::new() };
            assert(r@.rule_ids =~= Seq::<Seq<char>>::empty());
            r
        },
        Some(g) => {
            let gc = chars_of(g.as_str());
            let t = trim_chars(gc.as_slice(), TrimSet::Whitespace);
            if t.len() == 0 {
                let r = InlineIgnoreSpec { all_rules: true, rule_ids: Vec::new() };
                assert(r@.rule_ids =~= Seq::<Seq<char>>::empty());
                return r;
            }
            let pieces = split_pieces(t.as_slice(), ',');
            let ghost pv = pieces@.map_values(|v: Vec<char>| v@);
            let mut ids: Vec<String> = Vec::new();
            let mut k: usize = 0;
            while k < pieces.len()
                invariant
                    k <= pieces@.len(),
                    pv == pieces@.map_values(|v: Vec<char>| v@),
                    ids@.map_values(|s: String| s@) == ids_upto(pv, k as int),
                decreases pieces@.len() - k,
            {
                let piece = trim_chars(pieces[k].as_slice(), TrimSet::Whitespace);
                assert(pv[k as int] == pieces@[k as int]@);
                let ghost before = ids@;
                if piece.len() > 0 {
                    ids.push(string_of_chars(piece.as_slice()));
                    assert(ids@.map_values(|s: String| s@) =~= before.map_values(|s: String| s@)
                        + seq![piece@]);
                } else {
                    assert(ids_upto(pv, k + 1) =~= ids_upto(pv, k as int));
                }
                k = k + 1;
            }
            let all = ids.len() == 0;
            InlineIgnoreSpec { all_rules: all, rule_ids: ids }
        },
    }
}

pub const IGNORE_PATTERN: &'static str = r"^foxguard\s*:\s*ignore(?:\[(?P<rules>[^\]]*)\])?\s*$";

pub open spec fn opt_directive_view(o: Option<(bool, InlineIgnoreSpec)>) -> Option<(bool, IgnoreView)> {
    match o {
        Some((b, s)) => Some((b, s@)),
        None => None,
    }
}

/// The directive the comment that starts at candidate `c` holds, if any,
/// and whether only blanks precede the comment on its line.
pub open spec fn directive_at(line: Seq<char>, c: (int, int)) -> Option<(bool, IgnoreView)> {
    let comment = trim_set(line.subrange(c.0 + c.1, line.len() as int), TrimSet::Whitespace);
    match regex_capture_named(IGNORE_PATTERN@, comment, "rules"@) {
        Some(g) => Some(
            (trim_set(line.subrange(0, c.0), TrimSet::Whitespace).len() == 0, ignore_spec_of(g)),
        ),
        None => None,
    }
}

pub open spec fn first_directive(line: Seq<char>, cs: Seq<(int, int)>, k: int) -> Option<
    (bool, IgnoreView),
>
    decreases cs.len() - k,
{
    if k < 0 || k >= cs.len() {
        None
    } else {
        match directive_at(line, cs[k]) {
            Some(d) => Some(d),
            None => first_directive(line, cs, k + 1),
        }
    }
}

/// The inline-ignore directive of a line: the first comment, in position
/// order, whose text is `foxguard: ignore` or `foxguard: ignore[rule, ...]`.
pub open spec fn inline_directive(line: Seq<char>, language: Language) -> Option<(bool, IgnoreView)> {
    if regex_compiles(IGNORE_PATTERN@) {
        first_directive(
            line,
            candidates_upto(line, markers_of(language), markers_of(language).len() as int),
            0,
        )
    } else {
        None
    }
}

use crate::pattern::{capture_named, compile, regex_capture_named, regex_compiles, Pattern};

fn parse_with(p: &Pattern, line: &[char], language: Language) -> (res: Option<(bool, InlineIgnoreSpec)>)
    requires
        p.spec_source() == IGNORE_PATTERN@,
        regex_compiles(IGNORE_PATTERN@),
    ensures
        opt_directive_view(res) == inline_directive(line@, language),
{
    let ms = comment_markers(language);
    let cands = comment_candidates(line, &ms);
    let ghost cs = pair_views(cands@);
    assert(cs == candidates_upto(line@, markers_of(language), markers_of(language).len() as int));
    let mut k: usize = 0;
    while k < cands.len()
        invariant
            k <= cands@.len(),
            cs == pair_views(cands@),
            cs == candidates_upto(line@, markers_of(language), markers_of(language).len() as int),
            regex_compiles(IGNORE_PATTERN@),
            p.spec_source() == IGNORE_PATTERN@,
            forall|j: int| 0 <= j < cands@.len() ==> (#[trigger] cands@[j]).0 + cands@[j].1 <= line@.len(),
            first_directive(line@, cs, 0) == first_directive(line@, cs, k as int),
        decreases cands@.len() - k,
    {
        let (idx, mlen) = cands[k];
        assert(cs[k as int] == (idx as int, mlen as int));
        let n = line.len();
        let rest = sub_chars(line, idx + mlen, n);
        let comment = trim_chars(rest.as_slice(), TrimSet::Whitespace);
        let cstr = string_of_chars(comment.as_slice());
        match capture_named(p, cstr.as_str(), "rules") {
            Some(g) => {
                let ghost gv = crate::types::opt_str_view(g);
                assert(regex_capture_named(IGNORE_PATTERN@, comment@, "rules"@) == Some(gv));
                let before = sub_chars(line, 0, idx);
                let bt = trim_chars(before.as_slice(), TrimSet::Whitespace);
                let spec = ignore_spec_from_group(g);
                assert(directive_at(line@, cs[k as int]) == Some((bt@.len() == 0, spec@)));
                return Some((bt.len() == 0, spec));
            },
            None => {},
        }
        k = k + 1;
    }
    None
}

/// Parse the inline-ignore directive of one line, if it holds one: whether
/// the comment stands alone on its line, and which rules it suppresses.
pub fn parse_inline_ignore(line: &str, language: Language) -> (res: Option<(bool, InlineIgnoreSpec)>)
    ensures
        opt_directive_view(res) == inline_directive(line@, language),
{
    match compile(IGNORE_PATTERN) {
        Some(p) => {
            let l = chars_of(line);
            parse_with(&p, l.as_slice(), language)
        },
        None => None,
    }
}

} // verus!

verus! {

/// Where the directive on line index `n` applies, and what it suppresses:
/// a comment alone on its line covers the next code line, a trailing
/// comment its own line.
pub open spec fn directive_target(lines: Seq<Seq<char>>, n: int, language: Language) -> Option<
    (nat, IgnoreView),
> {
    match inline_directive(lines[n], language) {
        Some((comment_only, sp)) => if comment_only {
            match code_line_from(lines, n + 1, language) {
                Some(l) => Some((l, sp)),
                None => None,
            }
        } else {
            Some(((n + 1) as nat, sp))
        },
        None => None,
    }
}

/// Some directive of the source applies to line `l` and suppresses the rule.
pub open spec fn suppressed_at(lines: Seq<Seq<char>>, language: Language, l: int, rule_id: Seq<char>) -> bool {
    exists|n: int|
        0 <= n < lines.len() && #[trigger] directive_target(lines, n, language) is Some
            && directive_target(lines, n, language).unwrap().0 == l && ignore_matches(
            directive_target(lines, n, language).unwrap().1,
            rule_id,
        )
}

/// The directives of one file, keyed by the one-based line each applies
/// to; two directives for the same line are merged.
pub struct IgnoreDirectives {
    map: HashMap<usize, InlineIgnoreSpec>,
}

impl View for IgnoreDirectives {
    type V = Map<usize, IgnoreView>;

    closed spec fn view(&self) -> Map<usize, IgnoreView> {
        spec_views(self.map@)
    }
}

pub open spec fn spec_views(m: Map<usize, InlineIgnoreSpec>) -> Map<usize, IgnoreView> {
    m.map_values(|s: InlineIgnoreSpec| s@)
}

/// Line `l` carries a directive that suppresses the rule.
pub open spec fn directives_match(d: Map<usize, IgnoreView>, l: int, rule_id: Seq<char>) -> bool {
    0 <= l <= usize::MAX && d.contains_key(l as usize) && ignore_matches(d[l as usize], rule_id)
}

impl IgnoreDirectives {
    /// Whether some directive applies to line `l`.
    pub fn has_directive(&self, l: usize) -> (res: bool)
        ensures
            res == self@.contains_key(l),
    {
        broadcast use vstd::std_specs::hash::group_hash_axioms;

        self.map.contains_key(&l)
    }

    /// Whether a directive applies to line `l` and suppresses the rule.
    pub fn suppresses(&self, l: usize, rule_id: &str) -> (res: bool)
        ensures
            res == directives_match(self@, l as int, rule_id@),
    {
        broadcast use vstd::std_specs::hash::group_hash_axioms;

        match self.map.get(&l) {
            Some(s) => s.matches(rule_id),
            None => false,
        }
    }
}

/// Collect the inline-ignore directives of a source, keyed by the line
/// each applies to.
pub fn inline_ignore_directives(source: &str, language: Language) -> (res: IgnoreDirectives)
    ensures
        forall|l: int, id: Seq<char>|
            #![trigger directives_match(res@, l, id)]
            directives_match(res@, l, id) <==> suppressed_at(lines_of(source@), language, l, id),
        forall|l: usize|
            #![trigger res@.contains_key(l)]
            res@.contains_key(l) <==> exists|n: int|
                0 <= n < lines_of(source@).len() && #[trigger] directive_target(lines_of(source@), n, language)
                    is Some && directive_target(lines_of(source@), n, language).unwrap().0 == l,
{
    broadcast use vstd::std_specs::hash::group_hash_axioms;

    let mut map: HashMap<usize, InlineIgnoreSpec> = HashMap::new();
    let p = match compile(IGNORE_PATTERN) {
        Some(p) => p,
        None => {
            let res = IgnoreDirectives { map };
            assert(res@ =~= Map::<usize, IgnoreView>::empty());
            assert forall|l: usize| !res@.contains_key(l) && !(exists|n: int|
                0 <= n < lines_of(source@).len() && #[trigger] directive_target(lines_of(source@), n, language)
                    is Some && directive_target(lines_of(source@), n, language).unwrap().0 == l) by {
                assert forall|n: int| 0 <= n < lines_of(source@).len() implies !(
                #[trigger] directive_target(lines_of(source@), n, language) is Some) by {}
            }
            assert forall|l: int, id: Seq<char>|
                !suppressed_at(lines_of(source@), language, l, id) by {
                assert forall|n: int| 0 <= n < lines_of(source@).len() implies !(
                #[trigger] directive_target(lines_of(source@), n, language) is Some) by {}
            }
            return res;
        },
    };
    let lines = source_lines(source);
    let ghost ls = lines@.map_values(|l: Vec<char>| l@);
    assert(ls == lines_of(source@));
    let mut n: usize = 0;
    while n < lines.len()
        invariant
            n <= lines@.len(),
            ls == lines@.map_values(|l: Vec<char>| l@),
            ls == lines_of(source@),
            p.spec_source() == IGNORE_PATTERN@,
            regex_compiles(IGNORE_PATTERN@),
            forall|l: int, id: Seq<char>|
                #![trigger directives_match(spec_views(map@), l, id)]
                directives_match(spec_views(map@), l, id) <==> exists|m: int|
                    0 <= m < n && #[trigger] directive_target(ls, m, language) is Some
                        && directive_target(ls, m, language).unwrap().0 == l && ignore_matches(
                        directive_target(ls, m, language).unwrap().1,
                        id,
                    ),
            forall|l: usize|
                #![trigger spec_views(map@).contains_key(l)]
                spec_views(map@).contains_key(l) <==> exists|m: int|
                    0 <= m < n && #[trigger] directive_target(ls, m, language) is Some
                        && directive_target(ls, m, language).unwrap().0 == l,
        decreases lines@.len() - n,
    {
        assert(ls[n as int] == lines@[n as int]@);
        let ghost before = spec_views(map@);
        match parse_with(&p, lines[n].as_slice(), language) {
            Some((comment_only, sp)) => {
                let target = if comment_only {
                    next_code_line(lines.as_slice(), n + 1, language)
                } else {
                    Some(n + 1)
                };
                match target {
                    Some(t) => {
                        let ghost spv = sp@;
                        assert(directive_target(ls, n as int, language) == Some((t as nat, spv)));
                        let merged = match map.remove(&t) {
                            Some(mut old_spec) => {
                                let ghost ov = old_spec@;
                                assert(before.contains_key(t) && before[t] == ov);
                                old_spec.merge(sp);
                                proof {
                                    let a = ov.rule_ids;
                                    let b = spv.rule_ids;
                                    let mv = old_spec@;
                                    assert forall|id: Seq<char>|
                                        ignore_matches(mv, id) <==> (directives_match(before, t as int, id)
                                            || ignore_matches(spv, id)) by {
                                        if (a + b).contains(id) {
                                            let i = choose|i: int| 0 <= i < (a + b).len() && (a + b)[i] == id;
                                            if i < a.len() {
                                                assert(a[i] == id);
                                            } else {
                                                assert(b[i - a.len()] == id);
                                            }
                                        }
                                        if a.contains(id) {
                                            let i = choose|i: int| 0 <= i < a.len() && a[i] == id;
                                            assert((a + b)[i] == id);
                                        }
                                        if b.contains(id) {
                                            let i = choose|i: int| 0 <= i < b.len() && b[i] == id;
                                            assert((a + b)[a.len() + i] == id);
                                        }
                                    }
                                }
                                old_spec
                            },
                            None => {
                                assert(!before.contains_key(t));
                                sp
                            },
                        };
                        let ghost mv = merged@;
                        assert forall|id: Seq<char>|
                            ignore_matches(mv, id) <==> (directives_match(before, t as int, id)
                                || ignore_matches(spv, id)) by {}
                        map.insert(t, merged);
                        let ghost after = spec_views(map@);
                        assert(after =~= before.insert(t, mv));
                        assert forall|l: int, id: Seq<char>|
                            directives_match(after, l, id) <==> (directives_match(before, l, id)
                                || (t == l && ignore_matches(spv, id))) by {
                            if l != t {
                                if 0 <= l <= usize::MAX {
                                    assert(after.contains_key(l as usize) == before.contains_key(l as usize));
                                }
                            }
                        }
                    },
                    None => {
                        assert(directive_target(ls, n as int, language) is None);
                    },
                }
            },
            None => {
                assert(directive_target(ls, n as int, language) is None);
            },
        }
        n = n + 1;
    }
    IgnoreDirectives { map }
}

} // verus!

verus! {

/// Some line the finding spans carries a directive that suppresses its rule.
pub open spec fn finding_suppressed(d: Map<usize, IgnoreView>, f: FindingView) -> bool {
    exists|l: int| f.line <= l <= f.end_line && #[trigger] directives_match(d, l, f.rule_id)
}

/// The findings among the first `k` that no directive suppresses, in order.
pub open spec fn kept_upto(d: Map<usize, IgnoreView>, fs: Seq<FindingView>, k: int) -> Seq<FindingView>
    decreases k,
{
    if k <= 0 {
        Seq::empty()
    } else {
        kept_upto(d, fs, k - 1) + (if finding_suppressed(d, fs[k - 1]) {
            Seq::empty()
        } else {
            seq![fs[k - 1]]
        })
    }
}

impl IgnoreDirectives {
    /// Whether a directive on one of the lines the finding spans suppresses
    /// its rule.
    pub fn suppresses_finding(&self, f: &Finding) -> (res: bool)
        ensures
            res == finding_suppressed(self@, f@),
    {
        if f.line > f.end_line {
            return false;
        }
        let mut l: usize = f.line;
        loop
            invariant
                f.line <= l <= f.end_line,
                forall|m: int| f.line <= m < l ==> !#[trigger] directives_match(self@, m, f@.rule_id),
            decreases f.end_line - l,
        {
            if self.suppresses(l, f.rule_id.as_str()) {
                assert(directives_match(self@, l as int, f@.rule_id));
                return true;
            }
            if l == f.end_line {
                return false;
            }
            l = l + 1;
        }
    }
}

/// Drop the findings that an inline `foxguard: ignore` directive
/// suppresses: one on any line from the finding's first to its last that
/// names its rule or names none.
pub fn apply_inline_ignores(findings: Vec<Finding>, directives: &IgnoreDirectives) -> (res: Vec<Finding>)
    ensures
        finding_views(res@) == kept_upto(directives@, finding_views(findings@), findings@.len() as int),
{
    let mut out: Vec<Finding> = Vec::new();
    let mut k: usize = 0;
    let ghost fv = finding_views(findings@);
    while k < findings.len()
        invariant
            k <= findings@.len(),
            fv == finding_views(findings@),
            finding_views(out@) == kept_upto(directives@, fv, k as int),
        decreases findings@.len() - k,
    {
        let f = &findings[k];
        assert(fv[k as int] == f@);
        if !directives.suppresses_finding(f) {
            let ghost before = out@;
            out.push(f.clone_finding());
            assert(finding_views(out@) =~= finding_views(before) + seq![f@]);
        } else {
            assert(kept_upto(directives@, fv, k + 1) =~= kept_upto(directives@, fv, k as int));
        }
        k = k + 1;
    }
    out
}

} // verus!

verus! {

// ─── Report order ─────────────────────────────────────────────────────────

/// Lexicographic order of texts by code point (`str`'s `Ord`).
pub open spec fn text_lt(a: Seq<char>, b: Seq<char>) -> bool
    decreases a.len(),
{
    if a.len() == 0 {
        b.len() > 0
    } else if b.len() == 0 {
        false
    } else if a[0] != b[0] {
        a[0] < b[0]
    } else {
        text_lt(a.drop_first(), b.drop_first())
    }
}

/// `a` comes strictly before `b` by file, then line, then column.
pub open spec fn report_before(a: FindingView, b: FindingView) -> bool {
    text_lt(a.file, b.file) || (a.file == b.file && (a.line < b.line || (a.line == b.line
        && a.column < b.column)))
}

/// No finding comes strictly before the one reported ahead of it.
pub open spec fn report_sorted(fs: Seq<FindingView>) -> bool {
    forall|i: int| 0 <= i < fs.len() - 1 ==> !report_before(#[trigger] fs[i + 1], fs[i])
}

pub proof fn lemma_text_lt_asymmetric(a: Seq<char>, b: Seq<char>)
    ensures
        !(text_lt(a, b) && text_lt(b, a)),
        text_lt(a, b) || text_lt(b, a) || a == b,
    decreases a.len(),
{
    if a.len() > 0 && b.len() > 0 {
        if a[0] == b[0] {
            lemma_text_lt_asymmetric(a.drop_first(), b.drop_first());
            if a.drop_first() == b.drop_first() {
                assert(a =~= seq![a[0]] + a.drop_first());
                assert(b =~= seq![b[0]] + b.drop_first());
            }
        }
    } else if a.len() == 0 && b.len() == 0 {
        assert(a =~= b);
    }
}

/// Of two findings at different (file, line, column) keys, exactly one
/// comes first; neither comes first when the keys agree.
pub proof fn lemma_report_before_total(a: FindingView, b: FindingView)
    ensures
        !(report_before(a, b) && report_before(b, a)),
{
    lemma_text_lt_asymmetric(a.file, b.file);
}

fn text_lt_exec(a: &[char], b: &[char]) -> (res: bool)
    ensures
        res == text_lt(a@, b@),
{
    let mut i: usize = 0;
    assert(a@.subrange(0, a@.len() as int) =~= a@);
    assert(b@.subrange(0, b@.len() as int) =~= b@);
    assert(a@.subrange(0, 0) =~= b@.subrange(0, 0));
    while i < a.len() && i < b.len() && a[i] == b[i]
        invariant
            i <= a@.len(),
            i <= b@.len(),
            a@.subrange(0, i as int) == b@.subrange(0, i as int),
            text_lt(a@, b@) == text_lt(a@.subrange(i as int, a@.len() as int), b@.subrange(
                i as int,
                b@.len() as int,
            )),
        decreases a@.len() - i,
    {
        let ghost sa = a@.subrange(i as int, a@.len() as int);
        let ghost sb = b@.subrange(i as int, b@.len() as int);
        assert(sa.drop_first() =~= a@.subrange(i + 1, a@.len() as int));
        assert(sb.drop_first() =~= b@.subrange(i + 1, b@.len() as int));
        assert(a@.subrange(0, i + 1) =~= a@.subrange(0, i as int).push(a@[i as int]));
        assert(b@.subrange(0, i + 1) =~= b@.subrange(0, i as int).push(b@[i as int]));
        i = i + 1;
    }
    let ghost sa = a@.subrange(i as int, a@.len() as int);
    let ghost sb = b@.subrange(i as int, b@.len() as int);
    if i == a.len() {
        i < b.len()
    } else if i == b.len() {
        false
    } else {
        a[i] < b[i]
    }
}

fn report_before_exec(a: &Finding, b: &Finding) -> (res: bool)
    ensures
        res == report_before(a@, b@),
{
    let af = chars_of(a.file.as_str());
    let bf = chars_of(b.file.as_str());
    if text_lt_exec(af.as_slice(), bf.as_slice()) {
        return true;
    }
    if !crate::text::chars_eq(af.as_slice(), bf.as_slice()) {
        return false;
    }
    a.line < b.line || (a.line == b.line && a.column < b.column)
}

proof fn lemma_insert_multiset<A>(s: Seq<A>, p: int, x: A)
    requires
        0 <= p <= s.len(),
    ensures
        s.insert(p, x).to_multiset() =~= s.to_multiset().insert(x),
{
    broadcast use vstd::seq_lib::group_seq_properties;
    broadcast use vstd::multiset::group_multiset_axioms;

    let a = s.subrange(0, p);
    let b = s.subrange(p, s.len() as int);
    assert(s =~= a + b);
    assert(s.insert(p, x) =~= a.push(x) + b);
    vstd::seq_lib::lemma_multiset_commutative(a.push(x), b);
    vstd::seq_lib::lemma_multiset_commutative(a, b);
}

/// Where `x` goes in `r` when inserted from the back: before the trailing
/// findings it precedes (looking at positions below `p`).
pub open spec fn insert_point(r: Seq<FindingView>, x: FindingView, p: int) -> int
    decreases p,
{
    if p > 0 && p <= r.len() && report_before(x, r[p - 1]) {
        insert_point(r, x, p - 1)
    } else {
        p
    }
}

/// The first `k` findings, each inserted from the back in arrival order.
pub open spec fn insertion_sorted(s: Seq<FindingView>, k: int) -> Seq<FindingView>
    decreases k,
{
    if k <= 0 || k > s.len() {
        Seq::empty()
    } else {
        let r = insertion_sorted(s, k - 1);
        r.insert(insert_point(r, s[k - 1], r.len() as int), s[k - 1])
    }
}

/// Order findings by file, then line, then column; each finding goes after
/// every earlier one it does not precede, so equal keys keep their arrival
/// order.
pub fn sort_findings(findings: Vec<Finding>) -> (res: Vec<Finding>)
    ensures
        report_sorted(finding_views(res@)),
        finding_views(res@).to_multiset() == finding_views(findings@).to_multiset(),
        finding_views(res@) == insertion_sorted(finding_views(findings@), findings@.len() as int),
{
    broadcast use vstd::seq_lib::group_seq_properties;

    let mut out: Vec<Finding> = Vec::new();
    let mut k: usize = 0;
    while k < findings.len()
        invariant
            k <= findings@.len(),
            report_sorted(finding_views(out@)),
            finding_views(out@).to_multiset() == finding_views(findings@.subrange(0, k as int)).to_multiset(),
            finding_views(out@) == insertion_sorted(finding_views(findings@), k as int),
        decreases findings@.len() - k,
    {
        let x = findings[k].clone_finding();
        assert(x@ == finding_views(findings@)[k as int]);
        let mut p: usize = out.len();
        while p > 0 && report_before_exec(&x, &out[p - 1])
            invariant
                p <= out@.len(),
                report_sorted(finding_views(out@)),
                forall|j: int| p <= j < out@.len() ==> report_before(x@, #[trigger] out@[j]@),
                insert_point(finding_views(out@), x@, out@.len() as int) == insert_point(
                    finding_views(out@),
                    x@,
                    p as int,
                ),
            decreases p,
        {
            assert(finding_views(out@)[p - 1] == out@[p - 1]@);
            p = p - 1;
        }
        proof {
            if p > 0 {
                assert(finding_views(out@)[p - 1] == out@[p - 1]@);
            }
            assert(insert_point(finding_views(out@), x@, p as int) == p);
        }
        let ghost before = out@;
        proof {
            if p > 0 {
                assert(!report_before(x@, out@[p - 1]@));
            }
            if p < out@.len() {
                lemma_report_before_total(x@, out@[p as int]@);
            }
        }
        out.insert(p, x);
        proof {
            assert(out@ == before.insert(p as int, x));
            before.insert_ensures(p as int, x);
            finding_views(before).insert_ensures(p as int, x@);
            assert(finding_views(out@) =~= finding_views(before).insert(p as int, x@));
            lemma_insert_multiset(finding_views(before), p as int, x@);
            assert(findings@.subrange(0, k + 1) =~= findings@.subrange(0, k as int).push(
                findings@[k as int],
            ));
            assert(finding_views(findings@.subrange(0, k + 1)) =~= finding_views(
                findings@.subrange(0, k as int),
            ).push(x@));
            finding_views(findings@.subrange(0, k as int)).to_multiset_ensures();
            assert forall|i: int| 0 <= i < finding_views(out@).len() - 1 implies !report_before(
                #[trigger] finding_views(out@)[i + 1],
                finding_views(out@)[i],
            ) by {
                assert(finding_views(out@)[i + 1] == out@[i + 1]@);
                assert(finding_views(out@)[i] == out@[i]@);
                if i + 1 < p {
                    assert(finding_views(before)[i + 1] == before[i + 1]@);
                    assert(finding_views(before)[i] == before[i]@);
                } else if i + 1 == p {
                    assert(out@[i] == before[i]);
                } else if i == p {
                    assert(out@[i + 1] == before[i]);
                } else {
                    assert(out@[i] == before[i - 1]);
                    assert(out@[i + 1] == before[i]);
                    assert(finding_views(before)[i] == before[i]@);
                    assert(finding_views(before)[i - 1] == before[i - 1]@);
                }
            }
        }
        k = k + 1;
    }
    assert(findings@.subrange(0, findings@.len() as int) =~= findings@);
    out
}

} // verus!

verus! {

/// The findings with their file set to `file`, nothing else changed.
pub fn with_file(findings: Vec<Finding>, file: &str) -> (res: Vec<Finding>)
    ensures
        res@.len() == findings@.len(),
        forall|k: int|
            0 <= k < res@.len() ==> (#[trigger] res@[k])@ == (FindingView { file: file@, ..findings@[k]@ }),
{
    let mut out: Vec<Finding> = Vec::new();
    let mut k: usize = 0;
    while k < findings.len()
        invariant
            k <= findings@.len(),
            out@.len() == k,
            forall|j: int|
                0 <= j < k ==> (#[trigger] out@[j])@ == (FindingView { file: file@, ..findings@[j]@ }),
        decreases findings@.len() - k,
    {
        let mut f = findings[k].clone_finding();
        f.file = String::from_str(file);
        out.push(f);
        k = k + 1;
    }
    out
}

} // verus!

verus! {

/// The findings with their file set to `file`.
pub open spec fn placed(v: Seq<FindingView>, file: Seq<char>) -> Seq<FindingView> {
    v.map_values(|f: FindingView| FindingView { file: file, ..f })
}

/// What the scan keeps of the findings one rule reports for a file: each
/// placed in `file`, then those an inline directive suppresses dropped.
pub fn file_findings(raw: Vec<Finding>, file: &str, directives: &IgnoreDirectives) -> (res: Vec<Finding>)
    ensures
        finding_views(res@) == kept_upto(directives@, placed(finding_views(raw@), file@), raw@.len() as int),
{
    let ghost rv = finding_views(raw@);
    let placed_findings = with_file(raw, file);
    assert(finding_views(placed_findings@) =~= placed(rv, file@));
    apply_inline_ignores(placed_findings, directives)
}

} // verus!

verus! {

/// Whether the scan reads a file at all: noise paths and minified sources
/// are skipped, and languages with no grammar here give no tree.
pub open spec fn file_scanned(path: Seq<char>, source: &str, language: Language) -> bool {
    !noise_path(path) && !minified(source@, source.spec_bytes()) && !(language == Language::Ruby
        || language == Language::Java || language == Language::CSharp)
}

/// What the scan prepares for one file before running its rules: nothing
/// for a noise path, a minified source or a language without a grammar;
/// otherwise the parse of the source and its inline-ignore directives.
pub fn prepare_file(path: &str, source: &str, language: Language) -> (res: Option<
    (crate::tree::SyntaxTree, IgnoreDirectives),
>)
    ensures
        res is Some <==> file_scanned(path@, source, language),
        res matches Some(p) ==> crate::tree::parsed_arena(p.0@, language, source@)
            && crate::tree::rooted_tree(p.0@) && forall|l: int, id: Seq<char>|
            #![trigger directives_match(p.1@, l, id)]
            directives_match(p.1@, l, id) <==> suppressed_at(lines_of(source@), language, l, id),
{
    if is_noise_path(path) || is_minified(source) {
        return None;
    }
    let directives = inline_ignore_directives(source, language);
    match crate::engine::parser::parse_file(source, language) {
        Some(tree) => Some((tree, directives)),
        None => None,
    }
}

} // verus!

verus! {

// ─── Laws ─────────────────────────────────────────────────────────────────

/// The extension table of the scanner. A path is scanned as
/// JavaScript/TypeScript exactly when its extension is `js`, `jsx`, `ts`,
/// `tsx`, `mjs` or `cjs`; as Python for `py` and `pyw`; as Go for `go`; as
/// Ruby for `rb`, `rake` and `gemspec`; as Java for `java`; as PHP for
/// `php`; as Rust for `rs`; as C# for `cs`; as Swift for `swift`. A path
/// with any other extension, or with none, is skipped.
pub proof fn law_extension_table(path: Seq<char>)
    ensures
        language_of_path(path) == Some(Language::JavaScript) <==> (extension_of(path) matches Some(e) && (e
            == "js"@ || e == "jsx"@ || e == "ts"@ || e == "tsx"@ || e == "mjs"@ || e == "cjs"@)),
        language_of_path(path) == Some(Language::Python) <==> (extension_of(path) matches Some(e) && (e
            == "py"@ || e == "pyw"@)),
        language_of_path(path) == Some(Language::Go) <==> (extension_of(path) matches Some(e) && e == "go"@),
        language_of_path(path) == Some(Language::Ruby) <==> (extension_of(path) matches Some(e) && (e == "rb"@
            || e == "rake"@ || e == "gemspec"@)),
        language_of_path(path) == Some(Language::Java) <==> (extension_of(path) matches Some(e) && e
            == "java"@),
        language_of_path(path) == Some(Language::Php) <==> (extension_of(path) matches Some(e) && e == "php"@),
        language_of_path(path) == Some(Language::Rust) <==> (extension_of(path) matches Some(e) && e == "rs"@),
        language_of_path(path) == Some(Language::CSharp) <==> (extension_of(path) matches Some(e) && e == "cs"@),
        language_of_path(path) == Some(Language::Swift) <==> (extension_of(path) matches Some(e) && e
            == "swift"@),
        language_of_path(path) is None <==> (extension_of(path) matches Some(e) ==> !(e == "js"@ || e == "jsx"@
            || e == "ts"@ || e == "tsx"@ || e == "mjs"@ || e == "cjs"@ || e == "py"@ || e == "pyw"@ || e
            == "go"@ || e == "rb"@ || e == "rake"@ || e == "gemspec"@ || e == "java"@ || e == "php"@ || e
            == "rs"@ || e == "cs"@ || e == "swift"@)),
{
    reveal_strlit("js");
    reveal_strlit("jsx");
    reveal_strlit("ts");
    reveal_strlit("tsx");
    reveal_strlit("mjs");
    reveal_strlit("cjs");
    reveal_strlit("py");
    reveal_strlit("pyw");
    reveal_strlit("go");
    reveal_strlit("rb");
    reveal_strlit("rake");
    reveal_strlit("gemspec");
    reveal_strlit("java");
    reveal_strlit("php");
    reveal_strlit("rs");
    reveal_strlit("cs");
    reveal_strlit("swift");
    assert("js"@[0] == 'j' && "ts"@[0] == 't' && "py"@[0] == 'p' && "go"@[0] == 'g');
    assert("rb"@[0] == 'r' && "rs"@[0] == 'r' && "cs"@[0] == 'c');
    assert("rb"@[1] == 'b' && "rs"@[1] == 's');
    assert("jsx"@[0] == 'j' && "tsx"@[0] == 't' && "mjs"@[0] == 'm' && "cjs"@[0] == 'c');
    assert("pyw"@[0] == 'p' && "php"@[0] == 'p' && "pyw"@[1] == 'y' && "php"@[1] == 'h');
    assert("rake"@[0] == 'r' && "java"@[0] == 'j');
    assert("js"@.len() == 2 && "ts"@.len() == 2 && "py"@.len() == 2 && "go"@.len() == 2);
    assert("rb"@.len() == 2 && "rs"@.len() == 2 && "cs"@.len() == 2);
    assert("jsx"@.len() == 3 && "tsx"@.len() == 3 && "mjs"@.len() == 3 && "cjs"@.len() == 3);
    assert("pyw"@.len() == 3 && "php"@.len() == 3 && "rake"@.len() == 4 && "java"@.len() == 4);
    assert("gemspec"@.len() == 7 && "swift"@.len() == 5);
}

} // verus!
