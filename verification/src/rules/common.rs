//! Building findings: the source line of an offset, a finding at a syntax
//! node, a finding at a byte range, and the order in which a rule that
//! walks the whole tree collects its findings.

use vstd::prelude::*;
use crate::text::{utf8_lossy, utf8_lossy_string};
use crate::tree::{NodeView, SyntaxTree, tree_wf, positions_fit, node_wf};
use crate::types::{Finding, FindingView, Severity};
use vstd::string::*;
use vstd::utf8::{decode_utf8, encode_utf8, is_char_boundary, valid_utf8};

verus! {

// ─── Specifications ───────────────────────────────────────────────────────

/// Index just past the last `\n` before `off` (0 when there is none).
pub open spec fn line_start(b: Seq<u8>, off: int) -> int
    decreases off,
{
    if off <= 0 {
        0
    } else if b[off - 1] == 10u8 {
        off
    } else {
        line_start(b, off - 1)
    }
}

/// Index of the first `\n` at or after `off` (the length when there is none).
pub open spec fn line_end(b: Seq<u8>, off: int) -> int
    decreases b.len() - off,
{
    if off >= b.len() {
        b.len() as int
    } else if b[off] == 10u8 {
        off
    } else {
        line_end(b, off + 1)
    }
}

/// The full line of `b` that contains byte `off`, decoded; empty when
/// `off` lies past the end.
pub open spec fn source_line(b: Seq<u8>, off: int) -> Seq<char> {
    if off < 0 || off > b.len() {
        Seq::empty()
    } else {
        utf8_lossy(b.subrange(line_start(b, off), line_end(b, off)))
    }
}

/// Number of `\n` bytes among the first `k` bytes.
pub open spec fn newlines_before(b: Seq<u8>, k: int) -> nat
    decreases k,
{
    if k <= 0 {
        0
    } else {
        newlines_before(b, k - 1) + (if b[k - 1] == 10u8 {
            1nat
        } else {
            0nat
        })
    }
}

/// Number of characters that start in `b[from..to]`: the bytes that are
/// not UTF-8 continuation bytes.
pub open spec fn chars_between(b: Seq<u8>, from: int, to: int) -> nat
    decreases to - from,
{
    if to <= from {
        0
    } else {
        chars_between(b, from, to - 1) + (if 0x80 <= b[to - 1] <= 0xbf {
            0nat
        } else {
            1nat
        })
    }
}

pub open spec fn opt_str(o: Option<&str>) -> Option<Seq<char>> {
    match o {
        Some(s) => Some(s@),
        None => None,
    }
}

/// The finding a rule reports at node `n`.
pub open spec fn finding_at_node(
    rule_id: Seq<char>,
    severity: Severity,
    cwe: Option<Seq<char>>,
    description: Seq<char>,
    src: Seq<u8>,
    n: NodeView,
) -> FindingView {
    FindingView {
        rule_id,
        severity,
        cwe,
        description,
        file: Seq::empty(),
        line: (n.start_row + 1) as nat,
        column: (n.start_column + 1) as nat,
        end_line: (n.end_row + 1) as nat,
        end_column: (n.end_column + 1) as nat,
        snippet: source_line(src, n.start_byte as int),
    }
}

/// The one-based number of a zero-based count (it stays put at
/// `usize::MAX`, which no text length reaches).
pub open spec fn one_based(x: nat) -> nat {
    if x < usize::MAX {
        x + 1
    } else {
        x
    }
}

pub open spec fn min_int(a: int, b: int) -> int {
    if a <= b {
        a
    } else {
        b
    }
}

/// The finding reported for the byte range `start .. end` of `src`
/// (both clamped to the length): one-based line and character column of
/// each end.
pub open spec fn finding_at_offsets(
    rule_id: Seq<char>,
    severity: Severity,
    cwe: Option<Seq<char>>,
    description: Seq<char>,
    src: Seq<u8>,
    start: int,
    end: int,
) -> FindingView {
    let s = min_int(start, src.len() as int);
    let e = min_int(end, src.len() as int);
    FindingView {
        rule_id,
        severity,
        cwe,
        description,
        file: Seq::empty(),
        line: one_based(newlines_before(src, s)),
        column: one_based(chars_between(src, line_start(src, s), s)),
        end_line: one_based(newlines_before(src, e)),
        end_column: one_based(chars_between(src, line_start(src, e), e)),
        snippet: source_line(src, s),
    }
}

/// The findings of a rule that inspects every node in pre-order: the
/// findings `f` gives for nodes `0 .. n`, in that order.
pub open spec fn collect_hits(n: int, f: spec_fn(int) -> Seq<FindingView>) -> Seq<FindingView>
    decreases n,
{
    if n <= 0 {
        Seq::empty()
    } else {
        collect_hits(n - 1, f) + f(n - 1)
    }
}

// ─── Executable functions ──────────────────────────────────────────────────

pub fn line_start_exec(b: &[u8], off: usize) -> (res: usize)
    requires
        off <= b@.len(),
    ensures
        res == line_start(b@, off as int),
        res <= off,
{
    let mut k = off;
    while k > 0 && b[k - 1] != 10u8
        invariant
            k <= off <= b@.len(),
            line_start(b@, off as int) == line_start(b@, k as int),
        decreases k,
    {
        k = k - 1;
    }
    k
}

fn line_end_exec(b: &[u8], off: usize) -> (res: usize)
    requires
        off <= b@.len(),
    ensures
        res == line_end(b@, off as int),
        off <= res <= b@.len(),
{
    let mut k = off;
    while k < b.len() && b[k] != 10u8
        invariant
            off <= k <= b@.len(),
            line_end(b@, off as int) == line_end(b@, k as int),
        decreases b@.len() - k,
    {
        k = k + 1;
    }
    k
}

/// `line_start` is 0 or just past a `\n`, and not after `off`.
proof fn lemma_line_start(b: Seq<u8>, off: int)
    requires
        0 <= off <= b.len(),
    ensures
        0 <= line_start(b, off) <= off,
        line_start(b, off) == 0 || b[line_start(b, off) - 1] == 10u8,
    decreases off,
{
    if off > 0 && b[off - 1] != 10u8 {
        lemma_line_start(b, off - 1);
    }
}

/// `line_end` is the length or a `\n`, and not before `off`.
proof fn lemma_line_end(b: Seq<u8>, off: int)
    requires
        0 <= off <= b.len(),
    ensures
        off <= line_end(b, off) <= b.len(),
        line_end(b, off) == b.len() || b[line_end(b, off)] == 10u8,
    decreases b.len() - off,
{
    if off < b.len() && b[off] != 10u8 {
        lemma_line_end(b, off + 1);
    }
}

/// In valid UTF-8, a position that is the end, or holds a `\n`, or follows
/// a `\n`, starts a character.
proof fn lemma_newline_boundary(b: Seq<u8>, i: int)
    requires
        valid_utf8(b),
        0 <= i <= b.len(),
        i == 0 || i == b.len() || b[i] == 10u8 || b[i - 1] == 10u8,
    ensures
        is_char_boundary(b, i),
{
    vstd::utf8::is_char_boundary_start_end_of_seq(b);
    if i == 0 || i == b.len() {
    } else if b[i] == 10u8 {
        vstd::utf8::is_char_boundary_iff_not_is_continuation_byte(b, i);
    } else {
        vstd::utf8::is_char_boundary_iff_not_is_continuation_byte(b, i - 1);
        vstd::utf8::valid_utf8_split(b, i - 1);
        let t = b.subrange(i - 1, b.len() as int);
        assert(t[0] == 10u8);
        assert(vstd::utf8::pop_first_scalar(t) =~= b.subrange(i, b.len() as int));
        let r = b.subrange(i, b.len() as int);
        assert(valid_utf8(r));
        vstd::utf8::is_char_boundary_start_end_of_seq(r);
        vstd::utf8::is_char_boundary_iff_not_is_continuation_byte(r, 0);
        assert(r[0] == b[i]);
        vstd::utf8::is_char_boundary_iff_not_is_continuation_byte(b, i);
    }
}

/// The bytes of a line of a text are valid UTF-8, and decode to the
/// characters of the text between those before the line and those after.
proof fn lemma_line_chars(chars: Seq<char>, s: int, e: int)
    requires
        0 <= s <= e <= encode_utf8(chars).len(),
        s == 0 || encode_utf8(chars)[s - 1] == 10u8,
        e == encode_utf8(chars).len() || encode_utf8(chars)[e] == 10u8,
    ensures
        valid_utf8(encode_utf8(chars).subrange(s, e)),
        chars == decode_utf8(encode_utf8(chars).subrange(0, s)) + decode_utf8(
            encode_utf8(chars).subrange(s, e),
        ) + decode_utf8(encode_utf8(chars).subrange(e, encode_utf8(chars).len() as int)),
{
    let b = encode_utf8(chars);
    vstd::utf8::encode_utf8_valid_utf8(chars);
    vstd::utf8::encode_utf8_decode_utf8(chars);
    lemma_newline_boundary(b, s);
    vstd::utf8::valid_utf8_split(b, s);
    vstd::utf8::decode_utf8_split(b, s);
    let r = b.subrange(s, b.len() as int);
    let k = e - s;
    assert(k == r.len() || r[k] == 10u8);
    lemma_newline_boundary(r, k);
    vstd::utf8::valid_utf8_split(r, k);
    vstd::utf8::decode_utf8_split(r, k);
    assert(r.subrange(0, k) =~= b.subrange(s, e));
    assert(r.subrange(k, r.len() as int) =~= b.subrange(e, b.len() as int));
}

/// No byte of the line around `off` is a `\n`.
proof fn lemma_no_newline_inside(b: Seq<u8>, off: int, i: int)
    requires
        0 <= off <= b.len(),
        line_start(b, off) <= i < line_end(b, off),
    ensures
        b[i] != 10u8,
{
    if i < off {
        lemma_no_newline_before(b, off, i);
    } else {
        lemma_line_end(b, off);
        lemma_no_newline_after(b, off, i);
    }
}

proof fn lemma_no_newline_before(b: Seq<u8>, off: int, i: int)
    requires
        0 <= off <= b.len(),
        line_start(b, off) <= i < off,
    ensures
        b[i] != 10u8,
    decreases off,
{
    if i < off - 1 {
        lemma_no_newline_before(b, off - 1, i);
    }
}

proof fn lemma_no_newline_after(b: Seq<u8>, off: int, i: int)
    requires
        0 <= off <= i < line_end(b, off),
        line_end(b, off) <= b.len(),
    ensures
        b[i] != 10u8,
    decreases b.len() - off,
{
    if off < i {
        lemma_line_end(b, off + 1);
        lemma_no_newline_after(b, off + 1, i);
    }
}

/// A `\n` among the characters puts a `\n` byte in their encoding.
proof fn lemma_newline_encoded(chars: Seq<char>, j: int)
    requires
        0 <= j < chars.len(),
        chars[j] == '\n',
    ensures
        exists|i: int| 0 <= i < encode_utf8(chars).len() && encode_utf8(chars)[i] == 10u8,
    decreases j,
{
    let head = vstd::utf8::encode_scalar(chars[0] as u32);
    let rest = chars.drop_first();
    assert(encode_utf8(chars) == head + encode_utf8(rest));
    if j == 0 {
        assert((10u32 & 0x7Fu32) as u8 == 10u8) by (bit_vector);
        assert(chars[0] as u32 == 10u32);
        assert(encode_utf8(chars)[0] == 10u8);
    } else {
        assert(rest[j - 1] == '\n');
        lemma_newline_encoded(rest, j - 1);
        let i = choose|i: int| 0 <= i < encode_utf8(rest).len() && encode_utf8(rest)[i] == 10u8;
        assert(encode_utf8(chars)[head.len() + i] == 10u8);
    }
}

/// The characters of `source` that make up the line of `b` containing
/// byte `off`: those whose encoding lies between the line's start and end.
pub open spec fn line_chars(source: Seq<char>, off: int) -> Seq<char> {
    let b = encode_utf8(source);
    let before = decode_utf8(b.subrange(0, line_start(b, off))).len() as int;
    let through = before + decode_utf8(b.subrange(line_start(b, off), line_end(b, off))).len();
    source.subrange(before, through)
}

/// Extract the full source line containing the given byte offset.
///
/// Returns an empty string when `byte_offset` is out of range for `source`.
/// Otherwise the result is the line's own characters: its UTF-8 encoding is
/// exactly the bytes of the line, and it is a piece of `source` holding no
/// line break.
pub fn get_source_line(source: &str, byte_offset: usize) -> (res: String)
    ensures
        res@ == source_line(source.spec_bytes(), byte_offset as int),
        byte_offset <= source.spec_bytes().len() ==> encode_utf8(res@) == source.spec_bytes().subrange(
            line_start(source.spec_bytes(), byte_offset as int),
            line_end(source.spec_bytes(), byte_offset as int),
        ) && res@ == line_chars(source@, byte_offset as int) && !res@.contains('\n'),
{
    let b = source.as_bytes();
    if byte_offset > b.len() {
        return String::new();
    }
    let start = line_start_exec(b, byte_offset);
    let end = line_end_exec(b, byte_offset);
    proof {
        lemma_line_start(b@, byte_offset as int);
        lemma_line_end(b@, byte_offset as int);
        lemma_line_chars(source@, start as int, end as int);
    }
    let sl = &b[start..end];
    let res = utf8_lossy_string(sl);
    proof {
        let lb = b@.subrange(start as int, end as int);
        assert(sl@ == lb);
        vstd::utf8::decode_utf8_encode_utf8(lb);
        assert forall|i: int| start <= i < end implies b@[i] != 10u8 by {
            lemma_no_newline_inside(b@, byte_offset as int, i);
        }
        assert(!res@.contains('\n')) by {
            if res@.contains('\n') {
                let j = choose|j: int| 0 <= j < res@.len() && res@[j] == '\n';
                lemma_newline_encoded(res@, j);
            }
        }
    }
    res
}

pub fn newlines_exec(b: &[u8], k: usize) -> (res: usize)
    requires
        k <= b@.len(),
    ensures
        res == newlines_before(b@, k as int),
        res <= k,
{
    let mut count: usize = 0;
    let mut i: usize = 0;
    while i < k
        invariant
            i <= k <= b@.len(),
            count == newlines_before(b@, i as int),
            count <= i,
        decreases k - i,
    {
        if b[i] == 10u8 {
            count = count + 1;
        }
        i = i + 1;
    }
    count
}

fn chars_exec(b: &[u8], from: usize, to: usize) -> (res: usize)
    requires
        from <= to <= b@.len(),
    ensures
        res == chars_between(b@, from as int, to as int),
{
    let mut count: usize = 0;
    let mut i: usize = from;
    while i < to
        invariant
            from <= i <= to <= b@.len(),
            count == chars_between(b@, from as int, i as int),
            count <= i - from,
        decreases to - i,
    {
        if !(0x80u8 <= b[i] && b[i] <= 0xbfu8) {
            count = count + 1;
        }
        i = i + 1;
    }
    count
}

fn opt_string(o: Option<&str>) -> (res: Option<String>)
    ensures
        crate::types::opt_str_view(res) == opt_str(o),
{
    match o {
        Some(s) => Some(String::from_str(s)),
        None => None,
    }
}

/// Create a [`Finding`] at node `i` of `tree`.
pub fn make_finding(
    rule_id: &str,
    severity: Severity,
    cwe: Option<&str>,
    description: &str,
    tree: &SyntaxTree,
    i: usize,
    source: &str,
) -> (res: Finding)
    requires
        i < tree@.len(),
    ensures
        res@ == finding_at_node(
            rule_id@,
            severity,
            opt_str(cwe),
            description@,
            source.spec_bytes(),
            tree@[i as int],
        ),
        tree@[i as int].start_byte <= source.spec_bytes().len() ==> res.snippet@ == line_chars(
            source@,
            tree@[i as int].start_byte as int,
        ),
{
    let _ = tree.len();
    assert(node_wf(tree@, i as int));
    let node = tree.node(i);
    Finding {
        rule_id: String::from_str(rule_id),
        severity,
        cwe: opt_string(cwe),
        description: String::from_str(description),
        file: String::new(),
        line: node.start_row + 1,
        column: node.start_column + 1,
        end_line: node.end_row + 1,
        end_column: node.end_column + 1,
        snippet: get_source_line(source, node.start_byte),
    }
}

/// Create a [`Finding`] from raw byte offsets (start and end) rather than
/// a syntax node.
pub fn make_finding_from_offsets(
    rule_id: &str,
    severity: Severity,
    cwe: Option<&str>,
    description: &str,
    source: &str,
    start_byte: usize,
    end_byte: usize,
) -> (res: Finding)
    ensures
        res@ == finding_at_offsets(
            rule_id@,
            severity,
            opt_str(cwe),
            description@,
            source.spec_bytes(),
            start_byte as int,
            end_byte as int,
        ),
        res.snippet@ == line_chars(
            source@,
            min_int(start_byte as int, source.spec_bytes().len() as int),
        ),
{
    let b = source.as_bytes();
    let start = if start_byte < b.len() {
        start_byte
    } else {
        b.len()
    };
    let end = if end_byte < b.len() {
        end_byte
    } else {
        b.len()
    };
    let line = newlines_exec(b, start).saturating_add(1);
    let ls = line_start_exec(b, start);
    let column = chars_exec(b, ls, start).saturating_add(1);
    let end_line = newlines_exec(b, end).saturating_add(1);
    let els = line_start_exec(b, end);
    let end_column = chars_exec(b, els, end).saturating_add(1);
    Finding {
        rule_id: String::from_str(rule_id),
        severity,
        cwe: opt_string(cwe),
        description: String::from_str(description),
        file: String::new(),
        line,
        column,
        end_line,
        end_column,
        snippet: get_source_line(source, start),
    }
}

} // verus!

verus! {

/// Whether the child of node `i` under `field` has exactly the text `lit`.
pub fn field_text_is(tree: &SyntaxTree, src: &[u8], i: usize, field: &str, lit: &str) -> (res: bool)
    requires
        i < tree@.len(),
    ensures
        res == (crate::tree::field_text(src@, tree@, i as int, field@) == Some(lit@)),
{
    match tree.field_text(src, i, field) {
        Some(t) => crate::text::chars_eq_str(t.as_slice(), lit),
        None => false,
    }
}

/// The findings of the first `k` nodes gathered so far, extended by those
/// of node `k`.
pub proof fn lemma_collect_step(k: int, f: spec_fn(int) -> Seq<FindingView>, acc: Seq<Finding>, more: Seq<Finding>)
    requires
        k >= 0,
        crate::types::finding_views(acc) == collect_hits(k, f),
        crate::types::finding_views(more) == f(k),
    ensures
        crate::types::finding_views(acc + more) == collect_hits(k + 1, f),
{
    assert(crate::types::finding_views(acc + more) =~= crate::types::finding_views(acc) + crate::types::finding_views(more));
}

} // verus!

verus! {

// ─── Walking the tree ─────────────────────────────────────────────────────

/// What a tree-walking rule does at one node: the findings it reports
/// there, stated and computed.
pub trait NodeCheck {
    /// The findings reported at node `i`.
    spec fn node_hits(&self, src: Seq<u8>, t: Seq<NodeView>, i: int) -> Seq<FindingView>;

    fn hits_at(&self, source: &str, tree: &SyntaxTree, i: usize) -> (res: Vec<Finding>)
        requires
            i < tree@.len(),
        ensures
            crate::types::finding_views(res@) == self.node_hits(source.spec_bytes(), tree@, i as int),
    ;
}

/// Visit every node in pre-order (parents before children, siblings in
/// source order) and gather the findings of each.
pub fn walk_tree<C: NodeCheck>(check: &C, source: &str, tree: &SyntaxTree) -> (res: Vec<Finding>)
    ensures
        crate::types::finding_views(res@) == collect_hits(
            tree@.len() as int,
            |k: int| check.node_hits(source.spec_bytes(), tree@, k),
        ),
{
    let n = tree.len();
    let ghost f = |k: int| check.node_hits(source.spec_bytes(), tree@, k);
    let mut out: Vec<Finding> = Vec::new();
    assert(crate::types::finding_views(out@) =~= collect_hits(0, f));
    let mut i: usize = 0;
    while i < n
        invariant
            n == tree@.len(),
            i <= n,
            f == (|k: int| check.node_hits(source.spec_bytes(), tree@, k)),
            crate::types::finding_views(out@) == collect_hits(i as int, f),
        decreases n - i,
    {
        let mut hs = check.hits_at(source, tree, i);
        proof {
            lemma_collect_step(i as int, f, out@, hs@);
        }
        out.append(&mut hs);
        i = i + 1;
    }
    out
}

} // verus!

verus! {

// ─── Calls ────────────────────────────────────────────────────────────────

/// The text of the `function` field of node `i` when it is of the given
/// call kind.
pub open spec fn kind_callee(src: Seq<u8>, t: Seq<NodeView>, i: int, kind: Seq<char>) -> Option<Seq<char>> {
    if t[i].kind == kind {
        crate::tree::field_text(src, t, i, "function"@)
    } else {
        None
    }
}

pub fn kind_callee_exec(tree: &SyntaxTree, src: &[u8], i: usize, kind: &str) -> (res: Option<Vec<char>>)
    requires
        i < tree@.len(),
    ensures
        match res {
            Some(v) => kind_callee(src@, tree@, i as int, kind@) == Some(v@),
            None => kind_callee(src@, tree@, i as int, kind@) is None,
        },
{
    if tree.kind_is(i, kind) {
        tree.field_text(src, i, "function")
    } else {
        None
    }
}

/// The `n`-th named child of the `arguments` field of node `i`.
pub open spec fn nth_arg(t: Seq<NodeView>, i: int, n: int) -> Option<usize> {
    match crate::tree::field_child(t, i, "arguments"@) {
        Some(a) => crate::tree::named_child(t, a as int, n),
        None => None,
    }
}

pub fn nth_arg_exec(tree: &SyntaxTree, i: usize, n: usize) -> (res: Option<usize>)
    requires
        i < tree@.len(),
    ensures
        res == nth_arg(tree@, i as int, n as int),
        res matches Some(c) ==> c < tree@.len(),
{
    match tree.child_by_field(i, "arguments") {
        Some(a) => tree.named_child(a, n),
        None => None,
    }
}

} // verus!

verus! {

// ─── Walking the tree with remembered lines ───────────────────────────────

/// The findings of the first `n` nodes, and the lines reported so far, for
/// a rule that reports at most once per source line.
pub open spec fn fold_hits(
    n: int,
    f: spec_fn(int, Seq<usize>) -> (Seq<FindingView>, Seq<usize>),
) -> (Seq<FindingView>, Seq<usize>)
    decreases n,
{
    if n <= 0 {
        (Seq::empty(), Seq::empty())
    } else {
        let prev = fold_hits(n - 1, f);
        let step = f(n - 1, prev.1);
        (prev.0 + step.0, step.1)
    }
}

/// What a rule that remembers the lines it has reported does at one node.
pub trait LineCheck {
    /// The findings at node `i` and the reported lines afterwards, given
    /// those reported before.
    spec fn node_step(&self, src: Seq<u8>, t: Seq<NodeView>, i: int, seen: Seq<usize>) -> (
        Seq<FindingView>,
        Seq<usize>,
    );

    fn step_at(&self, source: &str, tree: &SyntaxTree, i: usize, seen: &mut Vec<usize>) -> (res: Vec<Finding>)
        requires
            i < tree@.len(),
        ensures
            (crate::types::finding_views(res@), final(seen)@) == self.node_step(
                source.spec_bytes(),
                tree@,
                i as int,
                old(seen)@,
            ),
    ;
}

/// Visit every node in pre-order, threading the set of reported lines.
pub fn walk_tree_lines<C: LineCheck>(check: &C, source: &str, tree: &SyntaxTree) -> (res: Vec<Finding>)
    ensures
        crate::types::finding_views(res@) == fold_hits(
            tree@.len() as int,
            |k: int, seen: Seq<usize>| check.node_step(source.spec_bytes(), tree@, k, seen),
        ).0,
{
    let n = tree.len();
    let ghost f = |k: int, seen: Seq<usize>| check.node_step(source.spec_bytes(), tree@, k, seen);
    let mut out: Vec<Finding> = Vec::new();
    let mut seen: Vec<usize> = Vec::new();
    assert(crate::types::finding_views(out@) =~= fold_hits(0, f).0);
    assert(seen@ =~= fold_hits(0, f).1);
    let mut i: usize = 0;
    while i < n
        invariant
            n == tree@.len(),
            i <= n,
            f == (|k: int, seen: Seq<usize>| check.node_step(source.spec_bytes(), tree@, k, seen)),
            crate::types::finding_views(out@) == fold_hits(i as int, f).0,
            seen@ == fold_hits(i as int, f).1,
        decreases n - i,
    {
        let ghost before = out@;
        let mut hs = check.step_at(source, tree, i, &mut seen);
        let ghost more = hs@;
        out.append(&mut hs);
        assert(crate::types::finding_views(out@) =~= crate::types::finding_views(before)
            + crate::types::finding_views(more));
        i = i + 1;
    }
    out
}

/// Whether `line` is among the reported lines.
pub fn line_seen(seen: &Vec<usize>, line: usize) -> (res: bool)
    ensures
        res == seen@.contains(line),
{
    let mut k: usize = 0;
    while k < seen.len()
        invariant
            k <= seen@.len(),
            forall|j: int| 0 <= j < k ==> seen@[j] != line,
        decreases seen@.len() - k,
    {
        if seen[k] == line {
            assert(seen@[k as int] == line);
            return true;
        }
        k = k + 1;
    }
    false
}

} // verus!

verus! {

/// The text of a regular-expression match, given by its byte range.
pub open spec fn match_text(src: Seq<u8>, m: (usize, usize)) -> Seq<char> {
    utf8_lossy(src.subrange(m.0 as int, m.1 as int))
}

pub fn match_text_exec(source: &str, m: (usize, usize)) -> (res: Vec<char>)
    requires
        m.0 <= m.1 <= source.spec_bytes().len(),
    ensures
        res@ == match_text(source.spec_bytes(), m),
{
    let b = source.as_bytes();
    let s = utf8_lossy_string(&b[m.0..m.1]);
    crate::text::chars_of(s.as_str())
}

} // verus!

verus! {

/// Every finding a node gives is among the findings of a walk that covers
/// that node.
pub proof fn lemma_collect_hits_keeps(n: int, f: spec_fn(int) -> Seq<FindingView>, k: int, j: int)
    requires
        0 <= k < n,
        0 <= j < f(k).len(),
    ensures
        collect_hits(n, f).contains(f(k)[j]),
    decreases n,
{
    let prev = collect_hits(n - 1, f);
    assert(collect_hits(n, f) == prev + f(n - 1));
    if k == n - 1 {
        assert((prev + f(n - 1))[prev.len() + j] == f(k)[j]);
    } else {
        lemma_collect_hits_keeps(n - 1, f, k, j);
        let m = choose|m: int| 0 <= m < prev.len() && prev[m] == f(k)[j];
        assert((prev + f(n - 1))[m] == f(k)[j]);
    }
}

} // verus!
