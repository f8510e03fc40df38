//! Declaring more sanitizers never adds a flow to what the Go taint
//! engine reports: every sink it reports with the larger set of
//! sanitizers it also reports with the smaller one.

use vstd::prelude::*;
use crate::rules::go_taint::{
    analyze, analyze_all, analyze_function, apply_assign, assign_all, assign_each, build_summaries,
    call_findings, expr_taint, first_taint_of, function_defs, identifier_texts, initial_state,
    is_sanitizer_call, leftmost_identifier, list_taint, literal_taint, match_source, match_source_from,
    param_source_from, resolve_opt, return_taint_from, sanitizer_hit, seed_decl, seed_upto, sink_match,
    source_hit, step, summarize_function, summary_taint, text_of, walk, walk_ret, Ctx, TaintFindingView,
};
use crate::rules::name_log::{log_get, LogView};
use crate::tree::{field_child, field_text, named_children};

verus! {

/// `c2` reads the same tree, text, aliases, sources and sinks as `c`, and
/// declares every sanitizer of `c` (and maybe more).
pub open spec fn more_sanitizers(c: Ctx, c2: Ctx) -> bool {
    &&& c2.src == c.src
    &&& c2.t == c.t
    &&& c2.aliases == c.aliases
    &&& c2.spec.sources == c.spec.sources
    &&& c2.spec.sinks == c.spec.sinks
    &&& forall|k: int| 0 <= k < c.spec.sanitizers.len() ==> c2.spec.sanitizers.contains(#[trigger] c.spec.sanitizers[k])
}

/// Every name that `small` taints, `big` taints too.
pub open spec fn log_covers(big: LogView, small: LogView) -> bool {
    forall|k: Seq<char>| #[trigger] log_get(small, k) is Some ==> log_get(big, k) is Some
}

/// Some flow of `big` reports the sink that `f` reports.
pub open spec fn sink_found(big: Seq<TaintFindingView>, f: TaintFindingView) -> bool {
    exists|j: int|
        0 <= j < big.len() && #[trigger] big[j].sink_start_byte == f.sink_start_byte && big[j].sink_end_byte
            == f.sink_end_byte
}

/// Every sink position of `small` is one of `big`.
pub open spec fn sinks_covered(small: Seq<TaintFindingView>, big: Seq<TaintFindingView>) -> bool {
    forall|i: int| 0 <= i < small.len() ==> sink_found(big, #[trigger] small[i])
}

proof fn lemma_covered_concat(
    a: Seq<TaintFindingView>,
    b: Seq<TaintFindingView>,
    a2: Seq<TaintFindingView>,
    b2: Seq<TaintFindingView>,
)
    requires
        sinks_covered(a2, a),
        sinks_covered(b2, b),
    ensures
        sinks_covered(a2 + b2, a + b),
{
    assert forall|i: int| 0 <= i < (a2 + b2).len() implies sink_found(a + b, #[trigger] (a2 + b2)[i]) by {
        if i < a2.len() {
            assert((a2 + b2)[i] == a2[i]);
            assert(sink_found(a, a2[i]));
            let j = choose|j: int|
                0 <= j < a.len() && #[trigger] a[j].sink_start_byte == a2[i].sink_start_byte && a[j].sink_end_byte
                    == a2[i].sink_end_byte;
            assert((a + b)[j] == a[j]);
        } else {
            let i2 = i - a2.len();
            assert((a2 + b2)[i] == b2[i2]);
            assert(sink_found(b, b2[i2]));
            let j = choose|j: int|
                0 <= j < b.len() && #[trigger] b[j].sink_start_byte == b2[i2].sink_start_byte && b[j].sink_end_byte
                    == b2[i2].sink_end_byte;
            assert((a + b)[a.len() + j] == b[j]);
        }
    }
}

proof fn lemma_covers_push(big: LogView, small: LogView, key: Seq<char>, v: Option<Seq<char>>, v2: Option<Seq<char>>)
    requires
        log_covers(big, small),
        v2 is Some ==> v is Some,
    ensures
        log_covers(big.push((key, v)), small.push((key, v2))),
{
    assert(big.push((key, v)).drop_last() =~= big);
    assert(small.push((key, v2)).drop_last() =~= small);
    assert forall|k: Seq<char>| #[trigger] log_get(small.push((key, v2)), k) is Some implies log_get(
        big.push((key, v)),
        k,
    ) is Some by {
        if k != key {
            assert(log_get(small.push((key, v2)), k) == log_get(small, k));
            assert(log_get(big.push((key, v)), k) == log_get(big, k));
        }
    }
}

// ─── What does not read the sanitizers is the same in both ────────────────

proof fn lemma_leftmost_same(c: Ctx, c2: Ctx, i: int)
    requires
        more_sanitizers(c, c2),
    ensures
        leftmost_identifier(c2, i) == leftmost_identifier(c, i),
    decreases c.t.len() - i,
{
    if 0 <= i < c.t.len() {
        match field_child(c.t, i, "operand"@) {
            Some(o) => if i < o < c.t.len() {
                lemma_leftmost_same(c, c2, o as int);
            },
            None => {},
        }
    }
}

proof fn lemma_match_source_same(c: Ctx, c2: Ctx, i: int, k: int)
    requires
        more_sanitizers(c, c2),
    ensures
        match_source_from(c2, i, k) == match_source_from(c, i, k),
    decreases c.spec.sources.len() - k,
{
    lemma_leftmost_same(c, c2, i);
    if 0 <= k < c.spec.sources.len() {
        lemma_match_source_same(c, c2, i, k + 1);
        assert(source_hit(c2, i, c2.spec.sources[k]) == source_hit(c, i, c.spec.sources[k]));
    }
}

proof fn lemma_sink_match_same(c: Ctx, c2: Ctx, r: Seq<char>, f: Seq<char>, k: int)
    requires
        more_sanitizers(c, c2),
    ensures
        sink_match(c2, r, f, k) == sink_match(c, r, f, k),
    decreases c.spec.sinks.len() - k,
{
    if 0 <= k < c.spec.sinks.len() {
        lemma_sink_match_same(c, c2, r, f, k + 1);
    }
}

proof fn lemma_param_source_same(c: Ctx, c2: Ctx, name: Seq<char>, k: int)
    requires
        more_sanitizers(c, c2),
    ensures
        param_source_from(c2, name, k) == param_source_from(c, name, k),
    decreases c.spec.sources.len() - k,
{
    if 0 <= k < c.spec.sources.len() {
        lemma_param_source_same(c, c2, name, k + 1);
    }
}

proof fn lemma_identifier_texts_same(c: Ctx, c2: Ctx, xs: Seq<usize>, k: int)
    requires
        more_sanitizers(c, c2),
    ensures
        identifier_texts(c2, xs, k) == identifier_texts(c, xs, k),
    decreases k,
{
    if k > 0 {
        lemma_identifier_texts_same(c, c2, xs, k - 1);
    }
}

proof fn lemma_seed_decl_same(c: Ctx, c2: Ctx, st: LogView, x: int, m: int)
    requires
        more_sanitizers(c, c2),
    ensures
        seed_decl(c2, st, x, m) == seed_decl(c, st, x, m),
    decreases m,
{
    if m > 0 {
        lemma_seed_decl_same(c, c2, st, x, m - 1);
        let y = c.t[x].children[m - 1] as int;
        lemma_param_source_same(c, c2, text_of(c, y), 0);
    }
}

proof fn lemma_seed_upto_same(c: Ctx, c2: Ctx, params: int, k: int)
    requires
        more_sanitizers(c, c2),
    ensures
        seed_upto(c2, params, k) == seed_upto(c, params, k),
    decreases k,
{
    if k > 0 {
        lemma_seed_upto_same(c, c2, params, k - 1);
        let prev = seed_upto(c, params, k - 1);
        let x = c.t[params].children[k - 1] as int;
        lemma_seed_decl_same(c, c2, prev, x, c.t[x].children.len() as int);
    }
}

proof fn lemma_initial_state_same(c: Ctx, c2: Ctx, f: int)
    requires
        more_sanitizers(c, c2),
    ensures
        initial_state(c2, f) == initial_state(c, f),
{
    match field_child(c.t, f, "parameters"@) {
        Some(p) => lemma_seed_upto_same(c, c2, p as int, c.t[p as int].children.len() as int),
        None => {},
    }
}

proof fn lemma_function_defs_same(c: Ctx, c2: Ctx, j: int, end: int)
    requires
        more_sanitizers(c, c2),
    ensures
        function_defs(c2, j, end) == function_defs(c, j, end),
    decreases end - j,
{
    if 0 <= j < end && j < c.t.len() {
        let nj = c.t[j].subtree_end as int;
        if j < nj <= end {
            lemma_function_defs_same(c, c2, nj, end);
        }
        lemma_function_defs_same(c, c2, j + 1, end);
    }
}

/// A call that `c` sanitizes, `c2` sanitizes too.
proof fn lemma_sanitizer_kept(c: Ctx, c2: Ctx, i: int)
    requires
        more_sanitizers(c, c2),
        is_sanitizer_call(c, i),
    ensures
        is_sanitizer_call(c2, i),
{
    let f = field_text(c.src, c.t, i, "function"@).unwrap();
    let k = choose|k: int| 0 <= k < c.spec.sanitizers.len() && #[trigger] sanitizer_hit(c, f, c.spec.sanitizers[k]);
    let m = c.spec.sanitizers[k];
    assert(c2.spec.sanitizers.contains(m));
    let k2 = choose|k2: int| 0 <= k2 < c2.spec.sanitizers.len() && c2.spec.sanitizers[k2] == m;
    assert(sanitizer_hit(c2, f, c2.spec.sanitizers[k2]));
}

// ─── Taint only shrinks ───────────────────────────────────────────────────

proof fn lemma_summary_mono(c: Ctx, c2: Ctx, sums: LogView, sums2: LogView, f: int)
    requires
        more_sanitizers(c, c2),
        log_covers(sums, sums2),
        summary_taint(c2, sums2, f) is Some,
    ensures
        summary_taint(c, sums, f) is Some,
{
    if c.t[f].kind == "identifier"@ {
        assert(log_get(sums2, text_of(c, f)) is Some);
    } else {
        let ff = field_child(c.t, f, "field"@).unwrap();
        assert(log_get(sums2, text_of(c, ff as int)) is Some);
    }
}

proof fn lemma_expr_mono(c: Ctx, c2: Ctx, st: LogView, st2: LogView, sums: LogView, sums2: LogView, i: int)
    requires
        more_sanitizers(c, c2),
        log_covers(st, st2),
        log_covers(sums, sums2),
        expr_taint(c2, st2, sums2, i) is Some,
    ensures
        expr_taint(c, st, sums, i) is Some,
    decreases c.t.len() - i + 1, 0int,
{
    lemma_match_source_same(c, c2, i, 0);
    let k = c.t[i].kind;
    if match_source(c, i) is Some {
    } else if k == "identifier"@ {
        assert(log_get(st2, text_of(c, i)) is Some);
    } else if k == "selector_expression"@ || k == "index_expression"@ {
        let o = field_child(c.t, i, "operand"@).unwrap();
        lemma_expr_mono(c, c2, st, st2, sums, sums2, o as int);
    } else if k == "binary_expression"@ || k == "parenthesized_expression"@ || k == "unary_expression"@
        || k == "keyed_element"@ {
        lemma_list_mono(c, c2, st, st2, sums, sums2, i, named_children(c.t, i), 0);
    } else if k == "composite_literal"@ {
        lemma_literal_mono(c, c2, st, st2, sums, sums2, i, c.t[i].children, 0);
    } else if k == "call_expression"@ {
        if is_sanitizer_call(c, i) {
            lemma_sanitizer_kept(c, c2, i);
        }
        let a2 = match field_child(c.t, i, "arguments"@) {
            Some(args) => if i < args < c.t.len() {
                list_taint(c2, st2, sums2, args as int, named_children(c.t, args as int), 0)
            } else {
                None
            },
            None => None,
        };
        if a2 is Some {
            let args = field_child(c.t, i, "arguments"@).unwrap();
            lemma_list_mono(c, c2, st, st2, sums, sums2, args as int, named_children(c.t, args as int), 0);
        } else {
            let f = field_child(c.t, i, "function"@).unwrap();
            let m2 = if c.t[f as int].kind == "selector_expression"@ {
                match field_child(c.t, f as int, "operand"@) {
                    Some(o) => if f < o < c.t.len() {
                        expr_taint(c2, st2, sums2, o as int)
                    } else {
                        None
                    },
                    None => None,
                }
            } else {
                None
            };
            if m2 is Some {
                let o = field_child(c.t, f as int, "operand"@).unwrap();
                lemma_expr_mono(c, c2, st, st2, sums, sums2, o as int);
            } else {
                lemma_summary_mono(c, c2, sums, sums2, f as int);
            }
        }
    }
}

proof fn lemma_list_mono(
    c: Ctx,
    c2: Ctx,
    st: LogView,
    st2: LogView,
    sums: LogView,
    sums2: LogView,
    parent: int,
    list: Seq<usize>,
    k: int,
)
    requires
        more_sanitizers(c, c2),
        log_covers(st, st2),
        log_covers(sums, sums2),
        list_taint(c2, st2, sums2, parent, list, k) is Some,
    ensures
        list_taint(c, st, sums, parent, list, k) is Some,
    decreases c.t.len() - parent, list.len() - k,
{
    let x = list[k];
    let r2 = if parent < x < c.t.len() {
        expr_taint(c2, st2, sums2, x as int)
    } else {
        None
    };
    if r2 is Some {
        lemma_expr_mono(c, c2, st, st2, sums, sums2, x as int);
    } else {
        lemma_list_mono(c, c2, st, st2, sums, sums2, parent, list, k + 1);
    }
}

proof fn lemma_literal_mono(
    c: Ctx,
    c2: Ctx,
    st: LogView,
    st2: LogView,
    sums: LogView,
    sums2: LogView,
    parent: int,
    list: Seq<usize>,
    k: int,
)
    requires
        more_sanitizers(c, c2),
        log_covers(st, st2),
        log_covers(sums, sums2),
        literal_taint(c2, st2, sums2, parent, list, k) is Some,
    ensures
        literal_taint(c, st, sums, parent, list, k) is Some,
    decreases c.t.len() - parent, list.len() - k,
{
    let x = list[k];
    let r2 = if parent < x < c.t.len() && c.t[x as int].kind == "literal_value"@ {
        list_taint(c2, st2, sums2, x as int, named_children(c.t, x as int), 0)
    } else {
        None
    };
    if r2 is Some {
        lemma_list_mono(c, c2, st, st2, sums, sums2, x as int, named_children(c.t, x as int), 0);
    } else {
        lemma_literal_mono(c, c2, st, st2, sums, sums2, parent, list, k + 1);
    }
}

proof fn lemma_first_taint_mono(
    c: Ctx,
    c2: Ctx,
    st: LogView,
    st2: LogView,
    sums: LogView,
    sums2: LogView,
    xs: Seq<usize>,
    k: int,
)
    requires
        more_sanitizers(c, c2),
        log_covers(st, st2),
        log_covers(sums, sums2),
        first_taint_of(c2, st2, sums2, xs, k) is Some,
    ensures
        first_taint_of(c, st, sums, xs, k) is Some,
    decreases xs.len() - k,
{
    if expr_taint(c2, st2, sums2, xs[k] as int) is Some {
        lemma_expr_mono(c, c2, st, st2, sums, sums2, xs[k] as int);
    } else {
        lemma_first_taint_mono(c, c2, st, st2, sums, sums2, xs, k + 1);
    }
}

// ─── States stay covered ──────────────────────────────────────────────────

proof fn lemma_assign_each_covers(
    c: Ctx,
    c2: Ctx,
    st0: LogView,
    st02: LogView,
    sums: LogView,
    sums2: LogView,
    acc: LogView,
    acc2: LogView,
    lhs: Seq<Seq<char>>,
    rhs: Seq<usize>,
    k: int,
)
    requires
        more_sanitizers(c, c2),
        log_covers(st0, st02),
        log_covers(sums, sums2),
        log_covers(acc, acc2),
        lhs.len() == rhs.len(),
    ensures
        log_covers(assign_each(c, st0, sums, acc, lhs, rhs, k), assign_each(c2, st02, sums2, acc2, lhs, rhs, k)),
    decreases lhs.len() - k,
{
    if 0 <= k < lhs.len() {
        let v = expr_taint(c, st0, sums, rhs[k] as int);
        let v2 = expr_taint(c2, st02, sums2, rhs[k] as int);
        if v2 is Some {
            lemma_expr_mono(c, c2, st0, st02, sums, sums2, rhs[k] as int);
        }
        lemma_covers_push(acc, acc2, lhs[k], v, v2);
        lemma_assign_each_covers(c, c2, st0, st02, sums, sums2, acc.push((lhs[k], v)), acc2.push((lhs[k], v2)), lhs, rhs, k + 1);
    }
}

proof fn lemma_assign_all_covers(
    acc: LogView,
    acc2: LogView,
    lhs: Seq<Seq<char>>,
    v: Option<Seq<char>>,
    v2: Option<Seq<char>>,
    k: int,
)
    requires
        log_covers(acc, acc2),
        v2 is Some ==> v is Some,
    ensures
        log_covers(assign_all(acc, lhs, v, k), assign_all(acc2, lhs, v2, k)),
    decreases lhs.len() - k,
{
    if 0 <= k < lhs.len() {
        lemma_covers_push(acc, acc2, lhs[k], v, v2);
        lemma_assign_all_covers(acc.push((lhs[k], v)), acc2.push((lhs[k], v2)), lhs, v, v2, k + 1);
    }
}

proof fn lemma_apply_assign_covers(
    c: Ctx,
    c2: Ctx,
    st: LogView,
    st2: LogView,
    sums: LogView,
    sums2: LogView,
    lhs: Seq<Seq<char>>,
    rhs: Seq<usize>,
)
    requires
        more_sanitizers(c, c2),
        log_covers(st, st2),
        log_covers(sums, sums2),
    ensures
        log_covers(apply_assign(c, st, sums, lhs, rhs), apply_assign(c2, st2, sums2, lhs, rhs)),
{
    if lhs.len() == rhs.len() {
        lemma_assign_each_covers(c, c2, st, st2, sums, sums2, st, st2, lhs, rhs, 0);
    } else {
        let v = first_taint_of(c, st, sums, rhs, 0);
        let v2 = first_taint_of(c2, st2, sums2, rhs, 0);
        if v2 is Some {
            lemma_first_taint_mono(c, c2, st, st2, sums, sums2, rhs, 0);
        }
        lemma_assign_all_covers(st, st2, lhs, v, v2, 0);
    }
}

proof fn lemma_step_covers(c: Ctx, c2: Ctx, st: LogView, st2: LogView, sums: LogView, sums2: LogView, i: int)
    requires
        more_sanitizers(c, c2),
        log_covers(st, st2),
        log_covers(sums, sums2),
    ensures
        log_covers(step(c, st, sums, i), step(c2, st2, sums2, i)),
{
    let k = c.t[i].kind;
    if k == "short_var_declaration"@ || k == "assignment_statement"@ {
        match (field_child(c.t, i, "left"@), field_child(c.t, i, "right"@)) {
            (Some(l), Some(r)) => {
                if c.t[l as int].kind == "expression_list"@ {
                    let nc = named_children(c.t, l as int);
                    lemma_identifier_texts_same(c, c2, nc, nc.len() as int);
                    let names = identifier_texts(c, nc, nc.len() as int);
                    let rhs = if c.t[r as int].kind == "expression_list"@ {
                        named_children(c.t, r as int)
                    } else {
                        seq![r as usize]
                    };
                    lemma_apply_assign_covers(c, c2, st, st2, sums, sums2, names, rhs);
                }
            },
            _ => {},
        }
    } else if k == "var_spec"@ {
        match field_child(c.t, i, "value"@) {
            Some(v) => {
                let ch = c.t[i].children;
                lemma_identifier_texts_same(c, c2, ch, ch.len() as int);
                let names = identifier_texts(c, ch, ch.len() as int);
                lemma_apply_assign_covers(c, c2, st, st2, sums, sums2, names, named_children(c.t, v as int));
            },
            None => {},
        }
    }
}

// ─── Flows only shrink ────────────────────────────────────────────────────

proof fn lemma_call_findings_covered(c: Ctx, c2: Ctx, st: LogView, st2: LogView, sums: LogView, sums2: LogView, i: int)
    requires
        more_sanitizers(c, c2),
        log_covers(st, st2),
        log_covers(sums, sums2),
    ensures
        sinks_covered(call_findings(c2, st2, sums2, i), call_findings(c, st, sums, i)),
{
    if c.t[i].kind == "call_expression"@ {
        match field_text(c.src, c.t, i, "function"@) {
            None => {},
            Some(raw) => {
                let resolved = resolve_opt(c.aliases, raw);
                lemma_sink_match_same(c, c2, resolved, crate::text::after_last(resolved, '.'), 0);
                match field_child(c.t, i, "arguments"@) {
                    None => {},
                    Some(args) => {
                        let xs = named_children(c.t, args as int);
                        if first_taint_of(c2, st2, sums2, xs, 0) is Some {
                            lemma_first_taint_mono(c, c2, st, st2, sums, sums2, xs, 0);
                            let a = call_findings(c, st, sums, i);
                            let a2 = call_findings(c2, st2, sums2, i);
                            if a2.len() > 0 {
                                assert(a.len() == 1 && a2.len() == 1);
                                assert(a2[0].sink_start_byte == a[0].sink_start_byte);
                                assert(sink_found(a, a2[0]));
                            }
                        }
                    },
                }
            },
        }
    }
}

proof fn lemma_walk_covered(c: Ctx, c2: Ctx, sums: LogView, sums2: LogView, j: int, end: int, st: LogView, st2: LogView)
    requires
        more_sanitizers(c, c2),
        log_covers(st, st2),
        log_covers(sums, sums2),
    ensures
        log_covers(walk(c, sums, j, end, st).0, walk(c2, sums2, j, end, st2).0),
        sinks_covered(walk(c2, sums2, j, end, st2).1, walk(c, sums, j, end, st).1),
    decreases end - j,
{
    if j < 0 || j >= end || j >= c.t.len() {
    } else if c.t[j].kind == "func_literal"@ {
        let nj = c.t[j].subtree_end as int;
        if j < nj <= end {
            lemma_walk_covered(c, c2, sums, sums2, nj, end, st, st2);
        }
    } else {
        lemma_call_findings_covered(c, c2, st, st2, sums, sums2, j);
        lemma_step_covers(c, c2, st, st2, sums, sums2, j);
        lemma_walk_covered(c, c2, sums, sums2, j + 1, end, step(c, st, sums, j), step(c2, st2, sums2, j));
        lemma_covered_concat(
            call_findings(c, st, sums, j),
            walk(c, sums, j + 1, end, step(c, st, sums, j)).1,
            call_findings(c2, st2, sums2, j),
            walk(c2, sums2, j + 1, end, step(c2, st2, sums2, j)).1,
        );
    }
}

proof fn lemma_return_taint_mono(c: Ctx, c2: Ctx, st: LogView, st2: LogView, xs: Seq<usize>, k: int)
    requires
        more_sanitizers(c, c2),
        log_covers(st, st2),
        return_taint_from(c2, st2, xs, k) is Some,
    ensures
        return_taint_from(c, st, xs, k) is Some,
    decreases xs.len() - k,
{
    let e: LogView = Seq::empty();
    assert(log_covers(e, e));
    let x = xs[k] as int;
    let r2 = if c.t[x].kind == "expression_list"@ {
        first_taint_of(c2, st2, e, named_children(c.t, x), 0)
    } else {
        expr_taint(c2, st2, e, x)
    };
    if r2 is Some {
        if c.t[x].kind == "expression_list"@ {
            lemma_first_taint_mono(c, c2, st, st2, e, e, named_children(c.t, x), 0);
        } else {
            lemma_expr_mono(c, c2, st, st2, e, e, x);
        }
    } else {
        lemma_return_taint_mono(c, c2, st, st2, xs, k + 1);
    }
}

proof fn lemma_walk_ret_mono(
    c: Ctx,
    c2: Ctx,
    j: int,
    end: int,
    st: LogView,
    st2: LogView,
    ret: Option<Seq<char>>,
    ret2: Option<Seq<char>>,
)
    requires
        more_sanitizers(c, c2),
        log_covers(st, st2),
        ret2 is Some ==> ret is Some,
    ensures
        walk_ret(c2, j, end, st2, ret2) is Some ==> walk_ret(c, j, end, st, ret) is Some,
    decreases end - j,
{
    if j < 0 || j >= end || j >= c.t.len() {
    } else if c.t[j].kind == "func_literal"@ {
        let nj = c.t[j].subtree_end as int;
        if j < nj <= end {
            lemma_walk_ret_mono(c, c2, nj, end, st, st2, ret, ret2);
        }
    } else {
        let e: LogView = Seq::empty();
        assert(log_covers(e, e));
        let r = if c.t[j].kind == "return_statement"@ && ret is None {
            return_taint_from(c, st, named_children(c.t, j), 0)
        } else {
            ret
        };
        let r2 = if c.t[j].kind == "return_statement"@ && ret2 is None {
            return_taint_from(c2, st2, named_children(c.t, j), 0)
        } else {
            ret2
        };
        if r2 is Some && ret2 is None && ret is None {
            lemma_return_taint_mono(c, c2, st, st2, named_children(c.t, j), 0);
        }
        lemma_step_covers(c, c2, st, st2, e, e, j);
        lemma_walk_ret_mono(c, c2, j + 1, end, step(c, st, e, j), step(c2, st2, e, j), r, r2);
    }
}

proof fn lemma_summaries_cover(c: Ctx, c2: Ctx, defs: Seq<usize>, k: int)
    requires
        more_sanitizers(c, c2),
    ensures
        log_covers(build_summaries(c, defs, k), build_summaries(c2, defs, k)),
    decreases k,
{
    if k <= 0 {
    } else {
        lemma_summaries_cover(c, c2, defs, k - 1);
        let f = defs[k - 1] as int;
        match field_text(c.src, c.t, f, "name"@) {
            Some(name) => {
                lemma_initial_state_same(c, c2, f);
                let s = summarize_function(c, f);
                let s2 = summarize_function(c2, f);
                match field_child(c.t, f, "body"@) {
                    Some(b) => {
                        let st = initial_state(c, f);
                        lemma_walk_ret_mono(c, c2, b as int, c.t[b as int].subtree_end as int, st, st, None, None);
                    },
                    None => {},
                }
                lemma_covers_push(build_summaries(c, defs, k - 1), build_summaries(c2, defs, k - 1), name, s, s2);
            },
            None => {},
        }
    }
}

proof fn lemma_analyze_all_covered(c: Ctx, c2: Ctx, sums: LogView, sums2: LogView, defs: Seq<usize>, k: int)
    requires
        more_sanitizers(c, c2),
        log_covers(sums, sums2),
    ensures
        sinks_covered(analyze_all(c2, sums2, defs, k), analyze_all(c, sums, defs, k)),
    decreases k,
{
    if k > 0 {
        lemma_analyze_all_covered(c, c2, sums, sums2, defs, k - 1);
        let f = defs[k - 1] as int;
        lemma_initial_state_same(c, c2, f);
        match field_child(c.t, f, "body"@) {
            Some(b) => {
                let st = initial_state(c, f);
                lemma_walk_covered(c, c2, sums, sums2, b as int, c.t[b as int].subtree_end as int, st, st);
            },
            None => {},
        }
        lemma_covered_concat(
            analyze_all(c, sums, defs, k - 1),
            analyze_function(c, sums, f),
            analyze_all(c2, sums2, defs, k - 1),
            analyze_function(c2, sums2, f),
        );
    }
}

/// Sanitizers only ever remove flows: with more sanitizers declared (same
/// tree, text, aliases, sources and sinks), every sink the engine reports
/// is one it also reports with fewer.
pub proof fn law_more_sanitizers_fewer_flows(c: Ctx, c2: Ctx, root: int)
    requires
        more_sanitizers(c, c2),
    ensures
        sinks_covered(analyze(c2, root), analyze(c, root)),
{
    let end = c.t[root].subtree_end as int;
    lemma_function_defs_same(c, c2, root, end);
    let defs = function_defs(c, root, end);
    lemma_summaries_cover(c, c2, defs, defs.len() as int);
    lemma_analyze_all_covered(
        c,
        c2,
        build_summaries(c, defs, defs.len() as int),
        build_summaries(c2, defs, defs.len() as int),
        defs,
        defs.len() as int,
    );
}

} // verus!
