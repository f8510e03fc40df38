//! From a Semgrep rule as written to a rule that runs: the matcher a rule's
//! clauses describe, its path filter, and the rules a file yields (one per
//! language it names).

use vstd::prelude::*;
use crate::pattern::{compile_or_error, copy_pattern, regex_new_error, Pattern};
use crate::rules::semgrep_compat::{
    opt_string, CompiledMatcher, CompiledNegative, CompiledPattern, MetavariableRegexConstraint,
    PatternClause, PatternEntry, SemgrepMetavariableRegexClause, SemgrepRuleYaml,
};
use crate::glob::{
    builder_add, builder_build, builder_globs, builder_new, glob_new, glob_new_error, globset_build_error,
    globset_copy, globset_globs, globset_is_match, globset_matches,
};
use crate::rules::semgrep_compat::{
    cwe_of, extract_cwe, language_of_name, map_language, map_severity, severity_of, SemgrepFile,
};
use crate::rules::semgrep_compat::{join_slash, normalize_rule_path, path_components, SemgrepPaths};
use vstd::string::*;
use crate::rules::common::opt_str;
use crate::rules::semgrep_compat::{match_pattern_in_tree, match_views, matcher_results, pattern_tree, MatchView};
use crate::rules::Rule;
use crate::tree::SyntaxTree;
use crate::types::{finding_views, Finding, FindingView, Language, Severity};

verus! {

// ─── Plans ────────────────────────────────────────────────────────────────

/// The matching strategy of a rule before its patterns are parsed for a
/// language: patterns as text, regular expressions compiled.
pub enum PatternMatcher {
    /// One structural pattern.
    Single(String),
    /// A regular expression over the source text.
    Regex(Pattern),
    /// Any of these (OR).
    Either(Vec<PatternMatcher>),
    /// All positives must match, negatives must not (AND).
    Combined {
        positives: Vec<PatternMatcher>,
        negatives: Vec<NegativeMatcher>,
        inside: Option<String>,
        not_inside: Option<String>,
        metavariable_regexes: Vec<MetavariableRegexConstraint>,
    },
}

/// A clause whose matches are removed from the results.
pub enum NegativeMatcher {
    Pattern(String),
    Regex(Pattern),
}

/// What a matcher says, as plain values: the texts of its patterns and of
/// its regular expressions.
pub enum PlanView {
    Single(Seq<char>),
    Regex(Seq<char>),
    Either(Seq<PlanView>),
    Combined {
        positives: Seq<PlanView>,
        negatives: Seq<NegativeView>,
        inside: Option<Seq<char>>,
        not_inside: Option<Seq<char>>,
        constraints: Seq<(Seq<char>, Seq<char>)>,
    },
}

pub enum NegativeView {
    Pattern(Seq<char>),
    Regex(Seq<char>),
}

pub open spec fn negative_view(n: NegativeMatcher) -> NegativeView {
    match n {
        NegativeMatcher::Pattern(s) => NegativeView::Pattern(s@),
        NegativeMatcher::Regex(r) => NegativeView::Regex(r.spec_source()),
    }
}

pub open spec fn negative_views(v: Seq<NegativeMatcher>) -> Seq<NegativeView> {
    v.map_values(|n: NegativeMatcher| negative_view(n))
}

pub open spec fn constraint_view(c: MetavariableRegexConstraint) -> (Seq<char>, Seq<char>) {
    (c.metavariable@, c.regex.spec_source())
}

pub open spec fn constraint_views(v: Seq<MetavariableRegexConstraint>) -> Seq<(Seq<char>, Seq<char>)> {
    v.map_values(|c: MetavariableRegexConstraint| constraint_view(c))
}

pub open spec fn plan_view(p: PatternMatcher) -> PlanView
    decreases p, 0int,
{
    match p {
        PatternMatcher::Single(s) => PlanView::Single(s@),
        PatternMatcher::Regex(r) => PlanView::Regex(r.spec_source()),
        PatternMatcher::Either(ps) => PlanView::Either(plan_views(ps@, ps@.len() as int)),
        PatternMatcher::Combined { positives, negatives, inside, not_inside, metavariable_regexes } => {
            PlanView::Combined {
                positives: plan_views(positives@, positives@.len() as int),
                negatives: negative_views(negatives@),
                inside: opt_string(inside),
                not_inside: opt_string(not_inside),
                constraints: constraint_views(metavariable_regexes@),
            }
        },
    }
}

/// The views of the first `k` plans.
pub open spec fn plan_views(ps: Seq<PatternMatcher>, k: int) -> Seq<PlanView>
    decreases ps, k,
{
    if k <= 0 || k > ps.len() {
        Seq::empty()
    } else {
        plan_views(ps, k - 1).push(plan_view(ps[k - 1]))
    }
}

pub proof fn lemma_plan_views_prefix(ps: Seq<PatternMatcher>, x: PatternMatcher, k: int)
    requires
        0 <= k <= ps.len(),
    ensures
        plan_views(ps.push(x), k) == plan_views(ps, k),
    decreases k,
{
    if k > 0 {
        lemma_plan_views_prefix(ps, x, k - 1);
        assert(ps.push(x)[k - 1] == ps[k - 1]);
    }
}

pub proof fn lemma_plan_views_push(ps: Seq<PatternMatcher>, x: PatternMatcher)
    ensures
        plan_views(ps.push(x), ps.len() as int + 1) == plan_views(ps, ps.len() as int).push(plan_view(x)),
{
    lemma_plan_views_prefix(ps, x, ps.len() as int);
    assert(ps.push(x)[ps.len() as int] == x);
}

pub proof fn lemma_plan_views_len(ps: Seq<PatternMatcher>, k: int)
    requires
        0 <= k <= ps.len(),
    ensures
        plan_views(ps, k).len() == k,
        forall|j: int| 0 <= j < k ==> plan_views(ps, k)[j] == plan_view(#[trigger] ps[j]),
    decreases k,
{
    if k > 0 {
        lemma_plan_views_len(ps, k - 1);
    }
}

// ─── Regular expressions of a rule ────────────────────────────────────────

pub open spec fn regex_error_text(p: Seq<char>, e: Seq<char>) -> Seq<char> {
    "Invalid pattern-regex '"@ + p + "': "@ + e
}

/// The expression text when `regex` accepts it, else the error a rule
/// reports for it.
pub open spec fn compiled_regex(p: Seq<char>) -> Result<Seq<char>, Seq<char>> {
    match regex_new_error(p) {
        None => Ok(p),
        Some(e) => Err(regex_error_text(p, e)),
    }
}

/// Compiles a regular expression of a rule, naming it in the error.
pub fn compile_regex(pattern: &str) -> (res: Result<Pattern, String>)
    ensures
        match res {
            Ok(r) => compiled_regex(pattern@) == Ok::<Seq<char>, Seq<char>>(r.spec_source()),
            Err(e) => compiled_regex(pattern@) == Err::<Seq<char>, Seq<char>>(e@),
        },
{
    match compile_or_error(pattern) {
        Ok(r) => Ok(r),
        Err(e) => {
            let mut msg = String::new();
            msg.append("Invalid pattern-regex '");
            msg.append(pattern);
            msg.append("': ");
            msg.append(e.as_str());
            Err(msg)
        },
    }
}

/// `acc` with the expression appended as a positive, when there is one.
pub open spec fn with_regex(acc: Seq<PlanView>, r: Option<String>) -> Result<Seq<PlanView>, Seq<char>> {
    match r {
        None => Ok(acc),
        Some(r) => match compiled_regex(r@) {
            Ok(s) => Ok(acc.push(PlanView::Regex(s))),
            Err(m) => Err(m),
        },
    }
}

/// `acc` with the pattern appended as a positive, when there is one.
pub open spec fn with_single(acc: Seq<PlanView>, p: Option<String>) -> Seq<PlanView> {
    match p {
        Some(p) => acc.push(PlanView::Single(p@)),
        None => acc,
    }
}

fn push_single(pos: &mut Vec<PatternMatcher>, p: &Option<String>)
    ensures
        plan_views(final(pos)@, final(pos)@.len() as int) == with_single(
            plan_views(old(pos)@, old(pos)@.len() as int),
            *p,
        ),
{
    if let Some(s) = p {
        let m = PatternMatcher::Single(s.clone());
        proof {
            lemma_plan_views_push(pos@, m);
        }
        pos.push(m);
    }
}

fn push_regex(pos: &mut Vec<PatternMatcher>, r: &Option<String>) -> (res: Result<(), String>)
    ensures
        match with_regex(plan_views(old(pos)@, old(pos)@.len() as int), *r) {
            Ok(v) => res is Ok && plan_views(final(pos)@, final(pos)@.len() as int) == v,
            Err(m) => res matches Err(e) && e@ == m,
        },
{
    if let Some(s) = r {
        match compile_regex(s.as_str()) {
            Ok(re) => {
                let m = PatternMatcher::Regex(re);
                proof {
                    lemma_plan_views_push(pos@, m);
                }
                pos.push(m);
                Ok(())
            },
            Err(e) => Err(e),
        }
    } else {
        Ok(())
    }
}

// ─── pattern-either ───────────────────────────────────────────────────────

/// The alternatives of the first `k` entries of a `pattern-either`, or the
/// error of the first expression that does not compile.
pub open spec fn either_plan(es: Seq<PatternEntry>, k: int) -> Result<Seq<PlanView>, Seq<char>>
    decreases k,
{
    if k <= 0 || k > es.len() {
        Ok(Seq::empty())
    } else {
        match either_plan(es, k - 1) {
            Err(m) => Err(m),
            Ok(acc) => with_regex(with_single(acc, es[k - 1].pattern), es[k - 1].pattern_regex),
        }
    }
}

/// The alternatives of a `pattern-either` list, in order.
pub fn build_either_matchers(entries: &[PatternEntry]) -> (res: Result<Vec<PatternMatcher>, String>)
    ensures
        match either_plan(entries@, entries@.len() as int) {
            Ok(v) => res matches Ok(ms) && plan_views(ms@, ms@.len() as int) == v,
            Err(m) => res matches Err(e) && e@ == m,
        },
{
    let mut matchers: Vec<PatternMatcher> = Vec::new();
    let n = entries.len();
    let mut i: usize = 0;
    while i < n
        invariant
            n == entries@.len(),
            i <= n,
            either_plan(entries@, i as int) == Ok::<Seq<PlanView>, Seq<char>>(
                plan_views(matchers@, matchers@.len() as int),
            ),
        decreases n - i,
    {
        let e = &entries[i];
        push_single(&mut matchers, &e.pattern);
        match push_regex(&mut matchers, &e.pattern_regex) {
            Ok(()) => {},
            Err(m) => {
                proof {
                    lemma_either_plan_err(entries@, i as int + 1, m@);
                }
                return Err(m);
            },
        }
        i = i + 1;
    }
    Ok(matchers)
}

/// Once an entry fails, the whole list fails with its error.
pub proof fn lemma_either_plan_err(es: Seq<PatternEntry>, k: int, m: Seq<char>)
    requires
        0 < k <= es.len(),
        either_plan(es, k) == Err::<Seq<PlanView>, Seq<char>>(m),
    ensures
        either_plan(es, es.len() as int) == Err::<Seq<PlanView>, Seq<char>>(m),
    decreases es.len() - k,
{
    if k < es.len() {
        lemma_either_plan_err(es, k + 1, m);
    }
}

// ─── patterns: a list of clauses ──────────────────────────────────────────

/// The parts of a `patterns` list gathered so far.
pub struct Gathered {
    pub positives: Seq<PlanView>,
    pub negatives: Seq<NegativeView>,
    pub inside: Option<Seq<char>>,
    pub not_inside: Option<Seq<char>>,
    pub constraints: Seq<(Seq<char>, Seq<char>)>,
}

pub open spec fn neg_with_single(acc: Seq<NegativeView>, p: Option<String>) -> Seq<NegativeView> {
    match p {
        Some(p) => acc.push(NegativeView::Pattern(p@)),
        None => acc,
    }
}

pub open spec fn neg_with_regex(acc: Seq<NegativeView>, r: Option<String>) -> Result<Seq<NegativeView>, Seq<char>> {
    match r {
        None => Ok(acc),
        Some(r) => match compiled_regex(r@) {
            Ok(s) => Ok(acc.push(NegativeView::Regex(s))),
            Err(m) => Err(m),
        },
    }
}

pub open spec fn with_either(acc: Seq<PlanView>, e: Option<Vec<PatternEntry>>) -> Result<Seq<PlanView>, Seq<char>> {
    match e {
        None => Ok(acc),
        Some(es) => match either_plan(es@, es@.len() as int) {
            Ok(ms) => Ok(acc.push(PlanView::Either(ms))),
            Err(m) => Err(m),
        },
    }
}

pub open spec fn with_constraint(
    acc: Seq<(Seq<char>, Seq<char>)>,
    c: Option<SemgrepMetavariableRegexClause>,
) -> Result<Seq<(Seq<char>, Seq<char>)>, Seq<char>> {
    match c {
        None => Ok(acc),
        Some(c) => match compiled_regex(c.regex@) {
            Ok(s) => Ok(acc.push((c.metavariable@, s))),
            Err(m) => Err(m),
        },
    }
}

pub open spec fn or_keep(acc: Option<Seq<char>>, p: Option<String>) -> Option<Seq<char>> {
    match p {
        Some(p) => Some(p@),
        None => acc,
    }
}

/// One clause applied to what was gathered: its pattern and expression as
/// positives, its negations, its `inside` / `not-inside` (a later one
/// replaces an earlier one), its alternatives and its metavariable
/// constraint, in that order; the first expression that does not compile
/// is the error.
pub open spec fn clause_step(g: Gathered, c: PatternClause) -> Result<Gathered, Seq<char>> {
    match with_regex(with_single(g.positives, c.pattern), c.pattern_regex) {
        Err(m) => Err(m),
        Ok(p2) => match neg_with_regex(neg_with_single(g.negatives, c.pattern_not), c.pattern_not_regex) {
            Err(m) => Err(m),
            Ok(n2) => match with_either(p2, c.pattern_either) {
                Err(m) => Err(m),
                Ok(p3) => match with_constraint(g.constraints, c.metavariable_regex) {
                    Err(m) => Err(m),
                    Ok(c2) => Ok(
                        Gathered {
                            positives: p3,
                            negatives: n2,
                            inside: or_keep(g.inside, c.pattern_inside),
                            not_inside: or_keep(g.not_inside, c.pattern_not_inside),
                            constraints: c2,
                        },
                    ),
                },
            },
        },
    }
}

pub open spec fn nothing_gathered() -> Gathered {
    Gathered {
        positives: Seq::empty(),
        negatives: Seq::empty(),
        inside: None,
        not_inside: None,
        constraints: Seq::empty(),
    }
}

/// The first `k` clauses of a `patterns` list applied in order.
pub open spec fn clauses_plan(cs: Seq<PatternClause>, k: int) -> Result<Gathered, Seq<char>>
    decreases k,
{
    if k <= 0 || k > cs.len() {
        Ok(nothing_gathered())
    } else {
        match clauses_plan(cs, k - 1) {
            Err(m) => Err(m),
            Ok(g) => clause_step(g, cs[k - 1]),
        }
    }
}

pub open spec fn gathered_of(
    pos: Seq<PatternMatcher>,
    neg: Seq<NegativeMatcher>,
    inside: Option<String>,
    not_inside: Option<String>,
    mrs: Seq<MetavariableRegexConstraint>,
) -> Gathered {
    Gathered {
        positives: plan_views(pos, pos.len() as int),
        negatives: negative_views(neg),
        inside: opt_string(inside),
        not_inside: opt_string(not_inside),
        constraints: constraint_views(mrs),
    }
}

pub proof fn lemma_clauses_plan_err(cs: Seq<PatternClause>, k: int, m: Seq<char>)
    requires
        0 < k <= cs.len(),
        clauses_plan(cs, k) == Err::<Gathered, Seq<char>>(m),
    ensures
        clauses_plan(cs, cs.len() as int) == Err::<Gathered, Seq<char>>(m),
    decreases cs.len() - k,
{
    if k < cs.len() {
        lemma_clauses_plan_err(cs, k + 1, m);
    }
}

impl MetavariableRegexConstraint {
    /// The constraint of a `metavariable-regex` clause.
    pub fn from_yaml(clause: &SemgrepMetavariableRegexClause) -> (res: Result<Self, String>)
        ensures
            match compiled_regex(clause.regex@) {
                Ok(s) => res matches Ok(c) && constraint_view(c) == (clause.metavariable@, s),
                Err(m) => res matches Err(e) && e@ == m,
            },
    {
        match compile_regex(clause.regex.as_str()) {
            Ok(regex) => Ok(MetavariableRegexConstraint { metavariable: clause.metavariable.clone(), regex }),
            Err(e) => Err(e),
        }
    }
}

fn push_negative_single(neg: &mut Vec<NegativeMatcher>, p: &Option<String>)
    ensures
        negative_views(final(neg)@) == neg_with_single(negative_views(old(neg)@), *p),
{
    if let Some(s) = p {
        let m = NegativeMatcher::Pattern(s.clone());
        neg.push(m);
        assert(negative_views(neg@) =~= negative_views(old(neg)@).push(negative_view(m)));
    }
}

fn push_negative_regex(neg: &mut Vec<NegativeMatcher>, r: &Option<String>) -> (res: Result<(), String>)
    ensures
        match neg_with_regex(negative_views(old(neg)@), *r) {
            Ok(v) => res is Ok && negative_views(final(neg)@) == v,
            Err(m) => res matches Err(e) && e@ == m,
        },
{
    if let Some(s) = r {
        match compile_regex(s.as_str()) {
            Ok(re) => {
                let m = NegativeMatcher::Regex(re);
                neg.push(m);
                assert(negative_views(neg@) =~= negative_views(old(neg)@).push(negative_view(m)));
                Ok(())
            },
            Err(e) => Err(e),
        }
    } else {
        Ok(())
    }
}

fn push_either(pos: &mut Vec<PatternMatcher>, e: &Option<Vec<PatternEntry>>) -> (res: Result<(), String>)
    ensures
        match with_either(plan_views(old(pos)@, old(pos)@.len() as int), *e) {
            Ok(v) => res is Ok && plan_views(final(pos)@, final(pos)@.len() as int) == v,
            Err(m) => res matches Err(x) && x@ == m,
        },
{
    if let Some(es) = e {
        match build_either_matchers(es.as_slice()) {
            Ok(ms) => {
                let ghost msv = ms@;
                let m = PatternMatcher::Either(ms);
                assert(plan_view(m) == PlanView::Either(plan_views(msv, msv.len() as int)));
                proof {
                    lemma_plan_views_push(pos@, m);
                }
                pos.push(m);
                Ok(())
            },
            Err(x) => Err(x),
        }
    } else {
        Ok(())
    }
}

fn push_constraint(
    mrs: &mut Vec<MetavariableRegexConstraint>,
    c: &Option<SemgrepMetavariableRegexClause>,
) -> (res: Result<(), String>)
    ensures
        match with_constraint(constraint_views(old(mrs)@), *c) {
            Ok(v) => res is Ok && constraint_views(final(mrs)@) == v,
            Err(m) => res matches Err(x) && x@ == m,
        },
{
    if let Some(cl) = c {
        match MetavariableRegexConstraint::from_yaml(cl) {
            Ok(k) => {
                let ghost kv = constraint_view(k);
                mrs.push(k);
                assert(constraint_views(mrs@) =~= constraint_views(old(mrs)@).push(kv));
                Ok(())
            },
            Err(x) => Err(x),
        }
    } else {
        Ok(())
    }
}

fn keep_latest(slot: &mut Option<String>, p: &Option<String>)
    ensures
        opt_string(*final(slot)) == or_keep(opt_string(*old(slot)), *p),
{
    if let Some(s) = p {
        *slot = Some(s.clone());
    }
}

/// Applies one clause of a `patterns` list to the parts gathered so far.
fn apply_clause(
    c: &PatternClause,
    pos: &mut Vec<PatternMatcher>,
    neg: &mut Vec<NegativeMatcher>,
    inside: &mut Option<String>,
    not_inside: &mut Option<String>,
    mrs: &mut Vec<MetavariableRegexConstraint>,
) -> (res: Result<(), String>)
    ensures
        match clause_step(gathered_of(old(pos)@, old(neg)@, *old(inside), *old(not_inside), old(mrs)@), *c) {
            Ok(g) => res is Ok && gathered_of(final(pos)@, final(neg)@, *final(inside), *final(not_inside), final(mrs)@) == g,
            Err(m) => res matches Err(x) && x@ == m,
        },
{
    let ghost g0 = gathered_of(pos@, neg@, *inside, *not_inside, mrs@);
    push_single(pos, &c.pattern);
    match push_regex(pos, &c.pattern_regex) {
        Ok(()) => {},
        Err(x) => return Err(x),
    }
    push_negative_single(neg, &c.pattern_not);
    match push_negative_regex(neg, &c.pattern_not_regex) {
        Ok(()) => {},
        Err(x) => return Err(x),
    }
    keep_latest(inside, &c.pattern_inside);
    keep_latest(not_inside, &c.pattern_not_inside);
    match push_either(pos, &c.pattern_either) {
        Ok(()) => {},
        Err(x) => return Err(x),
    }
    match push_constraint(mrs, &c.metavariable_regex) {
        Ok(()) => {},
        Err(x) => return Err(x),
    }
    Ok(())
}

// ─── The matcher of a rule ────────────────────────────────────────────────

/// The matcher a rule describes, or the error of its first expression that
/// does not compile. A `patterns` list gives a combined matcher. Otherwise
/// the top-level `pattern`, `pattern-regex` and `pattern-either` are the
/// positives and `pattern-not` / `pattern-not-regex` the negatives: a lone
/// positive with nothing else is the matcher itself, positives with
/// anything else combine, and a rule with no positive matches nothing.
pub open spec fn planned(y: SemgrepRuleYaml) -> Result<PlanView, Seq<char>> {
    match y.patterns {
        Some(cs) => match clauses_plan(cs@, cs@.len() as int) {
            Err(m) => Err(m),
            Ok(g) => Ok(
                PlanView::Combined {
                    positives: g.positives,
                    negatives: g.negatives,
                    inside: g.inside,
                    not_inside: g.not_inside,
                    constraints: g.constraints,
                },
            ),
        },
        None => match with_regex(with_single(Seq::empty(), y.pattern), y.pattern_regex) {
            Err(m) => Err(m),
            Ok(p2) => match with_either(p2, y.pattern_either) {
                Err(m) => Err(m),
                Ok(p3) => match neg_with_regex(neg_with_single(Seq::empty(), y.pattern_not), y.pattern_not_regex) {
                    Err(m) => Err(m),
                    Ok(n2) => if p3.len() == 1 && n2.len() == 0 && y.pattern_inside is None
                        && y.pattern_not_inside is None {
                        Ok(p3[0])
                    } else if p3.len() > 0 {
                        Ok(
                            PlanView::Combined {
                                positives: p3,
                                negatives: n2,
                                inside: opt_string(y.pattern_inside),
                                not_inside: opt_string(y.pattern_not_inside),
                                constraints: Seq::empty(),
                            },
                        )
                    } else {
                        Ok(PlanView::Either(Seq::empty()))
                    },
                },
            },
        },
    }
}

/// The matcher of a rule.
pub fn build_matcher(yaml: &SemgrepRuleYaml) -> (res: Result<PatternMatcher, String>)
    ensures
        match planned(*yaml) {
            Ok(v) => res matches Ok(m) && plan_view(m) == v,
            Err(msg) => res matches Err(e) && e@ == msg,
        },
{
    if let Some(clauses) = &yaml.patterns {
        let mut positives: Vec<PatternMatcher> = Vec::new();
        let mut negatives: Vec<NegativeMatcher> = Vec::new();
        let mut inside: Option<String> = None;
        let mut not_inside: Option<String> = None;
        let mut metavariable_regexes: Vec<MetavariableRegexConstraint> = Vec::new();
        let n = clauses.len();
        let mut i: usize = 0;
        proof {
            assert(plan_views(positives@, 0) =~= Seq::<PlanView>::empty());
            assert(negative_views(negatives@) =~= Seq::<NegativeView>::empty());
            assert(constraint_views(metavariable_regexes@) =~= Seq::<(Seq<char>, Seq<char>)>::empty());
            assert(gathered_of(positives@, negatives@, inside, not_inside, metavariable_regexes@)
                == nothing_gathered());
        }
        while i < n
            invariant
                n == clauses@.len(),
                i <= n,
                yaml.patterns == Some(*clauses),
                clauses_plan(clauses@, i as int) == Ok::<Gathered, Seq<char>>(
                    gathered_of(positives@, negatives@, inside, not_inside, metavariable_regexes@),
                ),
            decreases n - i,
        {
            let ghost g = gathered_of(positives@, negatives@, inside, not_inside, metavariable_regexes@);
            assert(clauses_plan(clauses@, i as int + 1) == clause_step(g, clauses@[i as int]));
            match apply_clause(
                &clauses[i],
                &mut positives,
                &mut negatives,
                &mut inside,
                &mut not_inside,
                &mut metavariable_regexes,
            ) {
                Ok(()) => {},
                Err(x) => {
                    proof {
                        lemma_clauses_plan_err(clauses@, i as int + 1, x@);
                    }
                    return Err(x);
                },
            }
            i = i + 1;
        }
        return Ok(PatternMatcher::Combined { positives, negatives, inside, not_inside, metavariable_regexes });
    }
    let mut positives: Vec<PatternMatcher> = Vec::new();
    let mut negatives: Vec<NegativeMatcher> = Vec::new();
    proof {
        assert(plan_views(positives@, 0) =~= Seq::<PlanView>::empty());
        assert(negative_views(negatives@) =~= Seq::<NegativeView>::empty());
    }
    push_single(&mut positives, &yaml.pattern);
    match push_regex(&mut positives, &yaml.pattern_regex) {
        Ok(()) => {},
        Err(x) => return Err(x),
    }
    match push_either(&mut positives, &yaml.pattern_either) {
        Ok(()) => {},
        Err(x) => return Err(x),
    }
    push_negative_single(&mut negatives, &yaml.pattern_not);
    match push_negative_regex(&mut negatives, &yaml.pattern_not_regex) {
        Ok(()) => {},
        Err(x) => return Err(x),
    }
    proof {
        lemma_plan_views_len(positives@, positives@.len() as int);
    }
    if positives.len() == 1 && negatives.len() == 0 && yaml.pattern_inside.is_none()
        && yaml.pattern_not_inside.is_none() {
        let ghost pv = positives@;
        let m = positives.pop().unwrap();
        assert(m == pv[0]);
        return Ok(m);
    }
    if positives.len() > 0 {
        let inside = match &yaml.pattern_inside {
            Some(s) => Some(s.clone()),
            None => None,
        };
        let not_inside = match &yaml.pattern_not_inside {
            Some(s) => Some(s.clone()),
            None => None,
        };
        let metavariable_regexes: Vec<MetavariableRegexConstraint> = Vec::new();
        proof {
            assert(constraint_views(metavariable_regexes@) =~= Seq::<(Seq<char>, Seq<char>)>::empty());
        }
        return Ok(PatternMatcher::Combined { positives, negatives, inside, not_inside, metavariable_regexes });
    }
    let empty: Vec<PatternMatcher> = Vec::new();
    proof {
        assert(plan_views(empty@, 0) =~= Seq::<PlanView>::empty());
    }
    Ok(PatternMatcher::Either(empty))
}

// ─── Parsing the patterns for a language ──────────────────────────────────

pub open spec fn compiled_negative_view(n: CompiledNegative) -> NegativeView {
    match n {
        CompiledNegative::Pattern(cp) => NegativeView::Pattern(cp.text@),
        CompiledNegative::Regex(r) => NegativeView::Regex(r.spec_source()),
    }
}

pub open spec fn compiled_negative_views(v: Seq<CompiledNegative>) -> Seq<NegativeView> {
    v.map_values(|n: CompiledNegative| compiled_negative_view(n))
}

pub open spec fn opt_pattern_text(o: Option<CompiledPattern>) -> Option<Seq<char>> {
    match o {
        Some(cp) => Some(cp.text@),
        None => None,
    }
}

/// What a compiled matcher says, as plain values: the texts its patterns
/// were parsed from and the texts of its regular expressions.
pub open spec fn compiled_view(c: CompiledMatcher) -> PlanView
    decreases c, 0int,
{
    match c {
        CompiledMatcher::Single(cp) => PlanView::Single(cp.text@),
        CompiledMatcher::Regex(r) => PlanView::Regex(r.spec_source()),
        CompiledMatcher::Either(cs) => PlanView::Either(compiled_views(cs@, cs@.len() as int)),
        CompiledMatcher::Combined { positives, negatives, inside, not_inside, metavariable_regexes } => {
            PlanView::Combined {
                positives: compiled_views(positives@, positives@.len() as int),
                negatives: compiled_negative_views(negatives@),
                inside: opt_pattern_text(inside),
                not_inside: opt_pattern_text(not_inside),
                constraints: constraint_views(metavariable_regexes@),
            }
        },
    }
}

/// The views of the first `k` compiled matchers.
pub open spec fn compiled_views(cs: Seq<CompiledMatcher>, k: int) -> Seq<PlanView>
    decreases cs, k,
{
    if k <= 0 || k > cs.len() {
        Seq::empty()
    } else {
        compiled_views(cs, k - 1).push(compiled_view(cs[k - 1]))
    }
}

pub proof fn lemma_compiled_views_push(cs: Seq<CompiledMatcher>, x: CompiledMatcher, k: int)
    requires
        0 <= k <= cs.len(),
    ensures
        compiled_views(cs.push(x), k) == compiled_views(cs, k),
        k == cs.len() ==> compiled_views(cs.push(x), k + 1) == compiled_views(cs, k).push(compiled_view(x)),
    decreases k,
{
    if k > 0 {
        lemma_compiled_views_push(cs, x, k - 1);
        assert(cs.push(x)[k - 1] == cs[k - 1]);
    }
    assert(cs.push(x)[cs.len() as int] == x);
}

/// A pattern compiled for `language` holds the parse of its text with that
/// grammar (none for a language without one).
pub open spec fn pattern_parsed(cp: CompiledPattern, language: Language) -> bool {
    &&& (pattern_tree(&cp) is None <==> (language == Language::Ruby || language == Language::Java
        || language == Language::CSharp))
    &&& (pattern_tree(&cp) matches Some(p) ==> crate::tree::parsed_arena(p, language, cp.text@))
}

pub open spec fn opt_pattern_parsed(o: Option<CompiledPattern>, language: Language) -> bool {
    match o {
        Some(cp) => pattern_parsed(cp, language),
        None => true,
    }
}

/// Every structural pattern of a compiled matcher holds the parse of its
/// text with the grammar of `language`.
pub open spec fn all_parsed(c: CompiledMatcher, language: Language) -> bool
    decreases c, 0int,
{
    match c {
        CompiledMatcher::Single(cp) => pattern_parsed(cp, language),
        CompiledMatcher::Regex(_) => true,
        CompiledMatcher::Either(cs) => all_parsed_upto(cs@, cs@.len() as int, language),
        CompiledMatcher::Combined { positives, negatives, inside, not_inside, .. } => {
            &&& all_parsed_upto(positives@, positives@.len() as int, language)
            &&& forall|i: int|
                0 <= i < negatives@.len() ==> match #[trigger] negatives@[i] {
                    CompiledNegative::Pattern(cp) => pattern_parsed(cp, language),
                    CompiledNegative::Regex(_) => true,
                }
            &&& opt_pattern_parsed(inside, language)
            &&& opt_pattern_parsed(not_inside, language)
        },
    }
}

/// The first `k` compiled matchers all hold parses of their patterns.
pub open spec fn all_parsed_upto(cs: Seq<CompiledMatcher>, k: int, language: Language) -> bool
    decreases cs, k,
{
    if k <= 0 || k > cs.len() {
        true
    } else {
        all_parsed_upto(cs, k - 1, language) && all_parsed(cs[k - 1], language)
    }
}

proof fn lemma_all_parsed_push(cs: Seq<CompiledMatcher>, x: CompiledMatcher, k: int, language: Language)
    requires
        0 <= k <= cs.len(),
    ensures
        all_parsed_upto(cs.push(x), k, language) == all_parsed_upto(cs, k, language),
        k == cs.len() ==> all_parsed_upto(cs.push(x), k + 1, language) == (all_parsed_upto(cs, k, language)
            && all_parsed(x, language)),
    decreases k,
{
    if k > 0 {
        lemma_all_parsed_push(cs, x, k - 1, language);
        assert(cs.push(x)[k - 1] == cs[k - 1]);
    }
    assert(cs.push(x)[cs.len() as int] == x);
    if k == cs.len() {
        assert(all_parsed_upto(cs.push(x), k + 1, language) == (all_parsed_upto(cs.push(x), k, language)
            && all_parsed(cs.push(x)[k], language)));
    }
}

fn compile_pattern_text(p: &Option<String>, language: Language) -> (res: Option<CompiledPattern>)
    ensures
        opt_pattern_text(res) == opt_string(*p),
        opt_pattern_parsed(res, language),
{
    match p {
        Some(s) => Some(CompiledPattern::new(s.as_str(), language)),
        None => None,
    }
}

fn copy_constraint(c: &MetavariableRegexConstraint) -> (res: MetavariableRegexConstraint)
    ensures
        constraint_view(res) == constraint_view(*c),
{
    MetavariableRegexConstraint { metavariable: c.metavariable.clone(), regex: copy_pattern(&c.regex) }
}

/// The matcher with each of its patterns parsed with the grammar of the
/// language; regular expressions are shared as they are.
pub fn compile_matcher(plan: &PatternMatcher, language: Language) -> (res: CompiledMatcher)
    ensures
        compiled_view(res) == plan_view(*plan),
        all_parsed(res, language),
    decreases plan,
{
    match plan {
        PatternMatcher::Single(s) => CompiledMatcher::Single(CompiledPattern::new(s.as_str(), language)),
        PatternMatcher::Regex(r) => CompiledMatcher::Regex(copy_pattern(r)),
        PatternMatcher::Either(ps) => {
            let mut out: Vec<CompiledMatcher> = Vec::new();
            let mut k: usize = 0;
            while k < ps.len()
                invariant
                    k <= ps@.len(),
                    *plan == PatternMatcher::Either(*ps),
                    out@.len() == k,
                    compiled_views(out@, k as int) == plan_views(ps@, k as int),
                    all_parsed_upto(out@, k as int, language),
                decreases ps@.len() - k,
            {
                assert(decreases_to!(*plan => (*plan)->Either_0));
                assert((*plan)->Either_0 == *ps);
                assert(decreases_to!(*ps => ps@));
                assert(decreases_to!(ps@ => ps@[k as int]));
                let c = compile_matcher(&ps[k], language);
                proof {
                    lemma_compiled_views_push(out@, c, k as int);
                    lemma_all_parsed_push(out@, c, k as int, language);
                }
                out.push(c);
                k = k + 1;
            }
            CompiledMatcher::Either(out)
        },
        PatternMatcher::Combined { positives, negatives, inside, not_inside, metavariable_regexes } => {
            let mut pos: Vec<CompiledMatcher> = Vec::new();
            let mut k: usize = 0;
            while k < positives.len()
                invariant
                    k <= positives@.len(),
                    *plan == (PatternMatcher::Combined {
                        positives: *positives,
                        negatives: *negatives,
                        inside: *inside,
                        not_inside: *not_inside,
                        metavariable_regexes: *metavariable_regexes,
                    }),
                    pos@.len() == k,
                    compiled_views(pos@, k as int) == plan_views(positives@, k as int),
                    all_parsed_upto(pos@, k as int, language),
                decreases positives@.len() - k,
            {
                assert(decreases_to!(*plan => (*plan)->positives));
                assert((*plan)->positives == *positives);
                assert(decreases_to!(*positives => positives@));
                assert(decreases_to!(positives@ => positives@[k as int]));
                let c = compile_matcher(&positives[k], language);
                proof {
                    lemma_compiled_views_push(pos@, c, k as int);
                    lemma_all_parsed_push(pos@, c, k as int, language);
                }
                pos.push(c);
                k = k + 1;
            }
            let mut neg: Vec<CompiledNegative> = Vec::new();
            let mut j: usize = 0;
            while j < negatives.len()
                invariant
                    j <= negatives@.len(),
                    compiled_negative_views(neg@) == negative_views(negatives@).take(j as int),
                    forall|i: int|
                        0 <= i < neg@.len() ==> match #[trigger] neg@[i] {
                            CompiledNegative::Pattern(cp) => pattern_parsed(cp, language),
                            CompiledNegative::Regex(_) => true,
                        },
                decreases negatives@.len() - j,
            {
                let n = match &negatives[j] {
                    NegativeMatcher::Pattern(s) => CompiledNegative::Pattern(
                        CompiledPattern::new(s.as_str(), language),
                    ),
                    NegativeMatcher::Regex(r) => CompiledNegative::Regex(copy_pattern(r)),
                };
                assert(compiled_negative_view(n) == negative_view(negatives@[j as int]));
                let ghost before = neg@;
                neg.push(n);
                assert(compiled_negative_views(neg@) =~= compiled_negative_views(before).push(
                    compiled_negative_view(n),
                ));
                assert(negative_views(negatives@).take(j as int + 1) =~= negative_views(negatives@).take(
                    j as int,
                ).push(negative_view(negatives@[j as int])));
                j = j + 1;
            }
            let mut mrs: Vec<MetavariableRegexConstraint> = Vec::new();
            let mut c: usize = 0;
            while c < metavariable_regexes.len()
                invariant
                    c <= metavariable_regexes@.len(),
                    constraint_views(mrs@) == constraint_views(metavariable_regexes@).take(c as int),
                decreases metavariable_regexes@.len() - c,
            {
                let x = copy_constraint(&metavariable_regexes[c]);
                let ghost before = mrs@;
                mrs.push(x);
                assert(constraint_views(mrs@) =~= constraint_views(before).push(constraint_view(x)));
                assert(constraint_views(metavariable_regexes@).take(c as int + 1) =~= constraint_views(
                    metavariable_regexes@,
                ).take(c as int).push(constraint_view(metavariable_regexes@[c as int])));
                c = c + 1;
            }
            assert(negative_views(negatives@).take(negatives@.len() as int) =~= negative_views(negatives@));
            assert(constraint_views(metavariable_regexes@).take(metavariable_regexes@.len() as int)
                =~= constraint_views(metavariable_regexes@));
            CompiledMatcher::Combined {
                positives: pos,
                negatives: neg,
                inside: compile_pattern_text(inside, language),
                not_inside: compile_pattern_text(not_inside, language),
                metavariable_regexes: mrs,
            }
        },
    }
}

// ─── Path filters ─────────────────────────────────────────────────────────

pub open spec fn strings_view(v: Seq<String>) -> Seq<Seq<char>> {
    v.map_values(|s: String| s@)
}

pub open spec fn glob_error_text(p: Seq<char>, e: Seq<char>) -> Seq<char> {
    "Invalid paths glob '"@ + p + "': "@ + e
}

/// The error of the first of the first `k` globs that `globset` refuses.
pub open spec fn first_glob_error(ps: Seq<Seq<char>>, k: int) -> Option<Seq<char>>
    decreases k,
{
    if k <= 0 || k > ps.len() {
        None
    } else {
        match first_glob_error(ps, k - 1) {
            Some(m) => Some(m),
            None => match glob_new_error(ps[k - 1]) {
                Some(e) => Some(glob_error_text(ps[k - 1], e)),
                None => None,
            },
        }
    }
}

/// The set a list of globs gives: none for an empty list, else the set of
/// all of them, or the error of the first glob refused or of the build.
pub open spec fn globset_plan(ps: Seq<Seq<char>>) -> Result<Option<Seq<Seq<char>>>, Seq<char>> {
    if ps.len() == 0 {
        Ok(None)
    } else {
        match first_glob_error(ps, ps.len() as int) {
            Some(m) => Err(m),
            None => match globset_build_error(ps) {
                Some(e) => Err("Failed to build paths globset: "@ + e),
                None => Ok(Some(ps)),
            },
        }
    }
}

pub open spec fn opt_globs(o: Option<globset::GlobSet>) -> Option<Seq<Seq<char>>> {
    match o {
        Some(s) => Some(globset_globs(s)),
        None => None,
    }
}

pub proof fn lemma_first_glob_error_stays(ps: Seq<Seq<char>>, k: int, m: Seq<char>)
    requires
        0 < k <= ps.len(),
        first_glob_error(ps, k) == Some(m),
    ensures
        first_glob_error(ps, ps.len() as int) == Some(m),
    decreases ps.len() - k,
{
    if k < ps.len() {
        lemma_first_glob_error_stays(ps, k + 1, m);
    }
}

/// One set of all the globs, or `None` for an empty list.
pub fn compile_globset(patterns: &Vec<String>) -> (res: Result<Option<globset::GlobSet>, String>)
    ensures
        match globset_plan(strings_view(patterns@)) {
            Ok(o) => res matches Ok(r) && opt_globs(r) == o,
            Err(m) => res matches Err(e) && e@ == m,
        },
{
    let ghost ps = strings_view(patterns@);
    if patterns.len() == 0 {
        return Ok(None);
    }
    let mut builder = builder_new();
    let n = patterns.len();
    let mut i: usize = 0;
    while i < n
        invariant
            n == patterns@.len(),
            ps == strings_view(patterns@),
            i <= n,
            builder_globs(builder) == ps.take(i as int),
            first_glob_error(ps, i as int) is None,
        decreases n - i,
    {
        assert(ps[i as int] == patterns@[i as int]@);
        match glob_new(patterns[i].as_str()) {
            Ok(g) => {
                builder_add(&mut builder, g);
                assert(ps.take(i as int + 1) =~= ps.take(i as int).push(ps[i as int]));
            },
            Err(e) => {
                let mut msg = String::new();
                msg.append("Invalid paths glob '");
                msg.append(patterns[i].as_str());
                msg.append("': ");
                msg.append(e.as_str());
                proof {
                    lemma_first_glob_error_stays(ps, i as int + 1, msg@);
                }
                return Err(msg);
            },
        }
        i = i + 1;
    }
    assert(ps.take(n as int) =~= ps);
    match builder_build(&builder) {
        Ok(set) => Ok(Some(set)),
        Err(e) => {
            let mut msg = String::new();
            msg.append("Failed to build paths globset: ");
            msg.append(e.as_str());
            Err(msg)
        },
    }
}

/// Whether a path passes the filter: it must match the included globs
/// (when there are any) and must not match the excluded ones, both tried
/// on the path's components joined with `/`.
pub open spec fn filter_admits(
    included: Option<Seq<Seq<char>>>,
    excluded: Option<Seq<Seq<char>>>,
    path: Seq<char>,
) -> bool {
    let n = join_slash(path_components(path));
    &&& match included {
        Some(g) => globset_is_match(g, n),
        None => true,
    }
    &&& !match excluded {
        Some(g) => globset_is_match(g, n),
        None => false,
    }
}

/// The `paths` restriction of a rule.
pub struct PathFilter {
    included: Option<globset::GlobSet>,
    excluded: Option<globset::GlobSet>,
}

fn copy_globset(o: &Option<globset::GlobSet>) -> (res: Option<globset::GlobSet>)
    ensures
        opt_globs(res) == opt_globs(*o),
{
    match o {
        Some(s) => Some(globset_copy(s)),
        None => None,
    }
}

impl PathFilter {
    /// The globs a path must match, when there are any.
    pub closed spec fn spec_included(&self) -> Option<Seq<Seq<char>>> {
        opt_globs(self.included)
    }

    /// The globs a path must not match, when there are any.
    pub closed spec fn spec_excluded(&self) -> Option<Seq<Seq<char>>> {
        opt_globs(self.excluded)
    }

    /// The filter of a rule's `paths`, or `None` when the rule has none.
    pub fn from_yaml(paths: Option<&SemgrepPaths>) -> (res: Result<Option<PathFilter>, String>)
        ensures
            match paths {
                None => res matches Ok(None),
                Some(p) => match globset_plan(strings_view(p.included@)) {
                    Err(m) => res matches Err(e) && e@ == m,
                    Ok(i) => match globset_plan(strings_view(p.excluded@)) {
                        Err(m) => res matches Err(e) && e@ == m,
                        Ok(x) => res matches Ok(Some(f)) && f.spec_included() == i && f.spec_excluded() == x,
                    },
                },
            },
    {
        match paths {
            None => Ok(None),
            Some(p) => {
                let included = match compile_globset(&p.included) {
                    Ok(o) => o,
                    Err(e) => return Err(e),
                };
                let excluded = match compile_globset(&p.excluded) {
                    Ok(o) => o,
                    Err(e) => return Err(e),
                };
                Ok(Some(PathFilter { included, excluded }))
            },
        }
    }

    /// Whether the filter lets the rule run on the file at `path`.
    pub fn matches(&self, path: &str) -> (res: bool)
        ensures
            res == filter_admits(self.spec_included(), self.spec_excluded(), path@),
    {
        let normalized = normalize_rule_path(path);
        if let Some(inc) = &self.included {
            if !globset_matches(inc, normalized.as_str()) {
                return false;
            }
        }
        if let Some(exc) = &self.excluded {
            if globset_matches(exc, normalized.as_str()) {
                return false;
            }
        }
        true
    }

    /// A copy of the filter, with the same globs.
    pub fn copy(&self) -> (res: PathFilter)
        ensures
            res.spec_included() == self.spec_included(),
            res.spec_excluded() == self.spec_excluded(),
    {
        PathFilter { included: copy_globset(&self.included), excluded: copy_globset(&self.excluded) }
    }
}

// ─── Rules ────────────────────────────────────────────────────────────────

/// A compiled Semgrep-compatible rule for one language.
pub struct SemgrepRule {
    pub id: String,
    pub message: String,
    pub severity: Severity,
    pub lang: Language,
    pub cwe: Option<String>,
    pub matcher: CompiledMatcher,
    pub path_filter: Option<PathFilter>,
}

/// What a compiled rule is, as plain values.
pub struct SemgrepRuleView {
    pub id: Seq<char>,
    pub message: Seq<char>,
    pub severity: Severity,
    pub lang: Language,
    pub cwe: Option<Seq<char>>,
    pub plan: PlanView,
    pub filter: Option<(Option<Seq<Seq<char>>>, Option<Seq<Seq<char>>>)>,
}

pub open spec fn filter_view(f: Option<PathFilter>) -> Option<(Option<Seq<Seq<char>>>, Option<Seq<Seq<char>>>)> {
    match f {
        Some(f) => Some((f.spec_included(), f.spec_excluded())),
        None => None,
    }
}

impl View for SemgrepRule {
    type V = SemgrepRuleView;

    open spec fn view(&self) -> SemgrepRuleView {
        SemgrepRuleView {
            id: self.id@,
            message: self.message@,
            severity: self.severity,
            lang: self.lang,
            cwe: opt_string(self.cwe),
            plan: compiled_view(self.matcher),
            filter: filter_view(self.path_filter),
        }
    }
}

pub open spec fn rule_views(v: Seq<SemgrepRule>) -> Seq<SemgrepRuleView> {
    v.map_values(|r: SemgrepRule| r@)
}

/// The finding a rule reports for one match.
pub open spec fn match_finding(r: SemgrepRule, m: MatchView) -> FindingView {
    FindingView {
        rule_id: r.id@,
        severity: r.severity,
        cwe: opt_string(r.cwe),
        description: r.message@,
        file: Seq::empty(),
        line: m.line as nat,
        column: m.column as nat,
        end_line: m.end_line as nat,
        end_column: m.end_column as nat,
        snippet: m.snippet,
    }
}

impl Rule for SemgrepRule {
    fn id(&self) -> (res: &str)
        ensures
            res@ == self.id@,
    {
        self.id.as_str()
    }

    fn severity(&self) -> (res: Severity)
        ensures
            res == self.severity,
    {
        self.severity
    }

    fn cwe(&self) -> (res: Option<&str>)
        ensures
            opt_str(res) == opt_string(self.cwe),
    {
        match &self.cwe {
            Some(c) => Some(c.as_str()),
            None => None,
        }
    }

    fn description(&self) -> (res: &str)
        ensures
            res@ == self.message@,
    {
        self.message.as_str()
    }

    fn language(&self) -> (res: Language)
        ensures
            res == self.lang,
    {
        self.lang
    }

    fn applies_to_path(&self, path: &str) -> (res: bool)
        ensures
            res == match self.path_filter {
                Some(f) => filter_admits(f.spec_included(), f.spec_excluded(), path@),
                None => true,
            },
    {
        match &self.path_filter {
            Some(f) => f.matches(path),
            None => true,
        }
    }

    fn check(&self, source: &str, tree: &SyntaxTree) -> (res: Vec<Finding>)
        ensures
            finding_views(res@) == matcher_results(self.matcher, source.spec_bytes(), tree@, source@).map_values(
                |m: MatchView| match_finding(*self, m),
            ),
    {
        let matches = match_pattern_in_tree(&self.matcher, tree, source);
        let ghost mv = match_views(matches@);
        let mut findings: Vec<Finding> = Vec::new();
        let mut k: usize = 0;
        while k < matches.len()
            invariant
                k <= matches@.len(),
                mv == match_views(matches@),
                finding_views(findings@) == mv.take(k as int).map_values(|m: MatchView| match_finding(*self, m)),
            decreases matches@.len() - k,
        {
            let m = &matches[k];
            let f = Finding {
                rule_id: self.id.clone(),
                severity: self.severity,
                cwe: match &self.cwe {
                    Some(c) => Some(c.clone()),
                    None => None,
                },
                description: self.message.clone(),
                file: String::new(),
                line: m.line,
                column: m.column,
                end_line: m.end_line,
                end_column: m.end_column,
                snippet: m.snippet.clone(),
            };
            assert(mv[k as int] == m@);
            assert(f@ == match_finding(*self, mv[k as int]));
            let ghost before = findings@;
            findings.push(f);
            assert(finding_views(findings@) =~= finding_views(before).push(f@));
            assert(mv.take(k as int + 1) =~= mv.take(k as int).push(mv[k as int]));
            assert(mv.take(k as int + 1).map_values(|m: MatchView| match_finding(*self, m)) =~= mv.take(
                k as int,
            ).map_values(|m: MatchView| match_finding(*self, m)).push(match_finding(*self, mv[k as int])));
            k = k + 1;
        }
        assert(mv.take(matches@.len() as int) =~= mv);
        findings
    }
}

// ─── Rules of a file ──────────────────────────────────────────────────────

/// The languages among the first `k` names, in order of first mention,
/// each once; names of no known language are skipped.
pub open spec fn mapped_languages(names: Seq<Seq<char>>, k: int) -> Seq<Language>
    decreases k,
{
    if k <= 0 || k > names.len() {
        Seq::empty()
    } else {
        let acc = mapped_languages(names, k - 1);
        match language_of_name(names[k - 1]) {
            Some(l) => if acc.contains(l) {
                acc
            } else {
                acc.push(l)
            },
            None => acc,
        }
    }
}

pub open spec fn filter_plan(paths: Option<SemgrepPaths>) -> Result<
    Option<(Option<Seq<Seq<char>>>, Option<Seq<Seq<char>>>)>,
    Seq<char>,
> {
    match paths {
        None => Ok(None),
        Some(p) => match globset_plan(strings_view(p.included@)) {
            Err(m) => Err(m),
            Ok(i) => match globset_plan(strings_view(p.excluded@)) {
                Err(m) => Err(m),
                Ok(x) => Ok(Some((i, x))),
            },
        },
    }
}

pub open spec fn rule_for(
    y: SemgrepRuleYaml,
    plan: PlanView,
    filter: Option<(Option<Seq<Seq<char>>>, Option<Seq<Seq<char>>>)>,
    l: Language,
) -> SemgrepRuleView {
    SemgrepRuleView {
        id: "semgrep/"@ + y.id@,
        message: y.message@,
        severity: severity_of(y.severity),
        lang: l,
        cwe: cwe_of(&y),
        plan,
        filter,
    }
}

/// The rules one rule as written yields: one per language it names, with
/// the id prefixed by `semgrep/`; or the error of its matcher, else of its
/// path filter.
pub open spec fn yaml_rules(y: SemgrepRuleYaml) -> Result<Seq<SemgrepRuleView>, Seq<char>> {
    match planned(y) {
        Err(m) => Err(m),
        Ok(plan) => match filter_plan(y.paths) {
            Err(m) => Err(m),
            Ok(f) => Ok(
                mapped_languages(strings_view(y.languages@), y.languages@.len() as int).map_values(
                    |l: Language| rule_for(y, plan, f, l),
                ),
            ),
        },
    }
}

/// The rules of the first `k` rules of a file, in order, or the first
/// error.
pub open spec fn file_rules(rs: Seq<SemgrepRuleYaml>, k: int) -> Result<Seq<SemgrepRuleView>, Seq<char>>
    decreases k,
{
    if k <= 0 || k > rs.len() {
        Ok(Seq::empty())
    } else {
        match file_rules(rs, k - 1) {
            Err(m) => Err(m),
            Ok(acc) => match yaml_rules(rs[k - 1]) {
                Err(m) => Err(m),
                Ok(v) => Ok(acc + v),
            },
        }
    }
}

pub proof fn lemma_file_rules_err(rs: Seq<SemgrepRuleYaml>, k: int, m: Seq<char>)
    requires
        0 < k <= rs.len(),
        file_rules(rs, k) == Err::<Seq<SemgrepRuleView>, Seq<char>>(m),
    ensures
        file_rules(rs, rs.len() as int) == Err::<Seq<SemgrepRuleView>, Seq<char>>(m),
    decreases rs.len() - k,
{
    if k < rs.len() {
        lemma_file_rules_err(rs, k + 1, m);
    }
}

fn contains_language(v: &Vec<Language>, l: Language) -> (res: bool)
    ensures
        res == v@.contains(l),
{
    let mut k: usize = 0;
    while k < v.len()
        invariant
            k <= v@.len(),
            forall|j: int| 0 <= j < k ==> v@[j] != l,
        decreases v@.len() - k,
    {
        if v[k] == l {
            assert(v@[k as int] == l);
            return true;
        }
        k = k + 1;
    }
    false
}

/// The languages a rule names, each once, in order of first mention.
fn rule_languages(names: &Vec<String>) -> (res: Vec<Language>)
    ensures
        res@ == mapped_languages(strings_view(names@), names@.len() as int),
{
    let ghost ns = strings_view(names@);
    let mut langs: Vec<Language> = Vec::new();
    let n = names.len();
    let mut i: usize = 0;
    while i < n
        invariant
            n == names@.len(),
            ns == strings_view(names@),
            i <= n,
            langs@ == mapped_languages(ns, i as int),
        decreases n - i,
    {
        assert(ns[i as int] == names@[i as int]@);
        match map_language(names[i].as_str()) {
            Some(l) => {
                if !contains_language(&langs, l) {
                    langs.push(l);
                }
            },
            None => {},
        }
        i = i + 1;
    }
    langs
}

fn copy_filter(f: &Option<PathFilter>) -> (res: Option<PathFilter>)
    ensures
        filter_view(res) == filter_view(*f),
{
    match f {
        Some(x) => Some(x.copy()),
        None => None,
    }
}

/// Appends the rules one rule as written yields.
fn compile_yaml_rule(y: &SemgrepRuleYaml, out: &mut Vec<SemgrepRule>) -> (res: Result<(), String>)
    requires
        forall|i: int| 0 <= i < old(out)@.len() ==> all_parsed((#[trigger] old(out)@[i]).matcher, old(out)@[i].lang),
    ensures
        match yaml_rules(*y) {
            Ok(v) => res is Ok && rule_views(final(out)@) == rule_views(old(out)@) + v,
            Err(m) => res matches Err(e) && e@ == m,
        },
        forall|i: int| 0 <= i < final(out)@.len() ==> all_parsed((#[trigger] final(out)@[i]).matcher, final(out)@[i].lang),
{
    let cwe = extract_cwe(y);
    let severity = map_severity(&y.severity);
    let matcher = match build_matcher(y) {
        Ok(m) => m,
        Err(e) => return Err(e),
    };
    let path_filter = match &y.paths {
        Some(p) => PathFilter::from_yaml(Some(p)),
        None => PathFilter::from_yaml(None),
    };
    let path_filter = match path_filter {
        Ok(f) => f,
        Err(e) => return Err(e),
    };
    let ghost plan = plan_view(matcher);
    let ghost fv = filter_view(path_filter);
    assert(filter_plan(y.paths) == Ok::<Option<(Option<Seq<Seq<char>>>, Option<Seq<Seq<char>>>)>, Seq<char>>(fv));
    let langs = rule_languages(&y.languages);
    let mut id = String::new();
    id.append("semgrep/");
    id.append(y.id.as_str());
    let ghost out0 = rule_views(out@);
    let mut j: usize = 0;
    while j < langs.len()
        invariant
            j <= langs@.len(),
            plan == plan_view(matcher),
            fv == filter_view(path_filter),
            id@ == "semgrep/"@ + y.id@,
            opt_string(cwe) == cwe_of(y),
            severity == severity_of(y.severity),
            rule_views(out@) == out0 + langs@.take(j as int).map_values(|l: Language| rule_for(*y, plan, fv, l)),
            forall|i: int| 0 <= i < out@.len() ==> all_parsed((#[trigger] out@[i]).matcher, out@[i].lang),
        decreases langs@.len() - j,
    {
        let l = langs[j];
        let r = SemgrepRule {
            id: id.clone(),
            message: y.message.clone(),
            severity,
            lang: l,
            cwe: match &cwe {
                Some(c) => Some(c.clone()),
                None => None,
            },
            matcher: compile_matcher(&matcher, l),
            path_filter: copy_filter(&path_filter),
        };
        assert(r@ == rule_for(*y, plan, fv, l));
        let ghost before = out@;
        out.push(r);
        assert(forall|i: int| 0 <= i < before.len() ==> out@[i] == before[i]);
        assert(rule_views(out@) =~= rule_views(before).push(r@));
        assert(langs@.take(j as int + 1) =~= langs@.take(j as int).push(l));
        assert(langs@.take(j as int + 1).map_values(|l: Language| rule_for(*y, plan, fv, l)) =~= langs@.take(
            j as int,
        ).map_values(|l: Language| rule_for(*y, plan, fv, l)).push(rule_for(*y, plan, fv, l)));
        j = j + 1;
    }
    assert(langs@.take(langs@.len() as int) =~= langs@);
    Ok(())
}

/// The rules of a Semgrep file: for each rule as written, one rule per
/// language it names; the first rule that does not compile is the error.
pub fn compile_semgrep_file(file: &SemgrepFile) -> (res: Result<Vec<SemgrepRule>, String>)
    ensures
        match file_rules(file.rules@, file.rules@.len() as int) {
            Ok(v) => res matches Ok(rs) && rule_views(rs@) == v,
            Err(m) => res matches Err(e) && e@ == m,
        },
        res matches Ok(rs) ==> forall|i: int| 0 <= i < rs@.len() ==> all_parsed((#[trigger] rs@[i]).matcher, rs@[i].lang),
{
    let mut rules: Vec<SemgrepRule> = Vec::new();
    let n = file.rules.len();
    let mut i: usize = 0;
    assert(rule_views(rules@) =~= Seq::<SemgrepRuleView>::empty());
    while i < n
        invariant
            n == file.rules@.len(),
            i <= n,
            file_rules(file.rules@, i as int) == Ok::<Seq<SemgrepRuleView>, Seq<char>>(rule_views(rules@)),
            forall|k: int| 0 <= k < rules@.len() ==> all_parsed((#[trigger] rules@[k]).matcher, rules@[k].lang),
        decreases n - i,
    {
        match compile_yaml_rule(&file.rules[i], &mut rules) {
            Ok(()) => {},
            Err(e) => {
                proof {
                    lemma_file_rules_err(file.rules@, i as int + 1, e@);
                }
                return Err(e);
            },
        }
        i = i + 1;
    }
    Ok(rules)
}

// ─── Laws ─────────────────────────────────────────────────────────────────

/// A rule yields at most one compiled rule per language: the languages it
/// names, once mapped, hold no duplicates (`javascript` and `typescript`
/// both give JavaScript, once).
pub proof fn law_mapped_languages_distinct(names: Seq<Seq<char>>, k: int)
    ensures
        mapped_languages(names, k).no_duplicates(),
    decreases k,
{
    if k <= 0 || k > names.len() {
        assert(mapped_languages(names, k) =~= Seq::<Language>::empty());
    } else {
        law_mapped_languages_distinct(names, k - 1);
        let acc = mapped_languages(names, k - 1);
        match language_of_name(names[k - 1]) {
            Some(l) => {
                if !acc.contains(l) {
                    let s = acc.push(l);
                    assert forall|i: int, j: int| 0 <= i < s.len() && 0 <= j < s.len() && i != j implies s[i]
                        != s[j] by {
                        if i == acc.len() {
                            assert(s[j] == acc[j]);
                        } else if j == acc.len() {
                            assert(s[i] == acc[i]);
                        }
                    }
                }
            },
            None => {},
        }
    }
}

} // verus!
