//! The values every rule produces: severities, languages and findings.

use vstd::prelude::*;

verus! {

/// How serious a finding is.
#[derive(Clone, Copy, Debug, PartialEq, Eq, Structural, Hash)]
pub enum Severity {
    Critical,
    High,
    Medium,
    Low,
}

/// A source language the scanner knows how to parse.
#[derive(Clone, Copy, Debug, PartialEq, Eq, Structural, Hash)]
pub enum Language {
    JavaScript,
    Python,
    Go,
    Ruby,
    Java,
    Php,
    Rust,
    CSharp,
    Swift,
}

/// One reported issue at a source location.
#[derive(Clone, Debug)]
pub struct Finding {
    pub rule_id: String,
    pub severity: Severity,
    pub cwe: Option<String>,
    pub description: String,
    pub file: String,
    pub line: usize,
    pub column: usize,
    pub end_line: usize,
    pub end_column: usize,
    pub snippet: String,
}

/// The mathematical content of a [`Finding`].
pub struct FindingView {
    pub rule_id: Seq<char>,
    pub severity: Severity,
    pub cwe: Option<Seq<char>>,
    pub description: Seq<char>,
    pub file: Seq<char>,
    pub line: nat,
    pub column: nat,
    pub end_line: nat,
    pub end_column: nat,
    pub snippet: Seq<char>,
}

pub open spec fn opt_str_view(o: Option<String>) -> Option<Seq<char>> {
    match o {
        Some(s) => Some(s@),
        None => None,
    }
}

impl View for Finding {
    type V = FindingView;

    open spec fn view(&self) -> FindingView {
        FindingView {
            rule_id: self.rule_id@,
            severity: self.severity,
            cwe: opt_str_view(self.cwe),
            description: self.description@,
            file: self.file@,
            line: self.line as nat,
            column: self.column as nat,
            end_line: self.end_line as nat,
            end_column: self.end_column as nat,
            snippet: self.snippet@,
        }
    }
}

/// The views of a sequence of findings, element by element.
pub open spec fn finding_views(v: Seq<Finding>) -> Seq<FindingView> {
    v.map_values(|f: Finding| f@)
}

/// How serious a severity is, from low (0) to critical (3).
pub open spec fn rank_of(s: Severity) -> nat {
    match s {
        Severity::Critical => 3,
        Severity::High => 2,
        Severity::Medium => 1,
        Severity::Low => 0,
    }
}

/// The rank of a severity, from low (0) to critical (3).
pub fn severity_rank(s: Severity) -> (res: u8)
    ensures
        res == rank_of(s),
{
    match s {
        Severity::Critical => 3,
        Severity::High => 2,
        Severity::Medium => 1,
        Severity::Low => 0,
    }
}

/// The findings at least as serious as `min`, in order.
pub open spec fn at_least(v: Seq<FindingView>, min: Severity) -> Seq<FindingView> {
    v.filter(|f: FindingView| rank_of(f.severity) >= rank_of(min))
}

/// Keep the findings at least as serious as `min`, in their order.
pub fn filter_by_severity(findings: Vec<Finding>, min: Severity) -> (res: Vec<Finding>)
    ensures
        finding_views(res@) == at_least(finding_views(findings@), min),
{
    let ghost fv = finding_views(findings@);
    let mut out: Vec<Finding> = Vec::new();
    let mut k: usize = 0;
    let m = severity_rank(min);
    while k < findings.len()
        invariant
            k <= findings@.len(),
            fv == finding_views(findings@),
            m == rank_of(min),
            finding_views(out@) == at_least(fv.subrange(0, k as int), min),
        decreases findings@.len() - k,
    {
        let ghost before = out@;
        proof {
            reveal(Seq::filter);
            assert(fv.subrange(0, k + 1).drop_last() =~= fv.subrange(0, k as int));
            assert(fv.subrange(0, k + 1).last() == fv[k as int]);
            assert(fv[k as int] == findings@[k as int]@);
        }
        if severity_rank(findings[k].severity) >= m {
            out.push(findings[k].clone_finding());
            assert(finding_views(out@) =~= finding_views(before).push(findings@[k as int]@));
        }
        k = k + 1;
    }
    assert(fv.subrange(0, findings@.len() as int) =~= fv);
    out
}

impl Finding {
    /// A copy of the finding, field for field.
    pub fn clone_finding(&self) -> (res: Finding)
        ensures
            res@ == self@,
    {
        Finding {
            rule_id: self.rule_id.clone(),
            severity: self.severity,
            cwe: match &self.cwe {
                Some(c) => Some(c.clone()),
                None => None,
            },
            description: self.description.clone(),
            file: self.file.clone(),
            line: self.line,
            column: self.column,
            end_line: self.end_line,
            end_column: self.end_column,
            snippet: self.snippet.clone(),
        }
    }
}

} // verus!
