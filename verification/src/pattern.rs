//! Regular expressions, through the `regex` crate.
//!
//! What a pattern matches is `regex`'s business; the rules only need to
//! know that the same pattern on the same text always answers the same
//! way, so the answers are given names here and the rules' contracts are
//! stated in terms of those names.

use vstd::prelude::*;
use vstd::string::StringSliceAdditionalSpecFns;

verus! {

#[verifier::external_type_specification]
#[verifier::external_body]
pub struct ExRegex(regex::Regex);

/// The message of the error `regex::Regex::new` returns for the pattern,
/// or `None` when it accepts the pattern.
pub uninterp spec fn regex_new_error(pattern: Seq<char>) -> Option<Seq<char>>;

/// Whether `regex::Regex::new` accepts the pattern.
pub open spec fn regex_compiles(pattern: Seq<char>) -> bool {
    regex_new_error(pattern) is None
}

/// What `regex::Regex::is_match` answers for the pattern on the text.
pub uninterp spec fn regex_is_match(pattern: Seq<char>, text: Seq<char>) -> bool;

/// The byte ranges that `regex::Regex::find_iter` yields for the pattern
/// on the text, in order.
pub uninterp spec fn regex_find_all(pattern: Seq<char>, text: Seq<char>) -> Seq<(usize, usize)>;

/// A compiled regular expression together with its source text.
pub struct Pattern {
    re: regex::Regex,
    source: String,
}

impl Pattern {
    /// The pattern text this regular expression was compiled from.
    pub closed spec fn spec_source(&self) -> Seq<char> {
        self.source@
    }
}

/// Calls `regex::Regex::new`. It fails exactly when the pattern is not a
/// valid expression; the pattern text is kept beside the compiled form.
#[verifier::external_body]
pub(crate) fn compile(pattern: &str) -> (res: Option<Pattern>)
    ensures
        res is Some <==> regex_compiles(pattern@),
        res matches Some(p) ==> p.spec_source() == pattern@,
{
    match regex::Regex::new(pattern) {
        Ok(re) => Some(Pattern { re, source: pattern.to_string() }),
        Err(_) => None,
    }
}

/// Calls `regex::Regex::new`, keeping the error's message when it refuses
/// the pattern.
#[verifier::external_body]
pub(crate) fn compile_or_error(pattern: &str) -> (res: Result<Pattern, String>)
    ensures
        match res {
            Ok(p) => regex_new_error(pattern@) is None && p.spec_source() == pattern@,
            Err(e) => regex_new_error(pattern@) == Some(e@),
        },
{
    match regex::Regex::new(pattern) {
        Ok(re) => Ok(Pattern { re, source: pattern.to_string() }),
        Err(e) => Err(e.to_string()),
    }
}

/// Calls `regex::Regex::is_match`.
#[verifier::external_body]
pub(crate) fn is_match(p: &Pattern, text: &str) -> (res: bool)
    ensures
        res == regex_is_match(p.spec_source(), text@),
{
    p.re.is_match(text)
}

/// Calls `regex::Regex::find_iter` and keeps each match's byte range. The
/// crate documents the ranges as non-overlapping, in order, inside the
/// text, and falling on UTF-8 character boundaries.
#[verifier::external_body]
pub(crate) fn find_all(p: &Pattern, text: &str) -> (res: Vec<(usize, usize)>)
    ensures
        res@ == regex_find_all(p.spec_source(), text@),
        forall|k: int|
            0 <= k < res@.len() ==> (#[trigger] res@[k]).0 <= res@[k].1 <= text.spec_bytes().len(),
        forall|k: int|
            0 <= k < res@.len() ==> crate::text::char_boundary(text.spec_bytes(), (#[trigger] res@[k]).0 as int)
                && crate::text::char_boundary(text.spec_bytes(), res@[k].1 as int),
{
    p.re.find_iter(text).map(|m| (m.start(), m.end())).collect()
}

/// What `regex::Regex::captures` yields for the named group: `None` when
/// the pattern does not match the text, `Some(None)` when it matches but
/// the group takes no part in the match.
pub uninterp spec fn regex_capture_named(pattern: Seq<char>, text: Seq<char>, name: Seq<char>) -> Option<Option<Seq<char>>>;

pub open spec fn capture_view(o: Option<Option<String>>) -> Option<Option<Seq<char>>> {
    match o {
        Some(Some(s)) => Some(Some(s@)),
        Some(None) => Some(None),
        None => None,
    }
}

/// Calls `regex::Regex::captures` and reads the named group. The crate
/// documents that `captures` finds a match exactly when `is_match` does.
#[verifier::external_body]
pub(crate) fn capture_named(p: &Pattern, text: &str, name: &str) -> (res: Option<Option<String>>)
    ensures
        capture_view(res) == regex_capture_named(p.spec_source(), text@, name@),
        res is Some <==> regex_is_match(p.spec_source(), text@),
{
    match p.re.captures(text) {
        Some(caps) => match caps.name(name) {
            Some(m) => Some(Some(m.as_str().to_string())),
            None => Some(None),
        },
        None => None,
    }
}

} // verus!

verus! {

/// `Clone` of `regex::Regex` (cheap: the compiled expression is shared);
/// the copy keeps the pattern text.
#[verifier::external_body]
pub(crate) fn copy_pattern(p: &Pattern) -> (res: Pattern)
    ensures
        res.spec_source() == p.spec_source(),
{
    Pattern { re: p.re.clone(), source: p.source.clone() }
}

} // verus!
