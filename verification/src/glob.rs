//! Path globs, through the `globset` crate.
//!
//! Which paths a glob matches is `globset`'s business. A set of globs is
//! known to the rules by the pattern texts it was built from, and the
//! answers of the crate are given names over those texts.

use vstd::prelude::*;

verus! {

#[verifier::external_type_specification]
#[verifier::external_body]
pub struct ExGlob(globset::Glob);

#[verifier::external_type_specification]
#[verifier::external_body]
pub struct ExGlobSet(globset::GlobSet);

#[verifier::external_type_specification]
#[verifier::external_body]
pub struct ExGlobSetBuilder(globset::GlobSetBuilder);

/// The message of the error `globset::Glob::new` returns for the pattern,
/// or `None` when it accepts the pattern.
pub uninterp spec fn glob_new_error(pattern: Seq<char>) -> Option<Seq<char>>;

/// A compiled glob together with the pattern it was built from.
pub struct GlobPattern {
    glob: globset::Glob,
    text: Ghost<Seq<char>>,
}

impl GlobPattern {
    /// The pattern this glob was built from.
    pub closed spec fn spec_text(&self) -> Seq<char> {
        self.text@
    }
}

/// The patterns a `globset::GlobSetBuilder` holds, in the order added.
pub uninterp spec fn builder_globs(b: globset::GlobSetBuilder) -> Seq<Seq<char>>;

/// The patterns a `globset::GlobSet` was built from, in order.
pub uninterp spec fn globset_globs(s: globset::GlobSet) -> Seq<Seq<char>>;

/// The message of the error `globset::GlobSetBuilder::build` returns for a
/// builder holding these patterns, or `None` when it succeeds.
pub uninterp spec fn globset_build_error(globs: Seq<Seq<char>>) -> Option<Seq<char>>;

/// What `globset::GlobSet::is_match` answers for a set built from these
/// patterns on the path.
pub uninterp spec fn globset_is_match(globs: Seq<Seq<char>>, path: Seq<char>) -> bool;

/// Calls `globset::Glob::new`; the glob is kept with its pattern, and on
/// failure the error's message is kept.
#[verifier::external_body]
pub(crate) fn glob_new(pattern: &str) -> (res: Result<GlobPattern, String>)
    ensures
        match res {
            Ok(g) => glob_new_error(pattern@) is None && g.spec_text() == pattern@,
            Err(e) => glob_new_error(pattern@) == Some(e@),
        },
{
    match globset::Glob::new(pattern) {
        Ok(g) => Ok(GlobPattern { glob: g, text: Ghost(pattern@) }),
        Err(e) => Err(e.to_string()),
    }
}

/// Calls `globset::GlobSetBuilder::new`, which holds no pattern yet.
#[verifier::external_body]
pub(crate) fn builder_new() -> (res: globset::GlobSetBuilder)
    ensures
        builder_globs(res) == Seq::<Seq<char>>::empty(),
{
    globset::GlobSetBuilder::new()
}

/// Calls `globset::GlobSetBuilder::add`, which appends the glob.
#[verifier::external_body]
pub(crate) fn builder_add(b: &mut globset::GlobSetBuilder, g: GlobPattern)
    ensures
        builder_globs(*final(b)) == builder_globs(*old(b)).push(g.spec_text()),
{
    b.add(g.glob);
}

/// Calls `globset::GlobSetBuilder::build` on the patterns added so far.
#[verifier::external_body]
pub(crate) fn builder_build(b: &globset::GlobSetBuilder) -> (res: Result<globset::GlobSet, String>)
    ensures
        match res {
            Ok(s) => globset_build_error(builder_globs(*b)) is None && globset_globs(s) == builder_globs(*b),
            Err(e) => globset_build_error(builder_globs(*b)) == Some(e@),
        },
{
    match b.build() {
        Ok(s) => Ok(s),
        Err(e) => Err(e.to_string()),
    }
}

/// Calls `globset::GlobSet::is_match`. The crate documents that a set with
/// no glob matches nothing.
#[verifier::external_body]
pub(crate) fn globset_matches(s: &globset::GlobSet, path: &str) -> (res: bool)
    ensures
        res == globset_is_match(globset_globs(*s), path@),
        globset_globs(*s).len() == 0 ==> !res,
{
    s.is_match(path)
}

/// `Clone` of `globset::GlobSet` (derived there): the copy holds the same
/// patterns.
#[verifier::external_body]
pub(crate) fn globset_copy(s: &globset::GlobSet) -> (res: globset::GlobSet)
    ensures
        globset_globs(res) == globset_globs(*s),
{
    s.clone()
}

} // verus!
