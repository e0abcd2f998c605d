//! Glob matchers for request paths, compiled by `globset`.

use vstd::prelude::*;
use globset::{GlobBuilder, GlobSet, GlobSetBuilder};

verus! {

#[verifier::external_type_specification]
#[verifier::external_body]
pub struct ExGlobSet(GlobSet);

#[verifier::external_type_specification]
#[verifier::external_body]
pub struct ExGlobError(globset::Error);

/// Whether globset compiles `pattern`, with `/` a literal separator, into a
/// matcher.
pub uninterp spec fn glob_valid(pattern: Seq<char>) -> bool;

/// Whether the matcher globset compiles from `pattern` accepts `path`.
pub uninterp spec fn glob_accepts(pattern: Seq<char>, path: Seq<char>) -> bool;

/// Relies on `GlobBuilder::build` (with `literal_separator(true)`) and on
/// `GlobSetBuilder::build` over that one glob: the pattern either compiles or
/// is refused with an error (a regex over globset's size limit included), and
/// which of the two depends on the pattern alone.
#[verifier::external_body]
fn build_matcher(source: &str) -> (r: Result<GlobSet, globset::Error>)
    ensures
        r is Ok <==> glob_valid(source@),
{
    let glob = GlobBuilder::new(source).literal_separator(true).build()?;
    let mut set = GlobSetBuilder::new();
    set.add(glob);
    set.build()
}

/// A compiled source pattern. Its view is the pattern it was compiled from;
/// the fields are private so that the two cannot drift apart.
pub struct Matcher {
    pattern: String,
    inner: GlobSet,
}

impl View for Matcher {
    type V = Seq<char>;

    closed spec fn view(&self) -> Seq<char> {
        self.pattern@
    }
}

impl Matcher {
    /// Compiles `source`; fails exactly when globset refuses the pattern.
    pub fn compile(source: &String) -> (r: Result<Matcher, globset::Error>)
        ensures
            r is Ok <==> glob_valid(source@),
            r is Ok ==> r->Ok_0@ == source@,
    {
        match build_matcher(source.as_str()) {
            Ok(inner) => Ok(Matcher { pattern: source.clone(), inner }),
            Err(e) => Err(e),
        }
    }

    /// The pattern this matcher was compiled from.
    pub fn pattern(&self) -> (r: &String)
        ensures
            r@ == self@,
    {
        &self.pattern
    }

    /// Relies on `GlobSet::is_match`. The inner matcher is only ever
    /// built by `compile` from `pattern`, so the answer depends on the
    /// pattern and the path alone.
    #[verifier::external_body]
    pub(crate) fn is_match(&self, path: &str) -> (r: bool)
        ensures
            r == glob_accepts(self@, path@),
    {
        self.inner.is_match(path)
    }
}

} // verus!
