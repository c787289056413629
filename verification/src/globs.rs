//! File patterns from the configuration. Matching is done by the `glob`
//! crate under standard shell-glob semantics (`*` within a path segment,
//! `**` across segments, `?`, bracket classes); this module states what the
//! crate's results look like and keeps only patterns it accepts.

use vstd::prelude::*;

verus! {

/// whether `glob::Pattern::new` accepts the pattern
pub uninterp spec fn glob_valid(pattern: Seq<char>) -> bool;

/// whether the path matches the pattern under `glob::Pattern::matches`
pub uninterp spec fn glob_matches(pattern: Seq<char>, path: Seq<char>) -> bool;

/// Relies on `glob::Pattern::new`: whether it accepts a pattern depends on
/// the pattern text alone. The `Err` text is the crate's rendering of the
/// syntax error.
#[verifier::external_body]
fn glob_new_checked(pattern: &str) -> (r: Result<(), String>)
    ensures
        r is Ok <==> glob_valid(pattern@),
{
    match glob::Pattern::new(pattern) {
        Ok(_) => Ok(()),
        Err(err) => Err(err.to_string()),
    }
}

/// Relies on `glob::Pattern::matches` (with `glob::Pattern::new` to compile
/// the already-validated pattern): whether a path matches depends on the
/// pattern and the path alone.
#[verifier::external_body]
fn glob_match(pattern: &str, path: &str) -> (r: bool)
    requires
        glob_valid(pattern@),
    ensures
        r == glob_matches(pattern@, path@),
{
    glob::Pattern::new(pattern).unwrap().matches(path)
}

/// A file pattern from the configuration, checked at construction to be a
/// glob that the `glob` crate accepts.
#[derive(Debug)]
pub struct Glob {
    source: String,
}

impl View for Glob {
    type V = Seq<char>;

    closed spec fn view(&self) -> Seq<char> {
        self.source@
    }
}

impl Glob {
    /// a file pattern holds only globs that the `glob` crate accepts
    #[verifier::type_invariant]
    pub closed spec fn wf(self) -> bool {
        glob_valid(self.source@)
    }

    /// compiles a file pattern; an invalid glob yields the pattern back
    /// along with the crate's error text
    pub fn new(source: String) -> (r: Result<Glob, (String, String)>)
        ensures
            r is Ok <==> glob_valid(source@),
            r matches Ok(g) ==> g@ == source@,
            r matches Err(e) ==> e.0@ == source@,
    {
        match glob_new_checked(source.as_str()) {
            Ok(()) => Ok(Glob { source }),
            Err(err) => Err((source, err)),
        }
    }

    /// the glob text of this pattern
    pub fn as_str(&self) -> (r: &str)
        ensures
            r@ == self@,
    {
        self.source.as_str()
    }

    /// whether the given path matches this pattern
    pub fn matches(&self, path: &str) -> (r: bool)
        ensures
            r == glob_matches(self@, path@),
    {
        proof {
            use_type_invariant(self);
        }
        glob_match(self.source.as_str(), path)
    }
}

} // verus!
