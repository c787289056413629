//! Filter regexes from the configuration. The regex engine itself is the
//! `regex` crate; this module states what the engine's results look like and
//! verifies the filter rules of this library on top of them: a filter yields
//! the text of its single capture group, an absent match or absent group
//! yields nothing, and more than one capture group is a user error.

use vstd::prelude::*;

verus! {

/// whether `regex::Regex::new` accepts the pattern
pub uninterp spec fn regex_valid(pattern: Seq<char>) -> bool;

/// what `regex::Regex::captures` finds when `pattern` is applied to `text`:
/// `None` when the text has no match, otherwise one entry per capture group
/// of the pattern (the whole match, group 0, first), each holding the
/// matched text of the groups that participated in the match
pub uninterp spec fn regex_captures(pattern: Seq<char>, text: Seq<char>) -> Option<
    Seq<Option<Seq<char>>>,
>;

/// Relies on `regex::Regex::new`: whether it accepts a pattern depends on
/// the pattern text alone. The `Err` text is the engine's rendering of the
/// syntax error.
#[verifier::external_body]
fn regex_new_checked(pattern: &str) -> (r: Result<(), String>)
    ensures
        r is Ok <==> regex_valid(pattern@),
{
    match regex::Regex::new(pattern) {
        Ok(_) => Ok(()),
        Err(err) => Err(err.to_string()),
    }
}

/// Relies on `regex::Regex::captures`, `Captures::len` and `Captures::get`:
/// the groups found depend on the pattern and the text alone, and they are
/// handed out in order, group 0 first.
#[verifier::external_body]
fn regex_captures_vec(pattern: &str, text: &str) -> (r: Option<Vec<Option<String>>>)
    requires
        regex_valid(pattern@),
    ensures
        r.deep_view() == regex_captures(pattern@, text@),
{
    let re = regex::Regex::new(pattern).unwrap();
    re.captures(text).map(
        |c| (0..c.len()).map(|i| c.get(i).map(|m| m.as_str().to_owned())).collect(),
    )
}

/// A filter regex from the configuration, checked at construction to be a
/// pattern that the regex engine accepts.
#[derive(Debug)]
pub struct Filter {
    source: String,
}

impl View for Filter {
    type V = Seq<char>;

    closed spec fn view(&self) -> Seq<char> {
        self.source@
    }
}

/// the outcome of applying a filter regex to a piece of text
pub enum FilterHit {
    /// the text has no match, or the match has no participating capture group
    Miss,
    /// the text of the single capture group
    Hit(String),
    /// the filter has more than one capture group; carries the group count
    TooMany(usize),
}

/// spec-level outcome of applying a filter regex to a piece of text
pub enum SpecFilterHit {
    Miss,
    Hit(Seq<char>),
    TooMany(int),
}

/// what applying a filter to a text yields: the text of capture group 1 on
/// a match, a miss when nothing matches or group 1 did not participate, and
/// an error carrying the group count when the filter has more than one
/// capture group
pub open spec fn apply_filter(pattern: Seq<char>, text: Seq<char>) -> SpecFilterHit {
    match regex_captures(pattern, text) {
        None => SpecFilterHit::Miss,
        Some(groups) => {
            if groups.len() < 2 || groups[1] is None {
                SpecFilterHit::Miss
            } else if groups.len() > 2 {
                SpecFilterHit::TooMany(groups.len() as int)
            } else {
                SpecFilterHit::Hit(groups[1]->0)
            }
        },
    }
}

/// whether an exec filter outcome is the one the spec names
pub open spec fn filter_hit_matches(r: FilterHit, s: SpecFilterHit) -> bool {
    match r {
        FilterHit::Miss => s is Miss,
        FilterHit::Hit(v) => s matches SpecFilterHit::Hit(sv) && v@ == sv,
        FilterHit::TooMany(n) => s matches SpecFilterHit::TooMany(m) && n as int == m,
    }
}

impl Filter {
    /// a filter holds only patterns that the regex engine accepts
    #[verifier::type_invariant]
    pub closed spec fn wf(self) -> bool {
        regex_valid(self.source@)
    }

    /// compiles a filter; an invalid pattern yields the pattern back along
    /// with the engine's error text
    pub fn new(source: String) -> (r: Result<Filter, (String, String)>)
        ensures
            r is Ok <==> regex_valid(source@),
            r matches Ok(f) ==> f@ == source@,
            r matches Err(e) ==> e.0@ == source@,
    {
        match regex_new_checked(source.as_str()) {
            Ok(()) => Ok(Filter { source }),
            Err(err) => Err((source, err)),
        }
    }

    /// the pattern text of this filter
    pub fn as_str(&self) -> (r: &str)
        ensures
            r@ == self@,
    {
        self.source.as_str()
    }

    /// applies this filter to a text
    pub fn apply(&self, text: &str) -> (r: FilterHit)
        ensures
            filter_hit_matches(r, apply_filter(self@, text@)),
    {
        proof {
            use_type_invariant(self);
        }
        match regex_captures_vec(self.source.as_str(), text) {
            None => FilterHit::Miss,
            Some(groups) => {
                proof {
                    assert(regex_captures(self@, text@) matches Some(g) && g
                        == groups.deep_view());
                }
                if groups.len() < 2 {
                    return FilterHit::Miss;
                }
                proof {
                    assert(groups.deep_view()[1] == groups@[1].deep_view());
                }
                match &groups[1] {
                    None => FilterHit::Miss,
                    Some(v) => {
                        if groups.len() > 2 {
                            FilterHit::TooMany(groups.len())
                        } else {
                            FilterHit::Hit(v.clone())
                        }
                    },
                }
            },
        }
    }
}

} // verus!
