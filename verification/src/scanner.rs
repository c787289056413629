//! Finds filter-regex matches in the lines of a text, scanning from a
//! starting line toward the first line. Reading a file from disk is I/O and
//! happens outside this library; the scanners here work on the text.

use crate::errors::UserError;
use crate::regexes::{apply_filter, Filter, FilterHit, SpecFilterHit};
use crate::text::{spec_split_lines, split_lines};
use vstd::prelude::*;

verus! {

/// what scanning a run of lines yields
pub enum ScanOutcome {
    /// no scanned line had a capture-group match
    NotFound,
    /// the text of the first capture-group match found
    Found(String),
    /// a matching line hit a filter with more than one capture group;
    /// carries the group count and the offending line
    TooMany { count: usize, line: String },
}

/// spec-level outcome of scanning a run of lines
pub enum SpecScan {
    NotFound,
    Found(Seq<char>),
    TooMany { count: int, line: Seq<char> },
}

/// the outcome of scanning `lines[i]`, `lines[i-1]`, ..., `lines[0]`: the
/// first line (from `i` downward) whose filter application is a hit or an
/// error decides; lines that miss are skipped
pub open spec fn scan_up(p: Seq<char>, lines: Seq<Seq<char>>, i: int) -> SpecScan
    decreases i + 1 when i < lines.len()
{
    if i < 0 {
        SpecScan::NotFound
    } else {
        match apply_filter(p, lines[i]) {
            SpecFilterHit::Miss => scan_up(p, lines, i - 1),
            SpecFilterHit::Hit(v) => SpecScan::Found(v),
            SpecFilterHit::TooMany(n) => SpecScan::TooMany { count: n, line: lines[i] },
        }
    }
}

/// whether an exec scan outcome is the one the spec names
pub open spec fn scan_matches(r: ScanOutcome, s: SpecScan) -> bool {
    match r {
        ScanOutcome::NotFound => s is NotFound,
        ScanOutcome::Found(v) => s matches SpecScan::Found(sv) && v@ == sv,
        ScanOutcome::TooMany { count, line } => s matches SpecScan::TooMany {
            count: sc,
            line: sl,
        } && count as int == sc && line@ == sl,
    }
}

/// scans `lines[start - 1]` down to `lines[0]` for the first line on which
/// the filter hits
pub fn scan_lines_upward(filter: &Filter, lines: &Vec<String>, start: usize) -> (r: ScanOutcome)
    requires
        start <= lines@.len(),
    ensures
        scan_matches(r, scan_up(filter@, lines.deep_view(), start - 1)),
{
    let ghost all = lines.deep_view();
    let mut i: usize = start;
    while i > 0
        invariant
            i <= start <= lines@.len(),
            all == lines.deep_view(),
            scan_up(filter@, all, start - 1) == scan_up(filter@, all, i - 1),
        decreases i,
    {
        i = i - 1;
        proof {
            assert(all[i as int] == lines@[i as int]@);
        }
        match filter.apply(lines[i].as_str()) {
            FilterHit::Miss => {
            },
            FilterHit::Hit(v) => {
                return ScanOutcome::Found(v);
            },
            FilterHit::TooMany(count) => {
                let line = lines[i].clone();
                return ScanOutcome::TooMany { count, line };
            },
        }
    }
    ScanOutcome::NotFound
}

/// scans the lines of `text`, starting one line above `index` and moving
/// toward the first line, for the first capture-group match of the filter;
/// an exhausted scan is `Ok(None)`, not an error, so that the caller can
/// attach file context
pub fn scan_string_upwards(text: &str, re: &Filter, index: usize) -> (r: Result<
    Option<String>,
    UserError,
>)
    requires
        index <= spec_split_lines(text@).len(),
    ensures
        (match scan_up(re@, spec_split_lines(text@), index - 1) {
            SpecScan::NotFound => r == Result::<Option<String>, UserError>::Ok(
                Option::<String>::None,
            ),
            SpecScan::Found(v) => r matches Ok(o) && o matches Some(s) && s@ == v,
            SpecScan::TooMany { count, line } => r matches Err(e) && (
            e matches UserError::TriggerTooManyCaptures { count: ec, regex, line: el } && ec as int
                == count && regex@ == re@ && el@ == line),
        }),
{
    let lines = split_lines(text);
    match scan_lines_upward(re, &lines, index) {
        ScanOutcome::NotFound => Ok(None),
        ScanOutcome::Found(v) => Ok(Some(v)),
        ScanOutcome::TooMany { count, line } => Err(
            UserError::TriggerTooManyCaptures { count, regex: re.as_str().to_owned(), line },
        ),
    }
}

/// what `string_upwards` yields: the first capture-group match scanning
/// from one line above the starting index down to the first line; a
/// starting index beyond the text scans all of it
pub open spec fn string_upwards_spec(p: Seq<char>, lines: Seq<Seq<char>>, index: int) -> SpecScan {
    if index <= lines.len() {
        scan_up(p, lines, index - 1)
    } else {
        scan_up(p, lines, lines.len() - 1)
    }
}

/// provides the first capture of the given filter in the given text,
/// starting one line above the given line index and scanning towards the
/// beginning of the text, the first line included; a starting index beyond
/// the text scans all of it
pub fn string_upwards(text: &str, re: &Filter, index: usize) -> (r: Result<
    Option<String>,
    UserError,
>)
    ensures
        (match string_upwards_spec(re@, spec_split_lines(text@), index as int) {
            SpecScan::NotFound => r == Result::<Option<String>, UserError>::Ok(
                Option::<String>::None,
            ),
            SpecScan::Found(v) => r matches Ok(o) && o matches Some(s) && s@ == v,
            SpecScan::TooMany { count, line } => r matches Err(e) && (
            e matches UserError::TriggerTooManyCaptures { count: ec, regex, line: el } && ec as int
                == count && regex@ == re@ && el@ == line),
        }),
{
    let lines = split_lines(text);
    let start: usize = if index <= lines.len() {
        index
    } else {
        lines.len()
    };
    match scan_lines_upward(re, &lines, start) {
        ScanOutcome::NotFound => Ok(None),
        ScanOutcome::Found(v) => Ok(Some(v)),
        ScanOutcome::TooMany { count, line } => Err(
            UserError::TriggerTooManyCaptures { count, regex: re.as_str().to_owned(), line },
        ),
    }
}

} // verus!
