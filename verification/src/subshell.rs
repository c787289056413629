//! Splitting a resolved command line into the words to execute. Spawning
//! the child process is I/O and happens outside this library; the outcome
//! classification lives here.

use crate::errors::UserError;
use vstd::prelude::*;

verus! {

/// the result of one executed command, classified by its exit code
#[derive(Clone, Copy, Debug, PartialEq, Eq, Structural)]
pub enum Outcome {
    /// the child process exited with code zero
    TestPass,
    /// the child process exited with a nonzero code
    TestFail,
}

impl Outcome {
    /// classifies one finished command: a successful exit is a pass, any
    /// other exit a failed test
    pub fn from_success(success: bool) -> (r: Outcome)
        ensures
            r == (if success {
                Outcome::TestPass
            } else {
                Outcome::TestFail
            }),
    {
        if success {
            Outcome::TestPass
        } else {
            Outcome::TestFail
        }
    }
}

/// the words that POSIX shell word splitting yields for an input line, or
/// nothing when the input cannot be split (mismatched quotes)
pub uninterp spec fn shell_words(s: Seq<char>) -> Option<Seq<Seq<char>>>;

/// Relies on `shellwords::split`: POSIX shell word splitting with quotes
/// and escapes respected; the words depend on the input alone, and
/// mismatched quotes are the one failure. The `Err` text is the crate's
/// rendering of that failure.
#[verifier::external_body]
fn shell_split(input: &str) -> (r: Result<Vec<String>, String>)
    ensures
        (match r {
            Ok(words) => shell_words(input@) matches Some(w) && w == words.deep_view(),
            Err(_) => shell_words(input@) is None,
        }),
{
    match shellwords::split(input) {
        Ok(words) => Ok(words),
        Err(err) => Err(err.to_string()),
    }
}

/// splits a command line into the program to spawn and its arguments:
/// an unsplittable line (mismatched quotes) and an empty word list are
/// errors — a command of no words signals a broken configuration
pub fn split_command(command: &str) -> (r: Result<(String, Vec<String>), UserError>)
    ensures
        (match shell_words(command@) {
            Some(words) => {
                if words.len() == 0 {
                    r matches Err(e) && e is RunCommandIsEmpty
                } else {
                    r matches Ok(p) && p.0@ == words[0] && p.1.deep_view() == words.skip(1)
                }
            },
            None => r matches Err(e) && (e matches UserError::CannotSplitShellString {
                source,
                ..
            } && source@ == command@),
        }),
{
    match shell_split(command) {
        Err(err) => Err(UserError::CannotSplitShellString { source: command.to_owned(), err }),
        Ok(mut words) => {
            let ghost w0 = words.deep_view();
            if words.len() == 0 {
                return Err(UserError::RunCommandIsEmpty);
            }
            let cmd = words.remove(0);
            proof {
                assert(words.deep_view() =~= w0.skip(1));
            }
            Ok((cmd, words))
        },
    }
}

} // verus!
