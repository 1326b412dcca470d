//! Regular expressions, as far as the line classifier needs them.
//!
//! Compiling and matching are done by the `regex` crate. What it answers is
//! given a name here, so that the contracts of the classifier can say which
//! pattern was asked about which text.

use regex::Regex;
use vstd::prelude::*;

verus! {

#[verifier::external_type_specification]
#[verifier::external_body]
pub struct ExRegex(regex::Regex);

#[verifier::external_type_specification]
#[verifier::external_body]
pub struct ExRegexError(regex::Error);

/// The pattern text that a compiled expression was built from.
pub uninterp spec fn regex_source(re: Regex) -> Seq<char>;

/// Whether `pattern` is accepted by the compiler of the `regex` crate.
pub uninterp spec fn regex_compiles(pattern: Seq<char>) -> bool;

/// Whether the expression written as `pattern` matches anywhere in `text`.
pub uninterp spec fn regex_is_match(pattern: Seq<char>, text: Seq<char>) -> bool;

/// The text of capture group 1 in the leftmost match of `pattern` in `text`;
/// `None` where there is no match, or where group 1 does not exist or took
/// no part in the match.
pub uninterp spec fn regex_first_group(pattern: Seq<char>, text: Seq<char>) -> Option<Seq<char>>;

/// `Regex::new`: compiles `re`. It succeeds exactly on the patterns that
/// [`regex_compiles`] names, and the compiled expression keeps the text that
/// it was built from.
pub assume_specification[ Regex::new ](re: &str) -> (r: Result<Regex, regex::Error>)
    ensures
        r is Ok <==> regex_compiles(re@),
        r matches Ok(compiled) ==> regex_source(compiled) == re@,
;

/// `Regex::is_match`: whether the expression matches anywhere in `haystack`.
pub assume_specification[ Regex::is_match ](re: &Regex, haystack: &str) -> (b: bool)
    ensures
        b == regex_is_match(regex_source(*re), haystack@),
;

/// `Regex::captures` followed by `Captures::get(1)`: the text of the first
/// capture group in the leftmost match. Where the expression matches nowhere
/// there are no captures, and so no group.
#[verifier::external_body]
pub(crate) fn first_group(re: &Regex, text: &str) -> (r: Option<String>)
    ensures
        match r {
            Some(group) => regex_first_group(regex_source(*re), text@) == Some(group@),
            None => regex_first_group(regex_source(*re), text@) is None,
        },
        !regex_is_match(regex_source(*re), text@) ==> r is None,
{
    let captures = re.captures(text)?;
    let group = captures.get(1)?;
    Some(group.as_str().to_string())
}

} // verus!
