//! The pattern engine behind the rules: regular expressions of the `regex`
//! crate. Nothing in this file is proved; the contracts state what the
//! crate's own source and documentation say.

use vstd::prelude::*;

verus! {

/// A compiled regular expression of the `regex` crate.
#[verifier::external_type_specification]
#[verifier::external_body]
pub struct ExRegex(regex::Regex);

/// The failure that the `regex` crate reports for a pattern it cannot
/// compile.
#[verifier::external_type_specification]
#[verifier::external_body]
pub struct ExRegexError(regex::Error);

/// Whether the compiled expression `re` finds a match anywhere in `text`:
/// the answer of `regex::Regex::is_match`.
pub uninterp spec fn regex_accepts(re: regex::Regex, text: Seq<char>) -> bool;

/// Whether the `regex` crate compiles `pattern`, with letter case ignored
/// or not as `ignore_case` says and the builder's defaults otherwise: the
/// pattern is well formed and what it compiles to is within the builder's
/// size limit.
pub uninterp spec fn pattern_compiles(pattern: Seq<char>, ignore_case: bool) -> bool;

/// Whether `pattern`, compiled with letter case ignored or not as
/// `ignore_case` says, finds a match anywhere in `text`. It has a meaning
/// only for a pattern that compiles.
pub uninterp spec fn pattern_accepts(pattern: Seq<char>, ignore_case: bool, text: Seq<char>) -> bool;

/// `regex::Regex::is_match` reports whether the expression matches somewhere
/// in the haystack. The answer depends on the expression and the haystack
/// alone; the contract gives it a name and says no more.
pub assume_specification[ regex::Regex::is_match ](re: &regex::Regex, haystack: &str) -> (found:
    bool)
    ensures
        found == regex_accepts(*re, haystack@),
;

/// Compiles `pattern` with `regex::RegexBuilder`, with the builder's
/// `case_insensitive` set to `ignore_case` and its defaults otherwise. The
/// builder refuses a pattern for its syntax or for the size of what it
/// compiles to; its limits are constants of the crate, so whether a pattern
/// compiles is settled by the pattern and the flag, and the contract gives
/// that a name. Of an expression that was compiled, the contract claims that
/// what it accepts is settled by the pattern and the flag too.
#[verifier::external_body]
pub(crate) fn compile_pattern(pattern: &str, ignore_case: bool) -> (compiled: Result<
    regex::Regex,
    regex::Error,
>)
    ensures
        compiled is Ok <==> pattern_compiles(pattern@, ignore_case),
        compiled matches Ok(re) ==> forall|text: Seq<char>| #[trigger]
            regex_accepts(re, text) == pattern_accepts(pattern@, ignore_case, text),
{
    regex::RegexBuilder::new(pattern).case_insensitive(ignore_case).build()
}

} // verus!
