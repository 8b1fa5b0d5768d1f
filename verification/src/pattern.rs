//! Regular-expression support for the title and CI-check filters.
//!
//! The regex engine is an outside collaborator: compilation and matching go
//! through trusted wrappers whose contracts name the engine's results, and
//! everything built on top of them is verified against those names.

use vstd::prelude::*;
use crate::error::AteamError;

verus! {

#[verifier::external_type_specification]
#[verifier::external_body]
pub struct ExRegex(regex::Regex);

#[verifier::external_type_specification]
#[verifier::external_body]
pub struct ExRegexError(regex::Error);

/// Whether `regex::Regex::new` accepts `pattern`. Compilation is a function
/// of the pattern alone: the same pattern is accepted or rejected on every
/// call.
pub uninterp spec fn regex_valid(pattern: Seq<char>) -> bool;

/// Whether the regular expression compiled from `pattern` matches anywhere
/// inside `text`. Matching is a function of pattern and text alone.
pub uninterp spec fn regex_is_match(pattern: Seq<char>, text: Seq<char>) -> bool;

/// A compiled regular expression paired with the pattern it was compiled
/// from, so contracts can speak of matching in terms of the pattern.
pub struct CompiledRegex {
    re: regex::Regex,
    pattern: String,
}

impl CompiledRegex {
    /// The pattern this regular expression was compiled from.
    pub closed spec fn pattern_view(&self) -> Seq<char> {
        self.pattern@
    }

    /// Relies on `regex::Regex::new`: it returns `Ok` exactly when it
    /// accepts the pattern (an invalid pattern, or one over the default
    /// size limit, is rejected), and the private fields keep the compiled
    /// expression together with its source pattern.
    #[verifier::external_body]
    pub fn compile(pattern: &str) -> (r: Result<CompiledRegex, regex::Error>)
        ensures
            r is Ok <==> regex_valid(pattern@),
            r matches Ok(c) ==> c.pattern_view() == pattern@,
    {
        match regex::Regex::new(pattern) {
            Ok(re) => Ok(CompiledRegex { re, pattern: pattern.to_string() }),
            Err(e) => Err(e),
        }
    }

    /// Relies on `regex::Regex::is_match`: true exactly when the compiled
    /// pattern matches anywhere in `text`. The expression in the private
    /// field was compiled from `self.pattern_view()` by `compile`, the only
    /// constructor.
    #[verifier::external_body]
    pub fn is_match(&self, text: &str) -> (r: bool)
        ensures
            r == regex_is_match(self.pattern_view(), text@),
    {
        self.re.is_match(text)
    }
}

/// Compiles an optional user-supplied pattern, mapping a rejected pattern
/// to the library's own error.
pub fn compile_regex(regex_text: &Option<String>) -> (r: Result<Option<CompiledRegex>, AteamError>)
    ensures
        (match regex_text {
            Option::Some(t) => {
                &&& r is Ok <==> regex_valid(t@)
                &&& r matches Ok(o) ==> (o matches Option::Some(c) && c.pattern_view() == t@)
                &&& r matches Err(e) ==> (e matches AteamError::InvalidRegex { pattern }
                    && pattern@ == t@)
            },
            Option::None => r matches Ok(o) && o is None,
        }),
{
    match regex_text {
        Option::Some(t) => match CompiledRegex::compile(t.as_str()) {
            Ok(c) => Ok(Option::Some(c)),
            Err(_) => Err(AteamError::InvalidRegex { pattern: t.clone() }),
        },
        Option::None => Ok(Option::None),
    }
}

} // verus!
