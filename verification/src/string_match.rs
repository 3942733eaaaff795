//! Declarative string matching: the `StringMatch` specification and its
//! compiled form, `InputMatcher`.
//!
//! Exact, prefix, suffix and substring matching are plain character
//! comparisons, proved here. Regular expressions are compiled and run by the
//! `regex` crate; their meaning is carried by the names `regex_valid` and
//! `regex_matches`.
use vstd::prelude::*;

use crate::text::{contains, ends_with, is_prefix, is_substring, is_suffix, starts_with, str_eq};

verus! {

#[verifier::external_type_specification]
#[verifier::external_body]
pub struct ExRegex(regex::Regex);

#[verifier::external_type_specification]
#[verifier::external_body]
pub struct ExRegexError(regex::Error);

/// Whether `regex::Regex::new` accepts `pattern`.
pub uninterp spec fn regex_valid(pattern: Seq<char>) -> bool;

/// Whether the regular expression `pattern` matches somewhere in `haystack`
/// (what `regex::Regex::is_match` answers for a regex built from `pattern`).
pub uninterp spec fn regex_matches(pattern: Seq<char>, haystack: Seq<char>) -> bool;

/// The pattern text a regex was compiled from (what `regex::Regex::as_str`
/// returns: the original string of the regex).
pub uninterp spec fn regex_source(re: regex::Regex) -> Seq<char>;

/// Calls `regex::Regex::new`. Claims that it succeeds exactly on the patterns
/// that `regex_valid` holds of, and that the regex built keeps the pattern it
/// was built from as its original string.
#[verifier::external_body]
fn regex_new(pattern: &str) -> (r: Result<regex::Regex, regex::Error>)
    ensures
        r is Ok <==> regex_valid(pattern@),
        r matches Ok(re) ==> regex_source(re) == pattern@,
{
    regex::Regex::new(pattern)
}

/// Calls `regex::Regex::is_match`. Claims that the answer is `regex_matches`
/// of the regex's original string.
#[verifier::external_body]
fn regex_is_match(re: &regex::Regex, haystack: &str) -> (r: bool)
    ensures
        r == regex_matches(regex_source(*re), haystack@),
{
    re.is_match(haystack)
}

/// Renders a `regex::Error` (its `Display` output). Nothing is claimed of the text.
#[verifier::external_body]
fn regex_error_text(e: &regex::Error) -> String {
    e.to_string()
}

/// A compiled regular expression.
pub struct CompiledRegex {
    re: regex::Regex,
}

impl CompiledRegex {
    /// The pattern this regex was compiled from.
    pub closed spec fn source(self) -> Seq<char> {
        regex_source(self.re)
    }

    fn compile(pattern: &str) -> (r: Result<CompiledRegex, MatcherError>)
        ensures
            r is Ok <==> regex_valid(pattern@),
            r matches Ok(c) ==> c.source() == pattern@,
            r matches Err(e) ==> e.pattern@ == pattern@,
    {
        match regex_new(pattern) {
            Ok(re) => Ok(CompiledRegex { re }),
            Err(e) => Err(
                MatcherError { pattern: String::from_str(pattern), message: regex_error_text(&e) },
            ),
        }
    }

    fn is_match(&self, haystack: &str) -> (r: bool)
        ensures
            r == regex_matches(self.source(), haystack@),
    {
        regex_is_match(&self.re, haystack)
    }
}

/// A pattern that failed to compile.
#[derive(Debug)]
pub struct MatcherError {
    /// The offending pattern.
    pub pattern: String,
    /// What the regex compiler reported.
    pub message: String,
}

impl MatcherError {
    /// The rendering of this error.
    pub open spec fn text(self) -> Seq<char> {
        "invalid regex '"@ + self.pattern@ + "': "@ + self.message@
    }

    /// Human-readable rendering: `invalid regex '<pattern>': <message>`.
    pub fn to_string(&self) -> (r: String)
        ensures
            r@ == self.text(),
    {
        let mut r = String::from_str("invalid regex '");
        proof {
            reveal_strlit("invalid regex '");
            reveal_strlit("': ");
        }
        r.append(self.pattern.as_str());
        r.append("': ");
        r.append(self.message.as_str());
        r
    }
}

/// Data extracted from a context for matching.
#[derive(Debug, Clone, PartialEq, Eq)]
pub enum MatchingData {
    /// Nothing was extracted; no matcher accepts it.
    Absent,
    /// A string value.
    String(String),
}

/// How to match a string value.
#[derive(Debug, Clone)]
pub enum StringMatch {
    /// The value equals the string.
    Exact(String),
    /// The value starts with the string.
    Prefix(String),
    /// The value ends with the string.
    Suffix(String),
    /// The value contains the string.
    Contains(String),
    /// The regular expression matches somewhere in the value.
    Regex(String),
}

impl StringMatch {
    /// Whether a value satisfies this specification.
    pub open spec fn holds(self, value: Seq<char>) -> bool {
        match self {
            StringMatch::Exact(s) => value == s@,
            StringMatch::Prefix(p) => is_prefix(p@, value),
            StringMatch::Suffix(p) => is_suffix(p@, value),
            StringMatch::Contains(p) => is_substring(p@, value),
            StringMatch::Regex(p) => regex_matches(p@, value),
        }
    }

    /// Whether this specification compiles: every pattern but an invalid regex does.
    pub open spec fn compiles(self) -> bool {
        match self {
            StringMatch::Regex(p) => regex_valid(p@),
            _ => true,
        }
    }

    /// The pattern text carried by this specification.
    pub open spec fn pattern(self) -> Seq<char> {
        match self {
            StringMatch::Exact(s) => s@,
            StringMatch::Prefix(s) => s@,
            StringMatch::Suffix(s) => s@,
            StringMatch::Contains(s) => s@,
            StringMatch::Regex(s) => s@,
        }
    }

    /// Compile this specification into a matcher.
    pub fn to_input_matcher(&self) -> (r: Result<InputMatcher, MatcherError>)
        ensures
            r is Ok <==> self.compiles(),
            r matches Ok(m) ==> forall|v: Seq<char>| #[trigger] m.holds(v) == self.holds(v),
            r matches Err(e) ==> e.pattern@ == self.pattern(),
    {
        match self {
            StringMatch::Exact(s) => Ok(InputMatcher::Exact(s.clone())),
            StringMatch::Prefix(s) => Ok(InputMatcher::Prefix(s.clone())),
            StringMatch::Suffix(s) => Ok(InputMatcher::Suffix(s.clone())),
            StringMatch::Contains(s) => Ok(InputMatcher::Contains(s.clone())),
            StringMatch::Regex(p) => {
                let c = CompiledRegex::compile(p.as_str())?;
                Ok(InputMatcher::Regex(c))
            },
        }
    }
}

/// A compiled string matcher.
pub enum InputMatcher {
    /// Equality with the string.
    Exact(String),
    /// The string is a prefix.
    Prefix(String),
    /// The string is a suffix.
    Suffix(String),
    /// The string occurs inside.
    Contains(String),
    /// A compiled regular expression.
    Regex(CompiledRegex),
}

impl InputMatcher {
    /// Whether a string value is accepted.
    pub open spec fn holds(self, value: Seq<char>) -> bool {
        match self {
            InputMatcher::Exact(s) => value == s@,
            InputMatcher::Prefix(p) => is_prefix(p@, value),
            InputMatcher::Suffix(p) => is_suffix(p@, value),
            InputMatcher::Contains(p) => is_substring(p@, value),
            InputMatcher::Regex(c) => regex_matches(c.source(), value),
        }
    }

    /// Whether extracted data is accepted; `MatchingData::Absent` never is.
    pub open spec fn accepts(self, data: MatchingData) -> bool {
        match data {
            MatchingData::Absent => false,
            MatchingData::String(s) => self.holds(s@),
        }
    }

    /// Match a string value.
    pub fn matches_str(&self, value: &str) -> (r: bool)
        ensures
            r == self.holds(value@),
    {
        match self {
            InputMatcher::Exact(s) => str_eq(value, s.as_str()),
            InputMatcher::Prefix(p) => starts_with(value, p.as_str()),
            InputMatcher::Suffix(p) => ends_with(value, p.as_str()),
            InputMatcher::Contains(p) => contains(value, p.as_str()),
            InputMatcher::Regex(c) => c.is_match(value),
        }
    }

    /// Match extracted data.
    pub fn matches(&self, data: &MatchingData) -> (r: bool)
        ensures
            r == self.accepts(*data),
    {
        match data {
            MatchingData::Absent => false,
            MatchingData::String(s) => self.matches_str(s.as_str()),
        }
    }
}

/// Absent data is accepted by no matcher: an extraction that finds nothing
/// never matches.
pub proof fn law_absent_data_never_matches(m: InputMatcher)
    ensures
        !m.accepts(MatchingData::Absent),
{
}

/// `p` occurs in `v` starting at some position.
pub open spec fn occurs_somewhere(p: Seq<char>, v: Seq<char>) -> bool {
    exists|i: int| 0 <= i && i + p.len() <= v.len() && #[trigger] v.subrange(i, i + p.len()) == p
}

/// What each kind of string condition accepts: `Exact` the pattern itself,
/// `Prefix` values that begin with it, `Suffix` values that end with it,
/// `Contains` values with it somewhere inside, `Regex` values the regular
/// expression matches somewhere.
pub proof fn law_string_match_meaning(m: StringMatch, v: Seq<char>)
    ensures
        m matches StringMatch::Exact(p) ==> (m.holds(v) <==> v == p@),
        m matches StringMatch::Prefix(p) ==> (m.holds(v) <==> p@.len() <= v.len() && v.subrange(0, p@.len() as int)
            == p@),
        m matches StringMatch::Suffix(p) ==> (m.holds(v) <==> p@.len() <= v.len() && v.subrange(
            v.len() - p@.len(),
            v.len() as int,
        ) == p@),
        m matches StringMatch::Contains(p) ==> (m.holds(v) <==> occurs_somewhere(p@, v)),
        m matches StringMatch::Regex(p) ==> (m.holds(v) <==> regex_matches(p@, v)),
{
    match m {
        StringMatch::Contains(p) => {
            if occurs_somewhere(p@, v) {
                let i = choose|i: int| 0 <= i && i + p@.len() <= v.len() && #[trigger] v.subrange(i, i + p@.len()) == p@;
                assert(crate::text::occurs_at(p@, v, i));
            }
            if m.holds(v) {
                let i = choose|i: int| crate::text::occurs_at(p@, v, i);
                assert(v.subrange(i, i + p@.len()) == p@);
            }
        },
        _ => {},
    }
}

/// A compiled matcher accepts what its specification does: `Exact` the
/// pattern itself, `Prefix` values that begin with it, `Suffix` values that
/// end with it, `Contains` values with it somewhere inside, `Regex` values its
/// regular expression matches somewhere.
pub proof fn law_input_matcher_meaning(m: InputMatcher, v: Seq<char>)
    ensures
        m matches InputMatcher::Exact(p) ==> (m.holds(v) <==> v == p@),
        m matches InputMatcher::Prefix(p) ==> (m.holds(v) <==> p@.len() <= v.len() && v.subrange(0, p@.len() as int)
            == p@),
        m matches InputMatcher::Suffix(p) ==> (m.holds(v) <==> p@.len() <= v.len() && v.subrange(
            v.len() - p@.len(),
            v.len() as int,
        ) == p@),
        m matches InputMatcher::Contains(p) ==> (m.holds(v) <==> occurs_somewhere(p@, v)),
        m matches InputMatcher::Regex(c) ==> (m.holds(v) <==> regex_matches(c.source(), v)),
{
    match m {
        InputMatcher::Contains(p) => {
            if occurs_somewhere(p@, v) {
                let i = choose|i: int| 0 <= i && i + p@.len() <= v.len() && #[trigger] v.subrange(i, i + p@.len()) == p@;
                assert(crate::text::occurs_at(p@, v, i));
            }
            if m.holds(v) {
                let i = choose|i: int| crate::text::occurs_at(p@, v, i);
                assert(v.subrange(i, i + p@.len()) == p@);
            }
        },
        _ => {},
    }
}

} // verus!
