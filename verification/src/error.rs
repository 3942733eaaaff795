//! Errors from policy compilation.
use vstd::prelude::*;

use crate::string_match::MatcherError;
use crate::text::{decimal, push_decimal, push_str};

verus! {

/// Errors from policy compilation and loading.
#[derive(Debug)]
#[non_exhaustive]
#[allow(inconsistent_fields)]
pub enum PolicyError {
    /// A pattern in a specific rule failed to compile.
    InvalidRule {
        /// Which rule list: "deny" or "allow".
        rule_type: &'static str,
        /// Zero-based index of the rule that failed.
        rule_index: usize,
        /// Which field contained the invalid pattern, when known.
        field: Option<String>,
        /// The underlying matcher error.
        source: MatcherError,
    },
    /// The policy configuration failed to parse.
    InvalidPolicy {
        /// The underlying error message.
        source: String,
    },
}

impl PolicyError {
    /// The rendering of this error.
    pub open spec fn text(self) -> Seq<char> {
        match self {
            PolicyError::InvalidRule { rule_type, rule_index, field, source } => rule_type@ + " rule ["@
                + decimal(rule_index as nat) + "]"@ + match field {
                Some(f) => " field '"@ + f@ + "'"@,
                None => Seq::empty(),
            } + ": "@ + source.text(),
            PolicyError::InvalidPolicy { source } => "invalid policy: "@ + source@,
        }
    }

    /// Human-readable rendering: `<type> rule [<index>][ field '<field>']: <source>`
    /// or `invalid policy: <source>`.
    pub fn to_string(&self) -> (r: String)
        ensures
            r@ == self.text(),
    {
        match self {
            PolicyError::InvalidRule { rule_type, rule_index, field, source } => {
                let mut r = String::from_str(rule_type);
                push_str(&mut r, " rule [");
                push_decimal(&mut r, *rule_index as u64);
                push_str(&mut r, "]");
                let ghost before_field = r@;
                match field {
                    Some(f) => {
                        push_str(&mut r, " field '");
                        push_str(&mut r, f.as_str());
                        push_str(&mut r, "'");
                    },
                    None => {},
                }
                push_str(&mut r, ": ");
                let s = source.to_string();
                push_str(&mut r, s.as_str());
                assert(r@ =~= self.text());
                r
            },
            PolicyError::InvalidPolicy { source } => {
                let mut r = String::from_str("invalid policy: ");
                push_str(&mut r, source.as_str());
                r
            },
        }
    }
}

impl From<MatcherError> for PolicyError {
    /// A matcher error outside any known rule: type "unknown", index 0.
    fn from(e: MatcherError) -> (r: Self) {
        PolicyError::InvalidRule { rule_type: "unknown", rule_index: 0, field: None, source: e }
    }
}

impl vstd::std_specs::convert::FromSpecImpl<MatcherError> for PolicyError {
    open spec fn obeys_from_spec() -> bool {
        true
    }

    open spec fn from_spec(e: MatcherError) -> PolicyError {
        PolicyError::InvalidRule { rule_type: "unknown", rule_index: 0, field: None, source: e }
    }
}

} // verus!
