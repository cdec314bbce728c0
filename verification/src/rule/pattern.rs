//! A leaf rule matching a string against a regular expression.

use vstd::prelude::*;

use crate::result::{ValidationError, ValidationResult};
use crate::rule::Rule;

verus! {

/// Whether the regular expression written as `pattern` matches somewhere in
/// `text`. Which texts a pattern matches is defined by the regex language,
/// not restated here; [`regex_is_match`] is the one place that decides it.
pub uninterp spec fn regex_match(pattern: Seq<char>, text: Seq<char>) -> bool;

/// Relies on `regex::Regex::new` and `regex::Regex::is_match`: whether a
/// pattern matches a text is a function of the pattern and the text alone.
/// A pattern that is not a valid regular expression matches no text.
#[verifier::external_body]
pub(crate) fn regex_is_match(pattern: &str, text: &str) -> (b: bool)
    ensures
        b == regex_match(pattern@, text@),
{
    match regex::Regex::new(pattern) {
        Ok(re) => re.is_match(text),
        Err(_) => false,
    }
}

/// Accepts exactly the strings matched by the regular expression written as
/// `pattern`.
pub struct PatternRule {
    pub pattern: String,
}

impl Rule<String> for PatternRule {
    open spec fn passes(&self, v: String) -> bool {
        regex_match(self.pattern@, v@)
    }

    open spec fn failure_messages(&self, v: String) -> Seq<Seq<char>> {
        seq!["value doesn't match pattern"@]
    }

    open spec fn canned_message(&self) -> Option<Seq<char>> {
        Some("value doesn't match pattern"@)
    }

    fn apply(&self, value: &String) -> (r: ValidationResult) {
        if regex_is_match(self.pattern.as_str(), value.as_str()) {
            Ok(())
        } else {
            Err(ValidationError::from_optional(self.error_message()))
        }
    }

    fn error_message(&self) -> (m: Option<String>) {
        Some("value doesn't match pattern".to_owned())
    }
}

} // verus!
