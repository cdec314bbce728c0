//! A leaf rule bounding the length of a string, measured in characters.

use vstd::prelude::*;
use vstd::string::StrSliceExecFns;

use crate::result::{ValidationError, ValidationResult};
use crate::rule::Rule;

verus! {

/// Accepts exactly the strings whose length lies within `min..=max`.
pub struct LengthRule {
    pub min: usize,
    pub max: usize,
}

/// A rule accepting the strings whose length lies within `min..=max`.
pub fn length(min: usize, max: usize) -> (r: LengthRule)
    ensures
        r.min == min,
        r.max == max,
{
    LengthRule::new(min, max)
}

impl Default for LengthRule {
    /// The default bounds accept every length.
    fn default() -> (r: Self)
        ensures
            r.min == 0,
            r.max == usize::MAX,
    {
        LengthRule { min: usize::MIN, max: usize::MAX }
    }
}

impl LengthRule {
    /// A rule accepting the strings whose length lies within `min..=max`.
    pub fn new(min: usize, max: usize) -> (r: Self)
        ensures
            r.min == min,
            r.max == max,
    {
        LengthRule { min, max }
    }
}

impl Rule<String> for LengthRule {
    open spec fn passes(&self, v: String) -> bool {
        self.min <= v@.len() && v@.len() <= self.max
    }

    open spec fn failure_messages(&self, v: String) -> Seq<Seq<char>> {
        seq!["value length is out of bounds"@]
    }

    open spec fn canned_message(&self) -> Option<Seq<char>> {
        Some("value length is out of bounds"@)
    }

    fn apply(&self, value: &String) -> (r: ValidationResult) {
        let len = value.as_str().unicode_len();
        if len >= self.min && len <= self.max {
            Ok(())
        } else {
            Err(ValidationError::from_optional(self.error_message()))
        }
    }

    fn error_message(&self) -> (m: Option<String>) {
        Some("value length is out of bounds".to_owned())
    }
}

} // verus!
