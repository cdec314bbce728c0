//! String checks — length bounds, prefix, substring, pattern match — and the
//! rules built from them.

use vstd::prelude::*;
use vstd::string::StrSliceExecFns;

use crate::condition::{condition, ConditionalRule};
use crate::rule::pattern::{regex_is_match, regex_match};
use crate::rule::Predicate;

verus! {

/// `needle` occurs in `text` starting at position `pos`.
pub open spec fn occurs_at(text: Seq<char>, needle: Seq<char>, pos: int) -> bool {
    &&& 0 <= pos
    &&& pos + needle.len() <= text.len()
    &&& needle == text.subrange(pos, pos + needle.len())
}

/// `needle` occurs somewhere in `text`.
pub open spec fn has_substring(text: Seq<char>, needle: Seq<char>) -> bool {
    exists|pos: int| occurs_at(text, needle, pos)
}

/// A check on a string value, decided character by character except for
/// pattern matching, which the regex engine decides.
pub enum StringCheck {
    LengthBetween { min: usize, max: usize },
    StartsWith { prefix: String },
    Contains { needle: String },
    MatchesPattern { pattern: String },
}

impl Predicate<String> for StringCheck {
    open spec fn holds(&self, v: String) -> bool {
        match self {
            StringCheck::LengthBetween { min, max } => *min <= v@.len() && v@.len() <= *max,
            StringCheck::StartsWith { prefix } => prefix@.is_prefix_of(v@),
            StringCheck::Contains { needle } => has_substring(v@, needle@),
            StringCheck::MatchesPattern { pattern } => regex_match(pattern@, v@),
        }
    }

    fn test(&self, value: &String) -> (b: bool) {
        match self {
            StringCheck::LengthBetween { min, max } => {
                let len = value.as_str().unicode_len();
                *min <= len && len <= *max
            },
            StringCheck::StartsWith { prefix } => starts_with_chars(
                value.as_str(),
                prefix.as_str(),
            ),
            StringCheck::Contains { needle } => contains_chars(value.as_str(), needle.as_str()),
            StringCheck::MatchesPattern { pattern } => regex_is_match(
                pattern.as_str(),
                value.as_str(),
            ),
        }
    }
}

/// Whether `prefix` is a character-for-character prefix of `text`.
fn starts_with_chars(text: &str, prefix: &str) -> (b: bool)
    ensures
        b == prefix@.is_prefix_of(text@),
{
    let n = prefix.unicode_len();
    let total = text.unicode_len();
    if total < n {
        return false;
    }
    let mut i: usize = 0;
    while i < n
        invariant
            i <= n,
            n == prefix@.len(),
            total == text@.len(),
            n <= total,
            forall|j: int| 0 <= j < i ==> text@[j] == prefix@[j],
        decreases n - i,
    {
        if text.get_char(i) != prefix.get_char(i) {
            proof {
                if prefix@.is_prefix_of(text@) {
                    assert(prefix@[i as int] == text@.subrange(0, n as int)[i as int]);
                }
            }
            return false;
        }
        i += 1;
    }
    proof {
        assert(prefix@ =~= text@.subrange(0, n as int));
    }
    true
}

/// Whether `needle` occurs in `text` starting at character position `start`.
fn matches_at(text: &str, needle: &str, start: usize) -> (b: bool)
    requires
        start + needle@.len() <= text@.len(),
        text@.len() <= usize::MAX,
    ensures
        b == occurs_at(text@, needle@, start as int),
{
    let m = needle.unicode_len();
    let mut j: usize = 0;
    while j < m
        invariant
            j <= m,
            m == needle@.len(),
            start + m <= text@.len() <= usize::MAX,
            forall|k: int| 0 <= k < j ==> needle@[k] == text@[start + k],
        decreases m - j,
    {
        if needle.get_char(j) != text.get_char(start + j) {
            proof {
                if occurs_at(text@, needle@, start as int) {
                    assert(needle@[j as int] == text@.subrange(
                        start as int,
                        start + m as int,
                    )[j as int]);
                }
            }
            return false;
        }
        j += 1;
    }
    proof {
        assert(needle@ =~= text@.subrange(start as int, start + m as int));
    }
    true
}

/// Whether `needle` occurs somewhere in `text`, character for character.
fn contains_chars(text: &str, needle: &str) -> (b: bool)
    ensures
        b == has_substring(text@, needle@),
{
    let total = text.unicode_len();
    let m = needle.unicode_len();
    if m > total {
        proof {
            assert forall|pos: int| !occurs_at(text@, needle@, pos) by {}
        }
        return false;
    }
    if m == 0 {
        proof {
            assert(needle@ =~= text@.subrange(0, 0));
            assert(occurs_at(text@, needle@, 0));
        }
        return true;
    }
    let limit = total - m;
    let mut start: usize = 0;
    while start <= limit
        invariant
            start <= limit + 1,
            limit == total - m,
            1 <= m,
            m == needle@.len(),
            total == text@.len(),
            m <= total,
            forall|p: int| 0 <= p < start ==> !occurs_at(text@, needle@, p),
        decreases limit + 1 - start,
    {
        if matches_at(text, needle, start) {
            proof {
                assert(occurs_at(text@, needle@, start as int));
            }
            return true;
        }
        start += 1;
    }
    proof {
        assert forall|p: int| !occurs_at(text@, needle@, p) by {
            if 0 <= p <= limit as int {
                assert(!occurs_at(text@, needle@, p));
            }
        }
    }
    false
}

/// A rule accepting the strings whose length lies within `min..=max`.
pub fn length(min: usize, max: usize) -> (r: ConditionalRule<String, StringCheck>)
    ensures
        r.condition == (StringCheck::LengthBetween { min, max }),
        r.message@ == "value length is out of bounds"@,
{
    condition(StringCheck::LengthBetween { min, max }, "value length is out of bounds".to_owned())
}

/// A rule accepting the strings matched by the regular expression written as
/// `source`.
pub fn pattern(source: String) -> (r: ConditionalRule<String, StringCheck>)
    ensures
        r.condition == (StringCheck::MatchesPattern { pattern: source }),
        r.message@ == "value doesn't match pattern"@,
{
    condition(
        StringCheck::MatchesPattern { pattern: source },
        "value doesn't match pattern".to_owned(),
    )
}

/// A rule accepting the strings that start with `prefix`.
pub fn starts_with(prefix: String) -> (r: ConditionalRule<String, StringCheck>)
    ensures
        r.condition == (StringCheck::StartsWith { prefix }),
        r.message@ == "value doesn't have prefix"@,
{
    condition(StringCheck::StartsWith { prefix }, "value doesn't have prefix".to_owned())
}

} // verus!
