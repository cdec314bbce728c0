//! Boolean-equality checks and the rules built from them.

use vstd::prelude::*;

use crate::condition::{condition, ConditionalRule};
use crate::rule::Predicate;

verus! {

/// A check on a boolean value: that it is true, or that it is false.
pub enum BoolCheck {
    IsTrue,
    IsFalse,
}

impl Predicate<bool> for BoolCheck {
    open spec fn holds(&self, v: bool) -> bool {
        match self {
            BoolCheck::IsTrue => v == true,
            BoolCheck::IsFalse => v == false,
        }
    }

    fn test(&self, value: &bool) -> (b: bool) {
        match self {
            BoolCheck::IsTrue => *value,
            BoolCheck::IsFalse => !*value,
        }
    }
}

/// A rule accepting exactly the value `true`.
pub fn is_true() -> (r: ConditionalRule<bool, BoolCheck>)
    ensures
        r.condition is IsTrue,
        r.message@ == "value is not true"@,
{
    condition(BoolCheck::IsTrue, "value is not true".to_owned())
}

/// A rule accepting exactly the value `false`.
pub fn is_false() -> (r: ConditionalRule<bool, BoolCheck>)
    ensures
        r.condition is IsFalse,
        r.message@ == "value is not false"@,
{
    condition(BoolCheck::IsFalse, "value is not false".to_owned())
}

} // verus!
