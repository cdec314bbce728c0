//! The simplest concrete rule: a predicate plus a fixed failure message.

use vstd::prelude::*;

use crate::result::{ValidationError, ValidationResult};
use crate::rule::{outcome_agrees, Predicate, Rule};

verus! {

/// A rule that accepts exactly the values its predicate holds of, and on
/// rejection reports exactly its configured message.
pub struct ConditionalRule<T, P> {
    pub condition: P,
    pub message: String,
    pub value_marker: core::marker::PhantomData<T>,
}

impl<T, P: Predicate<T>> Rule<T> for ConditionalRule<T, P> {
    open spec fn passes(&self, v: T) -> bool {
        self.condition.holds(v)
    }

    open spec fn failure_messages(&self, v: T) -> Seq<Seq<char>> {
        seq![self.message@]
    }

    open spec fn canned_message(&self) -> Option<Seq<char>> {
        None
    }

    fn apply(&self, value: &T) -> (r: ValidationResult) {
        if self.condition.test(value) {
            Ok(())
        } else {
            Err(ValidationError::from_message(self.message.clone()))
        }
    }

    fn error_message(&self) -> (m: Option<String>) {
        None
    }
}

impl<T, P: Predicate<T>> ConditionalRule<T, P> {
    /// Binds a predicate and a fixed message into a rule.
    pub fn new(condition: P, message: String) -> (r: Self)
        ensures
            r.condition == condition,
            r.message == message,
    {
        ConditionalRule { condition, message, value_marker: core::marker::PhantomData }
    }
}

/// Binds a predicate and a fixed message into a rule: the rule succeeds on a
/// value exactly when the predicate holds of it, and otherwise fails with
/// exactly that one message.
pub fn condition<T, P: Predicate<T>>(check: P, message: String) -> (r: ConditionalRule<T, P>)
    ensures
        r.condition == check,
        r.message == message,
{
    ConditionalRule::new(check, message)
}

/// A conditional rule evaluates to success exactly when its predicate holds
/// of the value, and any failure carries exactly its one configured message.
pub proof fn lemma_condition_semantics<T, P: Predicate<T>>(
    rule: ConditionalRule<T, P>,
    v: T,
    r: ValidationResult,
)
    requires
        outcome_agrees(rule, v, r),
    ensures
        r is Ok <==> rule.condition.holds(v),
        r matches Err(e) ==> e@ == seq![rule.message@],
{
}

} // verus!
