//! The rule abstraction: anything that can evaluate a value of type `T` and
//! produce a [`ValidationResult`] is a rule.

pub mod length;
pub mod pattern;

use vstd::prelude::*;

use crate::result::ValidationResult;

verus! {

/// The capability contract of every rule: evaluate a value, return success or
/// a structured failure.
///
/// The two spec functions are the mathematical model of a rule: `passes` says
/// which values it accepts, and `failure_messages` which messages it reports
/// for a value it rejects. `apply` is bound to both, so evaluating a rule
/// twice on the same value always yields the same outcome.
pub trait Rule<T>: Sized {
    /// Whether this rule accepts the value `v`.
    spec fn passes(&self, v: T) -> bool;

    /// The messages this rule reports when it rejects the value `v`.
    spec fn failure_messages(&self, v: T) -> Seq<Seq<char>>;

    /// The canned message this rule declares for use by generic adapters, if
    /// any. Rules that manage their own messaging declare none.
    spec fn canned_message(&self) -> Option<Seq<char>>;

    /// Evaluates the rule against a value. Never mutates the rule.
    fn apply(&self, value: &T) -> (r: ValidationResult)
        ensures
            r is Ok <==> self.passes(*value),
            r matches Err(e) ==> e@ == self.failure_messages(*value),
    ;

    /// The canned message, as an owned string.
    fn error_message(&self) -> (m: Option<String>)
        ensures
            m.deep_view() == self.canned_message(),
    ;
}

/// A pure predicate over values of type `T`, usable wherever a rule is
/// expected. Implementations carry their own data (bounds, a prefix, a
/// pattern) and decide each value exactly as their `holds` spec says.
pub trait Predicate<T>: Sized {
    /// Whether the predicate holds of the value `v`.
    spec fn holds(&self, v: T) -> bool;

    /// Decides the predicate on a value. Never mutates the predicate.
    fn test(&self, value: &T) -> (b: bool)
        ensures
            b == self.holds(*value),
    ;
}

/// The thin adapter that lets a bare predicate stand wherever a rule is
/// expected: true means success, false means a degenerate failure that
/// carries no message, since a bare predicate declares no canned message.
pub struct PredicateRule<T, P> {
    pub predicate: P,
    pub value_marker: core::marker::PhantomData<T>,
}

impl<T, P: Predicate<T>> PredicateRule<T, P> {
    /// Wraps a bare predicate so it can be used as a rule.
    pub fn new(predicate: P) -> (r: Self)
        ensures
            r.predicate == predicate,
    {
        PredicateRule { predicate, value_marker: core::marker::PhantomData }
    }
}

impl<T, P: Predicate<T>> Rule<T> for PredicateRule<T, P> {
    open spec fn passes(&self, v: T) -> bool {
        self.predicate.holds(v)
    }

    open spec fn failure_messages(&self, v: T) -> Seq<Seq<char>> {
        Seq::<Seq<char>>::empty()
    }

    open spec fn canned_message(&self) -> Option<Seq<char>> {
        None
    }

    fn apply(&self, value: &T) -> (r: ValidationResult) {
        if self.predicate.test(value) {
            Ok(())
        } else {
            Err(crate::result::ValidationError::from_optional(self.error_message()))
        }
    }

    fn error_message(&self) -> (m: Option<String>) {
        None
    }
}

/// Whether a single evaluation outcome `r` is the one that `rule` owes for the
/// value `v`: success exactly when the rule passes, and on failure exactly the
/// rule's failure messages. This is what `Rule::apply` promises of its result.
pub open spec fn outcome_agrees<T, R: Rule<T>>(rule: R, v: T, r: ValidationResult) -> bool {
    &&& r is Ok <==> rule.passes(v)
    &&& r matches Err(e) ==> e@ == rule.failure_messages(v)
}

/// Evaluation is referentially transparent: any two outcomes that a rule can
/// owe for the same value agree on pass/fail and, on failure, carry the same
/// message sequence.
pub proof fn lemma_apply_deterministic<T, R: Rule<T>>(
    rule: R,
    v: T,
    r1: ValidationResult,
    r2: ValidationResult,
)
    requires
        outcome_agrees(rule, v, r1),
        outcome_agrees(rule, v, r2),
    ensures
        r1 is Ok <==> r2 is Ok,
        r1 matches Err(e1) ==> r2 matches Err(e2) ==> e1@ == e2@,
{
}

} // verus!
