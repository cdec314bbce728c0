//! Aggregate rules: combine many child rules under an ALL or ANY policy,
//! collecting failure messages, with an optional single override message.

use std::rc::Rc;

use vstd::prelude::*;

use crate::result::{merged_messages, ValidationError, ValidationResult};
use crate::rule::Rule;

verus! {

/// How the outcomes of the child rules of a composite combine: `All` passes
/// only when every child passes, `Any` passes when at least one child does.
#[derive(Clone, Copy)]
pub enum CompositionKind {
    All,
    Any,
}

impl Default for CompositionKind {
    /// The default policy is `All`.
    fn default() -> (r: Self)
        ensures
            r is All,
    {
        CompositionKind::All
    }
}

/// Every rule in the sequence accepts `v`.
pub open spec fn all_pass<T, R: Rule<T>>(rules: Seq<R>, v: T) -> bool {
    forall|i: int| 0 <= i < rules.len() ==> (#[trigger] rules[i]).passes(v)
}

/// At least one rule in the sequence accepts `v`.
pub open spec fn some_passes<T, R: Rule<T>>(rules: Seq<R>, v: T) -> bool {
    exists|i: int| 0 <= i < rules.len() && (#[trigger] rules[i]).passes(v)
}

/// How many rules in the sequence reject `v`.
pub open spec fn fail_count<T, R: Rule<T>>(rules: Seq<R>, v: T) -> nat
    decreases rules.len(),
{
    if rules.len() == 0 {
        0
    } else {
        fail_count(rules.drop_last(), v) + if rules.last().passes(v) {
            0nat
        } else {
            1nat
        }
    }
}

/// The failure messages of every rule in the sequence that rejects `v`,
/// concatenated in evaluation order, preserving the order within each rule.
pub open spec fn collected_messages<T, R: Rule<T>>(rules: Seq<R>, v: T) -> Seq<Seq<char>>
    decreases rules.len(),
{
    if rules.len() == 0 {
        Seq::<Seq<char>>::empty()
    } else {
        collected_messages(rules.drop_last(), v) + if rules.last().passes(v) {
            Seq::<Seq<char>>::empty()
        } else {
            rules.last().failure_messages(v)
        }
    }
}

/// The failure count is bounded by the rule count, is zero exactly when every
/// rule passes, and falls short of the rule count exactly when some rule
/// passes.
pub proof fn lemma_fail_count<T, R: Rule<T>>(rules: Seq<R>, v: T)
    ensures
        fail_count(rules, v) <= rules.len(),
        fail_count(rules, v) == 0 <==> all_pass(rules, v),
        fail_count(rules, v) < rules.len() <==> some_passes(rules, v),
    decreases rules.len(),
{
    if rules.len() == 0 {
        assert(all_pass(rules, v));
        assert(!some_passes(rules, v));
    } else {
        let prefix = rules.drop_last();
        lemma_fail_count(prefix, v);
        assert(all_pass(rules, v) ==> all_pass(prefix, v) && rules.last().passes(v));
        if all_pass(prefix, v) && rules.last().passes(v) {
            assert forall|i: int| 0 <= i < rules.len() implies (#[trigger] rules[i]).passes(v) by {
                if i < rules.len() - 1 {
                    assert(prefix[i].passes(v));
                }
            }
        }
        if some_passes(prefix, v) || rules.last().passes(v) {
            assert(some_passes(rules, v)) by {
                if rules.last().passes(v) {
                    assert(rules[rules.len() - 1].passes(v));
                } else {
                    let i = choose|i: int|
                        0 <= i < prefix.len() && (#[trigger] prefix[i]).passes(v);
                    assert(rules[i].passes(v));
                }
            }
        }
        if some_passes(rules, v) {
            let i = choose|i: int| 0 <= i < rules.len() && (#[trigger] rules[i]).passes(v);
            if i < rules.len() - 1 {
                assert(prefix[i].passes(v));
                assert(some_passes(prefix, v));
            }
        }
    }
}

/// An aggregate of child rules, held by shared handles so the same child can
/// be reused across several composites, combined under a [`CompositionKind`],
/// with an optional message that replaces the children's messages on failure.
pub struct CompositeRule<T, R> {
    pub kind: CompositionKind,
    pub rules: Vec<Rc<R>>,
    pub message: Option<String>,
    pub value_marker: core::marker::PhantomData<T>,
}

impl<T, R: Rule<T>> CompositeRule<T, R> {
    /// The child rules, in the order they were appended.
    pub open spec fn children(&self) -> Seq<R> {
        Seq::new(self.rules@.len(), |i: int| *self.rules@[i])
    }

    /// A composite in its pristine state: policy `All`, no children, no
    /// override message.
    pub open spec fn is_pristine(&self) -> bool {
        &&& self.kind is All
        &&& self.rules@.len() == 0
        &&& self.message is None
    }
}

impl<T, R: Rule<T>> Default for CompositeRule<T, R> {
    /// An empty composite: policy `All`, no children, no override message.
    fn default() -> (r: Self)
        ensures
            r.is_pristine(),
    {
        CompositeRule {
            kind: CompositionKind::All,
            rules: Vec::new(),
            message: None,
            value_marker: core::marker::PhantomData,
        }
    }
}

impl<T, R: Rule<T>> Clone for CompositeRule<T, R> {
    /// A clone evaluates exactly as the rule it was cloned from: it shares
    /// the same child rules and keeps the same policy and override message.
    fn clone(&self) -> (r: Self)
        ensures
            r.kind == self.kind,
            r.rules@ == self.rules@,
            r.message == self.message,
    {
        let mut rules: Vec<Rc<R>> = Vec::new();
        let mut i: usize = 0;
        while i < self.rules.len()
            invariant
                i <= self.rules@.len(),
                rules@ == self.rules@.take(i as int),
            decreases self.rules@.len() - i,
        {
            rules.push(Rc::clone(&self.rules[i]));
            proof {
                assert(rules@ =~= self.rules@.take(i + 1));
            }
            i += 1;
        }
        proof {
            assert(rules@ =~= self.rules@);
        }
        let message = match &self.message {
            Some(m) => Some(m.clone()),
            None => None,
        };
        CompositeRule {
            kind: self.kind,
            rules,
            message,
            value_marker: core::marker::PhantomData,
        }
    }
}

impl<T, R: Rule<T>> Rule<T> for CompositeRule<T, R> {
    open spec fn passes(&self, v: T) -> bool {
        match self.kind {
            CompositionKind::All => all_pass(self.children(), v),
            CompositionKind::Any => some_passes(self.children(), v),
        }
    }

    open spec fn failure_messages(&self, v: T) -> Seq<Seq<char>> {
        match self.message {
            Some(m) => seq![m@],
            None => collected_messages(self.children(), v),
        }
    }

    open spec fn canned_message(&self) -> Option<Seq<char>> {
        None
    }

    fn apply(&self, value: &T) -> (r: ValidationResult) {
        let ghost cs = self.children();
        let mut errors: Vec<ValidationError> = Vec::new();
        let mut i: usize = 0;
        while i < self.rules.len()
            invariant
                i <= self.rules@.len(),
                cs == self.children(),
                cs.len() == self.rules@.len(),
                errors@.len() == fail_count(cs.take(i as int), *value),
                merged_messages(errors@) == collected_messages(cs.take(i as int), *value),
            decreases self.rules@.len() - i,
        {
            let result = self.rules[i].apply(value);
            proof {
                assert(cs.take(i + 1).drop_last() =~= cs.take(i as int));
                assert(cs.take(i + 1).last() == cs[i as int]);
            }
            match result {
                Ok(_) => {},
                Err(e) => {
                    let ghost prev = errors@;
                    errors.push(e);
                    proof {
                        assert(errors@.drop_last() =~= prev);
                        assert(merged_messages(errors@) == merged_messages(prev) + e@);
                    }
                },
            }
            i += 1;
        }
        proof {
            assert(cs.take(i as int) =~= cs);
            lemma_fail_count(cs, *value);
        }
        match self.kind {
            CompositionKind::All => {
                if errors.len() > 0 {
                    match &self.message {
                        None => Err(ValidationError::from_errors(errors)),
                        Some(m) => Err(ValidationError::from_message(m.clone())),
                    }
                } else {
                    Ok(())
                }
            },
            CompositionKind::Any => {
                if self.rules.len() - errors.len() > 0 {
                    Ok(())
                } else {
                    match &self.message {
                        None => Err(ValidationError::from_errors(errors)),
                        Some(m) => Err(ValidationError::from_message(m.clone())),
                    }
                }
            },
        }
    }

    fn error_message(&self) -> (m: Option<String>) {
        None
    }
}

/// With policy `All` and no override message, a composite passes exactly when
/// every child passes, and a failure carries the failing children's messages,
/// concatenated in evaluation order.
pub proof fn lemma_all_semantics<T, R: Rule<T>>(c: CompositeRule<T, R>, v: T)
    requires
        c.kind is All,
        c.message is None,
    ensures
        c.passes(v) <==> (forall|i: int|
            0 <= i < c.children().len() ==> (#[trigger] c.children()[i]).passes(v)),
        !c.passes(v) ==> c.failure_messages(v) == collected_messages(c.children(), v),
{
}

/// With policy `Any` and no override message, a composite passes exactly when
/// at least one child passes, and a failure carries the messages of all the
/// (then all failing) children, concatenated in evaluation order.
pub proof fn lemma_any_semantics<T, R: Rule<T>>(c: CompositeRule<T, R>, v: T)
    requires
        c.kind is Any,
        c.message is None,
    ensures
        c.passes(v) <==> (exists|i: int|
            0 <= i < c.children().len() && (#[trigger] c.children()[i]).passes(v)),
        !c.passes(v) ==> c.failure_messages(v) == collected_messages(c.children(), v),
{
}

/// When an override message is set, any aggregate failure carries exactly that
/// one message, whatever the policy and however many children failed.
pub proof fn lemma_override_message<T, R: Rule<T>>(c: CompositeRule<T, R>, v: T)
    requires
        c.message is Some,
    ensures
        c.failure_messages(v).len() == 1,
        c.message matches Some(m) ==> c.failure_messages(v) == seq![m@],
{
}

/// A composite with no children at all passes vacuously under `All` and fails
/// vacuously under `Any`.
pub proof fn lemma_vacuous_composite<T, R: Rule<T>>(c: CompositeRule<T, R>, v: T)
    requires
        c.children().len() == 0,
    ensures
        c.kind is All ==> c.passes(v),
        c.kind is Any ==> !c.passes(v),
{
    assert(all_pass(c.children(), v));
    assert(!some_passes(c.children(), v));
}

/// The mutable builder that accumulates a policy, child rules and an optional
/// override message, then snapshots them into an immutable [`CompositeRule`].
pub struct RuleComposer<T, R> {
    pub rule: CompositeRule<T, R>,
}

impl<T, R: Rule<T>> Default for RuleComposer<T, R> {
    /// A composer that starts from the pristine state.
    fn default() -> (r: Self)
        ensures
            r.rule.is_pristine(),
    {
        RuleComposer { rule: CompositeRule::default() }
    }
}

impl<T, R: Rule<T>> RuleComposer<T, R> {
    /// Sets the combination policy, overwriting any previous setting.
    pub fn kind(&mut self, kind: CompositionKind) -> (r: &mut Self)
        ensures
            (*r).rule.kind == kind,
            (*r).rule.rules == old(self).rule.rules,
            (*r).rule.message == old(self).rule.message,
            *final(self) == *final(r),
    {
        self.rule.kind = kind;
        self
    }

    /// Appends one child rule. Children are never de-duplicated: a rule
    /// appended twice is evaluated twice.
    pub fn rule(&mut self, rule: R) -> (r: &mut Self)
        ensures
            (*r).rule.kind == old(self).rule.kind,
            (*r).rule.message == old(self).rule.message,
            (*r).rule.children() == old(self).rule.children().push(rule),
            *final(self) == *final(r),
    {
        self.rule.rules.push(Rc::new(rule));
        proof {
            assert(self.rule.children() =~= old(self).rule.children().push(rule));
        }
        self
    }

    /// Sets the message that replaces the children's messages on aggregate
    /// failure.
    pub fn message(&mut self, message: String) -> (r: &mut Self)
        ensures
            (*r).rule.kind == old(self).rule.kind,
            (*r).rule.rules == old(self).rule.rules,
            (*r).rule.message == Some(message),
            *final(self) == *final(r),
    {
        self.rule.message = Some(message);
        self
    }

    /// Finalizes: returns the accumulated composite and resets the composer to
    /// the pristine state, so the same composer can immediately start building
    /// an unrelated composite.
    pub fn compose(&mut self) -> (r: CompositeRule<T, R>)
        ensures
            r == old(self).rule,
            final(self).rule.is_pristine(),
    {
        let mut out = CompositeRule::default();
        core::mem::swap(&mut self.rule, &mut out);
        out
    }
}

/// A fresh composer: policy `All`, no children, no override message.
pub fn compose_rules<T, R: Rule<T>>() -> (r: RuleComposer<T, R>)
    ensures
        r.rule.is_pristine(),
{
    RuleComposer::default()
}

} // verus!
