//! A small, generic validation-rule library.
//!
//! A caller builds atomic checks over a value (length bounds, pattern match,
//! boolean equality, arbitrary predicates) and combines them into aggregate
//! rules with ALL (conjunction) or ANY (disjunction) semantics, collecting
//! human-readable failure messages along the way.

pub mod result;
pub mod rule;
pub mod condition;
pub mod composition;
pub mod rules;
