//! Ready-made leaf rules, expressed as parameterized predicates bound to
//! fixed failure messages.

pub mod bool;
pub mod string;
