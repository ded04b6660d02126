//! A fluent assertion library with verified assertion logic.
//!
//! A caller wraps a value under test in a [`subject::Subject`] and chains
//! assertion calls on it.  Every assertion either confirms its predicate and
//! returns `Ok`, or returns an [`failure::AssertionMismatch`] carrying a
//! structured, human-readable report; the harness around a test decides what
//! to do with a mismatch.

pub mod decimal;
pub mod expected;
pub mod failure;
pub mod hashset;
pub mod string;
pub mod subject;
