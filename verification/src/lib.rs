//! Detects uses of on-chain account handles that are never followed, within
//! the same function body, by a check of the account's `owner` field or a
//! comparison of its `key` against an expected value.
//!
//! The analysis works on an immutable snapshot of one function body: a typed
//! expression tree in which every node carries its resolved nominal type and a
//! source span. The host front-end that parses, type-checks and resolves the
//! source is outside this crate; it hands the analyzer the tree and receives
//! back zero or more findings, each pointing at one uncovered account use.

pub mod ir;
pub mod equality;
pub mod collect;
pub mod coverage;
pub mod analyze;
