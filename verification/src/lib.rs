//! A commit-message linter core: policy rules over a parsed commit message.
//!
//! A commit is represented as a [`message::Message`]; every policy check
//! implements the [`rule::Rule`] capability and returns at most one
//! [`result::Violation`] per message; the [`engine`] runs an ordered list of
//! configured rules and collects their violations in order.

pub mod engine;
pub mod message;
pub mod pattern;
pub mod result;
pub mod rule;
pub mod text;

use vstd::prelude::*;

verus! {

} // verus!
