//! The capability every policy rule implements.

pub mod ticket_id;

use vstd::prelude::*;

use crate::message::Message;
use crate::result::{Level, Violation, ViolationModel};

verus! {

/// One configurable policy check over a commit [`Message`].
///
/// A rule is pure: `validate` reads only its own configuration and the
/// message, and returns `None` when the message satisfies the rule, else
/// exactly one [`Violation`] summarizing the failure. What it returns is
/// pinned by the rule's own `spec_validate` model, so two calls on the same
/// rule and message return the same outcome.
pub trait Rule: Sized {
    /// The model of `validate`: the violation this rule produces for a
    /// message, if any, with the message text as a character sequence.
    spec fn spec_validate(&self, message: Message) -> Option<ViolationModel>;

    /// The model of `name`.
    spec fn spec_name(&self) -> Seq<char>;

    /// The model of `default_level`.
    spec fn spec_default_level(&self) -> Level;

    /// The model of `message`.
    spec fn spec_message(&self, message: Message) -> Seq<char>;

    /// The stable identifier of this rule, used for reporting.
    fn name(&self) -> (r: &'static str)
        ensures
            r@ == self.spec_name(),
    ;

    /// The severity used when the configured override is unset.
    fn default_level(&self) -> (r: Level)
        ensures
            r == self.spec_default_level(),
    ;

    /// The generic human-readable description of a failure of this rule.
    fn message(&self, message: &Message) -> (r: String)
        ensures
            r@ == self.spec_message(*message),
    ;

    /// Checks the message against this rule; `None` means the message
    /// satisfies it.
    fn validate(&self, message: &Message) -> (r: Option<Violation>)
        ensures
            r.deep_view() == self.spec_validate(*message),
    ;
}

} // verus!
