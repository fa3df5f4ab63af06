//! The uniform contract that every concrete check satisfies, so that a
//! driver can run a heterogeneous set of rules over one message.

pub mod scope_empty;

use vstd::prelude::*;
use crate::message::Message;
use crate::result::Violation;

verus! {

/// Ordered severity of a finding: `Info < Warning < Error`.
#[derive(Clone, Copy, Debug, PartialEq, Eq, PartialOrd, Ord, Structural)]
pub enum Level {
    Info,
    Warning,
    Error,
}

/// What `validate` is allowed to return for a given rule and message:
/// a violation is present exactly when the rule fires, and it then carries
/// the rule's effective level and the rule's message text.
pub open spec fn validate_post<R: Rule>(
    rule: &R,
    message: &Message,
    result: Option<Violation>,
) -> bool {
    &&& (result is Some <==> rule.fires(message))
    &&& (result matches Some(v) ==> v.level == rule.spec_effective_level()
        && v.message@ == rule.spec_message(message))
}

/// One configurable check over a parsed commit message.
///
/// A rule is an immutable value: a name, a default severity, an optional
/// configured severity override, and a pure `validate` that yields at most
/// one violation per message.
pub trait Rule: Sized {
    /// The rule's stable name, used for configuration lookup and labels.
    spec fn spec_name() -> Seq<char>;

    /// The severity applied when no override is configured.
    spec fn spec_default_level() -> Level;

    /// The severity this instance resolves to: the configured override
    /// where present, the default otherwise.
    spec fn spec_effective_level(&self) -> Level;

    /// Whether the rule reports a violation for `message`.
    spec fn fires(&self, message: &Message) -> bool;

    /// The text of the violation the rule would report for `message`.
    spec fn spec_message(&self, message: &Message) -> Seq<char>;

    /// The rule's stable name.
    fn name() -> (r: &'static str)
        ensures
            r@ == Self::spec_name(),
    ;

    /// The severity applied when no override is configured.
    fn default_level() -> (r: Level)
        ensures
            r == Self::spec_default_level(),
    ;

    /// The severity this instance resolves to.
    fn effective_level(&self) -> (r: Level)
        ensures
            r == self.spec_effective_level(),
    ;

    /// Why this rule fired, given the offending message.
    fn message(&self, message: &Message) -> (r: String)
        ensures
            r@ == self.spec_message(message),
    ;

    /// Checks `message`: `None` when the message satisfies the rule, and
    /// otherwise a violation carrying the effective level and the rule's
    /// message text. Pure and total: no input is rejected.
    fn validate(&self, message: &Message) -> (r: Option<Violation>)
        ensures
            r is Some <==> self.fires(message),
            r matches Some(v) ==> v.level == self.spec_effective_level()
                && v.message@ == self.spec_message(message),
    ;
}

/// Validation is deterministic: any two results that `validate`'s contract
/// admits for the same rule instance and the same message agree on whether
/// a violation is present, on its level, and on its text.
pub proof fn lemma_validate_deterministic<R: Rule>(
    rule: &R,
    message: &Message,
    r1: Option<Violation>,
    r2: Option<Violation>,
)
    requires
        validate_post(rule, message, r1),
        validate_post(rule, message, r2),
    ensures
        r1 is Some <==> r2 is Some,
        r1 matches Some(v1) ==> (r2 matches Some(v2)
            && v1.level == v2.level
            && v1.message@ == v2.message@),
{
}

} // verus!
