//! The scope-empty rule: a commit message must carry a scope.

use vstd::prelude::*;
use crate::message::Message;
use crate::result::Violation;
use crate::rule::{Level, Rule, validate_post};

verus! {

/// The scope-empty rule: fires exactly when the parsed message has no
/// scope. A present scope suppresses the violation whatever string it
/// holds, the empty string included; the parser alone decides what counts
/// as present.
#[derive(Clone, Debug)]
pub struct ScopeEmpty {
    /// The configured severity override; the default level applies when
    /// this is `None`.
    pub level: Option<Level>,
}

impl Rule for ScopeEmpty {
    open spec fn spec_name() -> Seq<char> {
        "scope-empty"@
    }

    open spec fn spec_default_level() -> Level {
        Level::Error
    }

    open spec fn spec_effective_level(&self) -> Level {
        match self.level {
            Some(level) => level,
            None => Level::Error,
        }
    }

    open spec fn fires(&self, message: &Message) -> bool {
        message.scope is None
    }

    open spec fn spec_message(&self, message: &Message) -> Seq<char> {
        "scope is empty"@
    }

    fn name() -> (r: &'static str)
        ensures
            r@ == "scope-empty"@,
    {
        "scope-empty"
    }

    fn default_level() -> (r: Level)
        ensures
            r == Level::Error,
    {
        Level::Error
    }

    fn effective_level(&self) -> (r: Level)
        ensures
            self.level matches Some(level) ==> r == level,
            self.level is None ==> r == Level::Error,
    {
        self.level.unwrap_or(Level::Error)
    }

    fn message(&self, _message: &Message) -> (r: String)
        ensures
            r@ == "scope is empty"@,
    {
        "scope is empty".to_string()
    }

    fn validate(&self, message: &Message) -> (r: Option<Violation>)
        ensures
            r is Some <==> message.scope is None,
            r matches Some(v) ==> v.level == self.spec_effective_level()
                && v.message@ == "scope is empty"@,
    {
        if message.scope.is_none() {
            return Some(Violation {
                level: self.level.unwrap_or(Level::Error),
                message: self.message(message),
            });
        }

        None
    }
}

impl Default for ScopeEmpty {
    /// A default-constructed instance is explicitly configured with the
    /// rule's default level.
    fn default() -> (r: Self)
        ensures
            r.level == Some(Level::Error),
            r.spec_effective_level() == ScopeEmpty::spec_default_level(),
    {
        Self { level: Some(Level::Error) }
    }
}

/// A message whose scope is present — whatever string it holds, the empty
/// string included — satisfies the rule: `validate` returns `None`.
pub proof fn lemma_scope_present_no_violation(
    rule: ScopeEmpty,
    message: Message,
    r: Option<Violation>,
)
    requires
        message.scope is Some,
        validate_post(&rule, &message, r),
    ensures
        r is None,
{
}

/// A message without a scope draws a violation whose text is
/// `"scope is empty"` and whose level is the configured override where one
/// is present, and the default level (`Error`) otherwise.
pub proof fn lemma_scope_absent_violation(
    rule: ScopeEmpty,
    message: Message,
    r: Option<Violation>,
)
    requires
        message.scope is None,
        validate_post(&rule, &message, r),
    ensures
        r is Some,
        r matches Some(v) ==> v.message@ == "scope is empty"@,
        r matches Some(v) ==> (rule.level matches Some(level) ==> v.level == level),
        r matches Some(v) ==> (rule.level is None ==> v.level == ScopeEmpty::spec_default_level()),
{
}

/// An instance whose configuration was left out resolves to the default
/// level (`Error`), and admits exactly the validation results that an
/// instance explicitly configured with `Some(Level::Error)` admits.
pub proof fn lemma_default_level_equivalence(
    unconfigured: ScopeEmpty,
    configured: ScopeEmpty,
    message: Message,
    r: Option<Violation>,
)
    requires
        unconfigured.level is None,
        configured.level == Some(Level::Error),
    ensures
        unconfigured.spec_effective_level() == ScopeEmpty::spec_default_level(),
        validate_post(&unconfigured, &message, r) == validate_post(&configured, &message, r),
{
}

/// The rule's message text is the literal `"scope is empty"`, whatever the
/// message given to it.
pub proof fn lemma_message_constant(rule: ScopeEmpty, message: Message)
    ensures
        rule.spec_message(&message) == "scope is empty"@,
{
}

} // verus!
