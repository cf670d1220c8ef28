//! What one invocation can end in, and the text that answers it.

use vstd::prelude::*;
use vstd::string::*;
use crate::text::{nat_text, push_decimal};

verus! {

/// On which side of a command's bounds an argument count fell.
#[derive(Debug, Clone, Copy, PartialEq, Eq, Structural)]
pub enum ArityKind {
    /// Fewer arguments than the command needs.
    TooFew,
    /// More arguments than the command allows.
    TooMany,
}

/// The result of one invocation.
#[derive(Debug, Clone, PartialEq, Eq)]
pub enum DispatchOutcome {
    /// The handler ran and produced this reply.
    Success(String),
    /// The handler ran and failed with this message.
    HandlerError(String),
    /// The argument count was outside the command's bounds: `expected` is the
    /// bound that was missed, `given` the number of arguments in the message.
    ArityError { kind: ArityKind, expected: usize, given: usize },
    /// The sender may not run the command.
    Unauthorized,
    /// A refusal of a category that this pipeline does not classify, raised by
    /// the host before any handler ran. The text names the category.
    Unhandled(String),
}

/// What a [`DispatchOutcome`] stands for.
pub enum OutcomeView {
    Success(Seq<char>),
    HandlerError(Seq<char>),
    ArityError { kind: ArityKind, expected: nat, given: nat },
    Unauthorized,
    Unhandled(Seq<char>),
}

impl View for DispatchOutcome {
    type V = OutcomeView;

    open spec fn view(&self) -> OutcomeView {
        match self {
            DispatchOutcome::Success(text) => OutcomeView::Success(text@),
            DispatchOutcome::HandlerError(message) => OutcomeView::HandlerError(message@),
            DispatchOutcome::ArityError { kind, expected, given } => OutcomeView::ArityError {
                kind: *kind,
                expected: *expected as nat,
                given: *given as nat,
            },
            DispatchOutcome::Unauthorized => OutcomeView::Unauthorized,
            DispatchOutcome::Unhandled(category) => OutcomeView::Unhandled(category@),
        }
    }
}

/// The class of an outcome: its variant, without what it carries.
#[derive(Debug, Clone, Copy, PartialEq, Eq, Structural)]
pub enum OutcomeClass {
    Success,
    HandlerError,
    ArityError,
    Unauthorized,
    Unhandled,
}

/// The class of `outcome`.
pub open spec fn outcome_class(outcome: OutcomeView) -> OutcomeClass {
    match outcome {
        OutcomeView::Success(_) => OutcomeClass::Success,
        OutcomeView::HandlerError(_) => OutcomeClass::HandlerError,
        OutcomeView::ArityError { .. } => OutcomeClass::ArityError,
        OutcomeView::Unauthorized => OutcomeClass::Unauthorized,
        OutcomeView::Unhandled(_) => OutcomeClass::Unhandled,
    }
}

impl DispatchOutcome {
    /// The class of this outcome.
    pub fn class(&self) -> (c: OutcomeClass)
        ensures
            c == outcome_class(self@),
    {
        match self {
            DispatchOutcome::Success(_) => OutcomeClass::Success,
            DispatchOutcome::HandlerError(_) => OutcomeClass::HandlerError,
            DispatchOutcome::ArityError { .. } => OutcomeClass::ArityError,
            DispatchOutcome::Unauthorized => OutcomeClass::Unauthorized,
            DispatchOutcome::Unhandled(_) => OutcomeClass::Unhandled,
        }
    }
}

/// The reply to a message with fewer arguments than the command needs.
pub open spec fn too_few_text(min: nat, given: nat) -> Seq<char> {
    "Need "@ + nat_text(min) + " arguments, but only got "@ + nat_text(given) + "."@
}

/// The reply to a message with more arguments than the command allows.
pub open spec fn too_many_text(max: nat, given: nat) -> Seq<char> {
    "Max arguments allowed is "@ + nat_text(max) + ", but got "@ + nat_text(given) + "."@
}

/// The reply that tells `sender`, by a mention, that the command was refused.
pub open spec fn denial_text(sender: Seq<char>) -> Seq<char> {
    "User <@"@ + sender + "> is not authorized to run this command"@
}

/// The line that is logged when a sender is refused.
pub open spec fn denial_log() -> Seq<char> {
    "User is not authorized to run this command"@
}

/// The line that is logged for a refusal that is not classified.
pub open spec fn unhandled_log(category: Seq<char>) -> Seq<char> {
    "Unhandled dispatch error "@ + category
}

/// The text that answers `outcome` in the channel the message came from, if
/// any does: the handler's reply or error message, the count that an arity
/// error missed, or the refusal of `sender`. A refusal that is not classified
/// is answered by nothing.
pub open spec fn spec_reply(outcome: OutcomeView, sender: Seq<char>) -> Option<Seq<char>> {
    match outcome {
        OutcomeView::Success(text) => Some(text),
        OutcomeView::HandlerError(message) => Some(message),
        OutcomeView::ArityError { kind: ArityKind::TooFew, expected, given } => Some(
            too_few_text(expected, given),
        ),
        OutcomeView::ArityError { kind: ArityKind::TooMany, expected, given } => Some(
            too_many_text(expected, given),
        ),
        OutcomeView::Unauthorized => Some(denial_text(sender)),
        OutcomeView::Unhandled(_) => None,
    }
}

/// The line that is logged once `outcome` is known, if any is: the refusal of
/// a sender, a handler's error message, or the category of a refusal that is
/// not classified.
pub open spec fn spec_diagnostic(outcome: OutcomeView) -> Option<Seq<char>> {
    match outcome {
        OutcomeView::Success(_) => None,
        OutcomeView::HandlerError(message) => Some(message),
        OutcomeView::ArityError { .. } => None,
        OutcomeView::Unauthorized => Some(denial_log()),
        OutcomeView::Unhandled(category) => Some(unhandled_log(category)),
    }
}

/// The view of an optional text.
pub open spec fn opt_text(t: Option<String>) -> Option<Seq<char>> {
    match t {
        Some(s) => Some(s@),
        None => None,
    }
}

/// The text to send back to the channel for `outcome`, if any.
pub fn reply_for(outcome: &DispatchOutcome, sender: &str) -> (r: Option<String>)
    ensures
        opt_text(r) == spec_reply(outcome@, sender@),
{
    match outcome {
        DispatchOutcome::Success(text) => Some(text.clone()),
        DispatchOutcome::HandlerError(message) => Some(message.clone()),
        DispatchOutcome::ArityError { kind, expected, given } => {
            let mut s = match kind {
                ArityKind::TooFew => String::from_str("Need "),
                ArityKind::TooMany => String::from_str("Max arguments allowed is "),
            };
            push_decimal(&mut s, *expected as u128);
            match kind {
                ArityKind::TooFew => s.append(" arguments, but only got "),
                ArityKind::TooMany => s.append(", but got "),
            }
            push_decimal(&mut s, *given as u128);
            s.append(".");
            Some(s)
        },
        DispatchOutcome::Unauthorized => {
            let mut s = String::from_str("User <@");
            s.append(sender);
            s.append("> is not authorized to run this command");
            Some(s)
        },
        DispatchOutcome::Unhandled(_) => None,
    }
}

/// The line to log for `outcome`, if it calls for one.
pub fn diagnostic_for(outcome: &DispatchOutcome) -> (r: Option<String>)
    ensures
        opt_text(r) == spec_diagnostic(outcome@),
{
    match outcome {
        DispatchOutcome::Success(_) => None,
        DispatchOutcome::HandlerError(message) => Some(message.clone()),
        DispatchOutcome::ArityError { .. } => None,
        DispatchOutcome::Unauthorized => Some(
            String::from_str("User is not authorized to run this command"),
        ),
        DispatchOutcome::Unhandled(category) => {
            let mut s = String::from_str("Unhandled dispatch error ");
            s.append(category.as_str());
            Some(s)
        },
    }
}

} // verus!
