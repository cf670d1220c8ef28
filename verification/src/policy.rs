//! The authorization gate: which sender may run which command.

use vstd::prelude::*;
use vstd::string::*;
use crate::text::{contains_text, text_set};

verus! {

/// Who may run what: the commands that anyone may run, and the senders that
/// may run every command.
#[derive(Debug, Clone, PartialEq, Eq)]
pub struct AuthorizationPolicy {
    pub no_auth_commands: Vec<String>,
    pub authorized_senders: Vec<String>,
}

/// What an [`AuthorizationPolicy`] stands for: two sets of texts.
pub struct PolicyView {
    pub no_auth_commands: Set<Seq<char>>,
    pub authorized_senders: Set<Seq<char>>,
}

impl View for AuthorizationPolicy {
    type V = PolicyView;

    open spec fn view(&self) -> PolicyView {
        PolicyView {
            no_auth_commands: text_set(self.no_auth_commands@),
            authorized_senders: text_set(self.authorized_senders@),
        }
    }
}

/// A sender is authorized exactly where the policy lists its identity.
pub open spec fn spec_is_authorized(sender: Seq<char>, policy: PolicyView) -> bool {
    policy.authorized_senders.contains(sender)
}

/// Whether `sender` may run `command`: the command is open to anyone, or
/// the sender is authorized.
pub open spec fn spec_permits(policy: PolicyView, command: Seq<char>, sender: Seq<char>) -> bool {
    policy.no_auth_commands.contains(command) || spec_is_authorized(sender, policy)
}

/// Whether `policy` lists `sender` among the authorized senders.
pub fn is_authorized(sender: &str, policy: &AuthorizationPolicy) -> (r: bool)
    ensures
        r == spec_is_authorized(sender@, policy@),
{
    contains_text(&policy.authorized_senders, sender)
}

impl AuthorizationPolicy {
    /// A policy that opens `no_auth_commands` to anyone and authorizes
    /// `authorized_senders`.
    pub fn new(no_auth_commands: Vec<String>, authorized_senders: Vec<String>) -> (p: Self)
        ensures
            p.no_auth_commands == no_auth_commands,
            p.authorized_senders == authorized_senders,
    {
        AuthorizationPolicy { no_auth_commands, authorized_senders }
    }

    /// Whether `command` is open to anyone.
    pub fn is_exempt(&self, command: &str) -> (r: bool)
        ensures
            r == self@.no_auth_commands.contains(command@),
    {
        contains_text(&self.no_auth_commands, command)
    }

    /// Whether `sender` may run `command`.
    pub fn permits(&self, command: &str, sender: &str) -> (r: bool)
        ensures
            r == spec_permits(self@, command@, sender@),
    {
        self.is_exempt(command) || is_authorized(sender, self)
    }
}

} // verus!
