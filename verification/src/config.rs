//! The bot's settings, read once when it starts.

use vstd::prelude::*;
use vstd::string::*;
use crate::policy::{AuthorizationPolicy, PolicyView};
use crate::text::{clone_texts, text_set, texts};

verus! {

/// The settings that the bot starts with.
#[derive(Debug, Clone, PartialEq, Eq)]
pub struct Config {
    /// The token that opens the gateway.
    pub discord_token: String,
    /// The identities of the senders that may run every command.
    pub authorized_users: Vec<String>,
    /// The key that opens the platform's API.
    pub heroku_api_key: String,
}

/// The commands that anyone may run.
pub open spec fn exempt_commands() -> Set<Seq<char>> {
    set!["ping"@, "myid"@]
}

/// The names of the commands that anyone may run: `ping` and `myid`, in
/// this order.
pub fn default_no_auth_commands() -> (v: Vec<String>)
    ensures
        texts(v@) == seq!["ping"@, "myid"@],
        text_set(v@) == exempt_commands(),
{
    let mut v: Vec<String> = Vec::new();
    v.push(String::from_str("ping"));
    v.push(String::from_str("myid"));
    assert(texts(v@) =~= seq!["ping"@, "myid"@]);
    v
}

impl Config {
    /// The policy that these settings ask for: the senders listed under
    /// `authorized_users` are authorized, and `ping` and `myid` are open to
    /// anyone.
    pub fn policy(&self) -> (p: AuthorizationPolicy)
        ensures
            p@ == (PolicyView {
                no_auth_commands: exempt_commands(),
                authorized_senders: text_set(self.authorized_users@),
            }),
            texts(p.no_auth_commands@) == seq!["ping"@, "myid"@],
            p.authorized_senders@ == self.authorized_users@,
    {
        AuthorizationPolicy::new(default_no_auth_commands(), clone_texts(&self.authorized_users))
    }
}

} // verus!
