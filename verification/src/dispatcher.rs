//! The dispatcher: one message in, and out the state the invocation reached,
//! its outcome, and what the host has to do next.
//!
//! The dispatcher does no outside work of its own. Where a handler needs the
//! platform, [`Dispatcher::begin`] stops in [`DispatchState::HandlerInvoked`]
//! with the call to make; the host makes it and hands the answer to
//! [`Dispatcher::resume`].

use vstd::prelude::*;
use vstd::string::*;
use crate::config::{exempt_commands, Config};
use crate::handlers::{
    spec_conclude, spec_handle, HandlerContext, HandlerResult, HandlerResultView, PaasRequest,
    PaasResponse, RequestView, ResponseView,
};
use crate::outcome::{
    diagnostic_for, reply_for, spec_diagnostic, spec_reply, ArityKind, DispatchOutcome, OutcomeView,
};
use crate::parser::{parse, spec_parse};
use crate::policy::{spec_permits, AuthorizationPolicy, PolicyView};
use crate::registry::{
    is_registered, lemma_lookup_finds_registered, names_unique, spec_lookup, standard_commands,
    CommandDescriptor, DescriptorView, Registry,
};
use crate::text::{text_set, texts};

verus! {

/// A state of the machine that handles one invocation.
#[derive(Debug, Clone, Copy, PartialEq, Eq, Structural)]
pub enum DispatchState {
    /// A message came in.
    Received,
    /// The message names a registered command.
    Parsed,
    /// The number of arguments is within the command's bounds.
    ArityChecked,
    /// The sender may run the command.
    Authorized,
    /// The handler runs.
    HandlerInvoked,
    /// The handler's reply is ready to be sent. Terminal.
    Replied,
    /// The message is no command, or names none that is registered. Terminal.
    Ignored,
    /// The number of arguments is outside the command's bounds. Terminal.
    ArityRejected,
    /// The sender may not run the command. Terminal.
    Denied,
    /// The handler failed. Terminal.
    HandlerFailed,
}

/// Whether nothing follows `state`.
pub open spec fn is_terminal(state: DispatchState) -> bool {
    state == DispatchState::Replied || state == DispatchState::Ignored || state
        == DispatchState::ArityRejected || state == DispatchState::Denied || state
        == DispatchState::HandlerFailed
}

impl DispatchState {
    /// Whether nothing follows this state.
    pub fn is_terminal(self) -> (r: bool)
        ensures
            r == is_terminal(self),
    {
        match self {
            DispatchState::Replied
            | DispatchState::Ignored
            | DispatchState::ArityRejected
            | DispatchState::Denied
            | DispatchState::HandlerFailed => true,
            _ => false,
        }
    }
}

/// What the host has to do after a step.
#[derive(Debug, Clone, PartialEq, Eq)]
pub enum Action {
    /// Nothing.
    Nothing,
    /// Send this text to the channel that the message came from.
    Send(String),
    /// Make this call on the platform and hand its answer to
    /// [`Dispatcher::resume`].
    Call(PaasRequest),
}

/// What an [`Action`] stands for.
pub enum ActionView {
    Nothing,
    Send(Seq<char>),
    Call(RequestView),
}

impl View for Action {
    type V = ActionView;

    open spec fn view(&self) -> ActionView {
        match self {
            Action::Nothing => ActionView::Nothing,
            Action::Send(text) => ActionView::Send(text@),
            Action::Call(request) => ActionView::Call(request@),
        }
    }
}

/// Where an invocation stands after the dispatcher has worked on it.
#[derive(Debug, Clone, PartialEq, Eq)]
pub struct Step {
    /// The state that was reached.
    pub state: DispatchState,
    /// The states that were passed through, the one reached last.
    pub path: Vec<DispatchState>,
    /// The outcome, once there is one.
    pub outcome: Option<DispatchOutcome>,
    /// What the host has to do now.
    pub action: Action,
    /// The lines that the host has to log, in order.
    pub log: Vec<String>,
}

/// What a [`Step`] stands for.
pub struct StepView {
    pub state: DispatchState,
    pub path: Seq<DispatchState>,
    pub outcome: Option<OutcomeView>,
    pub action: ActionView,
    pub log: Seq<Seq<char>>,
}

impl View for Step {
    type V = StepView;

    open spec fn view(&self) -> StepView {
        StepView {
            state: self.state,
            path: self.path@,
            outcome: match self.outcome {
                Some(outcome) => Some(outcome@),
                None => None,
            },
            action: self.action@,
            log: texts(self.log@),
        }
    }
}

/// The line that is logged when a handler is about to run.
pub open spec fn running_log(command: Seq<char>) -> Seq<char> {
    "Running command "@ + command
}

/// The action that answers `outcome`.
pub open spec fn spec_action(outcome: OutcomeView, sender: Seq<char>) -> ActionView {
    match spec_reply(outcome, sender) {
        Some(text) => ActionView::Send(text),
        None => ActionView::Nothing,
    }
}

/// The lines to log for `outcome`, after those of `before`.
pub open spec fn spec_log(before: Seq<Seq<char>>, outcome: OutcomeView) -> Seq<Seq<char>> {
    match spec_diagnostic(outcome) {
        Some(line) => before.push(line),
        None => before,
    }
}

/// The step of a message that is ignored: no outcome, nothing to send,
/// nothing to log.
pub open spec fn ignored_step() -> StepView {
    StepView {
        state: DispatchState::Ignored,
        path: seq![DispatchState::Received, DispatchState::Ignored],
        outcome: None,
        action: ActionView::Nothing,
        log: Seq::empty(),
    }
}

/// The step that ends an invocation in `state` with `outcome`, after the
/// states of `path` and the log lines of `log`.
pub open spec fn final_step(
    state: DispatchState,
    path: Seq<DispatchState>,
    outcome: OutcomeView,
    sender: Seq<char>,
    log: Seq<Seq<char>>,
) -> StepView {
    StepView {
        state,
        path: path.push(state),
        outcome: Some(outcome),
        action: spec_action(outcome, sender),
        log: spec_log(log, outcome),
    }
}

/// The state in which a handler's `outcome` ends the invocation.
pub open spec fn settled_state(outcome: OutcomeView) -> DispatchState {
    if outcome is Success {
        DispatchState::Replied
    } else {
        DispatchState::HandlerFailed
    }
}

/// The arity error, if any, of a message with `given` arguments for
/// `command`: too few is told before too many.
pub open spec fn spec_check_arity(command: DescriptorView, given: nat) -> Option<OutcomeView> {
    if given < command.min_args {
        Some(
            OutcomeView::ArityError {
                kind: ArityKind::TooFew,
                expected: command.min_args,
                given,
            },
        )
    } else if given > command.max_args {
        Some(
            OutcomeView::ArityError {
                kind: ArityKind::TooMany,
                expected: command.max_args,
                given,
            },
        )
    } else {
        None
    }
}

/// What a dispatcher stands for: its prefix, its commands and its policy.
pub struct DispatcherView {
    pub prefix: Seq<char>,
    pub registry: Seq<DescriptorView>,
    pub policy: PolicyView,
}

/// The states up to the one in which the sender is held against the policy.
pub open spec fn checked_path() -> Seq<DispatchState> {
    seq![DispatchState::Received, DispatchState::Parsed, DispatchState::ArityChecked]
}

/// The states up to and with the handler's run.
pub open spec fn invoked_path() -> Seq<DispatchState> {
    checked_path().push(DispatchState::Authorized).push(DispatchState::HandlerInvoked)
}

/// What the dispatcher `d` makes of the message `body` from `sender`.
///
/// A body that does not parse under the prefix, or names no registered
/// command, is ignored. Else the argument count is held against the
/// command's bounds, then the sender against the policy, and only then the
/// handler runs: it either settles the invocation or asks for a call on the
/// platform.
pub open spec fn spec_begin(d: DispatcherView, body: Seq<char>, sender: Seq<char>) -> StepView {
    match spec_parse(body, d.prefix) {
        None => ignored_step(),
        Some(invocation) => match spec_lookup(d.registry, invocation.command_name) {
            None => ignored_step(),
            Some(command) => match spec_check_arity(command, invocation.raw_args.len()) {
                Some(error) => final_step(
                    DispatchState::ArityRejected,
                    seq![DispatchState::Received, DispatchState::Parsed],
                    error,
                    sender,
                    Seq::empty(),
                ),
                None => if !spec_permits(d.policy, command.name, sender) {
                    final_step(
                        DispatchState::Denied,
                        checked_path(),
                        OutcomeView::Unauthorized,
                        sender,
                        Seq::empty(),
                    )
                } else {
                    match spec_handle(command.handler, sender, invocation.raw_args) {
                        HandlerResultView::Done(outcome) => final_step(
                            settled_state(outcome),
                            invoked_path(),
                            outcome,
                            sender,
                            seq![running_log(command.name)],
                        ),
                        HandlerResultView::Call(request) => StepView {
                            state: DispatchState::HandlerInvoked,
                            path: invoked_path(),
                            outcome: None,
                            action: ActionView::Call(request),
                            log: seq![running_log(command.name)],
                        },
                    }
                },
            },
        },
    }
}

/// The text that the outcome of a handler carries: its reply, or its error
/// message.
pub open spec fn handler_text(outcome: OutcomeView) -> Seq<char> {
    match outcome {
        OutcomeView::Success(text) => text,
        OutcomeView::HandlerError(message) => message,
        _ => Seq::empty(),
    }
}

/// What the dispatcher makes of the platform's `response` to `request`: the
/// handler concludes, and the invocation ends with its reply, or with its
/// error, which is sent and logged. No further call is asked for.
pub open spec fn spec_resume(request: RequestView, response: ResponseView) -> StepView {
    let outcome = spec_conclude(request, response);
    StepView {
        state: settled_state(outcome),
        path: seq![DispatchState::HandlerInvoked, settled_state(outcome)],
        outcome: Some(outcome),
        action: ActionView::Send(handler_text(outcome)),
        log: spec_log(Seq::empty(), outcome),
    }
}

/// Whether `d` is well configured: no two commands share a name, and every
/// command that the policy exempts is registered.
pub open spec fn well_configured(d: DispatcherView) -> bool {
    &&& names_unique(d.registry)
    &&& forall|command: Seq<char>| #[trigger]
        d.policy.no_auth_commands.contains(command) ==> is_registered(d.registry, command)
}

/// Why a dispatcher could not be set up.
#[derive(Debug, Clone, PartialEq, Eq)]
pub enum ConfigError {
    /// The policy exempts a command of this name, and none is registered.
    UnknownExemptCommand(String),
}

/// The dispatcher: the prefix, the commands and the policy, fixed when the
/// bot starts.
#[derive(Debug, Clone, PartialEq, Eq)]
pub struct Dispatcher {
    prefix: String,
    registry: Registry,
    policy: AuthorizationPolicy,
}

impl View for Dispatcher {
    type V = DispatcherView;

    closed spec fn view(&self) -> DispatcherView {
        DispatcherView { prefix: self.prefix@, registry: self.registry@, policy: self.policy@ }
    }
}

/// Ends an invocation in `state` with `outcome`.
fn finish(
    state: DispatchState,
    path: Vec<DispatchState>,
    outcome: DispatchOutcome,
    sender: &str,
    log: Vec<String>,
) -> (step: Step)
    ensures
        step@ == final_step(state, path@, outcome@, sender@, texts(log@)),
{
    let mut path = path;
    let mut log = log;
    path.push(state);
    let action = match reply_for(&outcome, sender) {
        Some(text) => Action::Send(text),
        None => Action::Nothing,
    };
    let ghost before = log@;
    match diagnostic_for(&outcome) {
        Some(line) => {
            log.push(line);
            assert(texts(log@) =~= texts(before).push(line@));
        },
        None => {},
    }
    Step { state, path, outcome: Some(outcome), action, log }
}

/// The state in which a handler's `outcome` ends the invocation.
fn settle(outcome: &DispatchOutcome) -> (state: DispatchState)
    ensures
        state == settled_state(outcome@),
{
    match outcome {
        DispatchOutcome::Success(_) => DispatchState::Replied,
        _ => DispatchState::HandlerFailed,
    }
}

/// Holds `given` arguments against the bounds of `command`.
pub fn check_arity(command: &CommandDescriptor, given: usize) -> (r: Option<DispatchOutcome>)
    ensures
        match r {
            Some(error) => spec_check_arity(command@, given as nat) == Some(error@),
            None => spec_check_arity(command@, given as nat) is None,
        },
{
    if given < command.min_args {
        Some(
            DispatchOutcome::ArityError {
                kind: ArityKind::TooFew,
                expected: command.min_args,
                given,
            },
        )
    } else if given > command.max_args {
        Some(
            DispatchOutcome::ArityError {
                kind: ArityKind::TooMany,
                expected: command.max_args,
                given,
            },
        )
    } else {
        None
    }
}

impl Dispatcher {
    /// Whether the dispatcher is well formed: it is well configured.
    pub open spec fn wf(&self) -> bool {
        well_configured(self@)
    }

    /// Sets a dispatcher up, unless the policy exempts a command that is not
    /// registered: that is a defect of the configuration, and the first such
    /// command is reported.
    pub fn new(prefix: &str, registry: Registry, policy: AuthorizationPolicy) -> (r: Result<
        Self,
        ConfigError,
    >)
        ensures
            match r {
                Ok(d) => {
                    &&& d@ == (DispatcherView {
                        prefix: prefix@,
                        registry: registry@,
                        policy: policy@,
                    })
                    &&& forall|command: Seq<char>| #[trigger]
                        policy@.no_auth_commands.contains(command) ==> is_registered(
                            registry@,
                            command,
                        )
                    &&& registry.wf() ==> d.wf()
                },
                Err(ConfigError::UnknownExemptCommand(name)) => {
                    &&& policy@.no_auth_commands.contains(name@)
                    &&& !is_registered(registry@, name@)
                    &&& exists|k: int|
                        {
                            &&& 0 <= k < policy.no_auth_commands@.len()
                            &&& #[trigger] texts(policy.no_auth_commands@)[k] == name@
                            &&& forall|j: int|
                                0 <= j < k ==> is_registered(
                                    registry@,
                                    #[trigger] texts(policy.no_auth_commands@)[j],
                                )
                        }
                },
            },
    {
        let n: usize = policy.no_auth_commands.len();
        let ghost names = texts(policy.no_auth_commands@);
        let mut i: usize = 0;
        while i < n
            invariant
                i <= n,
                n == policy.no_auth_commands@.len(),
                names == texts(policy.no_auth_commands@),
                forall|k: int| 0 <= k < i ==> is_registered(registry@, #[trigger] names[k]),
            decreases n - i,
        {
            let name = &policy.no_auth_commands[i];
            proof {
                lemma_lookup_finds_registered(registry@, name@);
                assert(names[i as int] == name@);
            }
            if registry.lookup(name.as_str()).is_none() {
                return Err(ConfigError::UnknownExemptCommand(name.clone()));
            }
            i = i + 1;
        }
        Ok(Dispatcher { prefix: String::from_str(prefix), registry, policy })
    }

    /// The bot's own dispatcher: the prefix `~`, the six commands, and the
    /// policy that `config` asks for, under which `ping` and `myid` are open
    /// to anyone.
    pub fn standard(config: &Config) -> (d: Self)
        ensures
            d@ == (DispatcherView {
                prefix: "~"@,
                registry: standard_commands(),
                policy: PolicyView {
                    no_auth_commands: exempt_commands(),
                    authorized_senders: text_set(config.authorized_users@),
                },
            }),
            d.wf(),
    {
        Dispatcher {
            prefix: String::from_str("~"),
            registry: Registry::standard(),
            policy: config.policy(),
        }
    }

    /// The prefix that marks a message as a command.
    pub fn prefix(&self) -> (p: &str)
        ensures
            p@ == self@.prefix,
    {
        self.prefix.as_str()
    }

    /// The commands.
    pub fn registry(&self) -> (r: &Registry)
        ensures
            r@ == self@.registry,
    {
        &self.registry
    }

    /// The policy.
    pub fn policy(&self) -> (p: &AuthorizationPolicy)
        ensures
            p@ == self@.policy,
    {
        &self.policy
    }

    /// Handles the message `body` from `sender`, from its receipt to the
    /// first state in which the host has something to do or the invocation
    /// has ended.
    pub fn begin(&self, body: &str, sender: &str) -> (step: Step)
        ensures
            step@ == spec_begin(self@, body@, sender@),
    {
        let invocation = match parse(body, self.prefix.as_str()) {
            Some(invocation) => invocation,
            None => {
                return ignore();
            },
        };
        let command = match self.registry.lookup(invocation.command_name.as_str()) {
            Some(command) => command,
            None => {
                return ignore();
            },
        };
        let mut path: Vec<DispatchState> = Vec::new();
        path.push(DispatchState::Received);
        path.push(DispatchState::Parsed);
        let mut log: Vec<String> = Vec::new();
        assert(texts(log@) =~= Seq::<Seq<char>>::empty());
        if let Some(error) = check_arity(command, invocation.raw_args.len()) {
            assert(path@ =~= seq![DispatchState::Received, DispatchState::Parsed]);
            return finish(DispatchState::ArityRejected, path, error, sender, log);
        }
        path.push(DispatchState::ArityChecked);
        assert(path@ =~= checked_path());
        if !self.policy.permits(command.name.as_str(), sender) {
            return finish(DispatchState::Denied, path, DispatchOutcome::Unauthorized, sender, log);
        }
        path.push(DispatchState::Authorized);
        path.push(DispatchState::HandlerInvoked);
        let mut running = String::from_str("Running command ");
        running.append(command.name.as_str());
        log.push(running);
        assert(texts(log@) =~= seq![running_log(command@.name)]);
        let context = HandlerContext { sender };
        match command.handler.handle(&context, &invocation.raw_args) {
            HandlerResult::Done(outcome) => {
                let state = settle(&outcome);
                finish(state, path, outcome, sender, log)
            },
            HandlerResult::Call(request) => Step {
                state: DispatchState::HandlerInvoked,
                path,
                outcome: None,
                action: Action::Call(request),
                log,
            },
        }
    }

    /// Takes up the invocation that asked for `request`, now that the
    /// platform has answered with `response`.
    pub fn resume(&self, request: &PaasRequest, response: &PaasResponse) -> (step: Step)
        ensures
            step@ == spec_resume(request@, response@),
    {
        let outcome = request.conclude(response);
        let mut path: Vec<DispatchState> = Vec::new();
        path.push(DispatchState::HandlerInvoked);
        let log: Vec<String> = Vec::new();
        assert(texts(log@) =~= Seq::<Seq<char>>::empty());
        let state = settle(&outcome);
        // What answers a handler's outcome does not depend on the sender.
        let step = finish(state, path, outcome, "", log);
        assert(step@.path =~= spec_resume(request@, response@).path);
        step
    }
}

/// The step of a message that is ignored.
fn ignore() -> (step: Step)
    ensures
        step@ == ignored_step(),
{
    let mut path: Vec<DispatchState> = Vec::new();
    path.push(DispatchState::Received);
    path.push(DispatchState::Ignored);
    let log: Vec<String> = Vec::new();
    assert(path@ =~= seq![DispatchState::Received, DispatchState::Ignored]);
    assert(texts(log@) =~= Seq::<Seq<char>>::empty());
    Step { state: DispatchState::Ignored, path, outcome: None, action: Action::Nothing, log }
}

} // verus!
