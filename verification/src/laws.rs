//! What holds of every invocation, proved from the definitions of the
//! pipeline's stages.

use vstd::prelude::*;
use crate::dispatcher::{
    handler_text, ignored_step, is_terminal, spec_begin, spec_check_arity, spec_resume,
    ActionView, DispatchState, DispatcherView,
};
use crate::handlers::{
    missing_argument_text, not_a_number_text, platform_error_text, spec_conclude, spec_handle,
    spec_multiply, HandlerResultView, RequestView, ResponseView,
};
use crate::outcome::{
    denial_log, denial_text, outcome_class, spec_diagnostic, spec_reply, too_few_text,
    too_many_text, ArityKind, OutcomeView,
};
use crate::parser::{
    are_words, join_words, lemma_split_gives_words, lemma_split_of_joined_words, space_free,
    spec_parse, InvocationView,
};
use crate::policy::{spec_is_authorized, spec_permits, PolicyView};
use crate::registry::{
    lemma_lookup_finds_registered, lemma_lookup_unique, names_unique, spec_lookup, DescriptorView,
    Handler,
};
use crate::text::{int_text, lemma_parse_int_of_int_text, spec_parse_int, text_set, texts};

verus! {

/// The message that invokes `name` with `args` under `prefix`: the prefix,
/// the name, and the arguments, with one space before each argument.
pub open spec fn command_line(
    prefix: Seq<char>,
    name: Seq<char>,
    args: Seq<Seq<char>>,
) -> Seq<char> {
    prefix + join_words(seq![name] + args)
}

/// A command line parses into the name and the arguments that it was made
/// of, whatever the prefix is.
pub proof fn law_command_line_parses(prefix: Seq<char>, name: Seq<char>, args: Seq<Seq<char>>)
    requires
        name.len() > 0,
        space_free(name),
        are_words(args),
    ensures
        spec_parse(command_line(prefix, name, args), prefix) == Some(
            InvocationView { command_name: name, raw_args: args },
        ),
{
    let words = seq![name] + args;
    let body = command_line(prefix, name, args);
    lemma_split_of_joined_words(words);
    assert(body.skip(prefix.len() as int) =~= join_words(words));
    assert(words.drop_first() =~= args);
}

/// What a message parses into is made of words: the name and every argument
/// are non-empty and free of white space.
pub proof fn law_parsed_invocation_holds_words(
    body: Seq<char>,
    prefix: Seq<char>,
    invocation: InvocationView,
)
    requires
        spec_parse(body, prefix) == Some(invocation),
    ensures
        invocation.command_name.len() > 0,
        space_free(invocation.command_name),
        are_words(invocation.raw_args),
{
    lemma_split_gives_words(body.skip(prefix.len() as int));
}

/// A message that does not start with the prefix is ignored: no outcome,
/// nothing to send, nothing to log, whatever the commands and the policy
/// are.
pub proof fn law_unprefixed_message_is_ignored(
    d: DispatcherView,
    body: Seq<char>,
    sender: Seq<char>,
)
    requires
        !d.prefix.is_prefix_of(body),
    ensures
        spec_begin(d, body, sender) == ignored_step(),
        spec_begin(d, body, sender).action == ActionView::Nothing,
        spec_begin(d, body, sender).outcome is None,
{
}

/// A message that names no registered command is ignored.
pub proof fn law_unknown_command_is_ignored(
    d: DispatcherView,
    body: Seq<char>,
    sender: Seq<char>,
    invocation: InvocationView,
)
    requires
        spec_parse(body, d.prefix) == Some(invocation),
        spec_lookup(d.registry, invocation.command_name) is None,
    ensures
        spec_begin(d, body, sender) == ignored_step(),
{
}

/// Where names are unique, a lookup is exact: it finds a command exactly
/// where that command is registered under exactly that name.
pub proof fn law_lookup_is_exact(
    registry: Seq<DescriptorView>,
    name: Seq<char>,
    command: DescriptorView,
)
    requires
        names_unique(registry),
    ensures
        spec_lookup(registry, name) == Some(command) <==> registry.contains(command)
            && command.name == name,
{
    lemma_lookup_finds_registered(registry, name);
    if registry.contains(command) && command.name == name {
        let i = choose|i: int| 0 <= i < registry.len() && registry[i] == command;
        lemma_lookup_unique(registry, i);
    }
}

/// An argument count passes exactly where it lies within the command's
/// bounds.
pub proof fn law_arity_passes_within_bounds(command: DescriptorView, given: nat)
    ensures
        spec_check_arity(command, given) is None <==> command.min_args <= given
            <= command.max_args,
        spec_check_arity(command, given) matches Some(error) ==> error is ArityError,
{
}

/// A message with an argument count outside the bounds of the registered
/// command it names is rejected with the bound it missed and the count it
/// gave, before the policy is asked and without the handler running.
pub proof fn law_arity_is_checked_first(
    d: DispatcherView,
    i: int,
    body: Seq<char>,
    sender: Seq<char>,
    invocation: InvocationView,
)
    requires
        names_unique(d.registry),
        0 <= i < d.registry.len(),
        spec_parse(body, d.prefix) == Some(invocation),
        invocation.command_name == d.registry[i].name,
        invocation.raw_args.len() < d.registry[i].min_args || invocation.raw_args.len()
            > d.registry[i].max_args,
    ensures
        ({
            let step = spec_begin(d, body, sender);
            let command = d.registry[i];
            let given = invocation.raw_args.len();
            &&& step.state == DispatchState::ArityRejected
            &&& !step.path.contains(DispatchState::HandlerInvoked)
            &&& step.log.len() == 0
            &&& given < command.min_args ==> {
                &&& step.outcome == Some(
                    OutcomeView::ArityError {
                        kind: ArityKind::TooFew,
                        expected: command.min_args,
                        given,
                    },
                )
                &&& step.action == ActionView::Send(too_few_text(command.min_args, given))
            }
            &&& given >= command.min_args ==> {
                &&& step.outcome == Some(
                    OutcomeView::ArityError {
                        kind: ArityKind::TooMany,
                        expected: command.max_args,
                        given,
                    },
                )
                &&& step.action == ActionView::Send(too_many_text(command.max_args, given))
            }
        }),
{
    lemma_lookup_unique(d.registry, i);
    let step = spec_begin(d, body, sender);
    assert(step.path =~= seq![
        DispatchState::Received,
        DispatchState::Parsed,
        DispatchState::ArityRejected,
    ]);
}

/// A registered command that takes no argument rejects every message that
/// gives it one or more: too many, with the bound zero and the count given.
pub proof fn law_no_argument_command_rejects_arguments(
    d: DispatcherView,
    i: int,
    body: Seq<char>,
    sender: Seq<char>,
    invocation: InvocationView,
)
    requires
        names_unique(d.registry),
        0 <= i < d.registry.len(),
        d.registry[i].min_args == 0,
        d.registry[i].max_args == 0,
        spec_parse(body, d.prefix) == Some(invocation),
        invocation.command_name == d.registry[i].name,
        invocation.raw_args.len() > 0,
    ensures
        spec_begin(d, body, sender).state == DispatchState::ArityRejected,
        spec_begin(d, body, sender).outcome == Some(
            OutcomeView::ArityError {
                kind: ArityKind::TooMany,
                expected: 0,
                given: invocation.raw_args.len(),
            },
        ),
        spec_begin(d, body, sender).action == ActionView::Send(
            too_many_text(0, invocation.raw_args.len()),
        ),
{
    law_arity_is_checked_first(d, i, body, sender, invocation);
}

/// The same, said of the message itself: the command line of a registered
/// command that takes no argument, with `n > 0` arguments, is rejected as
/// too many, with the bound zero and the count `n`.
pub proof fn law_no_argument_command_line_is_rejected(
    d: DispatcherView,
    i: int,
    args: Seq<Seq<char>>,
    sender: Seq<char>,
)
    requires
        names_unique(d.registry),
        0 <= i < d.registry.len(),
        d.registry[i].min_args == 0,
        d.registry[i].max_args == 0,
        d.registry[i].name.len() > 0,
        space_free(d.registry[i].name),
        are_words(args),
        args.len() > 0,
    ensures
        ({
            let step = spec_begin(d, command_line(d.prefix, d.registry[i].name, args), sender);
            &&& step.state == DispatchState::ArityRejected
            &&& step.outcome == Some(
                OutcomeView::ArityError {
                    kind: ArityKind::TooMany,
                    expected: 0,
                    given: args.len(),
                },
            )
            &&& step.action == ActionView::Send(too_many_text(0, args.len()))
        }),
{
    let name = d.registry[i].name;
    law_command_line_parses(d.prefix, name, args);
    law_no_argument_command_rejects_arguments(
        d,
        i,
        command_line(d.prefix, name, args),
        sender,
        InvocationView { command_name: name, raw_args: args },
    );
}

/// A sender that the policy does not list is denied every registered command
/// that the policy does not exempt: the reply names the sender, the refusal
/// is logged, and the handler does not run.
pub proof fn law_unlisted_sender_is_denied(
    d: DispatcherView,
    i: int,
    body: Seq<char>,
    sender: Seq<char>,
    invocation: InvocationView,
)
    requires
        names_unique(d.registry),
        0 <= i < d.registry.len(),
        spec_parse(body, d.prefix) == Some(invocation),
        invocation.command_name == d.registry[i].name,
        d.registry[i].min_args <= invocation.raw_args.len() <= d.registry[i].max_args,
        !d.policy.no_auth_commands.contains(d.registry[i].name),
        !d.policy.authorized_senders.contains(sender),
    ensures
        spec_begin(d, body, sender).state == DispatchState::Denied,
        spec_begin(d, body, sender).outcome == Some(OutcomeView::Unauthorized),
        spec_begin(d, body, sender).action == ActionView::Send(denial_text(sender)),
        spec_begin(d, body, sender).log == seq![denial_log()],
        !spec_begin(d, body, sender).path.contains(DispatchState::HandlerInvoked),
{
    lemma_lookup_unique(d.registry, i);
    let step = spec_begin(d, body, sender);
    assert(step.path =~= seq![
        DispatchState::Received,
        DispatchState::Parsed,
        DispatchState::ArityChecked,
        DispatchState::Denied,
    ]);
}

/// A command that the policy exempts runs for every sender: whom the policy
/// lists makes no difference to what comes of the message, and it is never
/// denied.
pub proof fn law_exempt_command_runs_for_anyone(
    d: DispatcherView,
    other: DispatcherView,
    body: Seq<char>,
    sender: Seq<char>,
    invocation: InvocationView,
)
    requires
        spec_parse(body, d.prefix) == Some(invocation),
        d.policy.no_auth_commands.contains(invocation.command_name),
        other.prefix == d.prefix,
        other.registry == d.registry,
        other.policy.no_auth_commands == d.policy.no_auth_commands,
    ensures
        spec_begin(d, body, sender) == spec_begin(other, body, sender),
        spec_begin(d, body, sender).state != DispatchState::Denied,
{
    lemma_lookup_finds_registered(d.registry, invocation.command_name);
}

/// Whoever the policy lists may run every command.
pub proof fn law_listed_sender_is_never_denied(
    d: DispatcherView,
    body: Seq<char>,
    sender: Seq<char>,
)
    requires
        spec_is_authorized(sender, d.policy),
    ensures
        spec_begin(d, body, sender).state != DispatchState::Denied,
        forall|command: Seq<char>| spec_permits(d.policy, command, sender),
{
}

/// With no sender listed, only the exempt commands may be run.
pub proof fn law_empty_list_authorizes_nobody(
    policy: PolicyView,
    command: Seq<char>,
    sender: Seq<char>,
)
    requires
        policy.authorized_senders == text_set(Seq::<String>::empty()),
    ensures
        !spec_is_authorized(sender, policy),
        spec_permits(policy, command, sender) == policy.no_auth_commands.contains(command),
{
}

/// The same message from the same sender, under the same prefix, commands
/// and policy, comes to the same step: state, outcome, action and log.
pub proof fn law_same_message_same_step(
    d: DispatcherView,
    again: DispatcherView,
    body: Seq<char>,
    sender: Seq<char>,
)
    requires
        again.prefix == d.prefix,
        again.registry == d.registry,
        again.policy.no_auth_commands == d.policy.no_auth_commands,
        again.policy.authorized_senders == d.policy.authorized_senders,
    ensures
        spec_begin(again, body, sender) == spec_begin(d, body, sender),
{
}

/// Whether two answers of the platform are of one kind.
pub open spec fn same_kind(a: ResponseView, b: ResponseView) -> bool {
    &&& a is Apps <==> b is Apps
    &&& a is App <==> b is App
    &&& a is Restarted <==> b is Restarted
    &&& a is Failed <==> b is Failed
}

/// Where the platform answers a call twice with answers of one kind, both
/// invocations end in the same state with outcomes of the same class.
pub proof fn law_same_kind_of_answer_same_class(
    request: RequestView,
    first: ResponseView,
    second: ResponseView,
)
    requires
        same_kind(first, second),
    ensures
        outcome_class(spec_conclude(request, first)) == outcome_class(
            spec_conclude(request, second),
        ),
        spec_resume(request, first).state == spec_resume(request, second).state,
{
}

/// Once the platform has answered, the invocation ends: the state is
/// terminal, the handler's reply or error message is sent, and no further
/// call is asked for.
pub proof fn law_resume_ends_the_invocation(request: RequestView, response: ResponseView)
    ensures
        ({
            let step = spec_resume(request, response);
            &&& is_terminal(step.state)
            &&& step.action is Send
            &&& step.path == seq![DispatchState::HandlerInvoked, step.state]
            &&& step.outcome is Some
            &&& step.outcome->0 is Success || step.outcome->0 is HandlerError
            &&& step.outcome->0 is Success <==> step.state == DispatchState::Replied
        }),
{
}

/// A failure of the platform ends the invocation as a handler error whose
/// message ends with the platform client's error; that message is sent and
/// logged, and the call is not made again.
pub proof fn law_platform_failure_is_surfaced(request: RequestView, error: Seq<char>)
    ensures
        ({
            let step = spec_resume(request, ResponseView::Failed(error));
            &&& step.state == DispatchState::HandlerFailed
            &&& step.outcome == Some(OutcomeView::HandlerError(platform_error_text(error)))
            &&& step.action == ActionView::Send(platform_error_text(error))
            &&& step.log == seq![platform_error_text(error)]
            &&& platform_error_text(error).len() >= error.len()
            &&& platform_error_text(error).skip(platform_error_text(error).len() - error.len())
                == error
        }),
{
}

/// Every outcome is answered in the channel but a refusal that is not
/// classified: that one is logged under its category, and nothing is sent.
pub proof fn law_only_unclassified_refusals_go_unanswered(
    outcome: OutcomeView,
    sender: Seq<char>,
)
    ensures
        spec_reply(outcome, sender) is None <==> outcome is Unhandled,
        outcome is Unhandled ==> spec_diagnostic(outcome) is Some,
{
}

/// What a handler hands back is a reply or an error message, or a call on
/// the platform: never an arity error or a refusal.
pub proof fn law_handlers_succeed_or_fail(
    handler: Handler,
    sender: Seq<char>,
    args: Seq<Seq<char>>,
)
    ensures
        spec_handle(handler, sender, args) matches HandlerResultView::Done(outcome) ==> outcome
            is Success || outcome is HandlerError,
        spec_handle(handler, sender, args) is Call ==> handler == Handler::GetApp || handler
            == Handler::GetApps || handler == Handler::RestartApp,
{
}

/// Every invocation stops in a terminal state, or waits for the platform
/// with the call to make. The states passed through start at `Received` and
/// end in the state reached; a handler has run exactly where the path holds
/// `HandlerInvoked`; and an outcome is never of the unclassified kind.
pub proof fn law_begin_stops_or_waits(d: DispatcherView, body: Seq<char>, sender: Seq<char>)
    ensures
        ({
            let step = spec_begin(d, body, sender);
            &&& is_terminal(step.state) || step.state == DispatchState::HandlerInvoked
            &&& step.action is Call <==> step.state == DispatchState::HandlerInvoked
            &&& step.outcome is None <==> step.state == DispatchState::Ignored || step.state
                == DispatchState::HandlerInvoked
            &&& step.state == DispatchState::Ignored ==> step.action == ActionView::Nothing
            &&& is_terminal(step.state) && step.state != DispatchState::Ignored ==> step.action
                is Send
            &&& step.path.len() >= 2
            &&& step.path[0] == DispatchState::Received
            &&& step.path.last() == step.state
            &&& step.outcome matches Some(outcome) ==> !(outcome is Unhandled)
            &&& step.state == DispatchState::Replied || step.state == DispatchState::HandlerFailed
                ==> step.action == ActionView::Send(handler_text(step.outcome->0))
            &&& step.state == DispatchState::Replied <==> step.outcome is Some && step.outcome->0
                is Success
            &&& step.path.contains(DispatchState::HandlerInvoked) <==> step.state
                == DispatchState::HandlerInvoked || step.state == DispatchState::Replied
                || step.state == DispatchState::HandlerFailed
        }),
{
    let step = spec_begin(d, body, sender);
    if let Some(invocation) = spec_parse(body, d.prefix) {
        if let Some(command) = spec_lookup(d.registry, invocation.command_name) {
            law_handlers_succeed_or_fail(command.handler, sender, invocation.raw_args);
            if spec_check_arity(command, invocation.raw_args.len()) is None && spec_permits(
                d.policy,
                command.name,
                sender,
            ) {
                assert(step.path[4] == DispatchState::HandlerInvoked);
            }
        }
    }
}

/// `multiply` is exact: for any two 64-bit integers, written as decimal
/// numerals, the reply is the decimal numeral of their product.
pub proof fn law_multiply_is_exact(a: int, b: int)
    requires
        i64::MIN <= a <= i64::MAX,
        i64::MIN <= b <= i64::MAX,
    ensures
        spec_multiply(seq![int_text(a), int_text(b)]) == OutcomeView::Success(int_text(a * b)),
{
    lemma_parse_int_of_int_text(a);
    lemma_parse_int_of_int_text(b);
}

/// `multiply` never crashes on what it is given: it succeeds exactly where
/// its first two arguments are there and are integer literals of 64 bits,
/// and else fails with a message about the first one that is not.
pub proof fn law_multiply_succeeds_on_numbers_only(args: Seq<Seq<char>>)
    ensures
        spec_multiply(args) is Success <==> args.len() >= 2 && spec_parse_int(args[0]) is Some
            && spec_parse_int(args[1]) is Some,
        !(spec_multiply(args) is Success) ==> spec_multiply(args) is HandlerError,
        args.len() >= 1 && spec_parse_int(args[0]) is None ==> spec_multiply(args)
            == OutcomeView::HandlerError(not_a_number_text(1, args[0])),
        args.len() == 1 && spec_parse_int(args[0]) is Some ==> spec_multiply(args)
            == OutcomeView::HandlerError(missing_argument_text(2)),
{
}

} // verus!
