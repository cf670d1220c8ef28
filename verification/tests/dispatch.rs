use command_bot::config::{default_no_auth_commands, Config};
use command_bot::dispatcher::{
    check_arity, Action, ConfigError, DispatchState, Dispatcher, Step,
};
use command_bot::handlers::{AppInfo, PaasRequest, PaasResponse};
use command_bot::outcome::{ArityKind, DispatchOutcome};
use command_bot::policy::{is_authorized, AuthorizationPolicy};
use command_bot::registry::{CommandDescriptor, Handler, Registry};

use command_bot::dispatcher::DispatchState::{
    ArityChecked, ArityRejected, Authorized, Denied, HandlerFailed, HandlerInvoked, Ignored,
    Parsed, Received, Replied,
};

fn strings(items: &[&str]) -> Vec<String> {
    items.iter().map(|s| s.to_string()).collect()
}

fn config(authorized: &[&str]) -> Config {
    Config {
        discord_token: "token".to_string(),
        authorized_users: strings(authorized),
        heroku_api_key: "key".to_string(),
    }
}

fn bot(authorized: &[&str]) -> Dispatcher {
    Dispatcher::standard(&config(authorized))
}

fn ignored() -> Step {
    Step {
        state: Ignored,
        path: vec![Received, Ignored],
        outcome: None,
        action: Action::Nothing,
        log: vec![],
    }
}

fn replied(text: &str, command: &str) -> Step {
    Step {
        state: Replied,
        path: vec![Received, Parsed, ArityChecked, Authorized, HandlerInvoked, Replied],
        outcome: Some(DispatchOutcome::Success(text.to_string())),
        action: Action::Send(text.to_string()),
        log: vec![format!("Running command {}", command)],
    }
}

fn denied(sender: &str) -> Step {
    Step {
        state: Denied,
        path: vec![Received, Parsed, ArityChecked, Denied],
        outcome: Some(DispatchOutcome::Unauthorized),
        action: Action::Send(format!("User <@{}> is not authorized to run this command", sender)),
        log: vec!["User is not authorized to run this command".to_string()],
    }
}

fn rejected(kind: ArityKind, expected: usize, given: usize, text: &str) -> Step {
    Step {
        state: ArityRejected,
        path: vec![Received, Parsed, ArityRejected],
        outcome: Some(DispatchOutcome::ArityError { kind, expected, given }),
        action: Action::Send(text.to_string()),
        log: vec![],
    }
}

fn waiting(request: PaasRequest, command: &str) -> Step {
    Step {
        state: HandlerInvoked,
        path: vec![Received, Parsed, ArityChecked, Authorized, HandlerInvoked],
        outcome: None,
        action: Action::Call(request),
        log: vec![format!("Running command {}", command)],
    }
}

#[test]
fn message_without_prefix_gets_no_reply() {
    let d = bot(&["12345"]);
    for body in ["ping", "hello there", "", " ~ping", "multiply 3 4", "!ping", "p~ing"] {
        assert_eq!(d.begin(body, "12345"), ignored(), "body {:?}", body);
        assert_eq!(d.begin(body, "999"), ignored(), "body {:?}", body);
    }
}

#[test]
fn prefix_alone_is_ignored() {
    let d = bot(&[]);
    assert_eq!(d.begin("~", "1"), ignored());
    assert_eq!(d.begin("~  \t", "1"), ignored());
}

#[test]
fn unknown_command_is_ignored() {
    let d = bot(&["12345"]);
    assert_eq!(d.begin("~nope", "12345"), ignored());
    assert_eq!(d.begin("~Ping", "12345"), ignored());
    assert_eq!(d.begin("~pingg", "12345"), ignored());
    assert_eq!(d.begin("~nope 1 2 3", "999"), ignored());
}

#[test]
fn command_without_arguments_rejects_arguments() {
    let d = bot(&["12345"]);
    assert_eq!(
        d.begin("~ping now", "12345"),
        rejected(ArityKind::TooMany, 0, 1, "Max arguments allowed is 0, but got 1.")
    );
    assert_eq!(
        d.begin("~myid a b c", "12345"),
        rejected(ArityKind::TooMany, 0, 3, "Max arguments allowed is 0, but got 3.")
    );
    assert_eq!(
        d.begin("~get_apps 1 2 3 4 5 6 7 8 9 10 11", "12345"),
        rejected(ArityKind::TooMany, 0, 11, "Max arguments allowed is 0, but got 11.")
    );
}

#[test]
fn too_few_arguments_are_rejected() {
    let d = bot(&["12345"]);
    assert_eq!(
        d.begin("~multiply", "12345"),
        rejected(ArityKind::TooFew, 2, 0, "Need 2 arguments, but only got 0.")
    );
    assert_eq!(
        d.begin("~multiply 3", "12345"),
        rejected(ArityKind::TooFew, 2, 1, "Need 2 arguments, but only got 1.")
    );
    assert_eq!(
        d.begin("~restart_app", "12345"),
        rejected(ArityKind::TooFew, 1, 0, "Need 1 arguments, but only got 0.")
    );
}

#[test]
fn too_many_arguments_are_rejected() {
    let d = bot(&["12345"]);
    assert_eq!(
        d.begin("~multiply 3 4 5", "12345"),
        rejected(ArityKind::TooMany, 2, 3, "Max arguments allowed is 2, but got 3.")
    );
    assert_eq!(
        d.begin("~get_app a b", "12345"),
        rejected(ArityKind::TooMany, 1, 2, "Max arguments allowed is 1, but got 2.")
    );
}

#[test]
fn arity_is_checked_before_the_sender() {
    let d = bot(&[]);
    assert_eq!(
        d.begin("~restart_app", "999"),
        rejected(ArityKind::TooFew, 1, 0, "Need 1 arguments, but only got 0.")
    );
    assert_eq!(
        d.begin("~get_apps x", "999"),
        rejected(ArityKind::TooMany, 0, 1, "Max arguments allowed is 0, but got 1.")
    );
}

#[test]
fn multiply_three_four_replies_twelve() {
    let d = bot(&["12345"]);
    let step = d.begin("~multiply 3 4", "12345");
    assert_eq!(step, replied("12", "multiply"));
    match step.action {
        Action::Send(text) => assert!(text.contains("12")),
        other => panic!("no reply: {:?}", other),
    }
}

#[test]
fn multiply_foo_four_is_a_handler_error() {
    let d = bot(&["12345"]);
    let step = d.begin("~multiply foo 4", "12345");
    assert_eq!(step.state, HandlerFailed);
    assert_eq!(
        step.path,
        vec![Received, Parsed, ArityChecked, Authorized, HandlerInvoked, HandlerFailed]
    );
    assert_eq!(
        step.outcome,
        Some(DispatchOutcome::HandlerError("Argument 1 is not a number: foo".to_string()))
    );
    assert_eq!(step.action, Action::Send("Argument 1 is not a number: foo".to_string()));
    assert_eq!(
        step.log,
        strings(&["Running command multiply", "Argument 1 is not a number: foo"])
    );
}

#[test]
fn myid_replies_with_the_sender() {
    let d = bot(&[]);
    let step = d.begin("~myid", "12345");
    assert_eq!(step, replied("12345", "myid"));
    assert_eq!(step.action, Action::Send("12345".to_string()));
}

#[test]
fn ping_replies_with_the_acknowledgement() {
    let d = bot(&["12345"]);
    assert_eq!(d.begin("~ping", "12345"), replied("Pong!", "ping"));
}

#[test]
fn standard_policy_opens_ping_and_myid_only() {
    let d = bot(&["12345"]);
    assert_eq!(d.begin("~multiply 2 2", "999"), denied("999"));
    assert_eq!(d.begin("~multiply 2 2", "12345"), replied("4", "multiply"));
    assert_eq!(d.begin("~ping", "999"), replied("Pong!", "ping"));
    assert_eq!(d.begin("~myid", "999"), replied("999", "myid"));
}

#[test]
fn unlisted_sender_is_denied_multiply_and_allowed_ping() {
    let d = bot(&["12345"]);
    assert_eq!(d.begin("~multiply 2 2", "999"), denied("999"));
    assert_eq!(d.begin("~ping", "999"), replied("Pong!", "ping"));
    assert_eq!(d.begin("~multiply 2 2", "12345"), replied("4", "multiply"));
    assert_eq!(d.begin("~ping", "12345"), replied("Pong!", "ping"));
    let nobody = bot(&[]);
    assert_eq!(nobody.begin("~multiply 2 2", "12345"), denied("12345"));
    assert_eq!(nobody.begin("~ping", "12345"), replied("Pong!", "ping"));
}

#[test]
fn policy_decides_which_commands_are_open() {
    let open = AuthorizationPolicy::new(strings(&["ping", "multiply", "myid"]), strings(&[]));
    let d = Dispatcher::new("~", Registry::standard(), open).expect("all three are registered");
    assert_eq!(d.begin("~multiply 2 2", "999"), replied("4", "multiply"));
    let closed = AuthorizationPolicy::new(strings(&[]), strings(&["12345"]));
    let d = Dispatcher::new("~", Registry::standard(), closed).expect("nothing is exempt");
    assert_eq!(d.begin("~ping", "999"), denied("999"));
    assert_eq!(d.begin("~ping", "12345"), replied("Pong!", "ping"));
}

#[test]
fn unlisted_sender_is_denied_the_app_commands() {
    let d = bot(&["12345"]);
    assert_eq!(d.begin("~get_apps", "999"), denied("999"));
    assert_eq!(d.begin("~get_app app1", "999"), denied("999"));
    assert_eq!(d.begin("~restart_app app1", "999"), denied("999"));
    assert_eq!(d.begin("~restart_app app1", "1234"), denied("1234"));
    assert_eq!(d.begin("~restart_app app1", ""), denied(""));
}

#[test]
fn empty_list_authorizes_nobody() {
    let d = bot(&[]);
    assert_eq!(d.begin("~get_apps", "12345"), denied("12345"));
    assert_eq!(d.begin("~ping", "12345"), replied("Pong!", "ping"));
    assert!(!is_authorized("12345", d.policy()));
    assert!(!is_authorized("", d.policy()));
}

#[test]
fn listed_sender_reaches_the_platform() {
    let d = bot(&["12345", "777"]);
    assert_eq!(d.begin("~get_apps", "12345"), waiting(PaasRequest::ListApps, "get_apps"));
    assert_eq!(
        d.begin("~get_app app1", "777"),
        waiting(PaasRequest::GetApp("app1".to_string()), "get_app")
    );
    assert_eq!(
        d.begin("~restart_app app1", "12345"),
        waiting(PaasRequest::RestartApp("app1".to_string()), "restart_app")
    );
}

#[test]
fn repeating_an_invocation_gives_the_same_step() {
    let d = bot(&["12345"]);
    let bodies = [
        "~ping",
        "~ping x",
        "~multiply 3 4",
        "~multiply foo 4",
        "~myid",
        "~get_apps",
        "~restart_app app1",
        "hello",
        "~unknown",
    ];
    for body in bodies {
        for sender in ["12345", "999"] {
            let first = d.begin(body, sender);
            let second = d.begin(body, sender);
            assert_eq!(first, second, "body {:?} sender {:?}", body, sender);
            assert_eq!(
                first.outcome.map(|o| o.class()),
                second.outcome.map(|o| o.class()),
                "body {:?} sender {:?}",
                body,
                sender
            );
        }
    }
}

#[test]
fn restart_app_failure_is_surfaced_and_not_retried() {
    let d = bot(&["12345"]);
    let step = d.begin("~restart_app app1", "12345");
    let request = match step.action {
        Action::Call(request) => request,
        other => panic!("no call: {:?}", other),
    };
    assert_eq!(request, PaasRequest::RestartApp("app1".to_string()));
    let end = d.resume(&request, &PaasResponse::Failed("connection refused".to_string()));
    assert_eq!(end.state, HandlerFailed);
    assert!(end.state.is_terminal());
    assert_eq!(end.path, vec![HandlerInvoked, HandlerFailed]);
    assert_eq!(
        end.outcome,
        Some(DispatchOutcome::HandlerError("Platform error: connection refused".to_string()))
    );
    assert_eq!(end.action, Action::Send("Platform error: connection refused".to_string()));
    assert_eq!(end.log, strings(&["Platform error: connection refused"]));
}

#[test]
fn resume_replies_with_what_the_platform_told() {
    let d = bot(&["12345"]);
    let end = d.resume(&PaasRequest::RestartApp("app1".to_string()), &PaasResponse::Restarted);
    assert_eq!(
        end,
        Step {
            state: Replied,
            path: vec![HandlerInvoked, Replied],
            outcome: Some(DispatchOutcome::Success("Restarted app1".to_string())),
            action: Action::Send("Restarted app1".to_string()),
            log: vec![],
        }
    );
    let app = AppInfo { name: "app1".to_string(), state: "crashed".to_string() };
    let end = d.resume(&PaasRequest::GetApp("app1".to_string()), &PaasResponse::App(app));
    assert_eq!(end.action, Action::Send("app1: crashed".to_string()));
    assert_eq!(end.state, Replied);
}

#[test]
fn terminal_states() {
    for state in [Replied, Ignored, ArityRejected, Denied, HandlerFailed] {
        assert!(state.is_terminal(), "{:?}", state);
    }
    for state in [Received, Parsed, ArityChecked, Authorized, HandlerInvoked] {
        assert!(!state.is_terminal(), "{:?}", state);
    }
}

#[test]
fn check_arity_holds_the_count_against_the_bounds() {
    let command = CommandDescriptor::new("between", 1, 3, Handler::Ping);
    assert_eq!(
        check_arity(&command, 0),
        Some(DispatchOutcome::ArityError { kind: ArityKind::TooFew, expected: 1, given: 0 })
    );
    assert_eq!(check_arity(&command, 1), None);
    assert_eq!(check_arity(&command, 2), None);
    assert_eq!(check_arity(&command, 3), None);
    assert_eq!(
        check_arity(&command, 4),
        Some(DispatchOutcome::ArityError { kind: ArityKind::TooMany, expected: 3, given: 4 })
    );
}

#[test]
fn exempt_command_that_is_not_registered_is_a_defect() {
    let policy = AuthorizationPolicy::new(strings(&["ping", "pong", "nope"]), strings(&["1"]));
    assert_eq!(
        Dispatcher::new("~", Registry::standard(), policy),
        Err(ConfigError::UnknownExemptCommand("pong".to_string()))
    );
    let policy = AuthorizationPolicy::new(strings(&["ping"]), strings(&["1"]));
    assert_eq!(
        Dispatcher::new("~", Registry::new(), policy),
        Err(ConfigError::UnknownExemptCommand("ping".to_string()))
    );
    let policy = AuthorizationPolicy::new(strings(&[]), strings(&["1"]));
    assert!(Dispatcher::new("~", Registry::new(), policy).is_ok());
}

#[test]
fn dispatcher_keeps_what_it_was_set_up_with() {
    let policy = AuthorizationPolicy::new(strings(&["myid"]), strings(&["1", "2"]));
    let d = Dispatcher::new("!!", Registry::standard(), policy.clone()).expect("myid is registered");
    assert_eq!(d.prefix(), "!!");
    assert_eq!(d.policy(), &policy);
    assert_eq!(d.registry(), &Registry::standard());
    assert_eq!(d.begin("!!myid", "9"), replied("9", "myid"));
    assert_eq!(d.begin("~myid", "9"), ignored());
    assert_eq!(d.begin("!!ping", "9"), denied("9"));
}

#[test]
fn standard_dispatcher_follows_the_config() {
    let d = bot(&["12345"]);
    assert_eq!(d.prefix(), "~");
    assert_eq!(d.registry(), &Registry::standard());
    assert_eq!(d.policy().authorized_senders, strings(&["12345"]));
    assert_eq!(d.policy().no_auth_commands, strings(&["ping", "myid"]));
    assert_eq!(default_no_auth_commands(), strings(&["ping", "myid"]));
    assert_eq!(config(&["a", "b"]).policy().authorized_senders, strings(&["a", "b"]));
}

#[test]
fn gate_answers() {
    let policy = AuthorizationPolicy::new(strings(&["ping"]), strings(&["12345"]));
    assert!(is_authorized("12345", &policy));
    assert!(!is_authorized("1234", &policy));
    assert!(!is_authorized("123456", &policy));
    assert!(policy.is_exempt("ping"));
    assert!(!policy.is_exempt("Ping"));
    assert!(policy.permits("ping", "999"));
    assert!(policy.permits("multiply", "12345"));
    assert!(!policy.permits("multiply", "999"));
}

#[test]
fn custom_registry_routes_by_name() {
    let mut registry = Registry::new();
    registry.register(CommandDescriptor::new("whoami", 0, 2, Handler::MyId)).expect("new name");
    registry.register(CommandDescriptor::new("times", 2, 2, Handler::Multiply)).expect("new name");
    let policy = AuthorizationPolicy::new(strings(&["whoami"]), strings(&["7"]));
    let d = Dispatcher::new("/", registry, policy).expect("whoami is registered");
    assert_eq!(d.begin("/whoami a b", "3"), replied("3", "whoami"));
    assert_eq!(
        d.begin("/whoami a b c", "3"),
        rejected(ArityKind::TooMany, 2, 3, "Max arguments allowed is 2, but got 3.")
    );
    assert_eq!(d.begin("/times 6 7", "7"), replied("42", "times"));
    assert_eq!(d.begin("/times 6 7", "3"), denied("3"));
    assert_eq!(d.begin("/ping", "7"), ignored());
}
