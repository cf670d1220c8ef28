//! The command handlers. Three of them answer at once; the other three ask
//! the platform first, and conclude once its answer is in.

use vstd::prelude::*;
use vstd::string::*;
use crate::outcome::{DispatchOutcome, OutcomeView};
use crate::registry::Handler;
use crate::text::{int_text, nat_text, parse_int, push_decimal, render_int, spec_parse_int, texts};

verus! {

/// What the platform tells about one app.
#[derive(Debug, Clone, PartialEq, Eq)]
pub struct AppInfo {
    pub name: String,
    pub state: String,
}

/// What an [`AppInfo`] stands for.
pub struct AppView {
    pub name: Seq<char>,
    pub state: Seq<char>,
}

impl View for AppInfo {
    type V = AppView;

    open spec fn view(&self) -> AppView {
        AppView { name: self.name@, state: self.state@ }
    }
}

/// The apps of a sequence, each by what it stands for.
pub open spec fn app_views(apps: Seq<AppInfo>) -> Seq<AppView> {
    apps.map_values(|a: AppInfo| a@)
}

/// A call that a handler asks the host to make on the platform.
#[derive(Debug, Clone, PartialEq, Eq)]
pub enum PaasRequest {
    /// List every app.
    ListApps,
    /// Describe the app of this name.
    GetApp(String),
    /// Restart the app of this name.
    RestartApp(String),
}

/// What a [`PaasRequest`] stands for.
pub enum RequestView {
    ListApps,
    GetApp(Seq<char>),
    RestartApp(Seq<char>),
}

impl View for PaasRequest {
    type V = RequestView;

    open spec fn view(&self) -> RequestView {
        match self {
            PaasRequest::ListApps => RequestView::ListApps,
            PaasRequest::GetApp(name) => RequestView::GetApp(name@),
            PaasRequest::RestartApp(name) => RequestView::RestartApp(name@),
        }
    }
}

/// What came back from the platform.
#[derive(Debug, Clone, PartialEq, Eq)]
pub enum PaasResponse {
    /// The list of apps.
    Apps(Vec<AppInfo>),
    /// One app.
    App(AppInfo),
    /// The restart was accepted.
    Restarted,
    /// The call failed; the text is the platform client's error.
    Failed(String),
}

/// What a [`PaasResponse`] stands for.
pub enum ResponseView {
    Apps(Seq<AppView>),
    App(AppView),
    Restarted,
    Failed(Seq<char>),
}

impl View for PaasResponse {
    type V = ResponseView;

    open spec fn view(&self) -> ResponseView {
        match self {
            PaasResponse::Apps(apps) => ResponseView::Apps(app_views(apps@)),
            PaasResponse::App(app) => ResponseView::App(app@),
            PaasResponse::Restarted => ResponseView::Restarted,
            PaasResponse::Failed(error) => ResponseView::Failed(error@),
        }
    }
}

/// What a handler hands back: an outcome, or a call for the host to make.
#[derive(Debug, Clone, PartialEq, Eq)]
pub enum HandlerResult {
    /// The handler is done.
    Done(DispatchOutcome),
    /// The handler needs the platform's answer to this call.
    Call(PaasRequest),
}

/// What a [`HandlerResult`] stands for.
pub enum HandlerResultView {
    Done(OutcomeView),
    Call(RequestView),
}

impl View for HandlerResult {
    type V = HandlerResultView;

    open spec fn view(&self) -> HandlerResultView {
        match self {
            HandlerResult::Done(outcome) => HandlerResultView::Done(outcome@),
            HandlerResult::Call(request) => HandlerResultView::Call(request@),
        }
    }
}

/// What a handler is given besides its arguments.
pub struct HandlerContext<'a> {
    /// The identity of the message's author.
    pub sender: &'a str,
}

/// The acknowledgement that `ping` answers with.
pub open spec fn ping_text() -> Seq<char> {
    "Pong!"@
}

/// The error message for an argument that is not there. Positions count
/// from one.
pub open spec fn missing_argument_text(position: nat) -> Seq<char> {
    "Argument "@ + nat_text(position) + " is missing"@
}

/// The error message for an argument that is no 64-bit integer literal.
pub open spec fn not_a_number_text(position: nat, argument: Seq<char>) -> Seq<char> {
    "Argument "@ + nat_text(position) + " is not a number: "@ + argument
}

/// What `multiply` makes of its arguments: the product of the first two, as a
/// decimal numeral, where both are integer literals; else an error message
/// that names the first argument that is missing or is no such literal.
pub open spec fn spec_multiply(args: Seq<Seq<char>>) -> OutcomeView {
    if args.len() < 1 {
        OutcomeView::HandlerError(missing_argument_text(1))
    } else if spec_parse_int(args[0]) is None {
        OutcomeView::HandlerError(not_a_number_text(1, args[0]))
    } else if args.len() < 2 {
        OutcomeView::HandlerError(missing_argument_text(2))
    } else if spec_parse_int(args[1]) is None {
        OutcomeView::HandlerError(not_a_number_text(2, args[1]))
    } else {
        OutcomeView::Success(int_text(spec_parse_int(args[0])->0 * spec_parse_int(args[1])->0))
    }
}

/// What `handler` does for `sender` with `args`: `ping` acknowledges,
/// `multiply` multiplies, `myid` gives the sender's identity back, and the
/// three app commands ask for their call on the platform, the two about one
/// app by the name that the first argument gives.
pub open spec fn spec_handle(
    handler: Handler,
    sender: Seq<char>,
    args: Seq<Seq<char>>,
) -> HandlerResultView {
    match handler {
        Handler::Ping => HandlerResultView::Done(OutcomeView::Success(ping_text())),
        Handler::Multiply => HandlerResultView::Done(spec_multiply(args)),
        Handler::MyId => HandlerResultView::Done(OutcomeView::Success(sender)),
        Handler::GetApp => if args.len() < 1 {
            HandlerResultView::Done(OutcomeView::HandlerError(missing_argument_text(1)))
        } else {
            HandlerResultView::Call(RequestView::GetApp(args[0]))
        },
        Handler::GetApps => HandlerResultView::Call(RequestView::ListApps),
        Handler::RestartApp => if args.len() < 1 {
            HandlerResultView::Done(OutcomeView::HandlerError(missing_argument_text(1)))
        } else {
            HandlerResultView::Call(RequestView::RestartApp(args[0]))
        },
    }
}

/// The names of `apps`, separated by a comma and a space.
pub open spec fn joined_names(apps: Seq<AppView>) -> Seq<char>
    decreases apps.len(),
{
    if apps.len() == 0 {
        Seq::empty()
    } else if apps.len() == 1 {
        apps[0].name
    } else {
        joined_names(apps.drop_last()) + ", "@ + apps.last().name
    }
}

/// The reply that lists `apps`.
pub open spec fn app_list_text(apps: Seq<AppView>) -> Seq<char> {
    if apps.len() == 0 {
        "No apps"@
    } else {
        joined_names(apps)
    }
}

/// The reply that describes `app`: its name and its state.
pub open spec fn app_text(app: AppView) -> Seq<char> {
    app.name + ": "@ + app.state
}

/// The reply to a restart that the platform accepted.
pub open spec fn restarted_text(name: Seq<char>) -> Seq<char> {
    "Restarted "@ + name
}

/// The error message that carries the platform client's error.
pub open spec fn platform_error_text(error: Seq<char>) -> Seq<char> {
    "Platform error: "@ + error
}

/// The error message for an answer that does not fit the call.
pub open spec fn unexpected_answer_text() -> Seq<char> {
    "Platform error: unexpected answer"@
}

/// What the handler that made `request` concludes from `response`: a reply
/// made of what the platform told, or an error that carries the client's
/// error.
pub open spec fn spec_conclude(request: RequestView, response: ResponseView) -> OutcomeView {
    match (request, response) {
        (_, ResponseView::Failed(error)) => OutcomeView::HandlerError(platform_error_text(error)),
        (RequestView::ListApps, ResponseView::Apps(apps)) => OutcomeView::Success(
            app_list_text(apps),
        ),
        (RequestView::GetApp(_), ResponseView::App(app)) => OutcomeView::Success(app_text(app)),
        (RequestView::RestartApp(name), ResponseView::Restarted) => OutcomeView::Success(
            restarted_text(name),
        ),
        _ => OutcomeView::HandlerError(unexpected_answer_text()),
    }
}

/// The error outcome for the argument that is missing at `position`.
fn missing_argument(position: usize) -> (outcome: DispatchOutcome)
    ensures
        outcome@ == OutcomeView::HandlerError(missing_argument_text(position as nat)),
{
    let mut s = String::from_str("Argument ");
    push_decimal(&mut s, position as u128);
    s.append(" is missing");
    DispatchOutcome::HandlerError(s)
}

/// The error outcome for the argument at `position` that is no number.
fn not_a_number(position: usize, argument: &str) -> (outcome: DispatchOutcome)
    ensures
        outcome@ == OutcomeView::HandlerError(not_a_number_text(position as nat, argument@)),
{
    let mut s = String::from_str("Argument ");
    push_decimal(&mut s, position as u128);
    s.append(" is not a number: ");
    s.append(argument);
    DispatchOutcome::HandlerError(s)
}

/// Answers with the fixed acknowledgement.
pub fn ping() -> (outcome: DispatchOutcome)
    ensures
        outcome@ == OutcomeView::Success(ping_text()),
{
    DispatchOutcome::Success(String::from_str("Pong!"))
}

/// Answers with the sender's identity.
pub fn myid(sender: &str) -> (outcome: DispatchOutcome)
    ensures
        outcome@ == OutcomeView::Success(sender@),
{
    DispatchOutcome::Success(String::from_str(sender))
}

/// Multiplies the first two arguments.
pub fn multiply(args: &Vec<String>) -> (outcome: DispatchOutcome)
    ensures
        outcome@ == spec_multiply(texts(args@)),
{
    if args.len() < 1 {
        return missing_argument(1);
    }
    let a: i64 = match parse_int(args[0].as_str()) {
        Some(a) => a,
        None => {
            return not_a_number(1, args[0].as_str());
        },
    };
    if args.len() < 2 {
        return missing_argument(2);
    }
    let b: i64 = match parse_int(args[1].as_str()) {
        Some(b) => b,
        None => {
            return not_a_number(2, args[1].as_str());
        },
    };
    assert(-0x4000_0000_0000_0000_0000_0000_0000_0000 <= (a as int) * (b as int)
        <= 0x4000_0000_0000_0000_0000_0000_0000_0000) by (nonlinear_arith)
        requires
            -0x8000_0000_0000_0000 <= a <= 0x8000_0000_0000_0000,
            -0x8000_0000_0000_0000 <= b <= 0x8000_0000_0000_0000,
    ;
    let product: i128 = (a as i128) * (b as i128);
    DispatchOutcome::Success(render_int(product))
}

/// The name of the app that the first argument gives.
fn app_name(args: &Vec<String>) -> (r: Result<String, DispatchOutcome>)
    ensures
        match r {
            Ok(name) => args@.len() >= 1 && name@ == texts(args@)[0],
            Err(outcome) => args@.len() < 1 && outcome@ == OutcomeView::HandlerError(
                missing_argument_text(1),
            ),
        },
{
    if args.len() < 1 {
        return Err(missing_argument(1));
    }
    Ok(args[0].clone())
}

impl Handler {
    /// Runs the handler on the arguments of one invocation.
    pub fn handle(&self, context: &HandlerContext, args: &Vec<String>) -> (result: HandlerResult)
        ensures
            result@ == spec_handle(*self, context.sender@, texts(args@)),
    {
        match self {
            Handler::Ping => HandlerResult::Done(ping()),
            Handler::Multiply => HandlerResult::Done(multiply(args)),
            Handler::MyId => HandlerResult::Done(myid(context.sender)),
            Handler::GetApp => match app_name(args) {
                Ok(name) => HandlerResult::Call(PaasRequest::GetApp(name)),
                Err(outcome) => HandlerResult::Done(outcome),
            },
            Handler::GetApps => HandlerResult::Call(PaasRequest::ListApps),
            Handler::RestartApp => match app_name(args) {
                Ok(name) => HandlerResult::Call(PaasRequest::RestartApp(name)),
                Err(outcome) => HandlerResult::Done(outcome),
            },
        }
    }
}

/// The reply that lists `apps`.
fn app_list(apps: &Vec<AppInfo>) -> (s: String)
    ensures
        s@ == app_list_text(app_views(apps@)),
{
    let n: usize = apps.len();
    if n == 0 {
        return String::from_str("No apps");
    }
    let ghost views = app_views(apps@);
    let mut s = apps[0].name.clone();
    let mut i: usize = 1;
    while i < n
        invariant
            1 <= i <= n,
            n == apps@.len(),
            views == app_views(apps@),
            s@ == joined_names(views.take(i as int)),
        decreases n - i,
    {
        assert(views.take(i + 1).drop_last() =~= views.take(i as int));
        s.append(", ");
        s.append(apps[i].name.as_str());
        i = i + 1;
    }
    assert(views.take(n as int) =~= views);
    s
}

impl PaasRequest {
    /// Concludes the handler that made this call from the platform's answer.
    pub fn conclude(&self, response: &PaasResponse) -> (outcome: DispatchOutcome)
        ensures
            outcome@ == spec_conclude(self@, response@),
    {
        match response {
            PaasResponse::Failed(error) => {
                let mut s = String::from_str("Platform error: ");
                s.append(error.as_str());
                DispatchOutcome::HandlerError(s)
            },
            PaasResponse::Apps(apps) => match self {
                PaasRequest::ListApps => DispatchOutcome::Success(app_list(apps)),
                _ => unexpected_answer(),
            },
            PaasResponse::App(app) => match self {
                PaasRequest::GetApp(_) => {
                    let mut s = app.name.clone();
                    s.append(": ");
                    s.append(app.state.as_str());
                    DispatchOutcome::Success(s)
                },
                _ => unexpected_answer(),
            },
            PaasResponse::Restarted => match self {
                PaasRequest::RestartApp(name) => {
                    let mut s = String::from_str("Restarted ");
                    s.append(name.as_str());
                    DispatchOutcome::Success(s)
                },
                _ => unexpected_answer(),
            },
        }
    }
}

/// The error outcome for an answer that does not fit the call.
fn unexpected_answer() -> (outcome: DispatchOutcome)
    ensures
        outcome@ == OutcomeView::HandlerError(unexpected_answer_text()),
{
    DispatchOutcome::HandlerError(String::from_str("Platform error: unexpected answer"))
}

} // verus!
