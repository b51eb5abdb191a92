//! Authentication of each API request: the decisions taken between the calls
//! to the one bound Auth Provider.
use vstd::prelude::*;
use vstd::string::*;

use crate::errors::{Capability, EndpointFailure};
use crate::response::{
    authentication_problem, bearer_challenge, challenge_name, challenged_problem_headers,
    content_type_name, problem_headers, problem_media_type, unsupported_actor_problem, WebResponse,
};
use crate::text::same_text;

verus! {

/// Proof that a request was made by an authenticated user actor whose
/// assertion is attached to the invocation context.
#[derive(Debug)]
pub struct AuthenticatedUser;

/// What happened at one stage of authenticating a request.
#[derive(Debug)]
pub enum AuthEvent<F> {
    /// The Auth Provider refused the request with a domain error.
    CallRejected,
    /// Invoking the Auth Provider failed at runtime.
    CallFailed(F),
    /// The Auth Provider replied.
    Replied,
    /// The reply could not be decoded into an Auth outcome.
    DecodeFailed,
    /// The reply says no credential was presented.
    Absent,
    /// The reply holds an assertion for an actor of this kind.
    Authenticated { actor_kind: String },
    /// Attaching the assertion to the invocation context failed with this text.
    AttachFailed { detail: String },
    /// The assertion is attached to the invocation context.
    Attached,
}

/// Why a request is not admitted: an intentional HTTP answer, or a failure.
#[derive(Debug)]
pub enum Rejection<F> {
    Respond(WebResponse),
    Fail(EndpointFailure<F>),
}

/// What to do next.
#[derive(Debug)]
pub enum AuthAction<F> {
    /// Decode the Auth reply.
    Decode,
    /// Attach the assertion to the invocation context.
    Attach,
    /// Admit the request.
    Accept(AuthenticatedUser),
    /// Refuse the request.
    Reject(Rejection<F>),
}

/// The kind of an action, without its payload.
#[derive(Clone, Copy, Debug, PartialEq, Eq, Structural)]
pub enum ActionKind {
    Decode,
    Attach,
    Accept,
    Reject,
}

/// The action kind's name for `action`.
pub open spec fn kind_of<F>(action: AuthAction<F>) -> ActionKind {
    match action {
        AuthAction::Decode => ActionKind::Decode,
        AuthAction::Attach => ActionKind::Attach,
        AuthAction::Accept(_) => ActionKind::Accept,
        AuthAction::Reject(_) => ActionKind::Reject,
    }
}

/// The actor kind that this Web surface admits.
pub open spec fn user_kind() -> Seq<char> {
    "user"@
}

/// The text of the failure raised when the assertion cannot be attached.
pub open spec fn attach_failure_detail(detail: Seq<char>) -> Seq<char> {
    "could not attach authenticated actor assertion: "@ + detail
}

/// The kind of action that answers `event`.
pub open spec fn step_kind<F>(event: AuthEvent<F>) -> ActionKind {
    match event {
        AuthEvent::Replied => ActionKind::Decode,
        AuthEvent::Authenticated { actor_kind } => if actor_kind@ == user_kind() {
            ActionKind::Attach
        } else {
            ActionKind::Reject
        },
        AuthEvent::Attached => ActionKind::Accept,
        _ => ActionKind::Reject,
    }
}

/// `response` is the 401 problem that asks for a Bearer credential.
pub open spec fn is_authentication_problem(response: WebResponse) -> bool {
    response.is_problem(
        401,
        "authentication_required"@,
        "Provide a valid Bearer credential."@,
        challenged_problem_headers(),
    )
}

/// `action` is the answer to `event`.
pub open spec fn answers_event<F>(event: AuthEvent<F>, action: AuthAction<F>) -> bool {
    &&& kind_of(action) == step_kind(event)
    &&& match event {
        AuthEvent::CallRejected | AuthEvent::Absent => action matches AuthAction::Reject(
            Rejection::Respond(response),
        ) && is_authentication_problem(response),
        AuthEvent::CallFailed(failure) => action == AuthAction::<F>::Reject(
            Rejection::Fail(EndpointFailure::Runtime(failure)),
        ),
        AuthEvent::DecodeFailed => action == AuthAction::<F>::Reject(
            Rejection::Fail(EndpointFailure::ProtocolViolation { capability: Capability::Auth }),
        ),
        AuthEvent::Authenticated { actor_kind } => actor_kind@ != user_kind() ==> (action matches AuthAction::Reject(
            Rejection::Respond(response),
        ) && response.is_problem(
            403,
            "unsupported_actor"@,
            "This Web surface requires an authenticated user actor."@,
            problem_headers(),
        )),
        AuthEvent::AttachFailed { detail } => action matches AuthAction::Reject(
            Rejection::Fail(EndpointFailure::Internal { detail: text }),
        ) && text@ == attach_failure_detail(detail@),
        _ => true,
    }
}

impl AuthenticatedUser {
    /// Decides what follows one stage of authenticating a request.
    pub fn from_request<F>(event: AuthEvent<F>) -> (action: AuthAction<F>)
        ensures
            answers_event(event, action),
    {
        match event {
            AuthEvent::CallRejected => AuthAction::Reject(Rejection::Respond(authentication_problem())),
            AuthEvent::CallFailed(failure) => AuthAction::Reject(
                Rejection::Fail(EndpointFailure::Runtime(failure)),
            ),
            AuthEvent::Replied => AuthAction::Decode,
            AuthEvent::DecodeFailed => AuthAction::Reject(
                Rejection::Fail(EndpointFailure::ProtocolViolation { capability: Capability::Auth }),
            ),
            AuthEvent::Absent => AuthAction::Reject(Rejection::Respond(authentication_problem())),
            AuthEvent::Authenticated { actor_kind } => {
                if same_text(actor_kind.as_str(), "user") {
                    AuthAction::Attach
                } else {
                    AuthAction::Reject(Rejection::Respond(unsupported_actor_problem()))
                }
            },
            AuthEvent::AttachFailed { detail } => {
                let mut text = "could not attach authenticated actor assertion: ".to_owned();
                text.append(detail.as_str());
                AuthAction::Reject(Rejection::Fail(EndpointFailure::Internal { detail: text }))
            },
            AuthEvent::Attached => AuthAction::Accept(AuthenticatedUser),
        }
    }
}

/// `event` can open an authentication: it is the outcome of calling the Auth Provider.
pub open spec fn opens_run<F>(event: AuthEvent<F>) -> bool {
    event is CallRejected || event is CallFailed || event is Replied
}

/// `next` is an event that can follow an action of kind `kind`.
pub open spec fn can_follow<F>(kind: ActionKind, next: AuthEvent<F>) -> bool {
    match kind {
        ActionKind::Decode => next is DecodeFailed || next is Absent || next is Authenticated,
        ActionKind::Attach => next is AttachFailed || next is Attached,
        _ => false,
    }
}

/// `events` is the course of one authentication: it opens with the outcome of
/// the Auth call, and each further event answers the action taken on the one before.
pub open spec fn is_run<F>(events: Seq<AuthEvent<F>>) -> bool {
    &&& events.len() > 0
    &&& opens_run(events[0])
    &&& forall|i: int|
        0 <= i < events.len() - 1 ==> #[trigger] can_follow(step_kind(events[i]), events[i + 1])
}

/// A request is admitted only after the Auth Provider replied, the reply named
/// an authenticated actor of kind `user`, and the assertion was attached.
pub proof fn law_only_attached_user_actors_are_admitted<F>(events: Seq<AuthEvent<F>>)
    requires
        is_run(events),
        step_kind(events.last()) == ActionKind::Accept,
    ensures
        events.len() == 3,
        events[0] is Replied,
        events[1] is Authenticated && events[1]->actor_kind@ == user_kind(),
        events[2] is Attached,
{
    let n = events.len() as int;
    assert(events[n - 1] is Attached);
    assert(n >= 2);
    let i = n - 2;
    assert(can_follow(step_kind(events[i]), events[i + 1]));
    assert(events[i] is Authenticated);
    assert(n >= 3);
    let j = n - 3;
    assert(can_follow(step_kind(events[j]), events[j + 1]));
    assert(events[j] is Replied);
    if n > 3 {
        let k = n - 4;
        assert(can_follow(step_kind(events[k]), events[k + 1]));
    }
}

/// The one admitting course is a run, and it admits.
pub proof fn law_attached_user_actor_is_admitted<F>(actor_kind: String)
    requires
        actor_kind@ == user_kind(),
    ensures
        is_run(seq![AuthEvent::<F>::Replied, AuthEvent::Authenticated { actor_kind }, AuthEvent::Attached]),
        step_kind(seq![AuthEvent::<F>::Replied, AuthEvent::Authenticated { actor_kind }, AuthEvent::Attached].last())
            == ActionKind::Accept,
{
    let events = seq![AuthEvent::<F>::Replied, AuthEvent::Authenticated { actor_kind }, AuthEvent::Attached];
    assert(can_follow(step_kind(events[0]), events[1]));
    assert(can_follow(step_kind(events[1]), events[2]));
}

/// A runtime failure of either dependency crosses the Endpoint boundary
/// unchanged, whether it comes from the Auth call or from the Support Case call.
pub proof fn law_runtime_failures_cross_unchanged<F>(
    failure: F,
    support_answer: Result<WebResponse, EndpointFailure<F>>,
    auth_action: AuthAction<F>,
)
    requires
        crate::errors::is_support_answer(
            Err::<Result<WebResponse, String>, crate::errors::SupportFailure<F>>(
                crate::errors::SupportFailure::Runtime(failure),
            ),
            support_answer,
        ),
        answers_event(AuthEvent::CallFailed(failure), auth_action),
    ensures
        support_answer == Err::<WebResponse, EndpointFailure<F>>(EndpointFailure::Runtime(failure)),
        auth_action == AuthAction::<F>::Reject(Rejection::Fail(EndpointFailure::Runtime(failure))),
{
}

/// Every intentional refusal of authentication is a problem document: 401 with
/// a Bearer challenge for a missing or invalid credential, 403 without one for
/// an actor that is not a user.
pub proof fn law_auth_refusals_are_problem_documents<F>(
    event: AuthEvent<F>,
    action: AuthAction<F>,
    response: WebResponse,
)
    requires
        answers_event(event, action),
        action == AuthAction::<F>::Reject(Rejection::Respond(response)),
    ensures
        response.header_list()[0] == (content_type_name(), problem_media_type()),
        response.status == 401 || response.status == 403,
        response.status == 401 <==> (event is CallRejected || event is Absent),
        response.status == 401 <==> response.header_list().contains(
            (challenge_name(), bearer_challenge()),
        ),
{
    reveal_strlit("content-type");
    reveal_strlit("www-authenticate");
    let headers = response.header_list();
    if response.status == 401 {
        assert(headers[1] == (challenge_name(), bearer_challenge()));
    } else {
        assert(headers =~= problem_headers());
        if headers.contains((challenge_name(), bearer_challenge())) {
            assert(content_type_name()[0] != challenge_name()[0]);
            assert(headers[0].0 != challenge_name());
        }
    }
}

} // verus!
