//! The routes of the Support Web surface: what each one checks before it
//! forwards to the Support Case Provider, and what it forwards.
use vstd::prelude::*;
use vstd::string::*;

use crate::response::{asset, path_mismatch, visibility_mismatch, WebResponse};
use crate::text::same_text;

verus! {

/// The Support Web Plugin. It owns no case facts; it decides, per route, whether
/// a request is answered here or forwarded to the one bound Support Case Provider.
#[derive(Clone, Copy, Debug, Default)]
pub struct SupportWebPlugin;

/// What a route does with a request.
#[derive(Debug)]
pub enum RouteStep<R> {
    /// Answer at once with this response; nothing is forwarded.
    Reply(WebResponse),
    /// Forward `request`; a successful result is answered with `success_status`.
    Forward { request: R, success_status: u16 },
}

/// Path of the routes that name a case by id.
#[derive(Clone, Debug)]
pub struct CasePath {
    pub case_id: String,
}

/// Path of the route that names a case by id or human identifier.
#[derive(Clone, Debug)]
pub struct CaseRefPath {
    pub case_ref: String,
}

/// Query that names the organization.
#[derive(Clone, Debug)]
pub struct OrganizationQuery {
    pub organization_id: String,
}

/// Lifecycle states of a case, as a list filter.
#[derive(Clone, Copy, Debug, PartialEq, Eq, Structural)]
pub enum CaseState {
    Open,
    InProgress,
    WaitingCustomer,
    Resolved,
    Closed,
}

/// Visibility of a case message.
#[derive(Clone, Copy, Debug, PartialEq, Eq, Structural)]
pub enum MessageVisibility {
    Public,
    Internal,
}

/// Query of the case inbox.
#[derive(Clone, Debug)]
pub struct ListCasesQuery {
    pub organization_id: String,
    pub requester_subject: Option<String>,
    pub assignee_subject: Option<String>,
    pub state: Option<CaseState>,
    pub cursor: Option<String>,
    pub limit: i64,
}

/// Query of one page of a case conversation.
#[derive(Clone, Debug)]
pub struct MessagePageQuery {
    pub organization_id: String,
    pub cursor: Option<String>,
    pub limit: i64,
}

/// The list-cases request forwarded to the Provider.
#[derive(Clone, Debug)]
pub struct ListCasesRequest {
    pub assignee_subject: Option<String>,
    pub cursor: Option<String>,
    pub limit: i64,
    pub organization_id: String,
    pub requester_subject: Option<String>,
    pub state: Option<CaseState>,
}

/// The get-case request forwarded to the Provider.
#[derive(Clone, Debug)]
pub struct GetCaseRequest {
    pub case_ref: String,
    pub organization_id: String,
}

/// The list-messages request forwarded to the Provider.
#[derive(Clone, Debug)]
pub struct ListMessagesRequest {
    pub case_id: String,
    pub cursor: Option<String>,
    pub limit: i64,
    pub organization_id: String,
}

/// Page size used when a query names none.
pub fn default_limit() -> (r: i64)
    ensures
        r == 40,
{
    40
}

impl ListCasesQuery {
    /// The list-cases request that carries exactly this query's filters.
    pub fn into_request(self) -> (r: ListCasesRequest)
        ensures
            r.assignee_subject == self.assignee_subject,
            r.cursor == self.cursor,
            r.limit == self.limit,
            r.organization_id == self.organization_id,
            r.requester_subject == self.requester_subject,
            r.state == self.state,
    {
        ListCasesRequest {
            assignee_subject: self.assignee_subject,
            cursor: self.cursor,
            limit: self.limit,
            organization_id: self.organization_id,
            requester_subject: self.requester_subject,
            state: self.state,
        }
    }
}

/// `step` answers with the path/body mismatch problem when the two case ids
/// differ, and otherwise forwards `request` unchanged.
pub open spec fn checks_case_id<R>(
    step: RouteStep<R>,
    path_case_id: Seq<char>,
    body_case_id: Seq<char>,
    request: R,
    success_status: u16,
) -> bool {
    if path_case_id != body_case_id {
        step matches RouteStep::Reply(response) && response.is_problem(
            400,
            "path_body_mismatch"@,
            "The path and JSON body must name the same case_id."@,
            crate::response::problem_headers(),
        )
    } else {
        step == RouteStep::Forward { request, success_status }
    }
}

/// The name of a visibility as written in routes and messages.
pub open spec fn visibility_name(visibility: MessageVisibility) -> Seq<char> {
    match visibility {
        MessageVisibility::Public => "public"@,
        MessageVisibility::Internal => "internal"@,
    }
}

/// `step` is what a message route that accepts only `accepted` messages does:
/// the case-id check first, then the visibility check, then forwarding with 201.
pub open spec fn checks_message<R>(
    step: RouteStep<R>,
    path_case_id: Seq<char>,
    body_case_id: Seq<char>,
    visibility: MessageVisibility,
    accepted: MessageVisibility,
    request: R,
) -> bool {
    if path_case_id != body_case_id {
        checks_case_id(step, path_case_id, body_case_id, request, 201)
    } else if visibility != accepted {
        step matches RouteStep::Reply(response) && response.is_problem(
            400,
            "message_visibility_mismatch"@,
            crate::response::visibility_mismatch_detail(visibility_name(accepted)),
            crate::response::problem_headers(),
        )
    } else {
        step == RouteStep::Forward { request, success_status: 201 }
    }
}

/// Forwards `request` when the path and body name the same case.
fn forward_same_case<R>(
    path: &CasePath,
    body_case_id: &str,
    request: R,
    success_status: u16,
) -> (step: RouteStep<R>)
    ensures
        checks_case_id(step, path.case_id@, body_case_id@, request, success_status),
{
    if !same_text(path.case_id.as_str(), body_case_id) {
        return RouteStep::Reply(path_mismatch());
    }
    RouteStep::Forward { request, success_status }
}

/// Checks a message for the route that accepts only `accepted` messages.
fn forward_message<R>(
    path: &CasePath,
    body_case_id: &str,
    visibility: MessageVisibility,
    accepted: MessageVisibility,
    request: R,
) -> (step: RouteStep<R>)
    ensures
        checks_message(step, path.case_id@, body_case_id@, visibility, accepted, request),
{
    if !same_text(path.case_id.as_str(), body_case_id) {
        return RouteStep::Reply(path_mismatch());
    }
    if visibility != accepted {
        let expected = match accepted {
            MessageVisibility::Public => "public",
            MessageVisibility::Internal => "internal",
        };
        return RouteStep::Reply(visibility_mismatch(expected));
    }
    RouteStep::Forward { request, success_status: 201 }
}

impl SupportWebPlugin {
    /// `GET /support`: the self-contained HTML page.
    pub fn page(&self, html: &str) -> (r: WebResponse)
        ensures
            r.status == 200,
            r.header_list() == seq![
                (crate::response::content_type_name(), "text/html; charset=utf-8"@),
            ],
            r.body@ == html.spec_bytes(),
    {
        asset(200, "text/html; charset=utf-8", html)
    }

    /// `GET /support/assets/app.css`: the stylesheet.
    pub fn css(&self, stylesheet: &str) -> (r: WebResponse)
        ensures
            r.status == 200,
            r.header_list() == seq![
                (crate::response::content_type_name(), "text/css; charset=utf-8"@),
            ],
            r.body@ == stylesheet.spec_bytes(),
    {
        asset(200, "text/css; charset=utf-8", stylesheet)
    }

    /// `GET /support/assets/app.js`: the browser script.
    pub fn javascript(&self, script: &str) -> (r: WebResponse)
        ensures
            r.status == 200,
            r.header_list() == seq![
                (crate::response::content_type_name(), "text/javascript; charset=utf-8"@),
            ],
            r.body@ == script.spec_bytes(),
    {
        asset(200, "text/javascript; charset=utf-8", script)
    }

    /// `GET /api/support/cases`: forwards the inbox query; success is 200.
    pub fn list_cases(&self, query: ListCasesQuery) -> (step: RouteStep<ListCasesRequest>)
        ensures
            step matches RouteStep::Forward { request, success_status } && success_status == 200
                && request.assignee_subject == query.assignee_subject && request.cursor
                == query.cursor && request.limit == query.limit && request.organization_id
                == query.organization_id && request.requester_subject == query.requester_subject
                && request.state == query.state,
    {
        RouteStep::Forward { request: query.into_request(), success_status: 200 }
    }

    /// `POST /api/support/cases`: forwards the new case unchanged; success is 201.
    pub fn create_case<R>(&self, request: R) -> (step: RouteStep<R>)
        ensures
            step == (RouteStep::Forward { request, success_status: 201 }),
    {
        RouteStep::Forward { request, success_status: 201 }
    }

    /// `GET /api/support/cases/{case_ref}`: forwards the case reference and the
    /// organization; success is 200.
    pub fn get_case(&self, path: CaseRefPath, query: OrganizationQuery) -> (step: RouteStep<
        GetCaseRequest,
    >)
        ensures
            step matches RouteStep::Forward { request, success_status } && success_status == 200
                && request.case_ref == path.case_ref && request.organization_id
                == query.organization_id,
    {
        RouteStep::Forward {
            request: GetCaseRequest {
                case_ref: path.case_ref,
                organization_id: query.organization_id,
            },
            success_status: 200,
        }
    }

    /// `PATCH /api/support/cases/{case_id}`: the body must name the path's case;
    /// success is 200.
    pub fn update_case<R>(&self, path: CasePath, body_case_id: &str, request: R) -> (step:
        RouteStep<R>)
        ensures
            checks_case_id(step, path.case_id@, body_case_id@, request, 200),
    {
        forward_same_case(&path, body_case_id, request, 200)
    }

    /// `POST /api/support/cases/{case_id}/assign`: the body must name the path's
    /// case; success is 200.
    pub fn assign_case<R>(&self, path: CasePath, body_case_id: &str, request: R) -> (step:
        RouteStep<R>)
        ensures
            checks_case_id(step, path.case_id@, body_case_id@, request, 200),
    {
        forward_same_case(&path, body_case_id, request, 200)
    }

    /// `POST /api/support/cases/{case_id}/transition`: the body must name the
    /// path's case; success is 200.
    pub fn transition_case<R>(&self, path: CasePath, body_case_id: &str, request: R) -> (step:
        RouteStep<R>)
        ensures
            checks_case_id(step, path.case_id@, body_case_id@, request, 200),
    {
        forward_same_case(&path, body_case_id, request, 200)
    }

    /// `GET /api/support/cases/{case_id}/messages`: forwards one conversation
    /// page of the path's case; success is 200.
    pub fn list_messages(&self, path: CasePath, query: MessagePageQuery) -> (step: RouteStep<
        ListMessagesRequest,
    >)
        ensures
            step matches RouteStep::Forward { request, success_status } && success_status == 200
                && request.case_id == path.case_id && request.cursor == query.cursor
                && request.limit == query.limit && request.organization_id
                == query.organization_id,
    {
        RouteStep::Forward {
            request: ListMessagesRequest {
                case_id: path.case_id,
                cursor: query.cursor,
                limit: query.limit,
                organization_id: query.organization_id,
            },
            success_status: 200,
        }
    }

    /// `POST /api/support/cases/{case_id}/messages`: accepts only public
    /// replies to the path's case; success is 201.
    pub fn add_public_message<R>(
        &self,
        path: CasePath,
        body_case_id: &str,
        visibility: MessageVisibility,
        request: R,
    ) -> (step: RouteStep<R>)
        ensures
            checks_message(
                step,
                path.case_id@,
                body_case_id@,
                visibility,
                MessageVisibility::Public,
                request,
            ),
    {
        forward_message(&path, body_case_id, visibility, MessageVisibility::Public, request)
    }

    /// `POST /api/support/cases/{case_id}/notes`: accepts only internal notes
    /// on the path's case; success is 201.
    pub fn add_internal_note<R>(
        &self,
        path: CasePath,
        body_case_id: &str,
        visibility: MessageVisibility,
        request: R,
    ) -> (step: RouteStep<R>)
        ensures
            checks_message(
                step,
                path.case_id@,
                body_case_id@,
                visibility,
                MessageVisibility::Internal,
                request,
            ),
    {
        forward_message(&path, body_case_id, visibility, MessageVisibility::Internal, request)
    }
}

/// The `/messages` route and the `/notes` route never both forward the same
/// message: a message is forwarded by the route of its own visibility only, and
/// only when its body names the path's case.
pub proof fn law_message_routes_split_by_visibility<R>(
    path_case_id: Seq<char>,
    body_case_id: Seq<char>,
    visibility: MessageVisibility,
    request: R,
    public_step: RouteStep<R>,
    internal_step: RouteStep<R>,
)
    requires
        checks_message(
            public_step,
            path_case_id,
            body_case_id,
            visibility,
            MessageVisibility::Public,
            request,
        ),
        checks_message(
            internal_step,
            path_case_id,
            body_case_id,
            visibility,
            MessageVisibility::Internal,
            request,
        ),
    ensures
        !(public_step is Forward && internal_step is Forward),
        public_step is Forward <==> (path_case_id == body_case_id && visibility
            == MessageVisibility::Public),
        internal_step is Forward <==> (path_case_id == body_case_id && visibility
            == MessageVisibility::Internal),
        public_step is Reply ==> public_step->Reply_0.status == 400
            && public_step->Reply_0.header_list() == crate::response::problem_headers(),
        internal_step is Reply ==> internal_step->Reply_0.status == 400
            && internal_step->Reply_0.header_list() == crate::response::problem_headers(),
{
}

/// A route that checks case ids forwards exactly when the path and the body
/// name the same case, and then forwards the request unchanged.
pub proof fn law_case_routes_forward_only_matching_ids<R>(
    path_case_id: Seq<char>,
    body_case_id: Seq<char>,
    request: R,
    success_status: u16,
    step: RouteStep<R>,
)
    requires
        checks_case_id(step, path_case_id, body_case_id, request, success_status),
    ensures
        step is Forward <==> path_case_id == body_case_id,
        step is Forward ==> step->request == request && step->success_status == success_status,
        step is Reply ==> step->Reply_0.status == 400,
        step is Reply ==> step->Reply_0.header_list() == crate::response::problem_headers(),
{
}

} // verus!
