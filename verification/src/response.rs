//! Plain-value HTTP responses and the problem documents this Web surface returns.
use vstd::prelude::*;
use vstd::string::*;

use lenso_capability_http_endpoint::response as endpoint_response;

verus! {

/// Name of the header that carries a response's media type.
pub open spec fn content_type_name() -> Seq<char> {
    "content-type"@
}

/// Media type of every problem document.
pub open spec fn problem_media_type() -> Seq<char> {
    "application/problem+json; charset=utf-8"@
}

/// Name of the header that carries an authentication challenge.
pub open spec fn challenge_name() -> Seq<char> {
    "www-authenticate"@
}

/// The only challenge this surface issues.
pub open spec fn bearer_challenge() -> Seq<char> {
    "Bearer"@
}

/// The JSON problem document (RFC 9457 shape with a `code` extension) that the
/// HTTP Endpoint crate serializes for one status, code and detail.
pub uninterp spec fn problem_document(status: u16, code: Seq<char>, detail: Seq<char>) -> Seq<u8>;

/// One response header as a name and a textual value.
#[derive(Clone, Debug)]
pub struct Header {
    pub name: String,
    pub value: String,
}

impl View for Header {
    type V = (Seq<char>, Seq<char>);

    open spec fn view(&self) -> (Seq<char>, Seq<char>) {
        (self.name@, self.value@)
    }
}

/// One HTTP response: status code, headers in order, and body bytes.
#[derive(Clone, Debug)]
pub struct WebResponse {
    pub status: i64,
    pub headers: Vec<Header>,
    pub body: Vec<u8>,
}

impl WebResponse {
    /// The headers as (name, value) pairs of text.
    pub open spec fn header_list(&self) -> Seq<(Seq<char>, Seq<char>)> {
        self.headers@.map_values(|h: Header| h@)
    }

    /// This response is the problem document for `status`, `code` and `detail`,
    /// with exactly the headers `headers`.
    pub open spec fn is_problem(
        &self,
        status: u16,
        code: Seq<char>,
        detail: Seq<char>,
        headers: Seq<(Seq<char>, Seq<char>)>,
    ) -> bool {
        &&& self.status == status as int
        &&& self.header_list() == headers
        &&& self.body@ == problem_document(status, code, detail)
    }

    /// Appends one header; everything else is kept.
    pub fn with_header(self, name: String, value: String) -> (r: WebResponse)
        ensures
            r.status == self.status,
            r.body@ == self.body@,
            r.header_list() == self.header_list().push((name@, value@)),
    {
        let mut response = self;
        let ghost before = response.headers@;
        response.headers.push(Header { name, value });
        assert(response.headers@.map_values(|h: Header| h@) =~= before.map_values(
            |h: Header| h@,
        ).push((name@, value@)));
        response
    }
}

/// The single content-type header of a problem document.
pub open spec fn problem_headers() -> Seq<(Seq<char>, Seq<char>)> {
    seq![(content_type_name(), problem_media_type())]
}

/// The problem headers followed by a Bearer challenge.
pub open spec fn challenged_problem_headers() -> Seq<(Seq<char>, Seq<char>)> {
    problem_headers().push((challenge_name(), bearer_challenge()))
}

/// Builds a problem response with `lenso_capability_http_endpoint::response::problem`.
/// Trusted: the crate returns `status`, one `content-type` header of
/// `application/problem+json; charset=utf-8`, and its serialized problem
/// document as the body. The document's bytes are only named, not spelled out.
#[verifier::external_body]
pub(crate) fn problem(status: u16, code: &str, detail: &str) -> (r: WebResponse)
    requires
        100 <= status <= 999,
    ensures
        r.status == status as int,
        r.header_list() == problem_headers(),
        r.body@ == problem_document(status, code@, detail@),
{
    let status = endpoint_response::StatusCode::from_u16(status).unwrap();
    let response = endpoint_response::problem(status, code, detail);
    WebResponse {
        status: response.status,
        headers: response.headers.into_iter().map(|h| Header { name: h.name, value: h.value }).collect(),
        body: response.body.into_vec(),
    }
}

/// The name of the `WWW-Authenticate` header as the `http` crate spells it
/// (`http::header::WWW_AUTHENTICATE.as_str()`). Trusted: it is `www-authenticate`.
#[verifier::external_body]
fn challenge_header_name() -> (r: String)
    ensures
        r@ == challenge_name(),
{
    endpoint_response::header::WWW_AUTHENTICATE.as_str().to_owned()
}

/// Adds the `WWW-Authenticate: Bearer` challenge to a response.
pub fn with_bearer_challenge(response: WebResponse) -> (r: WebResponse)
    ensures
        r.status == response.status,
        r.body@ == response.body@,
        r.header_list() == response.header_list().push((challenge_name(), bearer_challenge())),
{
    let name = challenge_header_name();
    response.with_header(name, "Bearer".to_owned())
}

/// The response for a static asset: `status`, one `content-type` header, and the
/// UTF-8 bytes of `body`.
pub fn asset(status: u16, content_type: &str, body: &str) -> (r: WebResponse)
    ensures
        r.status == status as int,
        r.header_list() == seq![(content_type_name(), content_type@)],
        r.body@ == body.spec_bytes(),
{
    let header = Header { name: "content-type".to_owned(), value: content_type.to_owned() };
    let mut headers: Vec<Header> = Vec::new();
    headers.push(header);
    let r = WebResponse { status: status as i64, headers, body: body.as_bytes_vec() };
    assert(r.header_list() =~= seq![(content_type_name(), content_type@)]);
    r
}

/// The 400 problem for a path whose `case_id` differs from the JSON body's.
pub fn path_mismatch() -> (r: WebResponse)
    ensures
        r.is_problem(
            400,
            "path_body_mismatch"@,
            "The path and JSON body must name the same case_id."@,
            problem_headers(),
        ),
{
    problem(400, "path_body_mismatch", "The path and JSON body must name the same case_id.")
}

/// The text of the 400 problem for a message of the wrong visibility.
pub open spec fn visibility_mismatch_detail(expected: Seq<char>) -> Seq<char> {
    "This route accepts only "@ + expected + " messages."@
}

/// The 400 problem for a message whose visibility this route does not accept.
pub fn visibility_mismatch(expected: &str) -> (r: WebResponse)
    ensures
        r.is_problem(
            400,
            "message_visibility_mismatch"@,
            visibility_mismatch_detail(expected@),
            problem_headers(),
        ),
{
    let mut detail = "This route accepts only ".to_owned();
    detail.append(expected);
    detail.append(" messages.");
    problem(400, "message_visibility_mismatch", detail.as_str())
}

/// The 401 problem for a missing or invalid credential, with a Bearer challenge.
pub fn authentication_problem() -> (r: WebResponse)
    ensures
        r.is_problem(
            401,
            "authentication_required"@,
            "Provide a valid Bearer credential."@,
            challenged_problem_headers(),
        ),
{
    let r = problem(401, "authentication_required", "Provide a valid Bearer credential.");
    with_bearer_challenge(r)
}

/// The 403 problem for an authenticated actor that is not a user.
pub fn unsupported_actor_problem() -> (r: WebResponse)
    ensures
        r.is_problem(
            403,
            "unsupported_actor"@,
            "This Web surface requires an authenticated user actor."@,
            problem_headers(),
        ),
{
    problem(403, "unsupported_actor", "This Web surface requires an authenticated user actor.")
}

} // verus!
