//! How Support Case outcomes become HTTP answers: domain errors become
//! intentional problem documents, runtime failures cross unchanged.
use vstd::prelude::*;
use vstd::string::*;

use crate::naming::{snake_case, snake_case_of};
use crate::response::{
    bearer_challenge, challenge_name, challenged_problem_headers, content_type_name, problem,
    problem_document, problem_headers, problem_media_type, with_bearer_challenge, WebResponse,
};
use crate::text::{has_prefix, same_text, starts_with};

verus! {

/// A Capability that this surface depends on.
#[derive(Clone, Copy, Debug, PartialEq, Eq, Structural)]
pub enum Capability {
    /// `lenso.auth@1`.
    Auth,
    /// `lenso.support-case@1`.
    SupportCase,
}

/// A failure that is not an HTTP answer but an Endpoint invocation failure.
/// `F` is the runtime failure type of the hosting kernel.
#[derive(Debug)]
pub enum EndpointFailure<F> {
    /// A dependency answered outside its generated contract.
    ProtocolViolation { capability: Capability },
    /// This surface could not finish the invocation.
    Internal { detail: String },
    /// A runtime failure of a dependency, passed on unchanged.
    Runtime(F),
}

/// What a Support Case invocation can fail with: a domain error, known by the
/// name of its variant (its `Debug` rendering), or a runtime failure.
#[derive(Debug)]
pub enum SupportFailure<F> {
    Domain(String),
    Runtime(F),
}

/// The domain error is one this surface does not know (`Unknown(..)`).
pub open spec fn is_unknown_variant(variant: Seq<char>) -> bool {
    starts_with(variant, "Unknown("@)
}

/// The HTTP status that a known domain error maps to. Forbidden and absent
/// cases share 404 so that a caller cannot tell them apart by status.
pub open spec fn domain_status(variant: Seq<char>) -> u16 {
    if variant == "Unauthenticated"@ {
        401
    } else if is_hidden_or_absent_case(variant) {
        404
    } else if variant == "IdempotencyConflict"@ || variant == "RevisionConflict"@
        || variant == "InvalidTransition"@ {
        409
    } else {
        400
    }
}

/// The domain error names a case that is hidden from the caller or absent.
pub open spec fn is_hidden_or_absent_case(variant: Seq<char>) -> bool {
    variant == "Forbidden"@ || variant == "CaseNotFound"@
}

/// The problem code of a domain error: a hidden case answers exactly as an
/// absent one, `case_not_found`; every other variant by its own name in
/// `snake_case`.
pub open spec fn domain_code(variant: Seq<char>) -> Seq<char> {
    if is_hidden_or_absent_case(variant) {
        "case_not_found"@
    } else {
        snake_case_of(variant)
    }
}

/// The human-readable detail of a domain problem with code `code`.
pub open spec fn rejection_detail(code: Seq<char>) -> Seq<char> {
    "The Support Case capability rejected this operation ("@ + code + ")."@
}

/// The headers of a domain problem: a 401 also carries the Bearer challenge.
pub open spec fn domain_problem_headers(status: u16) -> Seq<(Seq<char>, Seq<char>)> {
    if status == 401 {
        challenged_problem_headers()
    } else {
        problem_headers()
    }
}

/// `r` is the answer to the domain error named `variant`.
pub open spec fn is_domain_answer<F>(
    variant: Seq<char>,
    r: Result<WebResponse, EndpointFailure<F>>,
) -> bool {
    if is_unknown_variant(variant) {
        r == Err::<WebResponse, EndpointFailure<F>>(
            EndpointFailure::ProtocolViolation { capability: Capability::SupportCase },
        )
    } else {
        let code = domain_code(variant);
        let status = domain_status(variant);
        &&& r is Ok
        &&& r->Ok_0.is_problem(status, code, rejection_detail(code), domain_problem_headers(status))
    }
}

/// Renders a value with its `Debug` implementation, `format!("{value:?}")`.
/// Nothing is stated of the text: it is whatever that implementation writes.
#[verifier::external_body]
fn debug_text<T: std::fmt::Debug>(value: &T) -> String {
    format!("{value:?}")
}

/// Answers one Support Case domain error, known by the `Debug` rendering of
/// its variant (for example `RevisionConflict`).
pub fn domain_problem<E: std::fmt::Debug, F>(error: &E) -> (r: Result<
    WebResponse,
    EndpointFailure<F>,
>)
    ensures
        exists|variant: Seq<char>| is_domain_answer(variant, r),
{
    let variant = debug_text(error);
    let r = answer_domain_error(variant.as_str());
    assert(is_domain_answer(variant@, r));
    r
}

/// Answers one Support Case domain error, given by the name of its variant.
pub fn answer_domain_error<F>(variant: &str) -> (r: Result<WebResponse, EndpointFailure<F>>)
    ensures
        is_domain_answer(variant@, r),
{
    if has_prefix(variant, "Unknown(") {
        return Err(EndpointFailure::ProtocolViolation { capability: Capability::SupportCase });
    }
    let code = if same_text(variant, "Forbidden") || same_text(variant, "CaseNotFound") {
        "case_not_found".to_owned()
    } else {
        snake_case(variant)
    };
    let status: u16 = if same_text(variant, "Unauthenticated") {
        401
    } else if same_text(variant, "Forbidden") || same_text(variant, "CaseNotFound") {
        404
    } else if same_text(variant, "IdempotencyConflict") || same_text(variant, "RevisionConflict")
        || same_text(variant, "InvalidTransition") {
        409
    } else {
        400
    };
    let mut detail = "The Support Case capability rejected this operation (".to_owned();
    detail.append(code.as_str());
    detail.append(").");
    let answer = problem(status, code.as_str(), detail.as_str());
    if status == 401 {
        Ok(with_bearer_challenge(answer))
    } else {
        Ok(answer)
    }
}

/// `r` is the answer to one forwarded Support Case invocation whose outcome is `result`.
pub open spec fn is_support_answer<F>(
    result: Result<Result<WebResponse, String>, SupportFailure<F>>,
    r: Result<WebResponse, EndpointFailure<F>>,
) -> bool {
    match result {
        Ok(Ok(response)) => r == Ok::<WebResponse, EndpointFailure<F>>(response),
        Ok(Err(detail)) => r == Err::<WebResponse, EndpointFailure<F>>(
            EndpointFailure::Internal { detail },
        ),
        Err(SupportFailure::Domain(variant)) => is_domain_answer(variant@, r),
        Err(SupportFailure::Runtime(failure)) => r == Err::<WebResponse, EndpointFailure<F>>(
            EndpointFailure::Runtime(failure),
        ),
    }
}

/// Answers one forwarded Support Case invocation. `result` holds, on success,
/// the JSON response built from the returned value, or the text of the error
/// that building it raised.
pub fn json_result<F>(result: Result<Result<WebResponse, String>, SupportFailure<F>>) -> (r: Result<
    WebResponse,
    EndpointFailure<F>,
>)
    ensures
        is_support_answer(result, r),
{
    match result {
        Ok(Ok(response)) => Ok(response),
        Ok(Err(detail)) => Err(EndpointFailure::Internal { detail }),
        Err(SupportFailure::Domain(variant)) => answer_domain_error(variant.as_str()),
        Err(SupportFailure::Runtime(failure)) => Err(EndpointFailure::Runtime(failure)),
    }
}

/// Every answer to a domain error that this surface knows is a problem
/// document with status 400, 401, 404 or 409. Status 404 answers exactly the
/// forbidden and the absent case, so the two cannot be told apart by status;
/// 409 answers exactly the conflicts; and only 401 carries a Bearer challenge.
pub proof fn law_domain_answers_are_problems<F>(
    variant: Seq<char>,
    r: Result<WebResponse, EndpointFailure<F>>,
)
    requires
        is_domain_answer(variant, r),
        !is_unknown_variant(variant),
    ensures
        r is Ok,
        r->Ok_0.status == 400 || r->Ok_0.status == 401 || r->Ok_0.status == 404
            || r->Ok_0.status == 409,
        r->Ok_0.header_list()[0] == (content_type_name(), problem_media_type()),
        r->Ok_0.status == 404 <==> (variant == "Forbidden"@ || variant == "CaseNotFound"@),
        r->Ok_0.status == 409 <==> (variant == "IdempotencyConflict"@ || variant
            == "RevisionConflict"@ || variant == "InvalidTransition"@),
        r->Ok_0.status == 401 <==> variant == "Unauthenticated"@,
        r->Ok_0.status == 401 <==> r->Ok_0.header_list().contains(
            (challenge_name(), bearer_challenge()),
        ),
        !(variant == "Forbidden"@ || variant == "CaseNotFound"@) ==> r->Ok_0.body@
            == problem_document(
            r->Ok_0.status as u16,
            snake_case_of(variant),
            "The Support Case capability rejected this operation ("@ + snake_case_of(variant)
                + ")."@,
        ),
        (variant == "Forbidden"@ || variant == "CaseNotFound"@) ==> r->Ok_0.body@
            == problem_document(
            404,
            "case_not_found"@,
            "The Support Case capability rejected this operation ("@ + "case_not_found"@
                + ")."@,
        ),
{
    reveal_strlit("Unauthenticated");
    reveal_strlit("Forbidden");
    reveal_strlit("CaseNotFound");
    reveal_strlit("IdempotencyConflict");
    reveal_strlit("RevisionConflict");
    reveal_strlit("InvalidTransition");
    reveal_strlit("content-type");
    reveal_strlit("www-authenticate");
    let headers = r->Ok_0.header_list();
    if r->Ok_0.status == 401 {
        assert(headers[1] == (challenge_name(), bearer_challenge()));
    } else {
        assert(headers =~= problem_headers());
        if headers.contains((challenge_name(), bearer_challenge())) {
            assert(content_type_name()[0] != challenge_name()[0]);
            assert(headers[0].0 != challenge_name());
        }
    }
}

/// A case hidden from the caller is answered exactly as an absent case: the
/// two answers agree in status, headers and body, so the response never tells
/// whether a hidden case exists.
pub proof fn law_hidden_case_answers_as_absent<F>(
    hidden: Result<WebResponse, EndpointFailure<F>>,
    absent: Result<WebResponse, EndpointFailure<F>>,
)
    requires
        is_domain_answer("Forbidden"@, hidden),
        is_domain_answer("CaseNotFound"@, absent),
    ensures
        hidden is Ok,
        absent is Ok,
        hidden->Ok_0.status == 404,
        hidden->Ok_0.status == absent->Ok_0.status,
        hidden->Ok_0.header_list() == absent->Ok_0.header_list(),
        hidden->Ok_0.body@ == absent->Ok_0.body@,
{
    reveal_strlit("Forbidden");
    reveal_strlit("CaseNotFound");
    reveal_strlit("Unknown(");
    reveal_strlit("Unauthenticated");
    assert("Forbidden"@.subrange(0, 8)[0] != "Unknown("@[0]);
    assert("CaseNotFound"@.subrange(0, 8)[0] != "Unknown("@[0]);
    assert("Forbidden"@[0] != "Unauthenticated"@[0]);
    assert("CaseNotFound"@[0] != "Unauthenticated"@[0]);
}

/// A successful forwarded invocation is answered by exactly the response
/// built from its result: same status, same headers, same body.
pub proof fn law_successes_pass_through_unchanged<F>(
    response: WebResponse,
    r: Result<WebResponse, EndpointFailure<F>>,
)
    requires
        is_support_answer(
            Ok::<Result<WebResponse, String>, SupportFailure<F>>(Ok(response)),
            r,
        ),
    ensures
        r is Ok,
        r->Ok_0.status == response.status,
        r->Ok_0.header_list() == response.header_list(),
        r->Ok_0.body@ == response.body@,
{
}

/// A response that could not be built is an internal failure that carries
/// the text of the build error, never an HTTP answer.
pub proof fn law_build_failures_are_internal<F>(
    detail: String,
    r: Result<WebResponse, EndpointFailure<F>>,
)
    requires
        is_support_answer(
            Ok::<Result<WebResponse, String>, SupportFailure<F>>(Err(detail)),
            r,
        ),
    ensures
        r is Err,
        r->Err_0 matches EndpointFailure::Internal { detail: text } && text@ == detail@,
{
}

/// A domain error of a forwarded invocation is answered exactly as that domain
/// error on its own: an unknown one is a Support Case protocol violation; a
/// hidden case is a 404 like an absent one; conflicts are 409; an
/// unauthenticated caller gets 401 with a Bearer challenge; everything else is
/// 400; and the problem code is the variant's name in `snake_case`, except that
/// hidden and absent cases share `case_not_found`.
pub proof fn law_forwarded_domain_errors_answer_as_themselves<F>(
    variant: String,
    r: Result<WebResponse, EndpointFailure<F>>,
)
    requires
        is_support_answer(
            Err::<Result<WebResponse, String>, SupportFailure<F>>(SupportFailure::Domain(variant)),
            r,
        ),
    ensures
        is_domain_answer(variant@, r),
        starts_with(variant@, "Unknown("@) ==> r == Err::<WebResponse, EndpointFailure<F>>(
            EndpointFailure::ProtocolViolation { capability: Capability::SupportCase },
        ),
        !starts_with(variant@, "Unknown("@) ==> {
            &&& r is Ok
            &&& r->Ok_0.header_list()[0] == (content_type_name(), problem_media_type())
            &&& (r->Ok_0.status == 404 <==> (variant@ == "Forbidden"@ || variant@
                == "CaseNotFound"@))
            &&& (r->Ok_0.status == 409 <==> (variant@ == "IdempotencyConflict"@ || variant@
                == "RevisionConflict"@ || variant@ == "InvalidTransition"@))
            &&& (r->Ok_0.status == 401 <==> variant@ == "Unauthenticated"@)
            &&& (r->Ok_0.status == 400 || r->Ok_0.status == 401 || r->Ok_0.status == 404
                || r->Ok_0.status == 409)
            &&& (r->Ok_0.status == 401 <==> r->Ok_0.header_list().contains(
                (challenge_name(), bearer_challenge()),
            ))
            &&& (!(variant@ == "Forbidden"@ || variant@ == "CaseNotFound"@) ==> r->Ok_0.body@
                == problem_document(
                r->Ok_0.status as u16,
                snake_case_of(variant@),
                "The Support Case capability rejected this operation ("@ + snake_case_of(
                    variant@,
                ) + ")."@,
            ))
            &&& ((variant@ == "Forbidden"@ || variant@ == "CaseNotFound"@) ==> r->Ok_0.body@
                == problem_document(
                404,
                "case_not_found"@,
                "The Support Case capability rejected this operation ("@ + "case_not_found"@
                    + ")."@,
            ))
        },
{
    if !starts_with(variant@, "Unknown("@) {
        law_domain_answers_are_problems(variant@, r);
    }
}

} // verus!
