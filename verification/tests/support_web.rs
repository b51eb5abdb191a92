use lenso_capability_support_case as support;
use lenso_support_web_plugin::auth::{AuthAction, AuthEvent, AuthenticatedUser, Rejection};
use lenso_support_web_plugin::errors::{
    answer_domain_error, domain_problem, json_result, Capability, EndpointFailure, SupportFailure,
};
use lenso_support_web_plugin::naming::snake_case;
use lenso_support_web_plugin::response::{
    asset, authentication_problem, path_mismatch, visibility_mismatch, WebResponse,
};
use lenso_support_web_plugin::routes::{
    default_limit, CasePath, CaseRefPath, CaseState, ListCasesQuery, MessagePageQuery,
    MessageVisibility, OrganizationQuery, RouteStep, SupportWebPlugin,
};

fn header<'a>(response: &'a WebResponse, name: &str) -> Option<&'a str> {
    response
        .headers
        .iter()
        .find(|h| h.name == name)
        .map(|h| h.value.as_str())
}

fn body_json(response: &WebResponse) -> serde_json::Value {
    serde_json::from_slice(&response.body).unwrap()
}

fn body_text(response: &WebResponse) -> String {
    String::from_utf8(response.body.clone()).unwrap()
}

fn answer(variant: &str) -> Result<WebResponse, EndpointFailure<()>> {
    answer_domain_error::<()>(variant)
}

#[test]
fn keeps_forbidden_cases_visibility_safe_and_conflicts_explicit() {
    assert_eq!(
        domain_problem::<_, ()>(&support::GetCaseError::Forbidden)
            .unwrap()
            .status,
        404
    );
    assert_eq!(
        domain_problem::<_, ()>(&support::TransitionCaseError::RevisionConflict)
            .unwrap()
            .status,
        409
    );
    assert_eq!(
        domain_problem::<_, ()>(&support::CreateCaseError::InvalidRequest)
            .unwrap()
            .status,
        400
    );
}

#[test]
fn serves_self_contained_page_and_assets_without_connected_ports() {
    let plugin = SupportWebPlugin::default();
    let page = plugin.page("<!doctype html><html><body>Support</body></html>");
    assert_eq!(page.status, 200);
    assert_eq!(header(&page, "content-type"), Some("text/html; charset=utf-8"));
    assert!(page.body.starts_with(b"<!doctype html>"));

    let css = plugin.css("body { margin: 0; }");
    assert_eq!(header(&css, "content-type"), Some("text/css; charset=utf-8"));

    let javascript = plugin.javascript("fetch('/api/support/cases');");
    assert_eq!(
        header(&javascript, "content-type"),
        Some("text/javascript; charset=utf-8")
    );
    assert!(javascript
        .body
        .windows(12)
        .any(|chunk| chunk == b"/api/support"));
}

#[test]
fn snake_case_turns_variant_names_into_codes() {
    assert_eq!(snake_case("RevisionConflict"), "revision_conflict");
    assert_eq!(snake_case("CaseNotFound"), "case_not_found");
    assert_eq!(snake_case("Forbidden"), "forbidden");
    assert_eq!(snake_case("ABC"), "a_b_c");
    assert_eq!(snake_case(""), "");
    assert_eq!(snake_case("already_snake"), "already_snake");
    assert_eq!(snake_case("ÉtatOuvert"), "État_ouvert");
}

#[test]
fn snake_case_output_has_no_capitals_and_keeps_lower_text() {
    for input in ["IdempotencyConflict", "InvalidTransition", "xYz", "A"] {
        let output = snake_case(input);
        assert!(!output.chars().any(|c| c.is_ascii_uppercase()));
        let capitals_after_first = input
            .chars()
            .skip(1)
            .filter(|c| c.is_ascii_uppercase())
            .count();
        assert_eq!(
            output.chars().count(),
            input.chars().count() + capitals_after_first
        );
    }
    assert_eq!(snake_case("no capitals here"), "no capitals here");
}

#[test]
fn domain_errors_map_to_their_statuses() {
    for (variant, status) in [
        ("Unauthenticated", 401),
        ("Forbidden", 404),
        ("CaseNotFound", 404),
        ("IdempotencyConflict", 409),
        ("RevisionConflict", 409),
        ("InvalidTransition", 409),
        ("InvalidRequest", 400),
        ("SomethingElse", 400),
    ] {
        let response = answer(variant).unwrap();
        assert_eq!(response.status, status, "{variant}");
        assert_eq!(
            header(&response, "content-type"),
            Some("application/problem+json; charset=utf-8")
        );
        assert_eq!(
            header(&response, "www-authenticate").is_some(),
            status == 401,
            "{variant}"
        );
    }
}

#[test]
fn forbidden_and_absent_cases_answer_identically() {
    let hidden = domain_problem::<_, ()>(&support::GetCaseError::Forbidden).unwrap();
    let absent = domain_problem::<_, ()>(&support::GetCaseError::CaseNotFound).unwrap();
    assert_eq!(hidden.status, 404);
    assert_eq!(hidden.status, absent.status);
    assert_eq!(hidden.body, absent.body);
    assert_eq!(hidden.headers.len(), absent.headers.len());
    for (h, a) in hidden.headers.iter().zip(absent.headers.iter()) {
        assert_eq!(h.name, a.name);
        assert_eq!(h.value, a.value);
    }
    assert_eq!(body_json(&hidden)["code"], "case_not_found");
    assert!(!body_text(&hidden).contains("forbidden"));
}

#[test]
fn domain_problem_documents_carry_code_and_detail() {
    let response = answer("CaseNotFound").unwrap();
    let body = body_json(&response);
    assert_eq!(body["code"], "case_not_found");
    assert_eq!(body["status"], 404);
    assert_eq!(
        body["detail"],
        "The Support Case capability rejected this operation (case_not_found)."
    );
    assert_eq!(body["type"], "about:blank");
    assert_eq!(body["title"], "Not Found");

    let unauthenticated = answer("Unauthenticated").unwrap();
    assert_eq!(header(&unauthenticated, "www-authenticate"), Some("Bearer"));
    assert_eq!(unauthenticated.headers.len(), 2);
    assert_eq!(body_json(&unauthenticated)["code"], "unauthenticated");
}

#[test]
fn unknown_domain_errors_are_protocol_violations() {
    let unknown = support::GetCaseError::Unknown(support::UnknownDomainError {
        code: "new_error".to_owned(),
        payload: None,
        extra: Default::default(),
    });
    assert!(matches!(
        domain_problem::<_, ()>(&unknown),
        Err(EndpointFailure::ProtocolViolation {
            capability: Capability::SupportCase
        })
    ));
    assert!(matches!(
        answer_domain_error::<()>("Unknown(UnknownDomainError { code: \"x\" })"),
        Err(EndpointFailure::ProtocolViolation {
            capability: Capability::SupportCase
        })
    ));
    let unauthenticated = domain_problem::<_, ()>(&support::ListCasesError::Unauthenticated).unwrap();
    assert_eq!(unauthenticated.status, 401);
}

#[test]
fn json_result_passes_runtime_failures_and_answers_domain_errors() {
    let ok = asset(201, "application/json; charset=utf-8", "{\"case_id\":\"case_1\"}");
    let passed = json_result::<u8>(Ok(Ok(ok.clone()))).unwrap();
    assert_eq!(passed.status, 201);
    assert_eq!(passed.body, ok.body);

    match json_result::<u8>(Ok(Err("response JSON serialization failed: x".to_owned()))) {
        Err(EndpointFailure::Internal { detail }) => {
            assert_eq!(detail, "response JSON serialization failed: x")
        }
        other => panic!("unexpected {other:?}"),
    }

    assert!(matches!(
        json_result::<u8>(Err(SupportFailure::Runtime(7))),
        Err(EndpointFailure::Runtime(7))
    ));

    let stale = json_result::<u8>(Err(SupportFailure::Domain("RevisionConflict".to_owned())))
        .unwrap();
    assert_eq!(stale.status, 409);
    assert!(body_text(&stale).contains("revision_conflict"));
}

#[test]
fn route_problems_are_bad_requests() {
    let mismatch = path_mismatch();
    assert_eq!(mismatch.status, 400);
    let body = body_json(&mismatch);
    assert_eq!(body["code"], "path_body_mismatch");
    assert_eq!(
        body["detail"],
        "The path and JSON body must name the same case_id."
    );

    let wrong = visibility_mismatch("public");
    assert_eq!(wrong.status, 400);
    let body = body_json(&wrong);
    assert_eq!(body["code"], "message_visibility_mismatch");
    assert_eq!(body["detail"], "This route accepts only public messages.");
    assert_eq!(body["title"], "Bad Request");
}

#[test]
fn authentication_problem_challenges_for_bearer() {
    let problem = authentication_problem();
    assert_eq!(problem.status, 401);
    assert_eq!(header(&problem, "www-authenticate"), Some("Bearer"));
    assert!(body_text(&problem).contains("authentication_required"));
    assert_eq!(body_json(&problem)["detail"], "Provide a valid Bearer credential.");
}

#[test]
fn asset_sets_status_type_and_bytes() {
    let response = asset(200, "text/plain", "héllo");
    assert_eq!(response.status, 200);
    assert_eq!(response.headers.len(), 1);
    assert_eq!(header(&response, "content-type"), Some("text/plain"));
    assert_eq!(response.body, "héllo".as_bytes());
}

fn case_path(id: &str) -> CasePath {
    CasePath {
        case_id: id.to_owned(),
    }
}

#[test]
fn case_routes_forward_only_matching_case_ids() {
    let plugin = SupportWebPlugin;
    match plugin.update_case(case_path("case_1"), "case_2", "request") {
        RouteStep::Reply(response) => {
            assert_eq!(response.status, 400);
            assert_eq!(body_json(&response)["code"], "path_body_mismatch");
        }
        other => panic!("unexpected {other:?}"),
    }
    assert!(matches!(
        plugin.update_case(case_path("case_1"), "case_1", "request"),
        RouteStep::Forward {
            request: "request",
            success_status: 200
        }
    ));
    assert!(matches!(
        plugin.assign_case(case_path("case_1"), "case_1", 5),
        RouteStep::Forward {
            request: 5,
            success_status: 200
        }
    ));
    assert!(matches!(
        plugin.transition_case(case_path("case_1"), "other", 5),
        RouteStep::Reply(_)
    ));
    assert!(matches!(
        plugin.create_case("new"),
        RouteStep::Forward {
            request: "new",
            success_status: 201
        }
    ));
}

#[test]
fn message_routes_accept_only_their_visibility() {
    let plugin = SupportWebPlugin;
    assert!(matches!(
        plugin.add_public_message(case_path("case_1"), "case_1", MessageVisibility::Public, 1),
        RouteStep::Forward {
            request: 1,
            success_status: 201
        }
    ));
    match plugin.add_public_message(case_path("case_1"), "case_1", MessageVisibility::Internal, 1)
    {
        RouteStep::Reply(response) => {
            assert_eq!(response.status, 400);
            assert_eq!(
                body_json(&response)["detail"],
                "This route accepts only public messages."
            );
        }
        other => panic!("unexpected {other:?}"),
    }
    match plugin.add_internal_note(case_path("case_1"), "case_1", MessageVisibility::Public, 1) {
        RouteStep::Reply(response) => assert_eq!(
            body_json(&response)["detail"],
            "This route accepts only internal messages."
        ),
        other => panic!("unexpected {other:?}"),
    }
    assert!(matches!(
        plugin.add_internal_note(case_path("case_1"), "case_1", MessageVisibility::Internal, 1),
        RouteStep::Forward {
            request: 1,
            success_status: 201
        }
    ));
    match plugin.add_internal_note(case_path("case_1"), "case_9", MessageVisibility::Internal, 1) {
        RouteStep::Reply(response) => {
            assert_eq!(body_json(&response)["code"], "path_body_mismatch")
        }
        other => panic!("unexpected {other:?}"),
    }
}

#[test]
fn query_routes_forward_their_filters() {
    assert_eq!(default_limit(), 40);
    let plugin = SupportWebPlugin;
    let query = ListCasesQuery {
        organization_id: "org_1".to_owned(),
        requester_subject: None,
        assignee_subject: Some("agent_1".to_owned()),
        state: Some(CaseState::WaitingCustomer),
        cursor: Some("c1".to_owned()),
        limit: default_limit(),
    };
    match plugin.list_cases(query) {
        RouteStep::Forward {
            request,
            success_status,
        } => {
            assert_eq!(success_status, 200);
            assert_eq!(request.organization_id, "org_1");
            assert_eq!(request.assignee_subject.as_deref(), Some("agent_1"));
            assert_eq!(request.requester_subject, None);
            assert_eq!(request.state, Some(CaseState::WaitingCustomer));
            assert_eq!(request.cursor.as_deref(), Some("c1"));
            assert_eq!(request.limit, 40);
        }
        other => panic!("unexpected {other:?}"),
    }
    match plugin.get_case(
        CaseRefPath {
            case_ref: "SUP-1".to_owned(),
        },
        OrganizationQuery {
            organization_id: "org_1".to_owned(),
        },
    ) {
        RouteStep::Forward {
            request,
            success_status,
        } => {
            assert_eq!(success_status, 200);
            assert_eq!(request.case_ref, "SUP-1");
            assert_eq!(request.organization_id, "org_1");
        }
        other => panic!("unexpected {other:?}"),
    }
    match plugin.list_messages(
        case_path("case_1"),
        MessagePageQuery {
            organization_id: "org_1".to_owned(),
            cursor: None,
            limit: 5,
        },
    ) {
        RouteStep::Forward {
            request,
            success_status,
        } => {
            assert_eq!(success_status, 200);
            assert_eq!(request.case_id, "case_1");
            assert_eq!(request.organization_id, "org_1");
            assert_eq!(request.cursor, None);
            assert_eq!(request.limit, 5);
        }
        other => panic!("unexpected {other:?}"),
    }
}

fn respond(action: AuthAction<u8>) -> WebResponse {
    match action {
        AuthAction::Reject(Rejection::Respond(response)) => response,
        other => panic!("unexpected {other:?}"),
    }
}

#[test]
fn invalid_or_absent_credentials_are_asked_for_a_bearer_credential() {
    for event in [AuthEvent::CallRejected, AuthEvent::Absent] {
        let response = respond(AuthenticatedUser::from_request::<u8>(event));
        assert_eq!(response.status, 401);
        assert_eq!(header(&response, "www-authenticate"), Some("Bearer"));
        assert!(body_text(&response).contains("authentication_required"));
    }
}

#[test]
fn only_user_actors_are_admitted() {
    let wrong_kind = respond(AuthenticatedUser::from_request::<u8>(
        AuthEvent::Authenticated {
            actor_kind: "service".to_owned(),
        },
    ));
    assert_eq!(wrong_kind.status, 403);
    assert_eq!(body_json(&wrong_kind)["code"], "unsupported_actor");
    assert_eq!(
        body_json(&wrong_kind)["detail"],
        "This Web surface requires an authenticated user actor."
    );

    assert!(matches!(
        AuthenticatedUser::from_request::<u8>(AuthEvent::Replied),
        AuthAction::Decode
    ));
    assert!(matches!(
        AuthenticatedUser::from_request::<u8>(AuthEvent::Authenticated {
            actor_kind: "user".to_owned()
        }),
        AuthAction::Attach
    ));
    assert!(matches!(
        AuthenticatedUser::from_request::<u8>(AuthEvent::Attached),
        AuthAction::Accept(AuthenticatedUser)
    ));
}

#[test]
fn authentication_failures_are_reported_not_answered() {
    assert!(matches!(
        AuthenticatedUser::from_request::<u8>(AuthEvent::CallFailed(3)),
        AuthAction::Reject(Rejection::Fail(EndpointFailure::Runtime(3)))
    ));
    assert!(matches!(
        AuthenticatedUser::from_request::<u8>(AuthEvent::DecodeFailed),
        AuthAction::Reject(Rejection::Fail(EndpointFailure::ProtocolViolation {
            capability: Capability::Auth
        }))
    ));
    match AuthenticatedUser::from_request::<u8>(AuthEvent::AttachFailed {
        detail: "sealed extension rejected".to_owned(),
    }) {
        AuthAction::Reject(Rejection::Fail(EndpointFailure::Internal { detail })) => assert_eq!(
            detail,
            "could not attach authenticated actor assertion: sealed extension rejected"
        ),
        other => panic!("unexpected {other:?}"),
    }
}

#[test]
fn link_is_callable() {
    lenso_support_web_plugin::link();
}
