//! The calls to the authorization server.

use identity_graph::authenticator::AuthenticatorType;
use identity_graph::hydra::{Hydra, HydraClient, HydraLoginResponse, HydraMethod, HYDRA_URL};
use identity_graph::identifier::IdentifierType;

fn s(text: &str) -> String {
    String::from(text)
}

#[test]
fn a_request_is_asked_for_by_its_challenge() {
    let call = Hydra::get(s("login"), s("abc"));
    assert_eq!(call.method, HydraMethod::Get);
    assert_eq!(call.url, "http://localhost:4445/oauth2/auth/requests/login?login_challenge=abc");
    assert!(call.body.is_none());
    assert!(call.url.starts_with(HYDRA_URL));
}

#[test]
fn a_decision_is_put_with_its_body() {
    let call = Hydra::put(s("consent"), s("reject"), s("xyz"), s("{}"));
    assert_eq!(call.method, HydraMethod::Put);
    assert_eq!(
        call.url,
        "http://localhost:4445/oauth2/auth/requests/consent/reject?consent_challenge=xyz"
    );
    assert_eq!(call.body.as_deref(), Some("{}"));
}

#[test]
fn each_flow_has_its_three_calls() {
    let base = "http://localhost:4445/oauth2/auth/requests";
    assert_eq!(Hydra::get_login_request(s("c")).url, format!("{}/login?login_challenge=c", base));
    assert_eq!(
        Hydra::accept_login_request(s("c"), s("b")).url,
        format!("{}/login/accept?login_challenge=c", base)
    );
    assert_eq!(
        Hydra::reject_login_request(s("c"), s("b")).url,
        format!("{}/login/reject?login_challenge=c", base)
    );
    assert_eq!(
        Hydra::get_consent_request(s("c")).url,
        format!("{}/consent?consent_challenge=c", base)
    );
    assert_eq!(
        Hydra::accept_consent_request(s("c"), s("b")).url,
        format!("{}/consent/accept?consent_challenge=c", base)
    );
    assert_eq!(
        Hydra::reject_consent_request(s("c"), s("b")).url,
        format!("{}/consent/reject?consent_challenge=c", base)
    );
    assert_eq!(
        Hydra::get_logout_request(s("c")).url,
        format!("{}/logout?logout_challenge=c", base)
    );
    assert_eq!(
        Hydra::accept_logout_request(s("c"), s("b")).url,
        format!("{}/logout/accept?logout_challenge=c", base)
    );
    assert_eq!(
        Hydra::reject_logout_request(s("c"), s("b")).url,
        format!("{}/logout/reject?logout_challenge=c", base)
    );
    assert_eq!(Hydra::get_logout_request(s("c")).method, HydraMethod::Get);
    assert_eq!(Hydra::accept_logout_request(s("c"), s("b")).method, HydraMethod::Put);
    assert_eq!(Hydra::reject_login_request(s("c"), s("b")).body.as_deref(), Some("b"));
}

#[test]
fn an_answer_has_its_ampersands_restored() {
    assert_eq!(Hydra::answer(""), "");
    assert_eq!(Hydra::answer("plain"), "plain");
    assert_eq!(
        Hydra::answer("{\"redirect_to\":\"http://h/cb?a=1\\u0026b=2\\u0026c=3\"}"),
        "{\"redirect_to\":\"http://h/cb?a=1&b=2&c=3\"}"
    );
    assert_eq!(Hydra::answer("\\u0026"), "&");
    assert_eq!(Hydra::answer("\\u0026\\u0026"), "&&");
    assert_eq!(Hydra::answer("\\u002"), "\\u002");
    assert_eq!(Hydra::answer("\\u0027"), "\\u0027");
    assert_eq!(Hydra::answer("\\\\u0026"), "\\&");
    assert_eq!(Hydra::answer("gr\u{fc}\u{df}e \\u0026 k\u{fc}sse"), "gr\u{fc}\u{df}e & k\u{fc}sse");
    assert_eq!(
        Hydra::answer("a\\u0026b"),
        "a\\u0026b".replace("\\u0026", "&")
    );
}

#[test]
fn a_login_is_accepted_for_one_request() {
    let body = Hydra::accept(s("test@test.com"));
    assert_eq!(body.subject, "test@test.com");
    assert!(!body.remember);
    assert_eq!(body.remember_for, 3600);
}

#[test]
fn a_rejected_login_goes_back_to_the_form() {
    assert_eq!(Hydra::retry("abc"), "/login?challenge=abc");
    assert_eq!(Hydra::retry(""), "/login?challenge=");
}

#[test]
fn the_form_stands_for_three_candidates() {
    let (a, i, sys) = Hydra::candidates(
        s("test@test.com"),
        s("test123"),
        AuthenticatorType::email_password,
        s("S1"),
    );
    assert_eq!(a.authenticator_type, Some(AuthenticatorType::email_password));
    assert_eq!(a.value.as_deref(), Some("test123"));
    assert!(a.uid.is_none() && a.identifiers.is_none());
    assert_eq!(i.identifier_type, Some(IdentifierType::email));
    assert_eq!(i.value.as_deref(), Some("test@test.com"));
    assert_eq!(sys.guid.as_deref(), Some("S1"));
    assert!(sys.name.is_none());
}

fn told(skip: bool) -> HydraLoginResponse {
    HydraLoginResponse {
        challenge: s("abc"),
        requested_scope: vec![s("openid")],
        requested_access_token_audience: None,
        skip,
        subject: s("test@test.com"),
        client: HydraClient {
            client_id: s("app"),
            client_name: s("App"),
            redirect_uris: vec![],
            grant_types: vec![],
            response_types: vec![],
            scope: s("openid"),
            audience: None,
            owner: s(""),
            policy_uri: s(""),
            allowed_cors_origins: None,
            tos_uri: s(""),
            client_uri: s(""),
            logo_uri: s(""),
            contacts: None,
            client_secret_expires_at: 0,
            subject_type: s("public"),
            token_endpoint_auth_method: s("client_secret_basic"),
            userinfo_signed_response_alg: s("none"),
            created_at: s(""),
            updated_at: s(""),
        },
        request_url: s("http://h/auth"),
        session_id: s(""),
    }
}

#[test]
fn a_login_that_is_to_be_skipped_is_accepted_without_the_form() {
    assert!(Hydra::skipped(&told(false)).is_none());
    let body = Hydra::skipped(&told(true)).unwrap();
    assert_eq!(body.subject, "test@test.com");
    assert!(!body.remember);
    assert_eq!(body.remember_for, 3600);
}
