//! The calls that relay a login, consent or logout challenge to the
//! authorization server, as values: which URL to call, how, and with what
//! body. The caller makes the call.

use vstd::prelude::*;
use vstd::string::*;
use crate::authenticator::{Authenticator, AuthenticatorType, AuthenticatorView};
use crate::identifier::{Identifier, IdentifierType, IdentifierView};
use crate::projection::Kind;
use crate::system::{System, SystemView};

verus! {

/// The calls to the authorization server.
pub struct Hydra {}

/// Where the authorization server's administrative interface listens.
pub const HYDRA_URL: &'static str = "http://localhost:4445";

/// The body that accepts a login request.
#[derive(Debug)]
pub struct HydraAcceptLoginRequest {
    pub subject: String,
    pub remember: bool,
    pub remember_for: i32,
}

/// What the authorization server tells of a login request.
#[derive(Debug)]
pub struct HydraLoginResponse {
    pub challenge: String,
    pub requested_scope: Vec<String>,
    pub requested_access_token_audience: Option<String>,
    pub skip: bool,
    pub subject: String,
    pub client: HydraClient,
    pub request_url: String,
    pub session_id: String,
}

/// The client on whose behalf a login was requested.
#[derive(Debug)]
pub struct HydraClient {
    pub client_id: String,
    pub client_name: String,
    pub redirect_uris: Vec<String>,
    pub grant_types: Vec<String>,
    pub response_types: Vec<String>,
    pub scope: String,
    pub audience: Option<String>,
    pub owner: String,
    pub policy_uri: String,
    pub allowed_cors_origins: Option<String>,
    pub tos_uri: String,
    pub client_uri: String,
    pub logo_uri: String,
    pub contacts: Option<String>,
    pub client_secret_expires_at: i32,
    pub subject_type: String,
    pub token_endpoint_auth_method: String,
    pub userinfo_signed_response_alg: String,
    pub created_at: String,
    pub updated_at: String,
}

/// How a call is made.
#[derive(Clone, Copy, Debug, PartialEq, Eq, Structural)]
pub enum HydraMethod {
    Get,
    Put,
}

/// One call to the authorization server.
#[derive(Debug)]
pub struct HydraCall {
    pub method: HydraMethod,
    pub url: String,
    pub body: Option<String>,
}

/// A call, as plain values.
pub struct HydraCallView {
    pub method: HydraMethod,
    pub url: Seq<char>,
    pub body: Option<Seq<char>>,
}

impl View for HydraCall {
    type V = HydraCallView;

    open spec fn view(&self) -> HydraCallView {
        HydraCallView { method: self.method, url: self.url@, body: self.body.deep_view() }
    }
}

/// The URL that tells of the request of `flow` with the given challenge.
pub open spec fn request_url(flow: Seq<char>, challenge: Seq<char>) -> Seq<char> {
    HYDRA_URL@ + "/oauth2/auth/requests/"@ + flow + "?"@ + flow + "_challenge="@ + challenge
}

/// The URL that takes the decision `action` on the request of `flow` with
/// the given challenge.
pub open spec fn decision_url(flow: Seq<char>, action: Seq<char>, challenge: Seq<char>) -> Seq<
    char,
> {
    HYDRA_URL@ + "/oauth2/auth/requests/"@ + flow + "/"@ + action + "?"@ + flow + "_challenge="@
        + challenge
}

/// The call that asks for the request of `flow` with the given challenge.
pub open spec fn get(flow: Seq<char>, challenge: Seq<char>) -> HydraCallView {
    HydraCallView { method: HydraMethod::Get, url: request_url(flow, challenge), body: None }
}

/// The call that takes the decision `action`, with `body`, on the request
/// of `flow` with the given challenge.
pub open spec fn put(
    flow: Seq<char>,
    action: Seq<char>,
    challenge: Seq<char>,
    body: Seq<char>,
) -> HydraCallView {
    HydraCallView {
        method: HydraMethod::Put,
        url: decision_url(flow, action, challenge),
        body: Some(body),
    }
}

/// An ampersand as the authorization server escapes it in a JSON string.
pub open spec fn escaped_ampersand() -> Seq<char> {
    seq!['\\', 'u', '0', '0', '2', '6']
}

/// `s` with every escaped ampersand replaced by an ampersand, from left to
/// right.
pub open spec fn unescaped(s: Seq<char>) -> Seq<char>
    decreases s.len(),
{
    if s.len() == 0 {
        s
    } else if escaped_ampersand().is_prefix_of(s) {
        seq!['&'] + unescaped(s.skip(6))
    } else {
        seq![s[0]] + unescaped(s.skip(1))
    }
}

/// Where the login form sends the browser when the login is rejected.
pub open spec fn retry_location(challenge: Seq<char>) -> Seq<char> {
    "/login?challenge="@ + challenge
}

impl Hydra {
    /// The call that asks for the request of `flow` with the given challenge.
    pub fn get(flow: String, challenge: String) -> (r: HydraCall)
        ensures
            r@ == get(flow@, challenge@),
    {
        let mut url = String::from_str(HYDRA_URL);
        url.append("/oauth2/auth/requests/");
        url.append(flow.as_str());
        url.append("?");
        url.append(flow.as_str());
        url.append("_challenge=");
        url.append(challenge.as_str());
        HydraCall { method: HydraMethod::Get, url, body: None }
    }

    /// The call that takes the decision `action`, with `body`, on the request
    /// of `flow` with the given challenge.
    pub fn put(flow: String, action: String, challenge: String, body: String) -> (r: HydraCall)
        ensures
            r@ == put(flow@, action@, challenge@, body@),
    {
        let mut url = String::from_str(HYDRA_URL);
        url.append("/oauth2/auth/requests/");
        url.append(flow.as_str());
        url.append("/");
        url.append(action.as_str());
        url.append("?");
        url.append(flow.as_str());
        url.append("_challenge=");
        url.append(challenge.as_str());
        HydraCall { method: HydraMethod::Put, url, body: Some(body) }
    }

    /// The call that asks for a login request.
    pub fn get_login_request(challenge: String) -> (r: HydraCall)
        ensures
            r@ == get("login"@, challenge@),
    {
        Self::get(String::from_str("login"), challenge)
    }

    /// The call that accepts a login request.
    pub fn accept_login_request(challenge: String, body: String) -> (r: HydraCall)
        ensures
            r@ == put("login"@, "accept"@, challenge@, body@),
    {
        Self::put(String::from_str("login"), String::from_str("accept"), challenge, body)
    }

    /// The call that rejects a login request.
    pub fn reject_login_request(challenge: String, body: String) -> (r: HydraCall)
        ensures
            r@ == put("login"@, "reject"@, challenge@, body@),
    {
        Self::put(String::from_str("login"), String::from_str("reject"), challenge, body)
    }

    /// The call that asks for a consent request.
    pub fn get_consent_request(challenge: String) -> (r: HydraCall)
        ensures
            r@ == get("consent"@, challenge@),
    {
        Self::get(String::from_str("consent"), challenge)
    }

    /// The call that accepts a consent request.
    pub fn accept_consent_request(challenge: String, body: String) -> (r: HydraCall)
        ensures
            r@ == put("consent"@, "accept"@, challenge@, body@),
    {
        Self::put(String::from_str("consent"), String::from_str("accept"), challenge, body)
    }

    /// The call that rejects a consent request.
    pub fn reject_consent_request(challenge: String, body: String) -> (r: HydraCall)
        ensures
            r@ == put("consent"@, "reject"@, challenge@, body@),
    {
        Self::put(String::from_str("consent"), String::from_str("reject"), challenge, body)
    }

    /// The call that asks for a logout request.
    pub fn get_logout_request(challenge: String) -> (r: HydraCall)
        ensures
            r@ == get("logout"@, challenge@),
    {
        Self::get(String::from_str("logout"), challenge)
    }

    /// The call that accepts a logout request.
    pub fn accept_logout_request(challenge: String, body: String) -> (r: HydraCall)
        ensures
            r@ == put("logout"@, "accept"@, challenge@, body@),
    {
        Self::put(String::from_str("logout"), String::from_str("accept"), challenge, body)
    }

    /// The call that rejects a logout request.
    pub fn reject_logout_request(challenge: String, body: String) -> (r: HydraCall)
        ensures
            r@ == put("logout"@, "reject"@, challenge@, body@),
    {
        Self::put(String::from_str("logout"), String::from_str("reject"), challenge, body)
    }

    /// The answer to a decision as the caller is to read it: with its
    /// ampersands restored.
    pub fn answer(raw: &str) -> (r: String)
        ensures
            r@ == unescaped(raw@),
    {
        let n = raw.unicode_len();
        let mut out = String::from_str("");
        let mut k: usize = 0;
        proof {
            reveal_strlit("");
            assert(raw@.skip(0) =~= raw@);
        }
        while k < n
            invariant
                n == raw@.len(),
                k <= n,
                out@ + unescaped(raw@.skip(k as int)) == unescaped(raw@),
            decreases n - k,
        {
            let ghost rest = raw@.skip(k as int);
            let escaped = n - k >= 6 && raw.get_char(k) == '\\' && raw.get_char(k + 1) == 'u'
                && raw.get_char(k + 2) == '0' && raw.get_char(k + 3) == '0' && raw.get_char(k + 4)
                == '2' && raw.get_char(k + 5) == '6';
            if escaped {
                out.append("&");
                proof {
                    reveal_strlit("&");
                    assert(rest.skip(6) =~= raw@.skip(k + 6));
                }
                k += 6;
            } else {
                out.append(raw.substring_char(k, k + 1));
                proof {
                    assert(rest.skip(1) =~= raw@.skip(k + 1));
                }
                k += 1;
            }
        }
        out
    }

    /// The body that accepts the login of `subject`, for this one request.
    pub fn accept(subject: String) -> (r: HydraAcceptLoginRequest)
        ensures
            r.subject == subject,
            !r.remember,
            r.remember_for == 3600,
    {
        HydraAcceptLoginRequest { subject, remember: false, remember_for: 3600 }
    }

    /// What the login form does with a login request that the authorization
    /// server wants skipped: it accepts the login of the subject that the
    /// server names, for this one request. None where the form is to be
    /// shown.
    pub fn skipped(told: &HydraLoginResponse) -> (r: Option<HydraAcceptLoginRequest>)
        ensures
            r.is_some() == told.skip,
            r matches Some(body) ==> body.subject == told.subject && !body.remember
                && body.remember_for == 3600,
    {
        if told.skip {
            Some(Self::accept(told.subject.clone()))
        } else {
            None
        }
    }

    /// Where the login form sends the browser when the login is rejected.
    pub fn retry(challenge: &str) -> (r: String)
        ensures
            r@ == retry_location(challenge@),
    {
        let mut url = String::from_str("/login?challenge=");
        url.append(challenge);
        url
    }

    /// The candidates that the login form stands for: an authenticator of
    /// the given type with the secret in the clear, an identifier of type
    /// `email` with the given value, and a system with the given guid.
    pub fn candidates(
        identifier: String,
        secret: String,
        authenticator_type: AuthenticatorType,
        system: String,
    ) -> (r: (Authenticator, Identifier, System))
        ensures
            r.0@ == (AuthenticatorView {
                authenticator_type: Some(authenticator_type),
                value: Some(secret@),
                dtype: Some(seq![Kind::Authenticator.label()]),
                ..AuthenticatorView::empty()
            }),
            r.1@ == (IdentifierView {
                identifier_type: Some(IdentifierType::email),
                value: Some(identifier@),
                dtype: Some(seq![Kind::Identifier.label()]),
                ..IdentifierView::empty()
            }),
            r.2@ == (SystemView {
                guid: Some(system@),
                dtype: Some(seq![Kind::System.label()]),
                ..SystemView::empty()
            }),
    {
        (
            Authenticator::new().authenticator_type(authenticator_type).value(secret),
            Identifier::new().identifier_type(IdentifierType::email).value(identifier),
            System::new().guid(system),
        )
    }
}

} // verus!
