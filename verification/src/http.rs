//! Configuration and the computational side of the transport contract.
//!
//! The network itself lives outside this crate; what is verified here is
//! everything the transport must get right: URL formation, header
//! construction with the API key taking precedence over the access token,
//! and normalization of the service's inconsistent `{ "data": ... }`
//! response envelope.

use vstd::prelude::*;

use crate::json::Json;
use crate::json::JsonValue;
use crate::json::obj_lookup;
use crate::json::obj_get;
use vstd::string::StringExecFns;

verus! {

/// Mathematical model of an `HttpClientConfig`.
pub struct HttpClientConfigV {
    pub api_key: Option<Seq<char>>,
    pub access_token: Option<Seq<char>>,
    pub base_url: Seq<char>,
    pub org_id: Option<Seq<char>>,
    pub sender_email: Option<Seq<char>>,
    pub sender_name: Option<Seq<char>>,
}

/// Configuration of a client handle: credentials, base URL and sender
/// identity. A handle is built from one configuration value and never
/// changes afterwards.
#[derive(Debug, Clone, PartialEq)]
pub struct HttpClientConfig {
    /// API key; takes precedence over `access_token`.
    pub api_key: Option<String>,
    /// OAuth access token, used when no API key is set.
    pub access_token: Option<String>,
    /// Base URL that every path is appended to.
    pub base_url: String,
    /// Organization scope attached to every call.
    pub org_id: Option<String>,
    /// Sender email; required for every signature operation.
    pub sender_email: Option<String>,
    /// Sender name shown in signature request emails.
    pub sender_name: Option<String>,
}

impl DeepView for HttpClientConfig {
    type V = HttpClientConfigV;

    open spec fn deep_view(&self) -> HttpClientConfigV {
        HttpClientConfigV {
            api_key: self.api_key.deep_view(),
            access_token: self.access_token.deep_view(),
            base_url: self.base_url@,
            org_id: self.org_id.deep_view(),
            sender_email: self.sender_email.deep_view(),
            sender_name: self.sender_name.deep_view(),
        }
    }
}

impl Default for HttpClientConfig {
    /// A configuration with no credentials and the service's public base
    /// URL.
    fn default() -> (r: HttpClientConfig)
        ensures
            r.deep_view() == (HttpClientConfigV {
                api_key: None,
                access_token: None,
                base_url: "https://api.turbodocx.com"@,
                org_id: None,
                sender_email: None,
                sender_name: None,
            }),
    {
        HttpClientConfig {
            api_key: None,
            access_token: None,
            base_url: "https://api.turbodocx.com".to_owned(),
            org_id: None,
            sender_email: None,
            sender_name: None,
        }
    }
}

impl HttpClientConfig {
    /// A configuration with the given API key and the default base URL.
    pub fn new(api_key: &str) -> (r: HttpClientConfig)
        ensures
            r.deep_view() == (HttpClientConfigV {
                api_key: Some(api_key@),
                access_token: None,
                base_url: "https://api.turbodocx.com"@,
                org_id: None,
                sender_email: None,
                sender_name: None,
            }),
    {
        HttpClientConfig { api_key: Some(api_key.to_owned()), ..Default::default() }
    }

    /// The same configuration with the access token set.
    pub fn with_access_token(self, token: &str) -> (r: HttpClientConfig)
        ensures
            r.deep_view() == (HttpClientConfigV {
                access_token: Some(token@),
                ..self.deep_view()
            }),
    {
        HttpClientConfig { access_token: Some(token.to_owned()), ..self }
    }

    /// The same configuration with the base URL set.
    pub fn with_base_url(self, url: &str) -> (r: HttpClientConfig)
        ensures
            r.deep_view() == (HttpClientConfigV { base_url: url@, ..self.deep_view() }),
    {
        HttpClientConfig { base_url: url.to_owned(), ..self }
    }

    /// The same configuration with the organization scope set.
    pub fn with_org_id(self, org_id: &str) -> (r: HttpClientConfig)
        ensures
            r.deep_view() == (HttpClientConfigV { org_id: Some(org_id@), ..self.deep_view() }),
    {
        HttpClientConfig { org_id: Some(org_id.to_owned()), ..self }
    }

    /// The same configuration with the sender email set.
    pub fn with_sender_email(self, email: &str) -> (r: HttpClientConfig)
        ensures
            r.deep_view() == (HttpClientConfigV {
                sender_email: Some(email@),
                ..self.deep_view()
            }),
    {
        HttpClientConfig { sender_email: Some(email.to_owned()), ..self }
    }

    /// The same configuration with the sender name set.
    pub fn with_sender_name(self, name: &str) -> (r: HttpClientConfig)
        ensures
            r.deep_view() == (HttpClientConfigV { sender_name: Some(name@), ..self.deep_view() }),
    {
        HttpClientConfig { sender_name: Some(name.to_owned()), ..self }
    }
}

/// The absolute URL of a call: the configured base URL with the path
/// appended, with no further normalization.
pub fn build_url(config: &HttpClientConfig, path: &str) -> (r: String)
    ensures
        r@ == config.base_url@ + path@,
{
    let mut url = config.base_url.clone();
    url.append(path);
    url
}

/// The bearer credential attached to every call: the API key when one is
/// configured, else the access token, else nothing.
pub open spec fn spec_bearer(c: HttpClientConfigV) -> Option<Seq<char>> {
    match c.api_key {
        Some(k) => Some("Bearer "@ + k),
        None => match c.access_token {
            Some(t) => Some("Bearer "@ + t),
            None => None,
        },
    }
}

/// The value of the `Authorization` header, if either credential is
/// configured.
pub fn bearer_value(config: &HttpClientConfig) -> (r: Option<String>)
    ensures
        r.deep_view() == spec_bearer(config.deep_view()),
{
    match &config.api_key {
        Some(k) => {
            let mut v = "Bearer ".to_owned();
            v.append(k.as_str());
            Some(v)
        },
        None => match &config.access_token {
            Some(t) => {
                let mut v = "Bearer ".to_owned();
                v.append(t.as_str());
                Some(v)
            },
            None => None,
        },
    }
}

pub open spec fn opt_header(
    name: Seq<char>,
    value: Option<Seq<char>>,
) -> Seq<(Seq<char>, Seq<char>)> {
    match value {
        Some(v) => seq![(name, v)],
        None => Seq::empty(),
    }
}

/// The headers attached to every call: the bearer credential if one is
/// configured, and the organization scope if one is configured.
pub open spec fn spec_auth_headers(c: HttpClientConfigV) -> Seq<(Seq<char>, Seq<char>)> {
    opt_header("Authorization"@, spec_bearer(c)) + opt_header("x-rapiddocx-org-id"@, c.org_id)
}

/// The headers of a JSON call: the shared headers, then
/// `Content-Type: application/json`.
pub open spec fn spec_json_headers(c: HttpClientConfigV) -> Seq<(Seq<char>, Seq<char>)> {
    spec_auth_headers(c) + seq![("Content-Type"@, "application/json"@)]
}

/// Build the shared headers of a call.
pub fn auth_headers(config: &HttpClientConfig) -> (r: Vec<(String, String)>)
    ensures
        r.deep_view() == spec_auth_headers(config.deep_view()),
{
    let mut hs: Vec<(String, String)> = Vec::new();
    match bearer_value(config) {
        Some(v) => hs.push(("Authorization".to_owned(), v)),
        None => (),
    }
    match &config.org_id {
        Some(o) => hs.push(("x-rapiddocx-org-id".to_owned(), o.clone())),
        None => (),
    }
    proof {
        assert(hs.deep_view() =~= spec_auth_headers(config.deep_view()));
    }
    hs
}

/// Build the headers of a JSON call.
pub fn json_headers(config: &HttpClientConfig) -> (r: Vec<(String, String)>)
    ensures
        r.deep_view() == spec_json_headers(config.deep_view()),
{
    let mut hs = auth_headers(config);
    hs.push(("Content-Type".to_owned(), "application/json".to_owned()));
    proof {
        assert(hs.deep_view() =~= spec_json_headers(config.deep_view()));
    }
    hs
}

/// A response body may arrive as `{ "data": <payload> }` or as the bare
/// payload; both shapes normalize to the payload.
pub open spec fn spec_unwrap_envelope(j: Json) -> Json {
    match j {
        Json::Obj(ms) => match obj_lookup(ms, "data"@) {
            Some(d) => d,
            None => j,
        },
        _ => j,
    }
}

/// Normalize a response body: when it is an object with a `data` member,
/// the payload is that member's value; otherwise it is the body itself.
pub fn unwrap_envelope(v: &JsonValue) -> (r: JsonValue)
    ensures
        r@ == spec_unwrap_envelope(v@),
{
    match v {
        JsonValue::Obj(ms) => match obj_get(ms, "data") {
            Some(d) => d.clone(),
            None => v.clone(),
        },
        _ => v.clone(),
    }
}

} // verus!
