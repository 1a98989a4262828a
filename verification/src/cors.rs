//! Cross-origin resource sharing: which origins may call the API, and the
//! headers that preflight and ordinary responses carry for them.

use vstd::prelude::*;
use vstd::string::*;

use crate::http::{Method, PlainResponse};
use crate::text::{contains_string, decimal, join, join_strings, strings_view, u64_to_string};
use crate::types::{header, headers_view, Header};

verus! {

/// The cross-origin policy.
#[derive(Debug)]
pub struct CorsConfig {
    pub allowed_origins: Vec<String>,
    pub allowed_methods: Vec<String>,
    pub allowed_headers: Vec<String>,
    pub max_age: u32,
    pub allow_credentials: bool,
}

fn string_list3(a: &str, b: &str, c: &str) -> (res: Vec<String>)
    ensures
        strings_view(res@) == seq![a@, b@, c@],
{
    let mut v: Vec<String> = Vec::new();
    v.push(String::from_str(a));
    v.push(String::from_str(b));
    v.push(String::from_str(c));
    assert(strings_view(v@) =~= seq![a@, b@, c@]);
    v
}

impl Default for CorsConfig {
    /// Any origin; the methods `GET`, `POST`, `PUT`, `DELETE` and `OPTIONS`; the
    /// headers `Content-Type`, `Authorization` and `X-Requested-With`; preflight
    /// answers cached for a day; no credentials.
    fn default() -> (res: Self)
        ensures
            strings_view(res.allowed_origins@) == seq!["*"@],
            strings_view(res.allowed_methods@) == seq![
                "GET"@,
                "POST"@,
                "PUT"@,
                "DELETE"@,
                "OPTIONS"@,
            ],
            strings_view(res.allowed_headers@) == seq![
                "Content-Type"@,
                "Authorization"@,
                "X-Requested-With"@,
            ],
            res.max_age == 86400,
            !res.allow_credentials,
    {
        let mut origins: Vec<String> = Vec::new();
        origins.push(String::from_str("*"));
        assert(strings_view(origins@) =~= seq!["*"@]);
        let mut methods = string_list3("GET", "POST", "PUT");
        let ghost m3 = strings_view(methods@);
        methods.push(String::from_str("DELETE"));
        methods.push(String::from_str("OPTIONS"));
        assert(strings_view(methods@) =~= m3.push("DELETE"@).push("OPTIONS"@));
        CorsConfig {
            allowed_origins: origins,
            allowed_methods: methods,
            allowed_headers: string_list3("Content-Type", "Authorization", "X-Requested-With"),
            max_age: 86400,
            allow_credentials: false,
        }
    }
}

/// Whether a policy with these origins admits `origin`: the wildcard `*` admits
/// every origin, and otherwise the origin must be listed.
pub open spec fn origin_allowed(origins: Seq<Seq<char>>, origin: Seq<char>) -> bool {
    origins.contains("*"@) || origins.contains(origin)
}

/// The `Access-Control-Allow-Origin` value for a request from `origin`: `*` under
/// the wildcard, the origin itself when it is listed, none when it is not admitted.
pub open spec fn allowed_origin_value(origins: Seq<Seq<char>>, origin: Seq<char>) -> Option<
    Seq<char>,
> {
    if origins.contains("*"@) {
        Some("*"@)
    } else if origins.contains(origin) {
        Some(origin)
    } else {
        None
    }
}

/// The origin a request names: its `Origin` header, or the empty text.
pub open spec fn request_origin(origin: Option<Seq<char>>) -> Seq<char> {
    match origin {
        Some(o) => o,
        None => Seq::empty(),
    }
}

/// The credentials header when the policy allows credentials.
pub open spec fn credentials_headers(allow: bool) -> Seq<(Seq<char>, Seq<char>)> {
    if allow {
        seq![("Access-Control-Allow-Credentials"@, "true"@)]
    } else {
        Seq::empty()
    }
}

/// The headers of an admitted preflight request, in the order they are set.
pub open spec fn preflight_header_list(config: &CorsConfig, allowed: Seq<char>) -> Seq<
    (Seq<char>, Seq<char>),
> {
    seq![
        ("Access-Control-Allow-Origin"@, allowed),
        ("Access-Control-Allow-Methods"@, join(strings_view(config.allowed_methods@), ", "@)),
        ("Access-Control-Allow-Headers"@, join(strings_view(config.allowed_headers@), ", "@)),
        ("Access-Control-Max-Age"@, decimal(config.max_age as nat)),
    ] + credentials_headers(config.allow_credentials)
}

/// The cross-origin layer of the API.
pub struct Cors {
    config: CorsConfig,
}

impl Cors {
    /// The policy this layer applies.
    pub closed spec fn spec_config(&self) -> &CorsConfig {
        &self.config
    }

    /// The layer for `config`.
    pub fn new(config: CorsConfig) -> (res: Self)
        ensures
            *res.spec_config() == config,
    {
        Cors { config }
    }

    /// The layer for the default policy.
    pub fn with_defaults() -> (res: Self)
        ensures
            strings_view(res.spec_config().allowed_origins@) == seq!["*"@],
            strings_view(res.spec_config().allowed_methods@) == seq![
                "GET"@,
                "POST"@,
                "PUT"@,
                "DELETE"@,
                "OPTIONS"@,
            ],
            strings_view(res.spec_config().allowed_headers@) == seq![
                "Content-Type"@,
                "Authorization"@,
                "X-Requested-With"@,
            ],
            res.spec_config().max_age == 86400,
            !res.spec_config().allow_credentials,
    {
        Self::new(CorsConfig::default())
    }

    /// The policy this layer applies.
    pub fn config(&self) -> (res: &CorsConfig)
        ensures
            res == self.spec_config(),
    {
        &self.config
    }

    /// Whether a request with this method is a preflight request.
    pub fn is_preflight(&self, method: Method) -> (res: bool)
        ensures
            res == (method == Method::Options),
    {
        method == Method::Options
    }

    /// Whether the policy admits `origin`.
    pub fn is_origin_allowed(&self, origin: &str) -> (res: bool)
        ensures
            res == origin_allowed(strings_view(self.spec_config().allowed_origins@), origin@),
    {
        contains_string(&self.config.allowed_origins, "*") || contains_string(
            &self.config.allowed_origins,
            origin,
        )
    }

    /// The `Access-Control-Allow-Origin` value for `origin`, none when the origin
    /// is not admitted.
    pub fn allowed_origin(&self, origin: &str) -> (res: Option<String>)
        ensures
            match allowed_origin_value(strings_view(self.spec_config().allowed_origins@), origin@) {
                Some(v) => res matches Some(r) && r@ == v,
                None => res is None,
            },
    {
        if !self.is_origin_allowed(origin) {
            None
        } else if contains_string(&self.config.allowed_origins, "*") {
            Some(String::from_str("*"))
        } else {
            Some(String::from_str(origin))
        }
    }

    /// The answer to a preflight request whose `Origin` header is `origin`: a 403
    /// refusal when the origin is not admitted, and otherwise an empty 200 response
    /// carrying the allowed origin, methods, headers, cache age and, when the policy
    /// allows them, credentials.
    pub fn preflight_response(&self, origin: Option<String>) -> (res: PlainResponse)
        ensures
            match allowed_origin_value(
                strings_view(self.spec_config().allowed_origins@),
                request_origin(match origin { Some(o) => Some(o@), None => None }),
            ) {
                None => res.status == 403 && res.body@ == "Origin not allowed"@
                    && res.headers@.len() == 0,
                Some(v) => res.status == 200 && res.body@.len() == 0 && headers_view(res.headers@)
                    == preflight_header_list(self.spec_config(), v),
            },
    {
        let o = match origin {
            Some(o) => o,
            None => String::new(),
        };
        match self.allowed_origin(o.as_str()) {
            None => PlainResponse {
                status: 403,
                body: String::from_str("Origin not allowed"),
                headers: Vec::new(),
            },
            Some(allowed) => {
                let ghost a = allowed@;
                let mut headers: Vec<Header> = Vec::new();
                headers.push(header("Access-Control-Allow-Origin", allowed.as_str()));
                let methods = join_strings(&self.config.allowed_methods, ", ");
                headers.push(header("Access-Control-Allow-Methods", methods.as_str()));
                let hs = join_strings(&self.config.allowed_headers, ", ");
                headers.push(header("Access-Control-Allow-Headers", hs.as_str()));
                let age = u64_to_string(self.config.max_age as u64);
                headers.push(header("Access-Control-Max-Age", age.as_str()));
                if self.config.allow_credentials {
                    headers.push(header("Access-Control-Allow-Credentials", "true"));
                }
                assert(headers_view(headers@) =~= preflight_header_list(self.spec_config(), a));
                PlainResponse { status: 200, body: String::new(), headers }
            },
        }
    }

    /// The cross-origin headers to add to a response for a request whose `Origin`
    /// header is `origin`: none when the origin is not admitted, and otherwise the
    /// allowed origin and, when the policy allows them, credentials.
    pub fn apply_headers(&self, origin: Option<String>) -> (res: Vec<Header>)
        ensures
            match allowed_origin_value(
                strings_view(self.spec_config().allowed_origins@),
                request_origin(match origin { Some(o) => Some(o@), None => None }),
            ) {
                None => res@.len() == 0,
                Some(v) => headers_view(res@) == seq![("Access-Control-Allow-Origin"@, v)]
                    + credentials_headers(self.spec_config().allow_credentials),
            },
    {
        let o = match origin {
            Some(o) => o,
            None => String::new(),
        };
        let mut headers: Vec<Header> = Vec::new();
        match self.allowed_origin(o.as_str()) {
            None => headers,
            Some(allowed) => {
                let ghost a = allowed@;
                headers.push(header("Access-Control-Allow-Origin", allowed.as_str()));
                if self.config.allow_credentials {
                    headers.push(header("Access-Control-Allow-Credentials", "true"));
                }
                assert(headers_view(headers@) =~= seq![("Access-Control-Allow-Origin"@, a)]
                    + credentials_headers(self.spec_config().allow_credentials));
                headers
            },
        }
    }
}

/// Under a wildcard policy every origin is admitted and answered with `*`; under
/// a policy without the wildcard an origin is admitted exactly when it is listed,
/// and is then echoed back.
pub proof fn lemma_origin_policy(origins: Seq<Seq<char>>, origin: Seq<char>)
    ensures
        origins.contains("*"@) ==> allowed_origin_value(origins, origin) == Some("*"@),
        !origins.contains("*"@) ==> (allowed_origin_value(origins, origin) is Some
            <==> origins.contains(origin)),
        !origins.contains("*"@) && origins.contains(origin) ==> allowed_origin_value(
            origins,
            origin,
        ) == Some(origin),
        (allowed_origin_value(origins, origin) is Some) == origin_allowed(origins, origin),
{
}

} // verus!
