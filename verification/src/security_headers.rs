//! The security headers the service adds to its responses.

use vstd::prelude::*;
use vstd::string::*;

use crate::domain::opt_str_view;
use crate::text::{decimal, push_decimal};
use crate::types::{header, headers_view, Header};

verus! {

/// Whether, and how, a page may be framed.
#[derive(Debug, Clone, Copy, PartialEq, Eq, Structural)]
pub enum FrameOptions {
    Deny,
    SameOrigin,
    Unset,
}

/// Strict transport security settings.
#[derive(Debug, Clone, Copy, PartialEq, Eq, Structural)]
pub struct HstsConfig {
    pub max_age: u64,
    pub include_subdomains: bool,
    pub preload: bool,
}

impl Default for HstsConfig {
    /// A year, subdomains included, not preloaded.
    fn default() -> (res: Self)
        ensures
            res == (HstsConfig { max_age: 31536000, include_subdomains: true, preload: false }),
    {
        HstsConfig { max_age: 31536000, include_subdomains: true, preload: false }
    }
}

/// The `Strict-Transport-Security` value for these settings.
pub open spec fn hsts_value(h: HstsConfig) -> Seq<char> {
    "max-age="@ + decimal(h.max_age as nat) + (if h.include_subdomains {
        "; includeSubDomains"@
    } else {
        Seq::empty()
    }) + (if h.preload {
        "; preload"@
    } else {
        Seq::empty()
    })
}

/// The HSTS value starts with the age directive; it ends with `; preload` exactly
/// when preload is set; and what precedes that ends with `; includeSubDomains`
/// exactly when subdomains are included. The two directives are independent.
pub proof fn lemma_hsts_directives(h: HstsConfig)
    ensures
        ({
            let v = hsts_value(h);
            let age = "max-age="@ + decimal(h.max_age as nat);
            let rest = if h.preload {
                v.take(v.len() - 9)
            } else {
                v
            };
            &&& v.take(age.len() as int) == age
            &&& h.preload <==> (v.len() >= 9 && v.subrange(v.len() - 9, v.len() as int)
                == "; preload"@)
            &&& h.include_subdomains <==> (rest.len() >= 19 && rest.subrange(
                rest.len() - 19,
                rest.len() as int,
            ) == "; includeSubDomains"@)
        }),
{
    reveal_strlit("max-age=");
    reveal_strlit("; preload");
    reveal_strlit("; includeSubDomains");
    crate::text::lemma_decimal_digits(h.max_age as nat);
    let v = hsts_value(h);
    let d = decimal(h.max_age as nat);
    let age = "max-age="@ + d;
    let inc: Seq<char> = if h.include_subdomains {
        "; includeSubDomains"@
    } else {
        Seq::empty()
    };
    let pre: Seq<char> = if h.preload {
        "; preload"@
    } else {
        Seq::empty()
    };
    assert(v == age + inc + pre);
    assert(v.take(age.len() as int) =~= age);
    let base = age + inc;
    assert(age.last() == d.last());
    assert(crate::text::is_digit(d[d.len() - 1]));
    if h.preload {
        assert(v.subrange(v.len() - 9, v.len() as int) =~= "; preload"@);
        assert(v.take(v.len() - 9) =~= base);
    } else {
        assert(v =~= base);
        if v.len() >= 9 {
            assert(v.subrange(v.len() - 9, v.len() as int)[8] == v.last());
            assert("; preload"@[8] == 'd');
            if h.include_subdomains {
                assert(v.last() == 's');
            } else {
                assert(v.last() == d.last());
            }
        }
    }
    if h.include_subdomains {
        assert(base.subrange(base.len() - 19, base.len() as int) =~= "; includeSubDomains"@);
    } else {
        assert(base =~= age);
        if base.len() >= 19 {
            assert(base.subrange(base.len() - 19, base.len() as int)[18] == base.last());
            assert("; includeSubDomains"@[18] == 's');
            assert(base.last() == d.last());
        }
    }
}

/// Which security headers are set, and with which values.
#[derive(Debug)]
pub struct SecurityHeaders {
    pub content_type_options: bool,
    pub frame_options: FrameOptions,
    pub xss_protection: bool,
    pub referrer_policy: String,
    pub content_security_policy: Option<String>,
    pub strict_transport_security: Option<HstsConfig>,
    pub permissions_policy: Option<String>,
}

/// One header when `present`, none otherwise.
pub open spec fn header_if(present: bool, name: Seq<char>, value: Seq<char>) -> Seq<
    (Seq<char>, Seq<char>),
> {
    if present {
        seq![(name, value)]
    } else {
        Seq::empty()
    }
}

/// The header for an optional value.
pub open spec fn optional_header(name: Seq<char>, value: Option<Seq<char>>) -> Seq<
    (Seq<char>, Seq<char>),
> {
    match value {
        Some(v) => seq![(name, v)],
        None => Seq::empty(),
    }
}

/// The `X-Frame-Options` header for a framing policy.
pub open spec fn frame_header(f: FrameOptions) -> Seq<(Seq<char>, Seq<char>)> {
    match f {
        FrameOptions::Deny => seq![("X-Frame-Options"@, "DENY"@)],
        FrameOptions::SameOrigin => seq![("X-Frame-Options"@, "SAMEORIGIN"@)],
        FrameOptions::Unset => Seq::empty(),
    }
}

/// The headers a configuration sets, in the order it sets them.
pub open spec fn security_header_list(s: &SecurityHeaders) -> Seq<(Seq<char>, Seq<char>)> {
    header_if(s.content_type_options, "X-Content-Type-Options"@, "nosniff"@) + frame_header(
        s.frame_options,
    ) + header_if(s.xss_protection, "X-XSS-Protection"@, "1; mode=block"@) + seq![
        ("Referrer-Policy"@, s.referrer_policy@),
    ] + optional_header("Content-Security-Policy"@, opt_str_view(s.content_security_policy))
        + optional_header(
        "Strict-Transport-Security"@,
        match s.strict_transport_security {
            Some(h) => Some(hsts_value(h)),
            None => None,
        },
    ) + optional_header("Permissions-Policy"@, opt_str_view(s.permissions_policy))
}

impl Default for SecurityHeaders {
    /// Everything on: no sniffing, no framing, the XSS filter, a strict referrer
    /// policy, a same-origin content security policy, a year of HSTS and no
    /// geolocation, microphone or camera.
    fn default() -> (res: Self)
        ensures
            res.content_type_options,
            res.frame_options == FrameOptions::Deny,
            res.xss_protection,
            res.referrer_policy@ == "strict-origin-when-cross-origin"@,
            opt_str_view(res.content_security_policy) == Some("default-src 'self'"@),
            res.strict_transport_security == Some(
                HstsConfig { max_age: 31536000, include_subdomains: true, preload: false },
            ),
            opt_str_view(res.permissions_policy) == Some(
                "geolocation=(), microphone=(), camera=()"@,
            ),
    {
        SecurityHeaders {
            content_type_options: true,
            frame_options: FrameOptions::Deny,
            xss_protection: true,
            referrer_policy: String::from_str("strict-origin-when-cross-origin"),
            content_security_policy: Some(String::from_str("default-src 'self'")),
            strict_transport_security: Some(HstsConfig::default()),
            permissions_policy: Some(String::from_str("geolocation=(), microphone=(), camera=()")),
        }
    }
}

impl SecurityHeaders {
    /// The default configuration.
    pub fn new() -> (res: Self)
        ensures
            res.content_type_options,
            res.frame_options == FrameOptions::Deny,
            res.xss_protection,
            res.referrer_policy@ == "strict-origin-when-cross-origin"@,
            opt_str_view(res.content_security_policy) == Some("default-src 'self'"@),
            res.strict_transport_security == Some(
                HstsConfig { max_age: 31536000, include_subdomains: true, preload: false },
            ),
            opt_str_view(res.permissions_policy) == Some(
                "geolocation=(), microphone=(), camera=()"@,
            ),
    {
        Self::default()
    }

    /// The configuration for JSON API responses: as the default, but without a
    /// content security policy or a permissions policy.
    pub fn api_defaults() -> (res: Self)
        ensures
            res.content_type_options,
            res.frame_options == FrameOptions::Deny,
            res.xss_protection,
            res.referrer_policy@ == "strict-origin-when-cross-origin"@,
            res.content_security_policy is None,
            res.strict_transport_security == Some(
                HstsConfig { max_age: 31536000, include_subdomains: true, preload: false },
            ),
            res.permissions_policy is None,
    {
        SecurityHeaders {
            content_type_options: true,
            frame_options: FrameOptions::Deny,
            xss_protection: true,
            referrer_policy: String::from_str("strict-origin-when-cross-origin"),
            content_security_policy: None,
            strict_transport_security: Some(HstsConfig::default()),
            permissions_policy: None,
        }
    }

    /// The headers this configuration sets on a response, in the order it sets them.
    pub fn apply(&self) -> (res: Vec<Header>)
        ensures
            headers_view(res@) == security_header_list(self),
    {
        let mut hs: Vec<Header> = Vec::new();
        if self.content_type_options {
            hs.push(header("X-Content-Type-Options", "nosniff"));
        }
        match self.frame_options {
            FrameOptions::Deny => hs.push(header("X-Frame-Options", "DENY")),
            FrameOptions::SameOrigin => hs.push(header("X-Frame-Options", "SAMEORIGIN")),
            FrameOptions::Unset => {},
        }
        if self.xss_protection {
            hs.push(header("X-XSS-Protection", "1; mode=block"));
        }
        hs.push(header("Referrer-Policy", self.referrer_policy.as_str()));
        if let Some(csp) = &self.content_security_policy {
            hs.push(header("Content-Security-Policy", csp.as_str()));
        }
        if let Some(h) = self.strict_transport_security {
            let mut value = String::from_str("max-age=");
            push_decimal(&mut value, h.max_age);
            if h.include_subdomains {
                value.append("; includeSubDomains");
            }
            if h.preload {
                value.append("; preload");
            }
            assert(value@ =~= hsts_value(h));
            hs.push(Header { name: String::from_str("Strict-Transport-Security"), value });
        }
        if let Some(pp) = &self.permissions_policy {
            hs.push(header("Permissions-Policy", pp.as_str()));
        }
        assert(headers_view(hs@) =~= security_header_list(self));
        hs
    }
}

} // verus!
