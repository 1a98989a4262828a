//! Fixed-window rate limiting per client address. The count of requests in the
//! current window is kept as decimal text in a key-value store; the decisions
//! about it are taken here, the store itself is reached by the caller.

use vstd::prelude::*;
use vstd::string::*;

use crate::http::PlainResponse;
use crate::text::{decimal, lemma_parse_decimal, parse_u32, parse_unsigned, u64_to_string};
use crate::types::{header, headers_view, Header};

verus! {

/// How many requests a client may make per window, and how long a window lasts.
#[derive(Debug, Clone, Copy)]
pub struct RateLimitConfig {
    pub requests_per_window: u32,
    pub window_seconds: u64,
}

impl Default for RateLimitConfig {
    /// 100 requests a minute.
    fn default() -> (res: Self)
        ensures
            res.requests_per_window == 100,
            res.window_seconds == 60,
    {
        RateLimitConfig { requests_per_window: 100, window_seconds: 60 }
    }
}

/// The outcome of a rate-limit check, with the figures reported to the client.
#[derive(Debug, Clone, Copy, PartialEq, Eq, Structural)]
pub enum RateLimitResult {
    Allowed { limit: u32, remaining: u32, reset_seconds: u64 },
    Exceeded { limit: u32, remaining: u32, reset_seconds: u64 },
}

/// The limit, remaining count and reset time a result reports.
pub open spec fn result_figures(r: RateLimitResult) -> (u32, u32, u64) {
    match r {
        RateLimitResult::Allowed { limit, remaining, reset_seconds } => (
            limit,
            remaining,
            reset_seconds,
        ),
        RateLimitResult::Exceeded { limit, remaining, reset_seconds } => (
            limit,
            remaining,
            reset_seconds,
        ),
    }
}

/// The rate-limit headers for a result.
pub open spec fn rate_limit_header_list(r: RateLimitResult) -> Seq<(Seq<char>, Seq<char>)> {
    seq![
        ("X-RateLimit-Limit"@, decimal(result_figures(r).0 as nat)),
        ("X-RateLimit-Remaining"@, decimal(result_figures(r).1 as nat)),
        ("X-RateLimit-Reset"@, decimal(result_figures(r).2 as nat)),
    ]
}

impl RateLimitResult {
    /// Whether the client has used up its requests for this window.
    pub fn is_exceeded(&self) -> (res: bool)
        ensures
            res == (self is Exceeded),
    {
        match self {
            RateLimitResult::Exceeded { .. } => true,
            RateLimitResult::Allowed { .. } => false,
        }
    }

    /// The headers that report the limit, the remaining requests and the window
    /// length to the client.
    pub fn apply_headers(&self) -> (res: Vec<Header>)
        ensures
            headers_view(res@) == rate_limit_header_list(*self),
            match *self {
                RateLimitResult::Allowed { limit, remaining, reset_seconds } => headers_view(res@)
                    == seq![
                    ("X-RateLimit-Limit"@, decimal(limit as nat)),
                    ("X-RateLimit-Remaining"@, decimal(remaining as nat)),
                    ("X-RateLimit-Reset"@, decimal(reset_seconds as nat)),
                ],
                RateLimitResult::Exceeded { limit, remaining, reset_seconds } => headers_view(res@)
                    == seq![
                    ("X-RateLimit-Limit"@, decimal(limit as nat)),
                    ("X-RateLimit-Remaining"@, decimal(remaining as nat)),
                    ("X-RateLimit-Reset"@, decimal(reset_seconds as nat)),
                ],
            },
    {
        let (limit, remaining, reset) = match self {
            RateLimitResult::Allowed { limit, remaining, reset_seconds } => (
                *limit,
                *remaining,
                *reset_seconds,
            ),
            RateLimitResult::Exceeded { limit, remaining, reset_seconds } => (
                *limit,
                *remaining,
                *reset_seconds,
            ),
        };
        let mut hs: Vec<Header> = Vec::new();
        hs.push(header("X-RateLimit-Limit", u64_to_string(limit as u64).as_str()));
        hs.push(header("X-RateLimit-Remaining", u64_to_string(remaining as u64).as_str()));
        hs.push(header("X-RateLimit-Reset", u64_to_string(reset).as_str()));
        assert(headers_view(hs@) =~= rate_limit_header_list(*self));
        hs
    }

    /// The 429 response that refuses a request, with the rate-limit headers.
    pub fn to_error_response(&self) -> (res: PlainResponse)
        ensures
            res.status == 429,
            res.body@ == "Too Many Requests"@,
            headers_view(res.headers@) == rate_limit_header_list(*self),
    {
        PlainResponse {
            status: 429,
            body: String::from_str("Too Many Requests"),
            headers: self.apply_headers(),
        }
    }
}

/// The request count that a stored text stands for: its value when it reads as a
/// `u32`, and 0 when it does not or when nothing is stored.
pub open spec fn stored_count(stored: Option<Seq<char>>) -> nat {
    match stored {
        Some(t) => match parse_unsigned(t, u32::MAX as nat) {
            Some(v) => v,
            None => 0,
        },
        None => 0,
    }
}

/// What one check does for a client whose stored text is `stored`: the text to
/// store afterwards (none when nothing is written) and the result.
pub open spec fn rate_step(config: RateLimitConfig, stored: Option<Seq<char>>) -> (
    Option<Seq<char>>,
    RateLimitResult,
) {
    let current = stored_count(stored);
    if current >= config.requests_per_window {
        (
            None,
            RateLimitResult::Exceeded {
                limit: config.requests_per_window,
                remaining: 0,
                reset_seconds: config.window_seconds,
            },
        )
    } else {
        (
            Some(decimal(current + 1)),
            RateLimitResult::Allowed {
                limit: config.requests_per_window,
                remaining: (config.requests_per_window - (current + 1)) as u32,
                reset_seconds: config.window_seconds,
            },
        )
    }
}

/// The rate-limit headers report the result's own figures: its limit, its
/// remaining count and its reset time, each in decimal, whichever the outcome.
pub proof fn lemma_headers_report_own_figures(limit: u32, remaining: u32, reset_seconds: u64)
    ensures
        rate_limit_header_list(RateLimitResult::Allowed { limit, remaining, reset_seconds })
            == seq![
            ("X-RateLimit-Limit"@, decimal(limit as nat)),
            ("X-RateLimit-Remaining"@, decimal(remaining as nat)),
            ("X-RateLimit-Reset"@, decimal(reset_seconds as nat)),
        ],
        rate_limit_header_list(RateLimitResult::Exceeded { limit, remaining, reset_seconds })
            == seq![
            ("X-RateLimit-Limit"@, decimal(limit as nat)),
            ("X-RateLimit-Remaining"@, decimal(remaining as nat)),
            ("X-RateLimit-Reset"@, decimal(reset_seconds as nat)),
        ],
{
}

/// What a check decides once the stored count has been read.
#[derive(Debug)]
pub enum RateLimitStep {
    /// The limit is reached: nothing is written and the request is refused.
    Reject(RateLimitResult),
    /// The request is let through after `count` is stored for the rest of the window.
    Record { count: String, ttl_seconds: u64, result: RateLimitResult },
}

/// A rate limiter whose counts live in a store of type `S`.
pub struct RateLimiter<S> {
    kv: S,
    config: RateLimitConfig,
}

impl<S> RateLimiter<S> {
    /// The store holding the counts.
    pub closed spec fn spec_kv(&self) -> S {
        self.kv
    }

    /// The limits this rate limiter applies.
    pub closed spec fn spec_config(&self) -> RateLimitConfig {
        self.config
    }

    /// A rate limiter over `kv` with `config`.
    pub fn new(kv: S, config: RateLimitConfig) -> (res: Self)
        ensures
            res.spec_kv() == kv,
            res.spec_config() == config,
    {
        RateLimiter { kv, config }
    }

    /// A rate limiter over `kv` allowing 100 requests a minute.
    pub fn with_defaults(kv: S) -> (res: Self)
        ensures
            res.spec_kv() == kv,
            res.spec_config().requests_per_window == 100,
            res.spec_config().window_seconds == 60,
    {
        Self::new(kv, RateLimitConfig::default())
    }

    /// The store holding the counts.
    pub fn kv(&self) -> (res: &S)
        ensures
            *res == self.spec_kv(),
    {
        &self.kv
    }

    /// The limits this rate limiter applies.
    pub fn config(&self) -> (res: RateLimitConfig)
        ensures
            res == self.spec_config(),
    {
        self.config
    }

    /// The client address: the `CF-Connecting-IP` header, else the
    /// `X-Forwarded-For` header, else `unknown`.
    pub fn get_client_ip(&self, connecting_ip: Option<String>, forwarded_for: Option<String>) -> (res:
        String)
        ensures
            res@ == match connecting_ip {
                Some(ip) => ip@,
                None => match forwarded_for {
                    Some(ip) => ip@,
                    None => "unknown"@,
                },
            },
    {
        match connecting_ip {
            Some(ip) => ip,
            None => match forwarded_for {
                Some(ip) => ip,
                None => String::from_str("unknown"),
            },
        }
    }

    /// The store key under which a client's count is kept.
    pub fn key_for(&self, ip: &str) -> (res: String)
        ensures
            res@ == "ratelimit:"@ + ip@,
    {
        String::from_str("ratelimit:").concat(ip)
    }

    /// The decision for a request whose client has `stored` as its stored count
    /// text: refuse it when the count has reached the limit; otherwise store the
    /// count plus one for the window length and let it through with what remains.
    pub fn decide(&self, stored: Option<String>) -> (res: RateLimitStep)
        ensures
            ({
                let (next, result) = rate_step(
                    self.spec_config(),
                    match stored { Some(t) => Some(t@), None => None },
                );
                match res {
                    RateLimitStep::Reject(r) => next is None && r == result,
                    RateLimitStep::Record { count, ttl_seconds, result: r } => next == Some(
                        count@,
                    ) && ttl_seconds == self.spec_config().window_seconds && r == result,
                }
            }),
    {
        let current: u32 = match &stored {
            Some(t) => match parse_u32(t.as_str()) {
                Some(v) => v,
                None => 0,
            },
            None => 0,
        };
        let limit = self.config.requests_per_window;
        if current >= limit {
            RateLimitStep::Reject(
                RateLimitResult::Exceeded {
                    limit,
                    remaining: 0,
                    reset_seconds: self.config.window_seconds,
                },
            )
        } else {
            let new_count = current + 1;
            RateLimitStep::Record {
                count: u64_to_string(new_count as u64),
                ttl_seconds: self.config.window_seconds,
                result: RateLimitResult::Allowed {
                    limit,
                    remaining: limit - new_count,
                    reset_seconds: self.config.window_seconds,
                },
            }
        }
    }
}

/// The stored text after `n` checks of one client within one window, starting
/// from nothing stored (a refused check leaves the text as it was).
pub open spec fn stored_after(config: RateLimitConfig, n: nat) -> Option<Seq<char>>
    decreases n,
{
    if n == 0 {
        None
    } else {
        let prev = stored_after(config, (n - 1) as nat);
        match rate_step(config, prev).0 {
            Some(t) => Some(t),
            None => prev,
        }
    }
}

/// The limit holds over a window: of the checks a client makes from a fresh
/// window, the first `requests_per_window` are let through, each one reporting
/// what remains after it, and every later one is refused; the stored count is the
/// number of requests let through so far.
pub proof fn lemma_window_admits_exactly_limit(config: RateLimitConfig, n: nat)
    ensures
        stored_count(stored_after(config, n)) == if n <= config.requests_per_window {
            n
        } else {
            config.requests_per_window as nat
        },
        (rate_step(config, stored_after(config, n)).1 is Allowed) <==> n
            < config.requests_per_window,
        n < config.requests_per_window ==> rate_step(config, stored_after(config, n)).1
            == (RateLimitResult::Allowed {
            limit: config.requests_per_window,
            remaining: (config.requests_per_window - (n + 1)) as u32,
            reset_seconds: config.window_seconds,
        }),
    decreases n,
{
    if n > 0 {
        lemma_window_admits_exactly_limit(config, (n - 1) as nat);
        let prev = stored_after(config, (n - 1) as nat);
        let c = stored_count(prev);
        if c < config.requests_per_window {
            lemma_parse_decimal(c + 1, u32::MAX as nat);
        }
    }
}

} // verus!
