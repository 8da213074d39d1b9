use vstd::prelude::*;

verus! {

/// Request timeout, in milliseconds, when the options give none.
pub const DEFAULT_TIMEOUT_MILLIS: u64 = 30000;

/// Redirect hops followed, when redirects are followed and the options give no cap.
pub const DEFAULT_MAX_REDIRECTS: usize = 10;

/// Caller-supplied configuration; every field may be absent.
pub struct RequestOptions {
    pub timeout_millis: Option<u64>,
    pub proxy_url: Option<String>,
    pub follow_redirects: Option<bool>,
    pub max_redirects: Option<usize>,
}

/// The fully-defaulted form of `RequestOptions`.
pub struct ResolvedPolicy {
    pub timeout_millis: u64,
    pub proxy_url: Option<String>,
    pub follow_redirects: bool,
    pub max_redirects: usize,
}

/// How a client treats a redirect response.
#[derive(Clone, Copy, Debug, PartialEq, Eq, Structural)]
pub enum RedirectRule {
    /// The redirect response itself is the answer.
    Never,
    /// Redirects are followed for at most this many hops; one more is a request failure.
    UpTo(usize),
}

/// The policy that `options` resolves to: each absent field takes its default.
pub open spec fn resolved(options: RequestOptions) -> ResolvedPolicy {
    ResolvedPolicy {
        timeout_millis: match options.timeout_millis {
            Some(t) => t,
            None => DEFAULT_TIMEOUT_MILLIS,
        },
        proxy_url: options.proxy_url,
        follow_redirects: match options.follow_redirects {
            Some(f) => f,
            None => true,
        },
        max_redirects: match options.max_redirects {
            Some(m) => m,
            None => DEFAULT_MAX_REDIRECTS,
        },
    }
}

/// The redirect rule that `policy` asks for.
pub open spec fn rule_of(policy: ResolvedPolicy) -> RedirectRule {
    if policy.follow_redirects {
        RedirectRule::UpTo(policy.max_redirects)
    } else {
        RedirectRule::Never
    }
}

impl RequestOptions {
    /// Options with every field absent.
    pub fn unset() -> (r: RequestOptions)
        ensures
            r.timeout_millis is None,
            r.proxy_url is None,
            r.follow_redirects is None,
            r.max_redirects is None,
    {
        RequestOptions {
            timeout_millis: None,
            proxy_url: None,
            follow_redirects: None,
            max_redirects: None,
        }
    }
}

impl Default for RequestOptions {
    /// Options that spell out every default.
    fn default() -> (r: RequestOptions)
        ensures
            r.timeout_millis == Some(DEFAULT_TIMEOUT_MILLIS),
            r.proxy_url is None,
            r.follow_redirects == Some(true),
            r.max_redirects == Some(DEFAULT_MAX_REDIRECTS),
    {
        RequestOptions {
            timeout_millis: Some(DEFAULT_TIMEOUT_MILLIS),
            proxy_url: None,
            follow_redirects: Some(true),
            max_redirects: Some(DEFAULT_MAX_REDIRECTS),
        }
    }
}

/// Resolves sparse options into a policy. Never fails: the proxy URL is
/// checked only when a client is built.
pub fn resolve(options: &RequestOptions) -> (r: ResolvedPolicy)
    ensures
        r == resolved(*options),
{
    let timeout_millis = match options.timeout_millis {
        Some(t) => t,
        None => DEFAULT_TIMEOUT_MILLIS,
    };
    let proxy_url = match &options.proxy_url {
        Some(p) => Some(p.clone()),
        None => None,
    };
    let follow_redirects = match options.follow_redirects {
        Some(f) => f,
        None => true,
    };
    let max_redirects = match options.max_redirects {
        Some(m) => m,
        None => DEFAULT_MAX_REDIRECTS,
    };
    ResolvedPolicy { timeout_millis, proxy_url, follow_redirects, max_redirects }
}

/// The redirect rule of a policy: none when redirects are not followed,
/// otherwise the policy's cap.
pub fn redirect_rule(policy: &ResolvedPolicy) -> (r: RedirectRule)
    ensures
        r == rule_of(*policy),
{
    if policy.follow_redirects {
        RedirectRule::UpTo(policy.max_redirects)
    } else {
        RedirectRule::Never
    }
}

/// Options with every field absent resolve to a 30000 ms timeout, no proxy,
/// redirects followed, and a cap of 10 hops.
pub proof fn absent_options_take_defaults(options: RequestOptions)
    requires
        options.timeout_millis is None,
        options.proxy_url is None,
        options.follow_redirects is None,
        options.max_redirects is None,
    ensures
        resolved(options) == (ResolvedPolicy {
            timeout_millis: 30000,
            proxy_url: None,
            follow_redirects: true,
            max_redirects: 10,
        }),
{
}

/// Spelling out a default changes nothing: where each field of `b` equals
/// that of `a`, or is the default of a field that `a` leaves absent, the two
/// resolve to the same policy.
pub proof fn spelled_out_defaults_change_nothing(a: RequestOptions, b: RequestOptions)
    requires
        a.timeout_millis == b.timeout_millis || (a.timeout_millis is None && b.timeout_millis
            == Some(DEFAULT_TIMEOUT_MILLIS)),
        a.proxy_url == b.proxy_url,
        a.follow_redirects == b.follow_redirects || (a.follow_redirects is None
            && b.follow_redirects == Some(true)),
        a.max_redirects == b.max_redirects || (a.max_redirects is None && b.max_redirects
            == Some(DEFAULT_MAX_REDIRECTS)),
    ensures
        resolved(a) == resolved(b),
{
}

/// A policy that does not follow redirects yields the rule under which no
/// redirect is followed, whatever its cap.
pub proof fn unfollowed_redirects_are_never_followed(policy: ResolvedPolicy)
    requires
        !policy.follow_redirects,
    ensures
        rule_of(policy) == RedirectRule::Never,
{
}

} // verus!
