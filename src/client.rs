use vstd::prelude::*;
use crate::error::{failure_with, ErrorKind};
use crate::options::{redirect_rule, resolve, resolved, rule_of, RedirectRule, RequestOptions, ResolvedPolicy};

verus! {

#[verifier::external_type_specification]
#[verifier::external_body]
pub struct ExReqwestClient(reqwest::Client);

#[verifier::external_type_specification]
#[verifier::external_body]
pub struct ExReqwestClientBuilder(reqwest::ClientBuilder);

#[verifier::external_type_specification]
#[verifier::external_body]
pub struct ExReqwestProxy(reqwest::Proxy);

#[verifier::external_type_specification]
#[verifier::external_body]
pub struct ExReqwestRedirectPolicy(reqwest::redirect::Policy);

#[verifier::external_type_specification]
#[verifier::external_body]
pub struct ExReqwestError(reqwest::Error);

/// What a reqwest client builder has been given so far. An absent field has
/// not been set, so reqwest's own default applies to it.
pub struct TransportSettings {
    pub timeout_millis: Option<u64>,
    pub proxy: Option<Seq<char>>,
    pub redirect: Option<RedirectRule>,
}

/// The settings of a builder that nothing has been set on.
pub open spec fn unset_settings() -> TransportSettings {
    TransportSettings { timeout_millis: None, proxy: None, redirect: None }
}

/// The settings a client built for `policy` must have: its timeout, its
/// proxy (if any) for all traffic, and its redirect rule.
pub open spec fn settings_for(policy: ResolvedPolicy) -> TransportSettings {
    TransportSettings {
        timeout_millis: Some(policy.timeout_millis),
        proxy: match policy.proxy_url {
            Some(u) => Some(u@),
            None => None,
        },
        redirect: Some(rule_of(policy)),
    }
}

/// A reqwest client builder with the settings given to it.
pub struct TransportBuilder {
    inner: reqwest::ClientBuilder,
    settings: Ghost<TransportSettings>,
}

impl TransportBuilder {
    pub closed spec fn settings(&self) -> TransportSettings {
        self.settings@
    }
}

/// A reqwest proxy for all traffic, with the URL text it was made from.
pub struct ProxyRoute {
    inner: reqwest::Proxy,
    target: Ghost<Seq<char>>,
}

impl ProxyRoute {
    pub closed spec fn target(&self) -> Seq<char> {
        self.target@
    }
}

/// A reqwest redirect policy, with the rule it applies.
pub struct RedirectPolicy {
    inner: reqwest::redirect::Policy,
    rule: Ghost<RedirectRule>,
}

impl RedirectPolicy {
    pub closed spec fn rule(&self) -> RedirectRule {
        self.rule@
    }
}

/// A built reqwest client, with the settings of the builder it came from.
pub struct Transport {
    inner: reqwest::Client,
    settings: Ghost<TransportSettings>,
}

impl Transport {
    pub closed spec fn settings(&self) -> TransportSettings {
        self.settings@
    }
}

/// Whether reqwest accepts `url` as a proxy for all traffic. It parses the
/// text as a URL (retrying with `http://` in front when the scheme is
/// missing), so the answer depends on the text alone.
pub uninterp spec fn proxy_accepted(url: Seq<char>) -> bool;

/// Relies on `reqwest::Proxy::all`: succeeds exactly when the URL is
/// accepted, and the proxy then takes all traffic to that URL.
#[verifier::external_body]
fn proxy_for_all(url: &str) -> (r: Result<ProxyRoute, reqwest::Error>)
    ensures
        r is Ok <==> proxy_accepted(url@),
        r matches Ok(p) ==> p.target() == url@,
{
    let target = Ghost(url@);
    reqwest::Proxy::all(url).map(|inner| ProxyRoute { inner, target })
}

/// Relies on `reqwest::Client::builder`: a builder with nothing set.
#[verifier::external_body]
fn client_builder() -> (r: TransportBuilder)
    ensures
        r.settings() == unset_settings(),
{
    TransportBuilder { inner: reqwest::Client::builder(), settings: Ghost(unset_settings()) }
}

/// Relies on `reqwest::ClientBuilder::timeout`: sets the whole-request timeout.
#[verifier::external_body]
fn with_timeout(b: TransportBuilder, millis: u64) -> (r: TransportBuilder)
    ensures
        r.settings() == (TransportSettings { timeout_millis: Some(millis), ..b.settings() }),
{
    let settings = Ghost(TransportSettings { timeout_millis: Some(millis), ..b.settings@ });
    TransportBuilder { inner: b.inner.timeout(std::time::Duration::from_millis(millis)), settings }
}

/// Relies on `reqwest::ClientBuilder::proxy`: routes traffic through the proxy.
#[verifier::external_body]
fn with_proxy(b: TransportBuilder, proxy: ProxyRoute) -> (r: TransportBuilder)
    ensures
        r.settings() == (TransportSettings { proxy: Some(proxy.target()), ..b.settings() }),
{
    let settings = Ghost(TransportSettings { proxy: Some(proxy.target@), ..b.settings@ });
    TransportBuilder { inner: b.inner.proxy(proxy.inner), settings }
}

/// Relies on `reqwest::ClientBuilder::redirect`: sets the redirect policy.
#[verifier::external_body]
fn with_redirect(b: TransportBuilder, policy: RedirectPolicy) -> (r: TransportBuilder)
    ensures
        r.settings() == (TransportSettings { redirect: Some(policy.rule()), ..b.settings() }),
{
    let settings = Ghost(TransportSettings { redirect: Some(policy.rule@), ..b.settings@ });
    TransportBuilder { inner: b.inner.redirect(policy.inner), settings }
}

/// Relies on `reqwest::redirect::Policy::none`: no redirect is followed; the
/// redirect response itself is returned.
#[verifier::external_body]
fn no_redirects() -> (r: RedirectPolicy)
    ensures
        r.rule() == RedirectRule::Never,
{
    RedirectPolicy { inner: reqwest::redirect::Policy::none(), rule: Ghost(RedirectRule::Never) }
}

/// Relies on `reqwest::redirect::Policy::limited`: at most `max` hops; the
/// request fails when one more is asked for.
#[verifier::external_body]
fn redirects_up_to(max: usize) -> (r: RedirectPolicy)
    ensures
        r.rule() == RedirectRule::UpTo(max),
{
    RedirectPolicy {
        inner: reqwest::redirect::Policy::limited(max),
        rule: Ghost(RedirectRule::UpTo(max)),
    }
}

/// Relies on `reqwest::ClientBuilder::build`: the client uses the builder's
/// configuration; it fails when the TLS backend or the resolver cannot be
/// set up.
#[verifier::external_body]
fn build_transport(b: TransportBuilder) -> (r: Result<Transport, reqwest::Error>)
    ensures
        r matches Ok(t) ==> t.settings() == b.settings(),
{
    let settings = b.settings;
    b.inner.build().map(|inner| Transport { inner, settings })
}

/// Relies on the `Display` of `reqwest::Error` for its text.
#[verifier::external_body]
fn error_text(e: &reqwest::Error) -> String {
    e.to_string()
}

/// Detail prefix of a failure to build a client.
pub const CLIENT_PREFIX: &'static str = "Client error: ";

/// A reusable client bound to one policy. It is never changed once built,
/// and serves blocking and concurrent requests alike.
pub struct HttpClient {
    transport: Transport,
    policy: ResolvedPolicy,
}

/// Why a client could not be built.
pub struct ConstructionError {
    pub kind: ErrorKind,
    pub detail: String,
}

impl HttpClient {
    /// The policy this client was built from.
    pub closed spec fn policy_spec(&self) -> ResolvedPolicy {
        self.policy
    }

    /// The settings the underlying reqwest client was built with.
    pub closed spec fn settings(&self) -> TransportSettings {
        self.transport.settings()
    }

    /// The policy this client was built from.
    pub fn policy(&self) -> (r: &ResolvedPolicy)
        ensures
            *r == self.policy_spec(),
    {
        &self.policy
    }

    /// The transport that performs the exchanges.
    pub fn transport(&self) -> &reqwest::Client {
        &self.transport.inner
    }
}

/// Whether `policy` names a proxy that reqwest refuses.
pub open spec fn proxy_refused(policy: ResolvedPolicy) -> bool {
    policy.proxy_url matches Some(u) && !proxy_accepted(u@)
}

/// Builds a client for `policy`: its timeout, its proxy if any, and its
/// redirect rule are handed to reqwest. A refused proxy URL is an
/// `InvalidProxy` error, and comes exactly then; a transport that cannot be
/// set up is a `RequestError`.
pub fn build_from_policy(policy: ResolvedPolicy) -> (r: Result<HttpClient, ConstructionError>)
    ensures
        (r matches Err(e) && e.kind == ErrorKind::InvalidProxy) <==> proxy_refused(policy),
        r matches Err(e) ==> e.kind == ErrorKind::InvalidProxy || e.kind == ErrorKind::RequestError,
        r matches Ok(c) ==> c.policy_spec() == policy && c.settings() == settings_for(policy),
{
    let mut builder = with_timeout(client_builder(), policy.timeout_millis);
    match &policy.proxy_url {
        Some(url) => match proxy_for_all(url.as_str()) {
            Ok(proxy) => {
                builder = with_proxy(builder, proxy);
            },
            Err(e) => {
                let text = error_text(&e);
                let f = failure_with(ErrorKind::InvalidProxy, CLIENT_PREFIX, text.as_str());
                return Err(ConstructionError { kind: f.kind, detail: f.detail });
            },
        },
        None => {},
    }
    let redirects = match redirect_rule(&policy) {
        RedirectRule::Never => no_redirects(),
        RedirectRule::UpTo(max) => redirects_up_to(max),
    };
    builder = with_redirect(builder, redirects);
    match build_transport(builder) {
        Ok(transport) => Ok(HttpClient { transport, policy }),
        Err(e) => {
            let text = error_text(&e);
            let f = failure_with(ErrorKind::RequestError, CLIENT_PREFIX, text.as_str());
            Err(ConstructionError { kind: f.kind, detail: f.detail })
        },
    }
}

/// Resolves `options` and builds a client for the resulting policy.
pub fn build_client(options: &RequestOptions) -> (r: Result<HttpClient, ConstructionError>)
    ensures
        (r matches Err(e) && e.kind == ErrorKind::InvalidProxy) <==> proxy_refused(
            resolved(*options),
        ),
        r matches Err(e) ==> e.kind == ErrorKind::InvalidProxy || e.kind == ErrorKind::RequestError,
        r matches Ok(c) ==> c.policy_spec() == resolved(*options) && c.settings() == settings_for(
            resolved(*options),
        ),
{
    build_from_policy(resolve(options))
}

/// A client built from options that turn redirects off is handed the rule
/// that follows none, whatever cap the options give: a 3xx answer is the
/// response, and no request goes to its location.
pub proof fn redirects_off_reach_the_transport(options: RequestOptions)
    requires
        options.follow_redirects == Some(false),
    ensures
        settings_for(resolved(options)).redirect == Some(RedirectRule::Never),
{
}

/// A client built from options that do not turn redirects off is handed the
/// options' cap, or the default cap when none is given, so a longer chain of
/// redirects fails at request time.
pub proof fn redirect_cap_reaches_the_transport(options: RequestOptions)
    requires
        options.follow_redirects != Some(false),
    ensures
        options.max_redirects matches Some(m) ==> settings_for(resolved(options)).redirect == Some(
            RedirectRule::UpTo(m),
        ),
        options.max_redirects is None ==> settings_for(resolved(options)).redirect == Some(
            RedirectRule::UpTo(crate::options::DEFAULT_MAX_REDIRECTS),
        ),
{
}

/// A client built from options that name a proxy routes all traffic through
/// that proxy, with the options' timeout or the default one.
pub proof fn proxy_and_timeout_reach_the_transport(options: RequestOptions)
    ensures
        options.proxy_url matches Some(p) ==> settings_for(resolved(options)).proxy == Some(p@),
        options.proxy_url is None ==> settings_for(resolved(options)).proxy is None,
        options.timeout_millis matches Some(t) ==> settings_for(resolved(options)).timeout_millis
            == Some(t),
        options.timeout_millis is None ==> settings_for(resolved(options)).timeout_millis == Some(
            crate::options::DEFAULT_TIMEOUT_MILLIS,
        ),
{
}

} // verus!
