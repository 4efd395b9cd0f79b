//! Client configuration: per-request overrides, request URLs, authentication headers, and the
//! retry policy of JSON requests. The HTTP transport itself lives outside the library; it asks
//! these functions what to send and whether to try again.
use vstd::prelude::*;
use vstd::string::*;
use vstd::arithmetic::power2::{pow2, lemma2_to64};
use vstd::bits::lemma_u64_shl_is_mul;
use crate::error::{retryable, OpenAiError};
use crate::text::{chars_of, clone_opt, opt_view, or_empty, string_of_range};

verus! {

broadcast use vstd::string::group_string_axioms;

/// The OpenAI API root used when no base URL is given.
pub const DEFAULT_BASE_URL: &'static str = "https://api.openai.com/v1";

/// Which flavour of the API a client talks to.
#[derive(Debug, Clone)]
pub enum ApiKind {
    OpenAi,
    /// Azure OpenAI: `api-key` authentication and an `api-version` query parameter.
    Azure { api_version: String },
}

/// A timeout: whole seconds and the nanoseconds beyond them.
#[derive(Debug, Clone, Copy, PartialEq, Eq)]
pub struct Timeout {
    pub secs: u64,
    pub nanos: u32,
}

/// A header as name and value.
pub open spec fn header_view(h: (String, String)) -> (Seq<char>, Seq<char>) {
    (h.0@, h.1@)
}

/// The views of a list of headers.
pub open spec fn headers_view(hs: Seq<(String, String)>) -> Seq<(Seq<char>, Seq<char>)> {
    hs.map_values(|h: (String, String)| header_view(h))
}

/// Optional per-request overrides. Set fields win over the client's defaults; extra headers
/// are applied in order, a later header replacing an earlier one of the same name.
#[derive(Debug, Clone)]
pub struct RequestOptions {
    pub timeout: Option<Timeout>,
    pub max_retries: Option<u32>,
    pub extra_headers: Vec<(String, String)>,
    pub idempotency_key: Option<String>,
}

fn copy_headers(hs: &Vec<(String, String)>) -> (r: Vec<(String, String)>)
    ensures
        headers_view(r@) == headers_view(hs@),
{
    let mut r: Vec<(String, String)> = Vec::new();
    let mut i: usize = 0;
    while i < hs.len()
        invariant
            i <= hs.len(),
            headers_view(r@) == headers_view(hs@.take(i as int)),
        decreases hs.len() - i,
    {
        r.push((hs[i].0.clone(), hs[i].1.clone()));
        assert(headers_view(hs@.take(i + 1)) =~= headers_view(hs@.take(i as int)).push(
            header_view(hs@[i as int]),
        ));
        i += 1;
    }
    assert(hs@.take(hs@.len() as int) =~= hs@);
    r
}

fn append_headers(out: &mut Vec<(String, String)>, hs: &Vec<(String, String)>)
    ensures
        headers_view(final(out)@) == headers_view(old(out)@) + headers_view(hs@),
{
    let mut i: usize = 0;
    while i < hs.len()
        invariant
            i <= hs.len(),
            headers_view(out@) == headers_view(old(out)@) + headers_view(hs@.take(i as int)),
        decreases hs.len() - i,
    {
        let ghost prev = out@;
        out.push((hs[i].0.clone(), hs[i].1.clone()));
        assert(headers_view(out@) =~= headers_view(prev).push(header_view(hs@[i as int])));
        assert(headers_view(hs@.take(i + 1)) =~= headers_view(hs@.take(i as int)).push(
            header_view(hs@[i as int]),
        ));
        i += 1;
    }
    assert(hs@.take(hs@.len() as int) =~= hs@);
}

fn push_header(out: &mut Vec<(String, String)>, name: &str, value: String)
    ensures
        headers_view(final(out)@) == headers_view(old(out)@).push((name@, value@)),
{
    let ghost before = out@;
    out.push((name.to_string(), value));
    assert(headers_view(out@) =~= headers_view(before).push((name@, value@)));
}

impl RequestOptions {
    /// No overrides.
    pub fn new() -> (o: RequestOptions)
        ensures
            o.timeout is None,
            o.max_retries is None,
            o.extra_headers@.len() == 0,
            o.idempotency_key is None,
    {
        RequestOptions { timeout: None, max_retries: None, extra_headers: Vec::new(), idempotency_key: None }
    }

    /// Sets the timeout.
    pub fn timeout(self, t: Timeout) -> (o: RequestOptions)
        ensures
            o.timeout == Some(t),
            o.max_retries == self.max_retries,
            o.extra_headers == self.extra_headers,
            o.idempotency_key == self.idempotency_key,
    {
        RequestOptions { timeout: Some(t), ..self }
    }

    /// Sets the retry budget.
    pub fn max_retries(self, n: u32) -> (o: RequestOptions)
        ensures
            o.max_retries == Some(n),
            o.timeout == self.timeout,
            o.extra_headers == self.extra_headers,
            o.idempotency_key == self.idempotency_key,
    {
        RequestOptions { max_retries: Some(n), ..self }
    }

    /// Sets the `Idempotency-Key` header value.
    pub fn idempotency_key(self, key: &str) -> (o: RequestOptions)
        ensures
            opt_view(o.idempotency_key) == Some(key@),
            o.timeout == self.timeout,
            o.max_retries == self.max_retries,
            o.extra_headers == self.extra_headers,
    {
        RequestOptions { idempotency_key: Some(key.to_string()), ..self }
    }

    /// Adds a header to send with the request.
    pub fn header(self, name: &str, value: &str) -> (o: RequestOptions)
        ensures
            headers_view(o.extra_headers@) == headers_view(self.extra_headers@).push(
                (name@, value@),
            ),
            o.timeout == self.timeout,
            o.max_retries == self.max_retries,
            opt_view(o.idempotency_key) == opt_view(self.idempotency_key),
    {
        let RequestOptions { timeout, max_retries, mut extra_headers, idempotency_key } = self;
        push_header(&mut extra_headers, name, value.to_string());
        RequestOptions { timeout, max_retries, extra_headers, idempotency_key }
    }
}

impl Default for RequestOptions {
    fn default() -> (o: RequestOptions)
        ensures
            o.timeout is None,
            o.max_retries is None,
            o.extra_headers@.len() == 0,
            o.idempotency_key is None,
    {
        RequestOptions::new()
    }
}

/// The options after `over` is applied on `base`: each field that `over` sets wins, the others
/// stay; `over`'s headers come after `base`'s.
pub open spec fn merged_options(base: RequestOptions, over: RequestOptions) -> (
    Option<Timeout>,
    Option<u32>,
    Seq<(Seq<char>, Seq<char>)>,
    Option<Seq<char>>,
) {
    merge_views(options_view(base), options_view(over))
}

/// Option values with `over`'s set fields winning and its headers appended.
pub open spec fn merge_views(
    base: (Option<Timeout>, Option<u32>, Seq<(Seq<char>, Seq<char>)>, Option<Seq<char>>),
    over: (Option<Timeout>, Option<u32>, Seq<(Seq<char>, Seq<char>)>, Option<Seq<char>>),
) -> (Option<Timeout>, Option<u32>, Seq<(Seq<char>, Seq<char>)>, Option<Seq<char>>) {
    (
        if over.0 is Some {
            over.0
        } else {
            base.0
        },
        if over.1 is Some {
            over.1
        } else {
            base.1
        },
        base.2 + over.2,
        if over.3 is Some {
            over.3
        } else {
            base.3
        },
    )
}

/// An override that sets a field puts its value in force, whatever the base held; one that
/// leaves it unset keeps the base's; headers accumulate, the override's last. So of two
/// overrides applied in turn, the later one's set fields win.
pub proof fn law_override_wins(base: RequestOptions, over: RequestOptions, later: RequestOptions)
    ensures
        ({
            let m = merged_options(base, over);
            &&& over.timeout is Some ==> m.0 == over.timeout
            &&& over.timeout is None ==> m.0 == base.timeout
            &&& over.max_retries is Some ==> m.1 == over.max_retries
            &&& over.max_retries is None ==> m.1 == base.max_retries
            &&& m.2 == headers_view(base.extra_headers@) + headers_view(over.extra_headers@)
            &&& over.idempotency_key is Some ==> m.3 == opt_view(over.idempotency_key)
            &&& over.idempotency_key is None ==> m.3 == opt_view(base.idempotency_key)
        }),
        ({
            let m2 = merge_views(merged_options(base, over), options_view(later));
            &&& later.timeout is Some ==> m2.0 == later.timeout
            &&& later.max_retries is Some ==> m2.1 == later.max_retries
            &&& later.idempotency_key is Some ==> m2.3 == opt_view(later.idempotency_key)
        }),
{
}

/// Applying overrides one after the other is the same as applying them merged.
pub proof fn law_options_compose(
    a: (Option<Timeout>, Option<u32>, Seq<(Seq<char>, Seq<char>)>, Option<Seq<char>>),
    b: (Option<Timeout>, Option<u32>, Seq<(Seq<char>, Seq<char>)>, Option<Seq<char>>),
    c: (Option<Timeout>, Option<u32>, Seq<(Seq<char>, Seq<char>)>, Option<Seq<char>>),
)
    ensures
        merge_views(merge_views(a, b), c) == merge_views(a, merge_views(b, c)),
{
    assert((a.2 + b.2) + c.2 =~= a.2 + (b.2 + c.2));
}

/// Applying no overrides changes nothing.
pub proof fn law_no_options_identity(
    a: (Option<Timeout>, Option<u32>, Seq<(Seq<char>, Seq<char>)>, Option<Seq<char>>),
)
    ensures
        merge_views(a, no_options()) == a,
{
    assert(a.2 + Seq::<(Seq<char>, Seq<char>)>::empty() =~= a.2);
}

/// The options as values.
pub open spec fn options_view(o: RequestOptions) -> (
    Option<Timeout>,
    Option<u32>,
    Seq<(Seq<char>, Seq<char>)>,
    Option<Seq<char>>,
) {
    (o.timeout, o.max_retries, headers_view(o.extra_headers@), opt_view(o.idempotency_key))
}

/// The settings a client carries: where and how to authenticate, defaults, and the per-request
/// overrides in force.
#[derive(Debug, Clone)]
pub struct ClientConfig {
    pub api_key: String,
    pub base_url: String,
    pub organization: Option<String>,
    pub project: Option<String>,
    pub default_headers: Vec<(String, String)>,
    pub api_kind: ApiKind,
    pub max_retries: u32,
    /// Azure deployment name, used in every Azure request URL.
    pub azure_deployment: Option<String>,
    pub timeout: Option<Timeout>,
    pub per_request: RequestOptions,
}

/// Two API kinds that say the same.
pub open spec fn same_kind(a: ApiKind, b: ApiKind) -> bool {
    match (a, b) {
        (ApiKind::OpenAi, ApiKind::OpenAi) => true,
        (ApiKind::Azure { api_version: x }, ApiKind::Azure { api_version: y }) => x@ == y@,
        _ => false,
    }
}

/// Two configurations with the same fixed settings (everything but the per-request options).
pub open spec fn same_settings(a: ClientConfig, b: ClientConfig) -> bool {
    &&& a.api_key@ == b.api_key@
    &&& a.base_url@ == b.base_url@
    &&& opt_view(a.organization) == opt_view(b.organization)
    &&& opt_view(a.project) == opt_view(b.project)
    &&& headers_view(a.default_headers@) == headers_view(b.default_headers@)
    &&& same_kind(a.api_kind, b.api_kind)
    &&& a.max_retries == b.max_retries
    &&& opt_view(a.azure_deployment) == opt_view(b.azure_deployment)
    &&& a.timeout == b.timeout
}

fn copy_kind(k: &ApiKind) -> (r: ApiKind)
    ensures
        same_kind(r, *k),
{
    match k {
        ApiKind::OpenAi => ApiKind::OpenAi,
        ApiKind::Azure { api_version } => ApiKind::Azure { api_version: api_version.clone() },
    }
}

/// `s` without all of its trailing `c`s.
pub open spec fn trim_end_char(s: Seq<char>, c: char) -> Seq<char>
    decreases s.len(),
{
    if s.len() > 0 && s.last() == c {
        trim_end_char(s.drop_last(), c)
    } else {
        s
    }
}

/// The path with a leading `/`, added if missing.
pub open spec fn rooted_path(path: Seq<char>) -> Seq<char> {
    if path.len() > 0 && path[0] == '/' {
        path
    } else {
        seq!['/'] + path
    }
}

/// The URL of an API path: `{base}{path}` for OpenAI, and
/// `{base}/openai/deployments/{deployment}{path}?api-version={version}` for Azure, where the
/// base loses its trailing slashes and the path gains a leading one. An Azure client without a
/// deployment has no URL.
pub open spec fn url_for(c: ClientConfig, path: Seq<char>) -> Option<Seq<char>> {
    let base = trim_end_char(c.base_url@, '/');
    match c.api_kind {
        ApiKind::OpenAi => Some(base + rooted_path(path)),
        ApiKind::Azure { api_version } => match c.azure_deployment {
            Some(dep) => Some(
                base + "/openai/deployments/"@ + dep@ + rooted_path(path) + "?api-version="@
                    + api_version@,
            ),
            None => None,
        },
    }
}

/// The headers a request carries, in the order they are applied (a later one replaces an
/// earlier one of the same name): the default headers; then `authorization: Bearer {key}`, and
/// the organization and project headers when set, for OpenAI, or `api-key: {key}` for Azure;
/// then the per-request headers, and last the idempotency key when set.
pub open spec fn request_headers(c: ClientConfig) -> Seq<(Seq<char>, Seq<char>)> {
    let auth = match c.api_kind {
        ApiKind::OpenAi => seq![("authorization"@, "Bearer "@ + c.api_key@)] + match c.organization {
            Some(o) => seq![("openai-organization"@, o@)],
            None => Seq::empty(),
        } + match c.project {
            Some(p) => seq![("openai-project"@, p@)],
            None => Seq::empty(),
        },
        ApiKind::Azure { .. } => seq![("api-key"@, c.api_key@)],
    };
    headers_view(c.default_headers@) + auth + extra_headers(c.per_request)
}

/// The headers of a request to a vector-store endpoint: those of any request, then the beta
/// header `openai-beta: assistants=v2` (header names are compared without regard to case).
pub open spec fn vector_store_request_headers(c: ClientConfig) -> Seq<(Seq<char>, Seq<char>)> {
    request_headers(c).push(("openai-beta"@, "assistants=v2"@))
}

/// The per-request headers, then the idempotency key when set.
pub open spec fn extra_headers(o: RequestOptions) -> Seq<(Seq<char>, Seq<char>)> {
    headers_view(o.extra_headers@) + match o.idempotency_key {
        Some(k) => seq![("idempotency-key"@, k@)],
        None => Seq::empty(),
    }
}

fn trim_trailing_slashes(s: &str) -> (r: String)
    ensures
        r@ == trim_end_char(s@, '/'),
{
    let v = chars_of(s);
    let mut end: usize = v.len();
    assert(v@.take(end as int) =~= v@);
    while end > 0 && v[end - 1] == '/'
        invariant
            end <= v@.len(),
            trim_end_char(v@.take(end as int), '/') == trim_end_char(v@, '/'),
        decreases end,
    {
        assert(v@.take(end as int).drop_last() =~= v@.take(end - 1));
        end = end - 1;
    }
    assert(v@.take(end as int) =~= v@.subrange(0, end as int));
    string_of_range(&v, 0, end)
}

impl ClientConfig {
    /// The API key.
    pub fn api_key(&self) -> (k: &str)
        ensures
            k@ == self.api_key@,
    {
        self.api_key.as_str()
    }

    /// The base URL.
    pub fn base_url(&self) -> (u: &str)
        ensures
            u@ == self.base_url@,
    {
        self.base_url.as_str()
    }

    /// A copy of this configuration with `opts` applied over its per-request options.
    pub fn with_options(&self, opts: RequestOptions) -> (c: ClientConfig)
        ensures
            same_settings(c, *self),
            options_view(c.per_request) == merged_options(self.per_request, opts),
    {
        let mut headers = copy_headers(&self.per_request.extra_headers);
        append_headers(&mut headers, &opts.extra_headers);
        let per_request = RequestOptions {
            timeout: if opts.timeout.is_some() {
                opts.timeout
            } else {
                self.per_request.timeout
            },
            max_retries: if opts.max_retries.is_some() {
                opts.max_retries
            } else {
                self.per_request.max_retries
            },
            extra_headers: headers,
            idempotency_key: if opts.idempotency_key.is_some() {
                opts.idempotency_key
            } else {
                clone_opt(&self.per_request.idempotency_key)
            },
        };
        ClientConfig {
            api_key: self.api_key.clone(),
            base_url: self.base_url.clone(),
            organization: clone_opt(&self.organization),
            project: clone_opt(&self.project),
            default_headers: copy_headers(&self.default_headers),
            api_kind: copy_kind(&self.api_kind),
            max_retries: self.max_retries,
            azure_deployment: clone_opt(&self.azure_deployment),
            timeout: self.timeout,
            per_request,
        }
    }

    /// A copy with the per-request timeout set.
    pub fn with_timeout(&self, t: Timeout) -> (c: ClientConfig)
        ensures
            same_settings(c, *self),
            options_view(c.per_request) == merge_views(
                options_view(self.per_request),
                (Some(t), None, Seq::empty(), None),
            ),
    {
        let o = RequestOptions::new().timeout(t);
        assert(options_view(o) == (Some(t), None::<u32>, Seq::<(Seq<char>, Seq<char>)>::empty(), None::<Seq<char>>));
        self.with_options(o)
    }

    /// A copy with the per-request retry budget set.
    pub fn with_max_retries(&self, n: u32) -> (c: ClientConfig)
        ensures
            same_settings(c, *self),
            options_view(c.per_request) == merge_views(
                options_view(self.per_request),
                (None, Some(n), Seq::empty(), None),
            ),
    {
        let o = RequestOptions::new().max_retries(n);
        assert(options_view(o) == (None::<Timeout>, Some(n), Seq::<(Seq<char>, Seq<char>)>::empty(), None::<Seq<char>>));
        self.with_options(o)
    }

    /// A copy with the per-request idempotency key set.
    pub fn with_idempotency_key(&self, k: &str) -> (c: ClientConfig)
        ensures
            same_settings(c, *self),
            options_view(c.per_request) == merge_views(
                options_view(self.per_request),
                (None, None, Seq::empty(), Some(k@)),
            ),
    {
        let o = RequestOptions::new().idempotency_key(k);
        assert(options_view(o) == (None::<Timeout>, None::<u32>, Seq::<(Seq<char>, Seq<char>)>::empty(), Some(k@)));
        self.with_options(o)
    }

    /// A copy that also sends one more header.
    pub fn with_header(&self, name: &str, value: &str) -> (c: ClientConfig)
        ensures
            same_settings(c, *self),
            options_view(c.per_request) == merge_views(
                options_view(self.per_request),
                (None, None, seq![(name@, value@)], None),
            ),
    {
        let o = RequestOptions::new().header(name, value);
        assert(options_view(o) =~= (None::<Timeout>, None::<u32>, seq![(name@, value@)], None::<Seq<char>>));
        self.with_options(o)
    }

    /// The timeout in force: the per-request one, else the client's.
    pub fn effective_timeout(&self) -> (t: Option<Timeout>)
        ensures
            t == (if self.per_request.timeout is Some {
                self.per_request.timeout
            } else {
                self.timeout
            }),
    {
        if self.per_request.timeout.is_some() {
            self.per_request.timeout
        } else {
            self.timeout
        }
    }

    /// The retry budget in force: the per-request one, else the client's.
    pub fn effective_max_retries(&self) -> (n: u32)
        ensures
            n == (match self.per_request.max_retries {
                Some(m) => m,
                None => self.max_retries,
            }),
    {
        match self.per_request.max_retries {
            Some(m) => m,
            None => self.max_retries,
        }
    }

    /// How many times a JSON request is tried at most: one more than the retry budget (at most
    /// `u32::MAX`).
    pub fn max_attempts(&self) -> (n: u32)
        ensures
            n == (if self.effective_max_retries_spec() < u32::MAX {
                self.effective_max_retries_spec() + 1
            } else {
                u32::MAX as int
            }),
            n >= 1,
    {
        self.effective_max_retries().saturating_add(1)
    }

    /// The retry budget in force.
    pub open spec fn effective_max_retries_spec(&self) -> u32 {
        match self.per_request.max_retries {
            Some(m) => m,
            None => self.max_retries,
        }
    }

    /// The per-request headers, then the idempotency key when set.
    pub fn extra_request_headers(&self) -> (hs: Vec<(String, String)>)
        ensures
            headers_view(hs@) == extra_headers(self.per_request),
    {
        let mut hs = copy_headers(&self.per_request.extra_headers);
        match &self.per_request.idempotency_key {
            Some(k) => push_header(&mut hs, "idempotency-key", k.clone()),
            None => {
                assert(headers_view(hs@) + Seq::<(Seq<char>, Seq<char>)>::empty() =~= headers_view(
                    hs@,
                ));
            },
        }
        proof {
            reveal_strlit("idempotency-key");
        }
        hs
    }

    /// The URL for an API path (see `url_for`); an Azure client without a deployment gets a
    /// configuration error.
    pub fn build_url(&self, path: &str) -> (r: Result<String, OpenAiError>)
        ensures
            match url_for(*self, path@) {
                Some(u) => r matches Ok(s) && s@ == u,
                None => r matches Err(e) && e matches OpenAiError::Config(m) && m@
                    == "Azure client requires deployment name"@,
            },
    {
        let rooted = if !path.is_empty() && starts_with_slash(path) {
            path.to_string()
        } else {
            "/".to_string().concat(path)
        };
        proof {
            reveal_strlit("/");
            assert(rooted@ == rooted_path(path@));
        }
        let base = trim_trailing_slashes(self.base_url.as_str());
        match &self.api_kind {
            ApiKind::OpenAi => Ok(base.concat(rooted.as_str())),
            ApiKind::Azure { api_version } => match &self.azure_deployment {
                Some(dep) => {
                    let mut u = base;
                    u.append("/openai/deployments/");
                    u.append(dep.as_str());
                    u.append(rooted.as_str());
                    u.append("?api-version=");
                    u.append(api_version.as_str());
                    Ok(u)
                },
                None => Err(OpenAiError::config("Azure client requires deployment name")),
            },
        }
    }

    /// The headers to send, in order (see `request_headers`).
    pub fn auth_headers(&self) -> (hs: Vec<(String, String)>)
        ensures
            headers_view(hs@) == request_headers(*self),
    {
        let mut hs = copy_headers(&self.default_headers);
        match &self.api_kind {
            ApiKind::OpenAi => {
                push_header(&mut hs, "authorization", "Bearer ".to_string().concat(self.api_key.as_str()));
                match &self.organization {
                    Some(o) => push_header(&mut hs, "openai-organization", o.clone()),
                    None => {},
                }
                match &self.project {
                    Some(p) => push_header(&mut hs, "openai-project", p.clone()),
                    None => {},
                }
            },
            ApiKind::Azure { .. } => {
                push_header(&mut hs, "api-key", self.api_key.clone());
            },
        }
        let extra = self.extra_request_headers();
        append_headers(&mut hs, &extra);
        proof {
            reveal_strlit("authorization");
            reveal_strlit("openai-organization");
            reveal_strlit("openai-project");
            reveal_strlit("api-key");
            reveal_strlit("Bearer ");
            assert(headers_view(hs@) =~= request_headers(*self));
        }
        hs
    }
}

impl ClientConfig {
    /// The headers of a request to the vector-store endpoints: the usual headers (see
    /// `auth_headers`), then `openai-beta: assistants=v2`, which every such endpoint sends.
    pub fn vector_store_headers(&self) -> (hs: Vec<(String, String)>)
        ensures
            headers_view(hs@) == vector_store_request_headers(*self),
    {
        let mut hs = self.auth_headers();
        push_header(&mut hs, "openai-beta", "assistants=v2".to_string());
        proof {
            reveal_strlit("openai-beta");
            reveal_strlit("assistants=v2");
        }
        hs
    }
}

/// Whether the first character of a non-empty string is `/`.
fn starts_with_slash(s: &str) -> (b: bool)
    requires
        s@.len() > 0,
    ensures
        b == (s@[0] == '/'),
{
    let v = chars_of(s);
    v[0] == '/'
}

/// The pause before trying again after attempt number `attempt` (counted from 0), in
/// milliseconds: 500 ms doubled per attempt (the doubling stops after six), plus a small jitter
/// fixed by the attempt number, the whole never more than 30 s.
pub open spec fn backoff_ms(attempt: u32) -> int {
    let k: nat = if attempt < 6 {
        attempt as nat
    } else {
        6
    };
    let total = 500 * pow2(k) + (attempt as int * 137) % 250;
    if total < 30000 {
        total
    } else {
        30000
    }
}

/// The pause (in milliseconds) before the retry that follows attempt `attempt`.
pub fn backoff_delay(attempt: u32) -> (ms: u64)
    ensures
        ms == backoff_ms(attempt),
{
    let k: u64 = if attempt < 6 {
        attempt as u64
    } else {
        6
    };
    proof {
        lemma2_to64();
        assert(k == 0 || k == 1 || k == 2 || k == 3 || k == 4 || k == 5 || k == 6);
        assert(pow2(k as nat) <= 64);
        lemma_u64_shl_is_mul(1, k);
    }
    let base_ms: u64 = 500 * (1u64 << k);
    let jitter: u64 = (attempt as u64 * 137) % 250;
    let total: u64 = base_ms + jitter;
    if total < 30000 {
        total
    } else {
        30000
    }
}

/// What to do after one attempt of a JSON request.
#[derive(Debug)]
pub enum RetryStep<R> {
    /// Stop, with this result.
    Done(Result<R, OpenAiError>),
    /// Wait this many milliseconds, then try again.
    RetryAfter(u64),
}

/// The decision after attempt `attempt` (counted from 0) of at most `max_attempts`: a success
/// is returned; a retryable failure is retried after the backoff while attempts remain; any
/// other failure, or a failure of the last attempt, is returned.
pub open spec fn next_step<R>(attempt: u32, max_attempts: u32, outcome: Result<R, OpenAiError>) -> RetryStep<R> {
    match outcome {
        Ok(v) => RetryStep::Done(Ok(v)),
        Err(e) => if retryable(e) && attempt + 1 < max_attempts {
            RetryStep::RetryAfter(backoff_ms(attempt) as u64)
        } else {
            RetryStep::Done(Err(e))
        },
    }
}

/// Decides what follows attempt `attempt` (see `next_step`).
pub fn retry_step<R>(attempt: u32, max_attempts: u32, outcome: Result<R, OpenAiError>) -> (s:
    RetryStep<R>)
    requires
        attempt < max_attempts,
    ensures
        s == next_step(attempt, max_attempts, outcome),
{
    match outcome {
        Ok(v) => RetryStep::Done(Ok(v)),
        Err(e) => {
            if e.is_retryable() && attempt + 1 < max_attempts {
                RetryStep::RetryAfter(backoff_delay(attempt))
            } else {
                RetryStep::Done(Err(e))
            }
        },
    }
}

/// How many attempts a request makes when its attempts, from number `a` on, end as
/// `outcomes` says (a request that runs past the listed outcomes stops counting there).
pub open spec fn attempts_made(outcomes: Seq<Result<(), OpenAiError>>, max_attempts: u32, a: nat) -> nat
    decreases outcomes.len() - a,
{
    if a >= outcomes.len() || a >= max_attempts {
        a
    } else {
        match next_step(a as u32, max_attempts, outcomes[a as int]) {
            RetryStep::Done(_) => a + 1,
            RetryStep::RetryAfter(_) => attempts_made(outcomes, max_attempts, a + 1),
        }
    }
}

/// A request is tried at most `max_attempts` times, whatever its attempts return; a success or
/// a failure that is not retryable ends it at once.
pub proof fn law_attempts_within_budget(outcomes: Seq<Result<(), OpenAiError>>, max_attempts: u32, a: nat)
    requires
        a <= max_attempts,
    ensures
        attempts_made(outcomes, max_attempts, a) <= max_attempts,
        a < outcomes.len() && a < max_attempts && !(outcomes[a as int] is Err && retryable(
            outcomes[a as int]->Err_0,
        )) ==> attempts_made(outcomes, max_attempts, a) == a + 1,
    decreases outcomes.len() - a,
{
    if a < outcomes.len() && a < max_attempts {
        if next_step(a as u32, max_attempts, outcomes[a as int]) is RetryAfter {
            law_attempts_within_budget(outcomes, max_attempts, a + 1);
        }
    }
}

/// Settings gathered before a client is made.
#[derive(Debug, Clone)]
pub struct ClientBuilder {
    pub api_key: Option<String>,
    pub base_url: Option<String>,
    pub organization: Option<String>,
    pub project: Option<String>,
    pub timeout: Option<Timeout>,
    pub max_retries: Option<u32>,
    pub default_headers: Vec<(String, String)>,
    pub api_kind: Option<ApiKind>,
    pub azure_deployment: Option<String>,
}

/// `c` is the configuration made from `b`: the base URL defaults to `DEFAULT_BASE_URL`, the
/// key to empty, the kind to OpenAI and the retry budget to 0; no per-request options.
pub open spec fn built_from(c: ClientConfig, b: ClientBuilder) -> bool {
    &&& c.api_key@ == or_empty(b.api_key)
    &&& c.base_url@ == match b.base_url {
        Some(u) => u@,
        None => DEFAULT_BASE_URL@,
    }
    &&& opt_view(c.organization) == opt_view(b.organization)
    &&& opt_view(c.project) == opt_view(b.project)
    &&& headers_view(c.default_headers@) == headers_view(b.default_headers@)
    &&& match b.api_kind {
        Some(k) => same_kind(c.api_kind, k),
        None => c.api_kind is OpenAi,
    }
    &&& c.max_retries == match b.max_retries {
        Some(n) => n,
        None => 0u32,
    }
    &&& opt_view(c.azure_deployment) == opt_view(b.azure_deployment)
    &&& c.timeout == b.timeout
    &&& options_view(c.per_request) == no_options()
}

/// No per-request overrides, as values.
pub open spec fn no_options() -> (
    Option<Timeout>,
    Option<u32>,
    Seq<(Seq<char>, Seq<char>)>,
    Option<Seq<char>>,
) {
    (None, None, Seq::empty(), None)
}

impl ClientBuilder {
    /// Nothing set.
    pub fn new() -> (b: ClientBuilder)
        ensures
            b.api_key is None && b.base_url is None && b.organization is None && b.project is None,
            b.timeout is None && b.max_retries is None && b.default_headers@.len() == 0,
            b.api_kind is None && b.azure_deployment is None,
    {
        ClientBuilder {
            api_key: None,
            base_url: None,
            organization: None,
            project: None,
            timeout: None,
            max_retries: None,
            default_headers: Vec::new(),
            api_kind: None,
            azure_deployment: None,
        }
    }

    /// Sets the API key.
    pub fn api_key(self, key: &str) -> (b: ClientBuilder)
        ensures
            opt_view(b.api_key) == Some(key@),
            b.base_url == self.base_url && b.organization == self.organization,
            b.project == self.project && b.timeout == self.timeout,
            b.max_retries == self.max_retries && b.default_headers == self.default_headers,
            b.api_kind == self.api_kind && b.azure_deployment == self.azure_deployment,
    {
        ClientBuilder { api_key: Some(key.to_string()), ..self }
    }

    /// Sets the base URL (for Azure, the resource root).
    pub fn base_url(self, url: &str) -> (b: ClientBuilder)
        ensures
            opt_view(b.base_url) == Some(url@),
            b.api_key == self.api_key && b.organization == self.organization,
            b.project == self.project && b.timeout == self.timeout,
            b.max_retries == self.max_retries && b.default_headers == self.default_headers,
            b.api_kind == self.api_kind && b.azure_deployment == self.azure_deployment,
    {
        ClientBuilder { base_url: Some(url.to_string()), ..self }
    }

    /// Sets the organization sent with every request.
    pub fn organization(self, org: &str) -> (b: ClientBuilder)
        ensures
            opt_view(b.organization) == Some(org@),
            b.api_key == self.api_key && b.base_url == self.base_url,
            b.project == self.project && b.timeout == self.timeout,
            b.max_retries == self.max_retries && b.default_headers == self.default_headers,
            b.api_kind == self.api_kind && b.azure_deployment == self.azure_deployment,
    {
        ClientBuilder { organization: Some(org.to_string()), ..self }
    }

    /// Sets the project sent with every request.
    pub fn project(self, project: &str) -> (b: ClientBuilder)
        ensures
            opt_view(b.project) == Some(project@),
            b.api_key == self.api_key && b.base_url == self.base_url,
            b.organization == self.organization && b.timeout == self.timeout,
            b.max_retries == self.max_retries && b.default_headers == self.default_headers,
            b.api_kind == self.api_kind && b.azure_deployment == self.azure_deployment,
    {
        ClientBuilder { project: Some(project.to_string()), ..self }
    }

    /// Sets the default timeout.
    pub fn timeout(self, t: Timeout) -> (b: ClientBuilder)
        ensures
            b.timeout == Some(t),
            b.api_key == self.api_key && b.base_url == self.base_url,
            b.organization == self.organization && b.project == self.project,
            b.max_retries == self.max_retries && b.default_headers == self.default_headers,
            b.api_kind == self.api_kind && b.azure_deployment == self.azure_deployment,
    {
        ClientBuilder { timeout: Some(t), ..self }
    }

    /// Sets the default retry budget of JSON requests.
    pub fn max_retries(self, n: u32) -> (b: ClientBuilder)
        ensures
            b.max_retries == Some(n),
            b.api_key == self.api_key && b.base_url == self.base_url,
            b.organization == self.organization && b.project == self.project,
            b.timeout == self.timeout && b.default_headers == self.default_headers,
            b.api_kind == self.api_kind && b.azure_deployment == self.azure_deployment,
    {
        ClientBuilder { max_retries: Some(n), ..self }
    }

    /// Adds a header sent with every request.
    pub fn default_header(self, name: &str, value: &str) -> (b: ClientBuilder)
        ensures
            headers_view(b.default_headers@) == headers_view(self.default_headers@).push(
                (name@, value@),
            ),
            b.api_key == self.api_key && b.base_url == self.base_url,
            b.organization == self.organization && b.project == self.project,
            b.timeout == self.timeout && b.max_retries == self.max_retries,
            b.api_kind == self.api_kind && b.azure_deployment == self.azure_deployment,
    {
        let ClientBuilder {
            api_key,
            base_url,
            organization,
            project,
            timeout,
            max_retries,
            mut default_headers,
            api_kind,
            azure_deployment,
        } = self;
        push_header(&mut default_headers, name, value.to_string());
        ClientBuilder {
            api_key,
            base_url,
            organization,
            project,
            timeout,
            max_retries,
            default_headers,
            api_kind,
            azure_deployment,
        }
    }

    /// Targets Azure OpenAI with the given deployment and API version.
    pub fn azure(self, deployment: &str, api_version: &str) -> (b: ClientBuilder)
        ensures
            b.api_kind matches Some(ApiKind::Azure { api_version: v }) && v@ == api_version@,
            opt_view(b.azure_deployment) == Some(deployment@),
            b.api_key == self.api_key && b.base_url == self.base_url,
            b.organization == self.organization && b.project == self.project,
            b.timeout == self.timeout && b.max_retries == self.max_retries,
            b.default_headers == self.default_headers,
    {
        ClientBuilder {
            api_kind: Some(ApiKind::Azure { api_version: api_version.to_string() }),
            azure_deployment: Some(deployment.to_string()),
            ..self
        }
    }

    /// The configuration; a missing API key is a configuration error.
    pub fn build(self) -> (r: Result<ClientConfig, OpenAiError>)
        ensures
            self.api_key is None ==> (r matches Err(e) && e matches OpenAiError::Config(m) && m@
                == "api_key required"@),
            self.api_key is Some ==> (r matches Ok(c) && built_from(c, self)),
    {
        if self.api_key.is_none() {
            return Err(OpenAiError::config("api_key required"));
        }
        Ok(self.build_unchecked())
    }

    /// The configuration, with an empty key when none was given.
    pub fn build_unchecked(self) -> (c: ClientConfig)
        ensures
            built_from(c, self),
    {
        let ClientBuilder {
            api_key,
            base_url,
            organization,
            project,
            timeout,
            max_retries,
            default_headers,
            api_kind,
            azure_deployment,
        } = self;
        let base_url = match base_url {
            Some(u) => u,
            None => DEFAULT_BASE_URL.to_string(),
        };
        let api_key = match api_key {
            Some(k) => k,
            None => String::new(),
        };
        let api_kind = match api_kind {
            Some(k) => k,
            None => ApiKind::OpenAi,
        };
        let max_retries = match max_retries {
            Some(n) => n,
            None => 0,
        };
        let per_request = RequestOptions::new();
        let c = ClientConfig {
            api_key,
            base_url,
            organization,
            project,
            default_headers,
            api_kind,
            max_retries,
            azure_deployment,
            timeout,
            per_request,
        };
        proof {
            assert(headers_view(c.per_request.extra_headers@) =~= Seq::<(Seq<char>, Seq<char>)>::empty());
        }
        c
    }
}

impl Default for ClientBuilder {
    fn default() -> (b: ClientBuilder)
        ensures
            b.api_key is None && b.base_url is None && b.organization is None && b.project is None,
            b.timeout is None && b.max_retries is None && b.default_headers@.len() == 0,
            b.api_kind is None && b.azure_deployment is None,
    {
        ClientBuilder::new()
    }
}

impl ClientConfig {
    /// A configuration for the OpenAI API with the given key and every default.
    pub fn new(api_key: &str) -> (c: ClientConfig)
        ensures
            c.api_key@ == api_key@,
            c.base_url@ == DEFAULT_BASE_URL@,
            c.api_kind is OpenAi,
            c.organization is None && c.project is None && c.azure_deployment is None,
            c.max_retries == 0 && c.timeout is None,
            c.default_headers@.len() == 0,
            options_view(c.per_request) == no_options(),
    {
        let c = ClientBuilder::new().api_key(api_key).build_unchecked();
        assert(c.default_headers@.len() == headers_view(c.default_headers@).len());
        c
    }

    /// A configuration for Azure OpenAI: `endpoint` is the resource root.
    pub fn azure(api_key: &str, endpoint: &str, deployment: &str, api_version: &str) -> (c:
        ClientConfig)
        ensures
            c.api_key@ == api_key@,
            c.base_url@ == endpoint@,
            c.api_kind matches ApiKind::Azure { api_version: v } && v@ == api_version@,
            opt_view(c.azure_deployment) == Some(deployment@),
            c.organization is None && c.project is None,
            c.max_retries == 0 && c.timeout is None,
            c.default_headers@.len() == 0,
            options_view(c.per_request) == no_options(),
    {
        let c = ClientBuilder::new().api_key(api_key).base_url(endpoint).azure(
            deployment,
            api_version,
        ).build_unchecked();
        assert(c.default_headers@.len() == headers_view(c.default_headers@).len());
        c
    }
}

/// Trailing slashes on the base URL make no difference to request URLs.
pub proof fn law_trailing_slash_ignored(s: Seq<char>)
    ensures
        trim_end_char(s.push('/'), '/') == trim_end_char(s, '/'),
{
    assert(s.push('/').drop_last() =~= s);
}

/// A path gets the same URL with or without its leading slash.
pub proof fn law_leading_slash_optional(p: Seq<char>)
    requires
        !(p.len() > 0 && p[0] == '/'),
    ensures
        rooted_path(seq!['/'] + p) == rooted_path(p),
{
    assert((seq!['/'] + p)[0] == '/');
}

/// The backoff starts at half a second and doubles per attempt (plus jitter under a quarter
/// second), and never exceeds thirty seconds, which it reaches from the seventh attempt on.
pub proof fn law_backoff_schedule(attempt: u32)
    ensures
        500 <= backoff_ms(attempt) <= 30000,
        attempt < 6 ==> backoff_ms(attempt) == 500 * pow2(attempt as nat) + (attempt as int * 137)
            % 250,
        attempt >= 6 ==> backoff_ms(attempt) == 30000,
{
    lemma2_to64();
    if attempt < 6 {
        assert(attempt == 0 || attempt == 1 || attempt == 2 || attempt == 3 || attempt == 4
            || attempt == 5);
    }
}

} // verus!
