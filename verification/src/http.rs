//! Outcome classification and the blocking HTTP request executor.

use vstd::prelude::*;

use crate::config::{
    is_valid_header_name, is_valid_header_value, spec_headers_error, spec_lower, spec_pairs_view,
    valid_header_name, valid_header_value, Arguments, HttpMethod,
};
use crate::errors::{AppResult, ErrorType};

verus! {

/// The six buckets a single attempt's outcome falls into.
///
/// An attempt that produced an HTTP response is classified by its status
/// code; `Failed` is reserved for attempts that never produced a status
/// code (timeout, connection refused, DNS failure, TLS failure).
#[derive(Clone, Copy, Debug, PartialEq, Eq, Structural)]
pub enum StatusCodeCategory {
    Success,
    Redirection,
    ClientError,
    ServerError,
    Informational,
    Failed,
}

impl StatusCodeCategory {
    /// The category of a status code: 2xx `Success`, 3xx `Redirection`,
    /// 4xx `ClientError`, 5xx `ServerError`, anything else `Informational`.
    pub open spec fn spec_from_code(code: u16) -> StatusCodeCategory {
        if 200 <= code && code <= 299 {
            StatusCodeCategory::Success
        } else if 300 <= code && code <= 399 {
            StatusCodeCategory::Redirection
        } else if 400 <= code && code <= 499 {
            StatusCodeCategory::ClientError
        } else if 500 <= code && code <= 599 {
            StatusCodeCategory::ServerError
        } else {
            StatusCodeCategory::Informational
        }
    }

    /// Classify a response's status code.
    pub fn from_code(code: u16) -> (c: StatusCodeCategory)
        ensures
            c == StatusCodeCategory::spec_from_code(code),
    {
        if 200 <= code && code <= 299 {
            StatusCodeCategory::Success
        } else if 300 <= code && code <= 399 {
            StatusCodeCategory::Redirection
        } else if 400 <= code && code <= 499 {
            StatusCodeCategory::ClientError
        } else if 500 <= code && code <= 599 {
            StatusCodeCategory::ServerError
        } else {
            StatusCodeCategory::Informational
        }
    }

    /// The category of one whole attempt: a transport-level failure has no
    /// status code and lands in `Failed`; a response is classified by its
    /// status code, so a 4xx/5xx response is a successful transport outcome
    /// and never `Failed`.
    pub open spec fn spec_from_outcome(status: Option<u16>) -> StatusCodeCategory {
        match status {
            Option::Some(code) => StatusCodeCategory::spec_from_code(code),
            Option::None => StatusCodeCategory::Failed,
        }
    }

    /// Classify one attempt from the status code it produced, if any.
    pub fn from_outcome(status: Option<u16>) -> (c: StatusCodeCategory)
        ensures
            c == StatusCodeCategory::spec_from_outcome(status),
    {
        match status {
            Option::Some(code) => StatusCodeCategory::from_code(code),
            Option::None => StatusCodeCategory::Failed,
        }
    }
}

/// Whether a string is a proxy URL that the HTTP client accepts. Decided by
/// reqwest's URL grammar; a function of the characters alone.
pub uninterp spec fn proxy_url_ok(s: Seq<char>) -> bool;

/// reqwest's blocking HTTP client, carried opaquely.
#[verifier::external_type_specification]
#[verifier::external_body]
pub struct ExClient(reqwest::blocking::Client);

/// reqwest's blocking client builder, carried opaquely.
#[verifier::external_type_specification]
#[verifier::external_body]
pub struct ExClientBuilder(reqwest::blocking::ClientBuilder);

/// reqwest's proxy description, carried opaquely.
#[verifier::external_type_specification]
#[verifier::external_body]
pub struct ExProxy(reqwest::Proxy);

/// The `http` crate's method type, carried opaquely.
#[verifier::external_type_specification]
#[verifier::external_body]
pub struct ExMethod(reqwest::Method);

/// The `http` crate's header value type, carried opaquely (it is the
/// default entry type of the header map below).
#[verifier::external_type_specification]
#[verifier::external_body]
pub struct ExHeaderValue(reqwest::header::HeaderValue);

/// The `http` crate's header map, carried opaquely.
#[verifier::external_type_specification]
#[verifier::external_body]
#[verifier::reject_recursive_types(T)]
pub struct ExHeaderMap<T>(reqwest::header::HeaderMap<T>);

/// Relies on reqwest's `Proxy::all`: it accepts a proxy URL if and only if
/// the URL parses under reqwest's grammar, a decision that depends on the
/// characters alone.
#[verifier::external_body]
fn proxy_all(url: &str) -> (r: Option<reqwest::Proxy>)
    ensures
        r is Some <==> proxy_url_ok(url@),
{
    match reqwest::Proxy::all(url) {
        Ok(proxy) => Some(proxy),
        Err(_) => None,
    }
}

/// Relies on reqwest's `blocking::ClientBuilder::new`.
#[verifier::external_body]
fn builder_new() -> reqwest::blocking::ClientBuilder {
    reqwest::blocking::ClientBuilder::new()
}

/// Relies on reqwest's `blocking::ClientBuilder::proxy`: routes all of the
/// client's traffic through the given proxy.
#[verifier::external_body]
fn builder_proxy(
    builder: reqwest::blocking::ClientBuilder,
    proxy: reqwest::Proxy,
) -> reqwest::blocking::ClientBuilder {
    builder.proxy(proxy)
}

/// Relies on reqwest's `blocking::ClientBuilder::default_headers`: the
/// given headers are sent with every request of the client.
#[verifier::external_body]
fn builder_default_headers(
    builder: reqwest::blocking::ClientBuilder,
    headers: reqwest::header::HeaderMap,
) -> reqwest::blocking::ClientBuilder {
    builder.default_headers(headers)
}

/// Relies on reqwest's `blocking::ClientBuilder::timeout`: bounds each of
/// the client's calls, from connecting until the response body has arrived,
/// by the given number of seconds.
#[verifier::external_body]
fn builder_timeout_secs(
    builder: reqwest::blocking::ClientBuilder,
    secs: u64,
) -> reqwest::blocking::ClientBuilder {
    builder.timeout(std::time::Duration::from_secs(secs))
}

/// Relies on reqwest's `blocking::ClientBuilder::tcp_keepalive`: sets
/// `SO_KEEPALIVE` with the given interval on the client's sockets.
#[verifier::external_body]
fn builder_tcp_keepalive_secs(
    builder: reqwest::blocking::ClientBuilder,
    secs: u64,
) -> reqwest::blocking::ClientBuilder {
    builder.tcp_keepalive(std::time::Duration::from_secs(secs))
}

/// Relies on reqwest's `blocking::ClientBuilder::build`: it can fail even
/// on a well-formed configuration (for instance when the transport backend
/// cannot be initialized), so nothing promises success here.
#[verifier::external_body]
fn builder_build(builder: reqwest::blocking::ClientBuilder) -> Option<reqwest::blocking::Client> {
    match builder.build() {
        Ok(client) => Some(client),
        Err(_) => None,
    }
}

/// What a header map holds: each stored value, filed under the lower-cased
/// name it was inserted with (the `http` crate stores names lower-cased).
pub uninterp spec fn header_map_model(m: reqwest::header::HeaderMap) -> Map<Seq<char>, Seq<char>>;

/// The contents of a header map with nothing in it.
pub open spec fn header_map_model_empty() -> Map<Seq<char>, Seq<char>> {
    Map::empty()
}

/// Relies on `HeaderMap::new` from the `http` crate: the new map is empty.
#[verifier::external_body]
fn header_map_new() -> (headers: reqwest::header::HeaderMap)
    ensures
        header_map_model(headers) == header_map_model_empty(),
{
    reqwest::header::HeaderMap::new()
}

/// Relies on `HeaderMap::try_insert` from the `http` crate: on success the
/// value is stored under the name, replacing any value already stored under
/// it; the only failure is the map's size cap (32768 names), on which the
/// contents stay as they were. The name and the value are parsed with the
/// `http` crate's `FromStr` first, which accepts every string the grammars
/// admit, so parsing cannot fail here.
#[verifier::external_body]
fn header_map_try_insert(headers: &mut reqwest::header::HeaderMap, name: &str, value: &str) -> (stored:
    bool)
    requires
        valid_header_name(name@),
        valid_header_value(value@),
    ensures
        stored ==> header_map_model(*final(headers)) == header_map_model(*old(headers)).insert(
            spec_lower(name@),
            value@,
        ),
        !stored ==> header_map_model(*final(headers)) == header_map_model(*old(headers)),
{
    let name: reqwest::header::HeaderName = match name.parse() {
        Ok(name) => name,
        Err(_) => return false,
    };
    let value: reqwest::header::HeaderValue = match value.parse() {
        Ok(value) => value,
        Err(_) => return false,
    };
    headers.try_insert(name, value).is_ok()
}

/// Relies on the `http` crate's `Method` constants.
#[verifier::external_body]
fn to_reqwest_method(method: &HttpMethod) -> reqwest::Method {
    match method {
        HttpMethod::Get => reqwest::Method::GET,
        HttpMethod::Post => reqwest::Method::POST,
        HttpMethod::Put => reqwest::Method::PUT,
        HttpMethod::Delete => reqwest::Method::DELETE,
        HttpMethod::Head => reqwest::Method::HEAD,
        HttpMethod::Options => reqwest::Method::OPTIONS,
    }
}

/// Whether two optional strings spell the same text.
pub open spec fn opt_string_eq(a: Option<String>, b: Option<String>) -> bool {
    match (a, b) {
        (Some(x), Some(y)) => x@ == y@,
        (None, None) => true,
        _ => false,
    }
}

/// The header map that filing a list of validated pairs builds, pair by
/// pair: each value under its lower-cased name, a later pair replacing an
/// earlier one with the same name.
pub open spec fn spec_headers_map_upto(hs: Seq<(Seq<char>, Seq<char>)>, k: int) -> Map<
    Seq<char>,
    Seq<char>,
>
    decreases k,
{
    if k <= 0 {
        Map::empty()
    } else {
        spec_headers_map_upto(hs, k - 1).insert(spec_lower(hs[k - 1].0), hs[k - 1].1)
    }
}

/// The configuration offence that prevents a client from being built, if
/// any: a proxy URL reqwest rejects, else the first invalid header pair.
pub open spec fn spec_config_error(arguments: Arguments) -> Option<ErrorType> {
    if arguments.proxy is Some && !proxy_url_ok(arguments.proxy->Some_0@) {
        Some(ErrorType::InvalidProxy)
    } else {
        match arguments.headers {
            Some(pairs) => spec_headers_error(spec_pairs_view(pairs@)),
            None => None,
        }
    }
}

/// One worker's request executor: a configured blocking HTTP client plus
/// everything that makes up one request. Executors are built once per
/// worker and never shared, so each worker keeps its own connections.
pub struct HttpClientBlocking {
    pub client: reqwest::blocking::Client,
    pub url: String,
    pub method: HttpMethod,
    pub payload: Option<String>,
}

impl HttpClientBlocking {
    /// Build one executor from the run configuration. A proxy URL that
    /// reqwest rejects fails with `InvalidProxy`, an invalid header pair
    /// with `InvalidHeaderName`/`InvalidHeaderValue` (first offence wins),
    /// and a transport that cannot be initialized with
    /// `HttpClientBuildFailed`, as is a header set that overflows the
    /// header map's size cap; each of these is fatal to the whole run and
    /// happens before any worker starts. On any other configuration the
    /// executor is built, carrying the configured target, method and
    /// payload, with the per-call timeout and the keep-alive interval
    /// applied to the client.
    pub fn from_arguments(arguments: &Arguments) -> (r: AppResult<HttpClientBlocking>)
        ensures
            spec_config_error(*arguments) is Some ==> r == Err::<HttpClientBlocking, ErrorType>(
                spec_config_error(*arguments)->Some_0,
            ),
            spec_config_error(*arguments) is None ==> (r is Ok || r == Err::<
                HttpClientBlocking,
                ErrorType,
            >(ErrorType::HttpClientBuildFailed)),
            r is Ok ==> {
                &&& spec_config_error(*arguments) is None
                &&& r->Ok_0.url@ == arguments.target@
                &&& r->Ok_0.method == arguments.method
                &&& opt_string_eq(r->Ok_0.payload, arguments.payload)
            },
    {
        let mut builder = builder_new();
        match &arguments.proxy {
            Some(proxy_url) => {
                match proxy_all(proxy_url.as_str()) {
                    Some(proxy) => {
                        builder = builder_proxy(builder, proxy);
                    },
                    None => {
                        return Err(ErrorType::InvalidProxy);
                    },
                }
            },
            None => {},
        }
        match &arguments.headers {
            Some(pairs) => {
                let ghost hv = spec_pairs_view(pairs@);
                let n = pairs.len();
                let mut i: usize = 0;
                while i < n
                    invariant
                        i <= n,
                        n == pairs@.len(),
                        hv == spec_pairs_view(pairs@),
                        arguments.proxy is Some ==> proxy_url_ok(arguments.proxy->Some_0@),
                        arguments.headers == Some::<Vec<(String, String)>>(*pairs),
                        spec_headers_error(hv) == crate::config::spec_headers_error_from(
                            hv,
                            i as int,
                        ),
                        forall|j: int| 0 <= j < i ==> #[trigger] valid_header_name(hv[j].0),
                        forall|j: int| 0 <= j < i ==> #[trigger] valid_header_value(hv[j].1),
                    decreases n - i,
                {
                    proof {
                        assert(hv[i as int] == (pairs@[i as int].0@, pairs@[i as int].1@));
                    }
                    if !is_valid_header_name(pairs[i].0.as_str()) {
                        return Err(ErrorType::InvalidHeaderName);
                    }
                    if !is_valid_header_value(pairs[i].1.as_str()) {
                        return Err(ErrorType::InvalidHeaderValue);
                    }
                    proof {
                        assert(valid_header_name(hv[i as int].0));
                        assert(valid_header_value(hv[i as int].1));
                    }
                    i = i + 1;
                }
                let mut map = header_map_new();
                let mut k: usize = 0;
                while k < n
                    invariant
                        k <= n,
                        n == pairs@.len(),
                        hv == spec_pairs_view(pairs@),
                        arguments.proxy is Some ==> proxy_url_ok(arguments.proxy->Some_0@),
                        arguments.headers == Some::<Vec<(String, String)>>(*pairs),
                        spec_headers_error(hv) is None,
                        forall|j: int| 0 <= j < n ==> #[trigger] valid_header_name(hv[j].0),
                        forall|j: int| 0 <= j < n ==> #[trigger] valid_header_value(hv[j].1),
                        header_map_model(map) == spec_headers_map_upto(hv, k as int),
                    decreases n - k,
                {
                    proof {
                        assert(hv[k as int] == (pairs@[k as int].0@, pairs@[k as int].1@));
                        assert(valid_header_name(hv[k as int].0));
                        assert(valid_header_value(hv[k as int].1));
                    }
                    if !header_map_try_insert(&mut map, pairs[k].0.as_str(), pairs[k].1.as_str()) {
                        return Err(ErrorType::HttpClientBuildFailed);
                    }
                    k = k + 1;
                }
                builder = builder_default_headers(builder, map);
            },
            None => {},
        }
        builder = builder_timeout_secs(builder, arguments.timeout);
        builder = builder_tcp_keepalive_secs(builder, arguments.duration);
        match builder_build(builder) {
            Some(client) => {
                let url = arguments.target.clone();
                let payload = match &arguments.payload {
                    Some(p) => Some(p.clone()),
                    None => None,
                };
                Ok(HttpClientBlocking { client, url, method: arguments.method, payload })
            },
            None => Err(ErrorType::HttpClientBuildFailed),
        }
    }

    /// Perform one blocking HTTP call with the configured method, target,
    /// payload and default headers, under the client's per-call timeout.
    /// Returns the response's status code, or `HttpRequestFailed` when the
    /// attempt produced no response (timeout, connection refused, DNS
    /// failure, TLS failure); it never panics, so a failed attempt is
    /// always reported to the caller as a value. Relies on reqwest's
    /// `blocking::Client` request/send and on the `http` crate's bound that
    /// a parsed status code lies between 100 and 999.
    #[verifier::external_body]
    pub fn call(&self) -> (r: AppResult<u16>)
        ensures
            r is Ok ==> 100 <= r->Ok_0 <= 999,
            r is Err ==> r->Err_0 == ErrorType::HttpRequestFailed,
    {
        let method = to_reqwest_method(&self.method);
        let mut request = self.client.request(method, self.url.as_str());
        if let Some(payload) = &self.payload {
            request = request.body(payload.clone());
        }
        match request.send() {
            Ok(response) => Ok(response.status().as_u16()),
            Err(_) => Err(ErrorType::HttpRequestFailed),
        }
    }
}

} // verus!
