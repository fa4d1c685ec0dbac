//! The authenticated request core: credentials, the client, and the
//! construction of outbound request descriptors.
//!
//! The client itself holds no transport: it resolves paths against its
//! base URL, attaches credentials and default headers, merges caller
//! headers, and encodes query parameters, producing an [`ApiRequest`]
//! that an unverified front end executes.

use vstd::prelude::*;
use crate::error::NextcloudApiError;
use crate::json::{Json, json_dump};
use crate::query::{encode_query, enc_query, pairs_view};

verus! {

broadcast use vstd::seq::group_seq_axioms, vstd::std_specs::vec::group_vec_axioms;

/// Credentials for the Nextcloud API: a username/secret pair, fixed at
/// construction and sent with every request.
#[derive(Debug, Clone)]
pub struct NextcloudCredentials {
    pub user: String,
    pub password: String,
}

impl NextcloudCredentials {
    pub fn new(user: String, password: String) -> (r: Self)
        ensures
            r.user == user,
            r.password == password,
    {
        Self { user, password }
    }
}

/// The request method of a descriptor.
#[derive(Debug, Clone, Copy, PartialEq, Eq, Structural)]
pub enum HttpMethod {
    Get,
    Post,
}

/// A fully assembled outbound request: everything the transport needs,
/// as plain values. Built per call and not retained.
#[derive(Debug, Clone)]
pub struct ApiRequest {
    pub method: HttpMethod,
    /// The absolute URL, the path already resolved against the base.
    pub url: String,
    /// Basic-authentication username.
    pub user: String,
    /// Basic-authentication secret.
    pub password: String,
    /// Header name/value pairs: the defaults with any overrides merged in.
    pub headers: Vec<(String, String)>,
    /// Encoded query-string bytes, if query parameters were supplied.
    pub query: Option<Vec<u8>>,
    /// The request body bytes, if one was supplied.
    pub body: Option<Vec<u8>>,
}

/// What parsing and normalising an absolute URL yields; `None` where the
/// text is no URL.
pub uninterp spec fn url_norm(s: Seq<char>) -> Option<Seq<char>>;

/// Relies on `url::Url::parse`: whether a text is an absolute URL, and
/// its normal form, depend on the text alone.
#[verifier::external_body]
fn parse_url(s: &str) -> (r: Option<String>)
    ensures
        match r {
            Some(t) => url_norm(s@) == Some(t@),
            None => url_norm(s@) is None,
        },
{
    url::Url::parse(s).ok().map(String::from)
}

/// What resolving a path against a base URL yields; `None` where the
/// base does not parse or the join fails.
pub uninterp spec fn url_join(base: Seq<char>, path: Seq<char>) -> Option<Seq<char>>;

/// Relies on `url::Url::parse` followed by `url::Url::join`: the
/// resolved absolute URL depends on the two texts alone.
#[verifier::external_body]
fn resolve_url(base: &str, path: &str) -> (r: Option<String>)
    ensures
        match r {
            Some(t) => url_join(base@, path@) == Some(t@),
            None => url_join(base@, path@) is None,
        },
{
    url::Url::parse(base).ok().and_then(|u| u.join(path).ok()).map(String::from)
}

/// What the origin (scheme, host, port) of a URL serialises to.
pub uninterp spec fn url_origin(s: Seq<char>) -> Option<Seq<char>>;

/// Relies on `url::Url::parse` and `Origin::ascii_serialization`: the
/// origin of a URL depends on the text alone.
#[verifier::external_body]
fn origin_of(s: &str) -> (r: Option<String>)
    ensures
        match r {
            Some(t) => url_origin(s@) == Some(t@),
            None => url_origin(s@) is None,
        },
{
    url::Url::parse(s).ok().map(|u| u.origin().ascii_serialization())
}

/// The view of a header list.
pub open spec fn header_view(hs: Seq<(String, String)>) -> Seq<(Seq<char>, Seq<char>)> {
    hs.map_values(|p: (String, String)| (p.0@, p.1@))
}

/// The default headers every request carries.
pub open spec fn default_headers() -> Seq<(Seq<char>, Seq<char>)> {
    seq![("OCS-ApiRequest"@, "true"@), ("Accept"@, "application/json"@)]
}

/// The first position of a header name, or the list's length.
pub open spec fn first_key(hs: Seq<(Seq<char>, Seq<char>)>, k: Seq<char>) -> int
    decreases hs.len(),
{
    if hs.len() == 0 {
        0
    } else if hs[0].0 == k {
        0
    } else {
        1 + first_key(hs.skip(1), k)
    }
}

/// `first_key` is in bounds, finds the name, and nothing before it has it.
pub proof fn lemma_first_key(hs: Seq<(Seq<char>, Seq<char>)>, k: Seq<char>)
    ensures
        0 <= first_key(hs, k) <= hs.len(),
        first_key(hs, k) < hs.len() ==> hs[first_key(hs, k)].0 == k,
        forall|m: int| 0 <= m < first_key(hs, k) ==> hs[m].0 != k,
    decreases hs.len(),
{
    if hs.len() > 0 && hs[0].0 != k {
        lemma_first_key(hs.skip(1), k);
        assert(forall|m: int| 1 <= m < hs.len() ==> hs[m] == hs.skip(1)[m - 1]);
    }
}

/// Setting one header: replace the first pair of that name, else append.
pub open spec fn set_header(
    hs: Seq<(Seq<char>, Seq<char>)>,
    p: (Seq<char>, Seq<char>),
) -> Seq<(Seq<char>, Seq<char>)> {
    let i = first_key(hs, p.0);
    if i == hs.len() {
        hs.push(p)
    } else {
        hs.update(i, p)
    }
}

/// Merging overrides into a base header list, in the overrides' order:
/// a supplied header replaces a default of the same name and otherwise
/// extends the list, so the defaults are merged into, not replaced.
pub open spec fn merge_headers_spec(
    base: Seq<(Seq<char>, Seq<char>)>,
    ov: Seq<(Seq<char>, Seq<char>)>,
) -> Seq<(Seq<char>, Seq<char>)>
    decreases ov.len(),
{
    if ov.len() == 0 {
        base
    } else {
        merge_headers_spec(set_header(base, ov[0]), ov.skip(1))
    }
}

/// The default header list as values.
fn default_header_vec() -> (r: Vec<(String, String)>)
    ensures
        header_view(r@) == default_headers(),
{
    let mut v: Vec<(String, String)> = Vec::new();
    v.push(("OCS-ApiRequest".to_owned(), "true".to_owned()));
    v.push(("Accept".to_owned(), "application/json".to_owned()));
    proof {
        assert(header_view(v@) =~= default_headers());
    }
    v
}

/// Sets one header in place, replacing by name or appending.
#[verifier::loop_isolation(false)]
fn set_header_exec(hs: &mut Vec<(String, String)>, k: &String, v: &String)
    ensures
        header_view(final(hs)@) == set_header(header_view(old(hs)@), (k@, v@)),
{
    let ghost hv = header_view(hs@);
    proof {
        lemma_first_key(hv, k@);
    }
    let mut i: usize = 0;
    while i < hs.len()
        invariant
            i <= hs.len(),
            hs@ == old(hs)@,
            forall|m: int| 0 <= m < i ==> hv[m].0 != k@,
        decreases hs.len() - i,
    {
        if hs[i].0 == *k {
            proof {
                assert(hv[i as int].0 == k@);
                lemma_first_key(hv, k@);
                if first_key(hv, k@) < i as int {
                    assert(hv[first_key(hv, k@)].0 == k@);
                    assert(false);
                }
                if first_key(hv, k@) > i as int {
                    assert(hv[i as int].0 != k@);
                    assert(false);
                }
                assert(first_key(hv, k@) == i);
            }
            hs[i] = (k.clone(), v.clone());
            proof {
                assert(header_view(hs@) =~= hv.update(i as int, (k@, v@)));
            }
            return;
        }
        i = i + 1;
    }
    proof {
        assert(first_key(hv, k@) == hs@.len());
    }
    hs.push((k.clone(), v.clone()));
    proof {
        assert(header_view(hs@) =~= hv.push((k@, v@)));
    }
}

/// Merges override headers into the list, in the given order.
#[verifier::loop_isolation(false)]
fn merge_headers(hs: &mut Vec<(String, String)>, overrides: &Vec<(String, String)>)
    ensures
        header_view(final(hs)@)
            == merge_headers_spec(header_view(old(hs)@), header_view(overrides@)),
{
    let ghost ov = header_view(overrides@);
    proof {
        assert(ov.skip(0) =~= ov);
    }
    let mut j: usize = 0;
    while j < overrides.len()
        invariant
            j <= overrides.len(),
            merge_headers_spec(header_view(hs@), ov.skip(j as int))
                == merge_headers_spec(header_view(old(hs)@), ov),
        decreases overrides.len() - j,
    {
        proof {
            assert(ov.skip(j as int)[0] == ov[j as int]);
            assert(ov.skip(j as int).skip(1) =~= ov.skip(j as int + 1));
        }
        set_header_exec(hs, &overrides[j].0, &overrides[j].1);
        j = j + 1;
    }
    proof {
        assert(ov.skip(overrides@.len() as int) =~= Seq::<(Seq<char>, Seq<char>)>::empty());
    }
}

/// A path resolves against a base URL when the join succeeds and the
/// result stays inside the base URL's authority.
pub open spec fn resolves(base: Seq<char>, path: Seq<char>) -> bool {
    &&& url_join(base, path) is Some
    &&& url_origin(url_join(base, path)->Some_0) is Some
    &&& url_origin(base) is Some
    &&& url_origin(url_join(base, path)->Some_0) == url_origin(base)
}

/// The absolute URL a path resolves to.
pub open spec fn resolved_url(base: Seq<char>, path: Seq<char>) -> Seq<char> {
    url_join(base, path)->Some_0
}

/// The invariant fields every descriptor built by the client satisfies.
pub open spec fn request_wf(
    r: ApiRequest,
    c: NextcloudApiClient,
    m: HttpMethod,
    path: Seq<char>,
) -> bool {
    &&& r.method == m
    &&& r.url@ == resolved_url(c.url@, path)
    &&& r.user@ == c.credentials.user@
    &&& r.password@ == c.credentials.password@
}

/// A client built from a base URL and credentials: the fields any
/// successful construction carries.
pub open spec fn client_obeys(
    c: NextcloudApiClient,
    base: Seq<char>,
    user: Seq<char>,
    password: Seq<char>,
) -> bool {
    &&& url_norm(base) is Some
    &&& c.url@ == url_norm(base)->Some_0
    &&& c.credentials.user@ == user
    &&& c.credentials.password@ == password
}

/// The main Nextcloud API client: a fixed base URL and the credentials.
/// It holds no per-request state, so calls against one client are
/// mutually independent.
#[derive(Debug, Clone)]
pub struct NextcloudApiClient {
    /// The base URL, in parsed normal form.
    pub url: String,
    pub credentials: NextcloudCredentials,
}

impl NextcloudApiClient {
    /// Construct a new API client for the given URL and credentials.
    ///
    /// Succeeds exactly when the base URL parses; the client is then
    /// fully determined by the inputs.
    pub fn new(url: &str, credentials: NextcloudCredentials) -> (r: Result<
        Self,
        NextcloudApiError,
    >)
        ensures
            r is Ok <==> url_norm(url@) is Some,
            r is Ok ==> client_obeys(r->Ok_0, url@, credentials.user@, credentials.password@),
            r is Err ==> (r->Err_0 matches NextcloudApiError::InvalidUrl(m) && m@ == url@),
    {
        match parse_url(url) {
            Some(normal) => Ok(Self { url: normal, credentials }),
            None => Err(NextcloudApiError::InvalidUrl(url.to_owned())),
        }
    }

    /// Prepare an authenticated request for the given method and path:
    /// the path resolved against the base URL, the credentials attached,
    /// the default headers set, no query and no body yet.
    ///
    /// Fails exactly where the path does not resolve inside the base
    /// URL's authority.
    pub fn authenticated_request(&self, method: HttpMethod, path: &str) -> (r: Result<
        ApiRequest,
        NextcloudApiError,
    >)
        ensures
            r is Ok <==> resolves(self.url@, path@),
            r is Ok ==> request_wf(r->Ok_0, *self, method, path@)
                && header_view(r->Ok_0.headers@) == default_headers()
                && r->Ok_0.query is None
                && r->Ok_0.body is None,
            r is Err ==> r->Err_0 is InvalidUrl,
    {
        match resolve_url(self.url.as_str(), path) {
            Some(full) => {
                let base_origin = origin_of(self.url.as_str());
                let full_origin = origin_of(full.as_str());
                match (base_origin, full_origin) {
                    (Some(b), Some(f)) => {
                        if b == f {
                            Ok(ApiRequest {
                                method,
                                url: full,
                                user: self.credentials.user.clone(),
                                password: self.credentials.password.clone(),
                                headers: default_header_vec(),
                                query: None,
                                body: None,
                            })
                        } else {
                            Err(NextcloudApiError::InvalidUrl(path.to_owned()))
                        }
                    },
                    _ => Err(NextcloudApiError::InvalidUrl(path.to_owned())),
                }
            },
            None => Err(NextcloudApiError::InvalidUrl(path.to_owned())),
        }
    }

    /// Assemble a complete request: optional header overrides merged
    /// into the defaults, optional query parameters encoded in order,
    /// an optional body attached verbatim.
    pub fn raw_request(
        &self,
        method: HttpMethod,
        path: &str,
        headers: Option<&Vec<(String, String)>>,
        query: Option<&Vec<(Vec<u8>, Vec<u8>)>>,
        body: Option<Vec<u8>>,
    ) -> (r: Result<ApiRequest, NextcloudApiError>)
        ensures
            r is Ok <==> resolves(self.url@, path@),
            r is Ok ==> request_wf(r->Ok_0, *self, method, path@)
                && header_view(r->Ok_0.headers@) == (match headers {
                    Some(hs) => merge_headers_spec(default_headers(), header_view(hs@)),
                    None => default_headers(),
                })
                && (match query {
                    Some(q) => (r->Ok_0.query matches Some(enc)
                        && enc@ == enc_query(pairs_view(q@))),
                    None => r->Ok_0.query is None,
                })
                && r->Ok_0.body == body,
            r is Err ==> r->Err_0 is InvalidUrl,
    {
        match self.authenticated_request(method, path) {
            Ok(mut req) => {
                match headers {
                    Some(hs) => merge_headers(&mut req.headers, hs),
                    None => (),
                }
                match query {
                    Some(q) => req.query = Some(encode_query(q)),
                    None => (),
                }
                req.body = body;
                Ok(req)
            },
            Err(e) => Err(e),
        }
    }

    /// A plain GET of a path: no extra headers, no query, no body.
    pub fn api_get(&self, path: &str) -> (r: Result<ApiRequest, NextcloudApiError>)
        ensures
            r is Ok <==> resolves(self.url@, path@),
            r is Ok ==> request_wf(r->Ok_0, *self, HttpMethod::Get, path@)
                && header_view(r->Ok_0.headers@) == default_headers()
                && r->Ok_0.query is None
                && r->Ok_0.body is None,
            r is Err ==> r->Err_0 is InvalidUrl,
    {
        self.raw_request(HttpMethod::Get, path, None, None, None)
    }

    /// A GET with optional header overrides and query parameters.
    pub fn api_get_ext(
        &self,
        path: &str,
        headers: Option<&Vec<(String, String)>>,
        query: Option<&Vec<(Vec<u8>, Vec<u8>)>>,
    ) -> (r: Result<ApiRequest, NextcloudApiError>)
        ensures
            r is Ok <==> resolves(self.url@, path@),
            r is Ok ==> request_wf(r->Ok_0, *self, HttpMethod::Get, path@)
                && header_view(r->Ok_0.headers@) == (match headers {
                    Some(hs) => merge_headers_spec(default_headers(), header_view(hs@)),
                    None => default_headers(),
                })
                && (match query {
                    Some(q) => (r->Ok_0.query matches Some(enc)
                        && enc@ == enc_query(pairs_view(q@))),
                    None => r->Ok_0.query is None,
                })
                && r->Ok_0.body is None,
            r is Err ==> r->Err_0 is InvalidUrl,
    {
        self.raw_request(HttpMethod::Get, path, headers, query, None)
    }

    /// A POST with an already-serialised body attached verbatim, the
    /// header overrides merged into the defaults and the query
    /// parameters encoded in the given order.
    pub fn api_post_raw(
        &self,
        path: &str,
        headers: Option<&Vec<(String, String)>>,
        query: Option<&Vec<(Vec<u8>, Vec<u8>)>>,
        body: Vec<u8>,
    ) -> (r: Result<ApiRequest, NextcloudApiError>)
        ensures
            r is Ok <==> resolves(self.url@, path@),
            r is Ok ==> request_wf(r->Ok_0, *self, HttpMethod::Post, path@)
                && header_view(r->Ok_0.headers@) == (match headers {
                    Some(hs) => merge_headers_spec(default_headers(), header_view(hs@)),
                    None => default_headers(),
                })
                && (match query {
                    Some(q) => (r->Ok_0.query matches Some(enc)
                        && enc@ == enc_query(pairs_view(q@))),
                    None => r->Ok_0.query is None,
                })
                && (r->Ok_0.body matches Some(b) && b@ == body@),
            r is Err ==> r->Err_0 is InvalidUrl,
    {
        self.raw_request(HttpMethod::Post, path, headers, query, Some(body))
    }

    /// A POST of a typed JSON body: the tree is serialised first and the
    /// request is then the raw POST of those bytes, with the same header
    /// merge and ordered query. On the library's tree serialisation
    /// always succeeds, so only a path that does not resolve fails.
    pub fn api_post(
        &self,
        path: &str,
        headers: Option<&Vec<(String, String)>>,
        query: Option<&Vec<(Vec<u8>, Vec<u8>)>>,
        body: &Json,
    ) -> (r: Result<ApiRequest, NextcloudApiError>)
        ensures
            r is Ok <==> resolves(self.url@, path@),
            r is Ok ==> request_wf(r->Ok_0, *self, HttpMethod::Post, path@)
                && header_view(r->Ok_0.headers@) == (match headers {
                    Some(hs) => merge_headers_spec(default_headers(), header_view(hs@)),
                    None => default_headers(),
                })
                && (match query {
                    Some(q) => (r->Ok_0.query matches Some(enc)
                        && enc@ == enc_query(pairs_view(q@))),
                    None => r->Ok_0.query is None,
                })
                && (r->Ok_0.body matches Some(b)
                    && b@ == vstd::utf8::encode_utf8(json_dump(body@))),
            r is Err ==> r->Err_0 is InvalidUrl,
    {
        let text = crate::json::dump_json(body);
        let bytes = text.as_str().as_bytes_vec();
        self.api_post_raw(path, headers, query, bytes)
    }
}

/// Repeated construction from identical inputs yields functionally
/// equivalent clients: same base URL, same credentials.
pub proof fn lemma_construction_idempotent(
    c1: NextcloudApiClient,
    c2: NextcloudApiClient,
    base: Seq<char>,
    user: Seq<char>,
    password: Seq<char>,
)
    requires
        client_obeys(c1, base, user, password),
        client_obeys(c2, base, user, password),
    ensures
        c1.url@ == c2.url@,
        c1.credentials.user@ == c2.credentials.user@,
        c1.credentials.password@ == c2.credentials.password@,
{
}

/// Path resolution is deterministic and independent of call order: any
/// two descriptors built for the same method and path by clients with
/// the same base URL and credentials agree on every field the client
/// pins, whenever each was built.
pub proof fn lemma_resolution_deterministic(
    c1: NextcloudApiClient,
    c2: NextcloudApiClient,
    r1: ApiRequest,
    r2: ApiRequest,
    m: HttpMethod,
    path: Seq<char>,
)
    requires
        c1.url@ == c2.url@,
        c1.credentials.user@ == c2.credentials.user@,
        c1.credentials.password@ == c2.credentials.password@,
        request_wf(r1, c1, m, path),
        request_wf(r2, c2, m, path),
    ensures
        r1.url@ == r2.url@,
        r1.user@ == r2.user@,
        r1.password@ == r2.password@,
{
}

/// Requests are mutually independent: distinct query-parameter lists
/// give distinct encoded query strings, so per-request correlation
/// values are never mixed up between concurrent calls.
pub proof fn lemma_requests_independent(q1: Seq<(Seq<u8>, Seq<u8>)>, q2: Seq<(Seq<u8>, Seq<u8>)>)
    requires
        q1 != q2,
    ensures
        enc_query(q1) != enc_query(q2),
{
    if enc_query(q1) == enc_query(q2) {
        crate::query::lemma_query_encoding_injective(q1, q2);
    }
}

} // verus!
