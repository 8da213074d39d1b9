use vstd::prelude::*;

verus! {

/// A header as a name and a value. Names may repeat; each occurrence is sent.
pub type Header = (String, String);

/// The request methods this engine issues.
#[derive(Clone, Copy, Debug, PartialEq, Eq, Structural)]
pub enum Method {
    Get,
    Post,
}

/// One request: method, URL, headers in sending order, optional body.
pub struct RequestSpec {
    pub method: Method,
    pub url: String,
    pub headers: Vec<Header>,
    pub body: Option<Vec<u8>>,
}

/// A copy of a header list, in the same order.
pub fn copy_headers(headers: &Vec<Header>) -> (r: Vec<Header>)
    ensures
        r@ == headers@,
{
    let mut r: Vec<Header> = Vec::new();
    let mut i: usize = 0;
    while i < headers.len()
        invariant
            i <= headers@.len(),
            r@ == headers@.subrange(0, i as int),
        decreases headers@.len() - i,
    {
        let h = &headers[i];
        r.push((h.0.clone(), h.1.clone()));
        i = i + 1;
    }
    assert(r@ =~= headers@);
    r
}

impl RequestSpec {
    /// A GET of `url` with `headers`, sent as given, and no body.
    pub fn get(url: String, headers: Vec<Header>) -> (r: RequestSpec)
        ensures
            r.method == Method::Get,
            r.url == url,
            r.headers@ == headers@,
            r.body is None,
    {
        RequestSpec { method: Method::Get, url, headers, body: None }
    }

    /// A POST of `body` to `url` with `headers`, sent as given.
    pub fn post(url: String, headers: Vec<Header>, body: Vec<u8>) -> (r: RequestSpec)
        ensures
            r.method == Method::Post,
            r.url == url,
            r.headers@ == headers@,
            r.body == Some(body),
    {
        RequestSpec { method: Method::Post, url, headers, body: Some(body) }
    }
}

/// Whether `r` is the GET of `url` with `headers` that a batch issues.
pub open spec fn is_batch_get(r: RequestSpec, url: String, headers: Seq<Header>) -> bool {
    &&& r.method == Method::Get
    &&& r.url == url
    &&& r.headers@ == headers
    &&& r.body is None
}

/// The requests of a batch: one GET per URL, in input order, each with the
/// shared header list.
pub fn batch_requests(urls: &Vec<String>, headers: &Vec<Header>) -> (r: Vec<RequestSpec>)
    ensures
        r@.len() == urls@.len(),
        forall|i: int| 0 <= i < urls@.len() ==> is_batch_get(#[trigger] r@[i], urls@[i], headers@),
{
    let mut r: Vec<RequestSpec> = Vec::new();
    let mut i: usize = 0;
    while i < urls.len()
        invariant
            i <= urls@.len(),
            r@.len() == i,
            forall|j: int| 0 <= j < i ==> is_batch_get(#[trigger] r@[j], urls@[j], headers@),
        decreases urls@.len() - i,
    {
        let spec = RequestSpec::get(urls[i].clone(), copy_headers(headers));
        r.push(spec);
        i = i + 1;
    }
    r
}

} // verus!
