//! Requests to the WMATA API, and the reading of their responses.
use crate::error::{Error, ErrorKind, ErrorResponse};
use crate::json::{parse_json, parsed_json, FromJson};
use vstd::prelude::*;

verus! {

/// One GET request: the endpoint, the key sent in the `api_key` header, and
/// the query pairs in the order they are sent.
#[derive(Clone, Debug)]
pub struct Request {
    pub api_key: String,
    pub path: String,
    pub query: Option<Vec<(String, String)>>,
}

/// The characters of each name and value of a query.
pub open spec fn pairs_view(q: Seq<(String, String)>) -> Seq<(Seq<char>, Seq<char>)> {
    q.map_values(|p: (String, String)| (p.0@, p.1@))
}

/// A [`Request`] as characters.
pub struct RequestView {
    pub api_key: Seq<char>,
    pub path: Seq<char>,
    pub query: Option<Seq<(Seq<char>, Seq<char>)>>,
}

impl View for Request {
    type V = RequestView;

    open spec fn view(&self) -> RequestView {
        RequestView {
            api_key: self.api_key@,
            path: self.path@,
            query: match self.query {
                Some(q) => Some(pairs_view(q@)),
                None => None,
            },
        }
    }
}

impl Request {
    pub fn new(api_key: &str, path: &str, query: Option<Vec<(String, String)>>) -> (r: Request)
        ensures
            r.api_key@ == api_key@,
            r.path@ == path@,
            r.query == query,
    {
        Request { api_key: String::from_str(api_key), path: String::from_str(path), query }
    }
}

/// The query sent for the given pairs: none at all when there are no pairs.
pub open spec fn query_of(pairs: Seq<(Seq<char>, Seq<char>)>) -> Option<Seq<(Seq<char>, Seq<char>)>> {
    if pairs.len() == 0 {
        None
    } else {
        Some(pairs)
    }
}

/// The single pair `(name, value)` when a value is given, and no pair otherwise.
pub open spec fn pair_if(name: Seq<char>, value: Option<Seq<char>>) -> Seq<(Seq<char>, Seq<char>)> {
    match value {
        Some(v) => seq![(name, v)],
        None => Seq::empty(),
    }
}

/// Whether no two pairs share a name.
pub open spec fn distinct_names(pairs: Seq<(Seq<char>, Seq<char>)>) -> bool {
    forall|i: int, k: int| 0 <= i < k < pairs.len() ==> pairs[i].0 != pairs[k].0
}

/// Appends the pair `(name, value)` to a query.
pub fn push_pair(query: &mut Vec<(String, String)>, name: &str, value: String)
    ensures
        pairs_view(final(query)@) == pairs_view(old(query)@).push((name@, value@)),
{
    query.push((String::from_str(name), value));
    assert(pairs_view(final(query)@) =~= pairs_view(old(query)@).push((name@, value@)));
}

/// A request for `path` with the given pairs, sending no query when there are none.
pub fn request_with(api_key: &String, path: String, query: Vec<(String, String)>) -> (r: Request)
    ensures
        r@ == (RequestView { api_key: api_key@, path: path@, query: query_of(pairs_view(query@)) }),
{
    if query.len() == 0 {
        Request { api_key: api_key.clone(), path, query: None }
    } else {
        Request { api_key: api_key.clone(), path, query: Some(query) }
    }
}

/// Sends a [`Request`] and hands back the body of the response, whatever its
/// status, or a description of the transport failure.
pub trait Requester {
    fn request(&self, request: &Request) -> Result<String, String>;
}

/// Whether the body is a JSON document with the shape of `T`.
pub open spec fn body_accepts<T: FromJson>(body: Seq<char>) -> bool {
    match parsed_json(body) {
        Some(j) => T::accepts(j),
        None => false,
    }
}

/// Whether `x` is what is read out of the body.
pub open spec fn body_read<T: FromJson>(x: T, body: Seq<char>) -> bool {
    match parsed_json(body) {
        Some(j) => x.read_from(j),
        None => false,
    }
}

/// Whether the body is the API's error envelope.
pub open spec fn is_envelope(body: Seq<char>) -> bool {
    body_accepts::<ErrorResponse>(body)
}

/// Whether the body is the API's error envelope carrying `message`.
pub open spec fn envelope_says(body: Seq<char>, message: String) -> bool {
    body_read(ErrorResponse { message }, body)
}

/// Settles the outcome of reading a body as the expected shape.
///
/// A value read is returned as it is, and the body is not looked at again.
/// Otherwise the body is read as the API's error envelope: when it is one,
/// the error carries the envelope's message; when it is not, the error
/// carries the message from reading the expected shape.
pub fn settle<T>(first: Result<T, String>, body: &str) -> (r: Result<T, Error>)
    ensures
        first is Ok ==> r is Ok && r->Ok_0 == first->Ok_0,
        first is Err ==> r is Err,
        first is Err && is_envelope(body@) ==> r->Err_0.kind == ErrorKind::Api
            && envelope_says(body@, r->Err_0.message),
        first is Err && !is_envelope(body@) ==> r->Err_0.kind == ErrorKind::Malformed
            && r->Err_0.message == first->Err_0,
{
    match first {
        Ok(value) => Ok(value),
        Err(shape_error) => {
            let envelope = match parse_json(body) {
                Ok(j) => ErrorResponse::from_json(&j),
                Err(e) => Err(e),
            };
            match envelope {
                Ok(envelope) => Err(Error::new(ErrorKind::Api, envelope.message)),
                Err(_) => Err(Error::new(ErrorKind::Malformed, shape_error)),
            }
        },
    }
}

/// Reads a body as `T`, falling back to the API's error envelope.
pub fn deserialize<T: FromJson>(body: &str) -> (r: Result<T, Error>)
    ensures
        r is Ok <==> body_accepts::<T>(body@),
        r is Ok ==> body_read(r->Ok_0, body@),
        r is Err ==> (r->Err_0.kind == ErrorKind::Api <==> is_envelope(body@)),
        r is Err && r->Err_0.kind == ErrorKind::Api ==> envelope_says(body@, r->Err_0.message),
        r is Err ==> r->Err_0.kind != ErrorKind::Transport,
{
    let first = match parse_json(body) {
        Ok(j) => T::from_json(&j),
        Err(e) => Err(e),
    };
    settle(first, body)
}

/// Sends the request and reads the body of the response as `T`.
///
/// A transport failure is returned as an error of kind
/// [`ErrorKind::Transport`] with the transport's description; any body is
/// read as [`deserialize`] reads it.
pub fn fetch<T: FromJson, R: Requester>(requester: &R, request: &Request) -> (r: Result<T, Error>)
    ensures
        r is Ok ==> exists|body: Seq<char>| body_read(r->Ok_0, body),
        r is Err && r->Err_0.kind == ErrorKind::Api ==> exists|body: Seq<char>|
            envelope_says(body, r->Err_0.message),
{
    match requester.request(request) {
        Ok(body) => deserialize::<T>(body.as_str()),
        Err(message) => Err(Error::new(ErrorKind::Transport, message)),
    }
}

/// Reading the same body twice reports the same error envelope: nothing but
/// the body decides the message.
pub proof fn lemma_same_body_same_envelope(body: Seq<char>, m1: String, m2: String)
    requires
        envelope_says(body, m1),
        envelope_says(body, m2),
    ensures
        m1 == m2,
{
}

} // verus!
