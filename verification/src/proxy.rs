//! The reverse-proxy data path: what is forwarded to the Podman
//! backend and what is relayed back. The proxy neither reinterprets
//! nor re-encodes anything: both builders carry their fields through
//! unchanged, and say so. One cross-cutting step
//! belongs to the router: the content-type header of the outgoing
//! response is forced to a canonical value.

use vstd::prelude::*;

use crate::router::Method;
use crate::strutil::str_eq;

verus! {

/// A request as the proxy forwards it: the original method, the
/// original path with its query string, and the original body bytes.
#[derive(Debug, Clone, PartialEq)]
pub struct ProxyRequest {
    pub method: Method,
    pub path_and_query: String,
    pub body: Vec<u8>,
}

/// A response as the proxy relays it: the backend's status and body,
/// untouched.
#[derive(Debug, Clone, PartialEq)]
pub struct ProxyResponse {
    pub status: u16,
    pub body: Vec<u8>,
}

/// The target of a forwarded request: the path with its query string
/// when the request carries one, else the bare path.
pub fn proxy_target(path: String, path_and_query: Option<String>) -> (r: String)
    ensures
        match path_and_query {
            Some(pq) => r == pq,
            None => r == path,
        },
{
    match path_and_query {
        Some(pq) => pq,
        None => path,
    }
}

/// Builds the request the proxy sends: method, target and body are
/// exactly the inbound ones, byte for byte.
pub fn build_proxy_request(method: Method, path_and_query: String, body: Vec<u8>) -> (r:
    ProxyRequest)
    ensures
        r.method == method,
        r.path_and_query == path_and_query,
        r.body == body,
{
    ProxyRequest { method, path_and_query, body }
}

/// Builds the response handed back to the client: status and body are
/// exactly what the backend answered.
pub fn relay_response(status: u16, body: Vec<u8>) -> (r: ProxyResponse)
    ensures
        r.status == status,
        r.body == body,
{
    ProxyResponse { status, body }
}

/// Forces the content-type header of an outgoing response to
/// `application/json`: every entry under that name is dropped and one
/// canonical entry is appended, so clients relying on either JSON or
/// unspecified content types are treated uniformly. Keys are compared
/// in their canonical form.
#[verifier::loop_isolation(false)]
pub fn force_content_type(headers: Vec<(String, String)>) -> (r: Vec<(String, String)>)
    ensures
        r@.len() >= 1,
        r@.last().0@ == "Content-Type"@,
        r@.last().1@ == "application/json"@,
        r@.drop_last() == headers@.filter(
            |h: (String, String)| h.0@ != "Content-Type"@,
        ),
{
    let ghost orig = headers@;
    let ghost pred = |h: (String, String)| h.0@ != "Content-Type"@;
    let n = headers.len();
    proof {
        assert(n == orig.len());
    }
    let mut headers = headers;
    let mut kept: Vec<(String, String)> = Vec::new();
    let mut taken: usize = 0;
    while headers.len() > 0
        invariant
            taken + headers@.len() == orig.len(),
            headers@ == orig.skip(taken as int),
            kept@ == orig.take(taken as int).filter(pred),
        decreases headers@.len(),
    {
        let ghost k = taken as int;
        let h = headers.remove(0);
        proof {
            assert(orig.skip(k)[0] == orig[k]);
            assert(orig.skip(k).remove(0) =~= orig.skip(k + 1));
            let pre = orig.take(k);
            let cur = orig.take(k + 1);
            assert(cur.drop_last() =~= pre);
            assert(cur.last() == orig[k]);
            reveal_with_fuel(Seq::<(String, String)>::filter, 2);
            assert(cur.filter(pred) == if pred(orig[k]) {
                pre.filter(pred).push(orig[k])
            } else {
                pre.filter(pred)
            });
        }
        let is_ct = str_eq(h.0.as_str(), "Content-Type");
        proof {
            assert(is_ct == !pred(orig[k]));
        }
        if !is_ct {
            kept.push(h);
        }
        taken += 1;
    }
    proof {
        assert(orig.take(orig.len() as int) =~= orig);
    }
    kept.push(("Content-Type".to_owned(), "application/json".to_owned()));
    proof {
        assert(kept@.drop_last() =~= orig.filter(pred));
    }
    kept
}

} // verus!
