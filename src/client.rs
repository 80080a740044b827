//! Requests ready for the transport, and the client configuration that
//! signed requests are made with.

use vstd::prelude::*;
use vstd::string::*;
use crate::encode::{Param, encode_params, params_view, query_text};
use crate::sign::{sign_query, signed_query};

verus! {

#[derive(Clone, Copy, Debug, PartialEq, Eq, Structural)]
pub enum Method {
    Get,
    Post,
    Put,
    Delete,
}

/// A request as the transport sends it: the verb, the path under the base
/// URL, and the query. A signed request also carries the API key as the
/// `X-MBX-APIKEY` header.
#[derive(Clone, Debug)]
pub struct Request {
    pub method: Method,
    pub path: String,
    pub query: String,
    pub signed: bool,
}

/// Whether `r` is the unsigned request `method path?query` for the parameters.
pub open spec fn is_public_request(
    r: Request,
    method: Method,
    path: Seq<char>,
    params: Seq<(Seq<char>, Seq<char>)>,
) -> bool {
    &&& r.method == method
    &&& r.path@ == path
    &&& !r.signed
    &&& r.query@ == query_text(params)
}

/// Whether `r` is the signed request `method path?query` for the parameters,
/// the receive window, the timestamp and the secret.
pub open spec fn is_signed_request(
    r: Request,
    method: Method,
    path: Seq<char>,
    params: Seq<(Seq<char>, Seq<char>)>,
    recv_window: u64,
    timestamp: u64,
    secret: Seq<char>,
) -> bool {
    &&& r.method == method
    &&& r.path@ == path
    &&& r.signed
    &&& r.query@ == signed_query(query_text(params), recv_window as nat, timestamp as nat, secret)
}

/// The receive window of a request: its own where it has one, else the default.
pub open spec fn recv_window_or(own: Option<u64>, default: u64) -> u64 {
    match own {
        Some(w) => w,
        None => default,
    }
}

/// Picks the receive window of a request.
pub fn pick_recv_window(own: Option<u64>, default: u64) -> (r: u64)
    ensures
        r == recv_window_or(own, default),
{
    match own {
        Some(w) => w,
        None => default,
    }
}

/// The credentials and the base URL that every call is made with.
#[derive(Clone, Debug)]
pub struct Client {
    /// Sent as a header with every signed request.
    pub api_key: String,
    /// Never sent: only the key of the signatures.
    pub secret_key: String,
    pub host: String,
}

impl Client {
    /// An unsigned request.
    pub fn public_request(&self, method: Method, path: &str, params: &Vec<Param>) -> (r: Request)
        ensures
            is_public_request(r, method, path@, params_view(params@)),
    {
        Request { method, path: String::from_str(path), query: encode_params(params), signed: false }
    }

    /// A request signed with this client's secret.
    pub fn signed_request(
        &self,
        method: Method,
        path: &str,
        params: &Vec<Param>,
        recv_window: u64,
        timestamp: u64,
    ) -> (r: Request)
        ensures
            is_signed_request(
                r,
                method,
                path@,
                params_view(params@),
                recv_window,
                timestamp,
                self.secret_key@,
            ),
    {
        let encoded = encode_params(params);
        let query = sign_query(encoded.as_str(), recv_window, timestamp, self.secret_key.as_str());
        Request { method, path: String::from_str(path), query, signed: true }
    }
}

} // verus!
