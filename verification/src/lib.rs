//! Ergonomic HTTP client for WebAssembly components.
//!
//! The library holds the verified logic of the client: the request builder,
//! the header collection, the redirect policy, the translation of a request
//! into the pieces that the `wasi:http` transport takes, and the buffered
//! response body. The transport itself is driven from outside the library.

pub mod body;
pub mod error;
pub mod headers;
pub mod method;
pub mod request;
pub mod uri;

pub use body::{chunk_step, Body, ChunkStep, Frame};
pub use error::FetchError;
pub use headers::{value_to_str, Headers, MAX_HEADER_NAME_LEN};
pub use method::{to_wasi_method, ExtensionName, Method, WasiMethod};
pub use request::{
    options_from_nanos, outgoing_from_parts, prepare_request, transport_options, Exchange, Next,
    OutgoingRequest, RequestBuilder, Scheme, TransportOptions, DEFAULT_REDIRECT_LIMIT,
};
pub use uri::{redirect_target, resolve_redirect, JoinFailure, UriParts};

use vstd::prelude::*;

use request::fresh_builder;

verus! {

/// Stateless HTTP client.
pub struct Client;

impl Client {
    /// Creates a client.
    pub fn new() -> (c: Self)
        ensures
            c == Client,
    {
        Client
    }

    /// A builder for a GET request to `url`.
    pub fn get(&self, url: &str) -> (b: RequestBuilder)
        ensures
            b@ == fresh_builder(Method::Get, url@),
    {
        RequestBuilder::new(Method::Get, url)
    }

    /// A builder for a POST request to `url`.
    pub fn post(&self, url: &str) -> (b: RequestBuilder)
        ensures
            b@ == fresh_builder(Method::Post, url@),
    {
        RequestBuilder::new(Method::Post, url)
    }

    /// A builder for a PUT request to `url`.
    pub fn put(&self, url: &str) -> (b: RequestBuilder)
        ensures
            b@ == fresh_builder(Method::Put, url@),
    {
        RequestBuilder::new(Method::Put, url)
    }

    /// A builder for a DELETE request to `url`.
    pub fn delete(&self, url: &str) -> (b: RequestBuilder)
        ensures
            b@ == fresh_builder(Method::Delete, url@),
    {
        RequestBuilder::new(Method::Delete, url)
    }

    /// A builder for a PATCH request to `url`.
    pub fn patch(&self, url: &str) -> (b: RequestBuilder)
        ensures
            b@ == fresh_builder(Method::Patch, url@),
    {
        RequestBuilder::new(Method::Patch, url)
    }

    /// A builder for a HEAD request to `url`.
    pub fn head(&self, url: &str) -> (b: RequestBuilder)
        ensures
            b@ == fresh_builder(Method::Head, url@),
    {
        RequestBuilder::new(Method::Head, url)
    }

    /// A builder for a request of any method to `url`.
    pub fn request(&self, method: Method, url: &str) -> (b: RequestBuilder)
        ensures
            b@ == fresh_builder(method, url@),
    {
        RequestBuilder::new(method, url)
    }
}

impl Default for Client {
    fn default() -> (c: Self)
        ensures
            c == Client,
    {
        Client::new()
    }
}

} // verus!
