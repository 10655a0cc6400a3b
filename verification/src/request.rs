//! The request handed to middleware, and how it is put together.

use crate::body::{select_framing, Body};
use crate::extensions::{Extension, ExtensionStore};
use crate::resolver::{
    opt_view, resolve, resolve_spec, RequestTarget, ResolveError, Url, UrlView,
};
use crate::source::ByteSource;
use hyper::header::Headers;
use hyper::method::Method;
use vstd::prelude::*;

verus! {

/// hyper's header mapping. Its contents are opaque here.
#[verifier::external_type_specification]
#[verifier::external_body]
pub struct ExHeaders(Headers);

/// hyper's request method. Its variants are opaque here.
#[verifier::external_type_specification]
#[verifier::external_body]
pub struct ExMethod(Method);

/// An IP address, as the number that its bytes spell in network order.
#[derive(Clone, Copy, Debug, PartialEq, Eq, Structural)]
pub enum IpAddress {
    V4(u32),
    V6(u128),
}

/// One end of a connection.
#[derive(Clone, Copy, Debug, PartialEq, Eq, Structural)]
pub struct Address {
    pub ip: IpAddress,
    pub port: u16,
}

/// The protocol that a server speaks on a socket.
#[derive(Clone, Copy, Debug, PartialEq, Eq, Structural)]
pub enum Protocol {
    Http,
    Https,
}

impl Protocol {
    /// The URL scheme of the protocol.
    pub open spec fn scheme(&self) -> Seq<char> {
        match self {
            Protocol::Http => seq!['h', 't', 't', 'p'],
            Protocol::Https => seq!['h', 't', 't', 'p', 's'],
        }
    }

    /// The URL scheme of the protocol: `http` or `https`.
    pub fn name(&self) -> (text: &'static str)
        ensures
            text@ == self.scheme(),
    {
        proof {
            reveal_strlit("http");
            reveal_strlit("https");
        }
        match self {
            Protocol::Http => {
                assert("http"@ =~= seq!['h', 't', 't', 'p']);
                "http"
            },
            Protocol::Https => {
                assert("https"@ =~= seq!['h', 't', 't', 'p', 's']);
                "https"
            },
        }
    }
}

/// A message as the protocol layer hands it over: already tokenized, with
/// the connection positioned at the first byte of its body.
#[derive(Debug)]
pub struct HttpRequest {
    pub remote_addr: Address,
    pub method: Method,
    pub headers: Headers,
    /// The hostname of the Host header, where the message has one.
    pub host: Option<String>,
    pub uri: RequestTarget,
    /// The length that the message declared for its body, if any.
    pub content_length: Option<u64>,
    /// Whether the message declared chunked transfer-encoding.
    pub chunked: bool,
    pub reader: ByteSource,
}

/// The request given to all middleware.
#[derive(Debug)]
pub struct Request {
    /// The requested URL.
    pub url: Url,
    /// The originating address of the request.
    pub remote_addr: Address,
    /// The local address of the request.
    pub local_addr: Address,
    /// The request headers.
    pub headers: Headers,
    /// The request body.
    pub body: Body,
    /// The request method.
    pub method: Method,
    /// Storage for data passed between middleware.
    pub extensions: ExtensionStore,
}

impl Request {
    /// Whether this is the request that `req` becomes once its URL has
    /// resolved to `url`: every part is carried over as it is, the body is
    /// framed by what the message declared, and the store starts empty.
    pub open spec fn built_from(&self, req: HttpRequest, local_addr: Address, url: UrlView) -> bool {
        &&& self.url@ == url
        &&& self.remote_addr == req.remote_addr
        &&& self.local_addr == local_addr
        &&& self.headers == req.headers
        &&& self.method == req.method
        &&& self.body.source == req.reader
        &&& self.body.framing == select_framing(req.content_length, req.chunked)
        &&& self.extensions@ == Map::<u64, Extension>::empty()
    }

    /// Puts the resolved URL and the parts of `req` together.
    pub fn assemble(req: HttpRequest, local_addr: Address, url: Url) -> (request: Request)
        ensures
            request.built_from(req, local_addr, url@),
    {
        let HttpRequest {
            remote_addr,
            method,
            headers,
            host: _,
            uri: _,
            content_length,
            chunked,
            reader,
        } = req;
        Request {
            url,
            remote_addr,
            local_addr,
            headers,
            body: Body::from_reader(reader, content_length, chunked),
            method,
            extensions: ExtensionStore::new(),
        }
    }

    /// Creates a request from a tokenized message, consuming it. The URL is
    /// resolved first, from the target, the hostname that the message
    /// carries, the protocol's scheme and the local port; where that fails,
    /// so does this, with the same error and no request.
    pub fn from_http(req: HttpRequest, local_addr: Address, protocol: &Protocol) -> (res: Result<Request, ResolveError>)
        ensures
            match res {
                Ok(request) => {
                    &&& resolve_spec(req.uri, opt_view(req.host), protocol.scheme(), local_addr.port) == Ok::<UrlView, ResolveError>(request.url@)
                    &&& request.built_from(req, local_addr, request.url@)
                },
                Err(e) => resolve_spec(req.uri, opt_view(req.host), protocol.scheme(), local_addr.port) == Err::<UrlView, ResolveError>(e),
            },
    {
        let resolved = match &req.host {
            Some(hostname) => resolve(&req.uri, Some(hostname.as_str()), protocol.name(), local_addr.port),
            None => resolve(&req.uri, None, protocol.name(), local_addr.port),
        };
        match resolved {
            Ok(url) => Ok(Request::assemble(req, local_addr, url)),
            Err(e) => Err(e),
        }
    }

    /// The store that middleware keeps its data in.
    pub fn extensions(&self) -> (store: &ExtensionStore)
        ensures
            *store == self.extensions,
    {
        &self.extensions
    }

    /// The store that middleware keeps its data in, to change it. Nothing
    /// else of the request changes with it.
    pub fn extensions_mut(&mut self) -> (store: &mut ExtensionStore)
        ensures
            *store == old(self).extensions,
            final(self).extensions == *final(store),
            final(self).url == old(self).url,
            final(self).remote_addr == old(self).remote_addr,
            final(self).local_addr == old(self).local_addr,
            final(self).headers == old(self).headers,
            final(self).body == old(self).body,
            final(self).method == old(self).method,
    {
        &mut self.extensions
    }
}

} // verus!
