//! The effective URL of a request, from its request-target and Host header.

use vstd::prelude::*;

verus! {

/// An absolute URL, split into the components that routing reads.
#[derive(Clone, Debug, PartialEq, Eq)]
pub struct Url {
    pub scheme: String,
    pub host: String,
    pub port: u16,
    pub path: String,
    pub query: Option<String>,
}

/// The mathematical value of a `Url`.
pub ghost struct UrlView {
    pub scheme: Seq<char>,
    pub host: Seq<char>,
    pub port: u16,
    pub path: Seq<char>,
    pub query: Option<Seq<char>>,
}

/// The view of an optional string.
pub open spec fn opt_view(s: Option<String>) -> Option<Seq<char>> {
    match s {
        Some(text) => Some(text@),
        None => None,
    }
}

impl View for Url {
    type V = UrlView;

    open spec fn view(&self) -> UrlView {
        UrlView {
            scheme: self.scheme@,
            host: self.host@,
            port: self.port,
            path: self.path@,
            query: opt_view(self.query),
        }
    }
}

/// What the URL grammar makes of a string that it accepts. The host is
/// missing in a URL without an authority; the port is missing where none
/// is written and the scheme has no default one.
#[derive(Clone, Debug, PartialEq, Eq)]
pub struct RawUrl {
    pub scheme: String,
    pub host: Option<String>,
    pub port: Option<u16>,
    pub path: String,
    pub query: Option<String>,
}

/// The mathematical value of a `RawUrl`.
pub ghost struct UrlParts {
    pub scheme: Seq<char>,
    pub host: Option<Seq<char>>,
    pub port: Option<u16>,
    pub path: Seq<char>,
    pub query: Option<Seq<char>>,
}

impl View for RawUrl {
    type V = UrlParts;

    open spec fn view(&self) -> UrlParts {
        UrlParts {
            scheme: self.scheme@,
            host: opt_view(self.host),
            port: self.port,
            path: self.path@,
            query: opt_view(self.query),
        }
    }
}

/// The request-target of a request line, in one of its four forms.
#[derive(Clone, Debug, PartialEq, Eq)]
pub enum RequestTarget {
    /// A whole URL, as a proxy receives it.
    AbsoluteUri(String),
    /// A path, with its query if it has one; the usual form.
    AbsolutePath(String),
    /// A host and port, as `CONNECT` sends it.
    Authority(String),
    /// The asterisk of a server-wide `OPTIONS`.
    Star,
}

/// Why a request has no effective URL.
#[derive(Clone, Copy, Debug, PartialEq, Eq, Structural)]
pub enum ResolveError {
    /// The target is a path and the request has no Host header.
    MissingHost,
    /// The URL, given or put together, is not an absolute URL with a host
    /// and a port.
    MalformedUrl,
    /// The target is neither a URL nor a path.
    UnsupportedTarget,
}

/// The components that the URL grammar gives for `input`, or `None` where
/// the grammar rejects it.
pub uninterp spec fn url_parse(input: Seq<char>) -> Option<UrlParts>;

/// The character of a decimal digit.
pub open spec fn digit_char(d: nat) -> char {
    if d == 0 {
        '0'
    } else if d == 1 {
        '1'
    } else if d == 2 {
        '2'
    } else if d == 3 {
        '3'
    } else if d == 4 {
        '4'
    } else if d == 5 {
        '5'
    } else if d == 6 {
        '6'
    } else if d == 7 {
        '7'
    } else if d == 8 {
        '8'
    } else {
        '9'
    }
}

/// `n` in decimal, without leading zeros.
pub open spec fn decimal(n: nat) -> Seq<char>
    decreases n,
{
    if n < 10 {
        seq![digit_char(n)]
    } else {
        decimal(n / 10).push(digit_char(n % 10))
    }
}

/// The URL text put together for a path target: `scheme://host:port` and
/// then the path as it was sent.
pub open spec fn absolute_form(scheme: Seq<char>, host: Seq<char>, port: u16, path: Seq<char>) -> Seq<char> {
    scheme + seq![':', '/', '/'] + host + seq![':'] + decimal(port as nat) + path
}

/// The URL that parsed components stand for: they must name a host and
/// have a port, written or implied by the scheme.
pub open spec fn checked(parsed: Option<UrlParts>) -> Result<UrlView, ResolveError> {
    match parsed {
        Some(parts) => match (parts.host, parts.port) {
            (Some(host), Some(port)) => Ok(
                UrlView { scheme: parts.scheme, host, port, path: parts.path, query: parts.query },
            ),
            _ => Err(ResolveError::MalformedUrl),
        },
        None => Err(ResolveError::MalformedUrl),
    }
}

/// The effective URL of a request with the given target and Host header,
/// received on `local_port` over a protocol whose scheme is `scheme`.
pub open spec fn resolve_spec(
    target: RequestTarget,
    host: Option<Seq<char>>,
    scheme: Seq<char>,
    local_port: u16,
) -> Result<UrlView, ResolveError> {
    match target {
        RequestTarget::AbsoluteUri(uri) => checked(url_parse(uri@)),
        RequestTarget::AbsolutePath(path) => match host {
            Some(hostname) => checked(url_parse(absolute_form(scheme, hostname, local_port, path@))),
            None => Err(ResolveError::MissingHost),
        },
        RequestTarget::Authority(_) => Err(ResolveError::UnsupportedTarget),
        RequestTarget::Star => Err(ResolveError::UnsupportedTarget),
    }
}

/// Whether `res` is the exec counterpart of `expected`.
pub open spec fn agrees(res: Result<Url, ResolveError>, expected: Result<UrlView, ResolveError>) -> bool {
    match res {
        Ok(url) => expected == Ok::<UrlView, ResolveError>(url@),
        Err(e) => expected == Err::<UrlView, ResolveError>(e),
    }
}

/// `Url::parse` of the url crate, with the components of what it accepts
/// read off by `scheme`, `host_str`, `port_or_known_default`, `path` and
/// `query`. Nothing is proved of it: the contract only gives the outcome
/// its name.
#[verifier::external_body]
fn parse_url(input: &str) -> (res: Option<RawUrl>)
    ensures
        res matches Some(raw) ==> url_parse(input@) == Some(raw@),
        res is None ==> url_parse(input@) is None,
{
    match ::url::Url::parse(input) {
        Ok(parsed) => Some(RawUrl {
            scheme: parsed.scheme().to_owned(),
            host: parsed.host_str().map(str::to_owned),
            port: parsed.port_or_known_default(),
            path: parsed.path().to_owned(),
            query: parsed.query().map(str::to_owned),
        }),
        Err(_) => None,
    }
}

/// `String::from_iter` over the characters of `chars`: the string that
/// holds exactly those characters, in order.
#[verifier::external_body]
fn string_of(chars: &Vec<char>) -> (text: String)
    ensures
        text@ == chars@,
{
    chars.iter().collect()
}

/// Appends the characters of `text` to `out`.
fn push_text(out: &mut Vec<char>, text: &str)
    ensures
        final(out)@ == old(out)@ + text@,
{
    let n: usize = text.unicode_len();
    let mut i: usize = 0;
    while i < n
        invariant
            i <= n,
            n == text@.len(),
            out@ == old(out)@ + text@.take(i as int),
        decreases n - i,
    {
        out.push(text.get_char(i));
        assert(text@.take(i + 1) =~= text@.take(i as int).push(text@[i as int]));
        i += 1;
    }
    assert(text@.take(n as int) =~= text@);
}

/// The character of the decimal digit `d`.
fn digit(d: u16) -> (c: char)
    requires
        d < 10,
    ensures
        c == digit_char(d as nat),
{
    if d == 0 {
        '0'
    } else if d == 1 {
        '1'
    } else if d == 2 {
        '2'
    } else if d == 3 {
        '3'
    } else if d == 4 {
        '4'
    } else if d == 5 {
        '5'
    } else if d == 6 {
        '6'
    } else if d == 7 {
        '7'
    } else if d == 8 {
        '8'
    } else {
        '9'
    }
}

/// Appends `n` in decimal to `out`.
fn push_decimal(out: &mut Vec<char>, n: u16)
    ensures
        final(out)@ == old(out)@ + decimal(n as nat),
    decreases n,
{
    if n >= 10 {
        push_decimal(out, n / 10);
    }
    out.push(digit(n % 10));
    proof {
        if n >= 10 {
            assert(old(out)@ + decimal(n as nat) =~= (old(out)@ + decimal((n / 10) as nat)).push(
                digit_char((n % 10) as nat),
            ));
        } else {
            assert(old(out)@ + decimal(n as nat) =~= old(out)@.push(digit_char(n as nat)));
        }
    }
}

/// Writes out the URL of a path target: `scheme://host:port` and then the
/// path. The port is the one that the server listens on.
pub fn synthesize(scheme: &str, host: &str, local_port: u16, path: &str) -> (text: String)
    ensures
        text@ == absolute_form(scheme@, host@, local_port, path@),
{
    let mut out: Vec<char> = Vec::new();
    push_text(&mut out, scheme);
    out.push(':');
    out.push('/');
    out.push('/');
    push_text(&mut out, host);
    out.push(':');
    push_decimal(&mut out, local_port);
    push_text(&mut out, path);
    assert(out@ =~= absolute_form(scheme@, host@, local_port, path@));
    string_of(&out)
}

/// Turns parsed components into a URL, or refuses them where they name no
/// host or have no port.
pub fn check_parsed(parsed: Option<RawUrl>) -> (res: Result<Url, ResolveError>)
    ensures
        agrees(
            res,
            checked(
                match parsed {
                    Some(raw) => Some(raw@),
                    None => None,
                },
            ),
        ),
{
    match parsed {
        Some(raw) => {
            let RawUrl { scheme, host, port, path, query } = raw;
            match (host, port) {
                (Some(host), Some(port)) => Ok(Url { scheme, host, port, path, query }),
                _ => Err(ResolveError::MalformedUrl),
            }
        },
        None => Err(ResolveError::MalformedUrl),
    }
}

/// Resolves the effective URL of a request. A URL target is taken as it is
/// given. A path target takes its host from the Host header, its scheme
/// from the protocol and its port from the listening socket. Every other
/// target is refused.
pub fn resolve(target: &RequestTarget, host: Option<&str>, scheme: &str, local_port: u16) -> (res: Result<Url, ResolveError>)
    ensures
        agrees(
            res,
            resolve_spec(
                *target,
                match host {
                    Some(hostname) => Some(hostname@),
                    None => None,
                },
                scheme@,
                local_port,
            ),
        ),
{
    match target {
        RequestTarget::AbsoluteUri(uri) => check_parsed(parse_url(uri.as_str())),
        RequestTarget::AbsolutePath(path) => match host {
            Some(hostname) => {
                let text = synthesize(scheme, hostname, local_port, path.as_str());
                check_parsed(parse_url(text.as_str()))
            },
            None => Err(ResolveError::MissingHost),
        },
        RequestTarget::Authority(_) => Err(ResolveError::UnsupportedTarget),
        RequestTarget::Star => Err(ResolveError::UnsupportedTarget),
    }
}

/// A URL target is taken as given: where the grammar accepts it with a
/// host and a port, the effective URL has exactly its scheme, host, port,
/// path and query, whatever the Host header, protocol and listening port.
pub proof fn absolute_uri_taken_as_given(
    uri: String,
    host: Option<Seq<char>>,
    scheme: Seq<char>,
    local_port: u16,
)
    requires
        url_parse(uri@) is Some,
        url_parse(uri@)->0.host is Some,
        url_parse(uri@)->0.port is Some,
    ensures
        resolve_spec(RequestTarget::AbsoluteUri(uri), host, scheme, local_port) == Ok::<UrlView, ResolveError>(
            UrlView {
                scheme: url_parse(uri@)->0.scheme,
                host: url_parse(uri@)->0.host->0,
                port: url_parse(uri@)->0.port->0,
                path: url_parse(uri@)->0.path,
                query: url_parse(uri@)->0.query,
            },
        ),
{
}

/// A path target without a Host header never resolves: the answer is
/// `MissingHost`, whatever the path, protocol and listening port.
pub proof fn absolute_path_needs_host(path: String, scheme: Seq<char>, local_port: u16)
    ensures
        resolve_spec(RequestTarget::AbsolutePath(path), None, scheme, local_port) == Err::<UrlView, ResolveError>(
            ResolveError::MissingHost,
        ),
{
}

} // verus!
