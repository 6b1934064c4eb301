use vstd::prelude::*;
use vstd::string::*;

use std::time::Duration;

use crate::error::FetchError;
use crate::headers::{
    ascii_text, copy_bytes, entries_of, is_field_value, is_token, is_visible_byte, lookup,
    lowercase, normal_name, opt_bytes, set_entry, value_to_str, EntryView, Headers,
};
use crate::method::{sent_as, to_wasi_method, Method, WasiMethod};
use crate::uri::{
    headed, opt_text, parse_uri, parts_view, resolve_redirect, spec_resolve, spec_uri_parse,
    UriParts, UriView,
};

verus! {

/// The number of redirects that a request follows unless told otherwise.
pub const DEFAULT_REDIRECT_LIMIT: u8 = 10;

/// The content type that a JSON body is sent with.
pub open spec fn json_content_type() -> Seq<u8> {
    seq![97u8, 112, 112, 108, 105, 99, 97, 116, 105, 111, 110, 47, 106, 115, 111, 110]
}

/// Builder for an HTTP request.
pub struct RequestBuilder {
    method: Method,
    url: String,
    headers: Headers,
    body: Option<Vec<u8>>,
    timeout: Option<Duration>,
    between_bytes_timeout: Option<Duration>,
    redirect_limit: u8,
}

/// What a request builder holds, as the contracts see it.
pub struct BuilderView {
    pub method: Method,
    pub url: Seq<char>,
    pub headers: Seq<EntryView>,
    pub body: Option<Seq<u8>>,
    pub timeout: Option<Duration>,
    pub between_bytes_timeout: Option<Duration>,
    pub redirect_limit: u8,
}

impl View for RequestBuilder {
    type V = BuilderView;

    closed spec fn view(&self) -> BuilderView {
        BuilderView {
            method: self.method,
            url: self.url@,
            headers: self.headers@,
            body: opt_bytes(self.body),
            timeout: self.timeout,
            between_bytes_timeout: self.between_bytes_timeout,
            redirect_limit: self.redirect_limit,
        }
    }
}

/// A fresh builder for `method` and `url`: no headers, no body, no timeouts,
/// and the default redirect limit.
pub open spec fn fresh_builder(method: Method, url: Seq<char>) -> BuilderView {
    BuilderView {
        method,
        url,
        headers: Seq::empty(),
        body: None,
        timeout: None,
        between_bytes_timeout: None,
        redirect_limit: DEFAULT_REDIRECT_LIMIT,
    }
}

impl RequestBuilder {
    /// A builder for a request of `method` to `url`.
    pub fn new(method: Method, url: &str) -> (b: Self)
        ensures
            b@ == fresh_builder(method, url@),
    {
        let b = RequestBuilder {
            method,
            url: String::from_str(url),
            headers: Headers::new(),
            body: None,
            timeout: None,
            between_bytes_timeout: None,
            redirect_limit: DEFAULT_REDIRECT_LIMIT,
        };
        b
    }

    /// Adds a header, replacing every value that the name had. A name or
    /// value that http does not accept is ignored.
    pub fn header(self, name: &str, value: &[u8]) -> (b: Self)
        ensures
            b@ == (BuilderView {
                headers: if is_token(name@) && is_field_value(value@) {
                    set_entry(self@.headers, lowercase(name@), value@)
                } else {
                    self@.headers
                },
                ..self@
            }),
    {
        let mut b = self;
        let _ = b.headers.insert(name, value);
        b
    }

    /// Replaces all headers.
    pub fn headers(self, headers: Headers) -> (b: Self)
        ensures
            b@ == (BuilderView { headers: headers@, ..self@ }),
    {
        let mut b = self;
        b.headers = headers;
        b
    }

    /// Sets the request body.
    pub fn body(self, body: Vec<u8>) -> (b: Self)
        ensures
            b@ == (BuilderView { body: Some(body@), ..self@ }),
    {
        let mut b = self;
        b.body = Some(body);
        b
    }

    /// Sets a JSON body, given the serialized value, or `None` where the value
    /// could not be serialized. The body then goes with the header
    /// `content-type: application/json`; a value that could not be serialized
    /// leaves the builder unchanged.
    pub fn json(self, serialized: Option<Vec<u8>>) -> (b: Self)
        ensures
            serialized matches Some(v) ==> b@ == (BuilderView {
                body: Some(v@),
                headers: set_entry(self@.headers, "content-type"@, json_content_type()),
                ..self@
            }),
            serialized is None ==> b@ == self@,
    {
        match serialized {
            Some(v) => {
                let mut b = self;
                b.body = Some(v);
                let _ = b.headers.insert("content-type", "application/json".as_bytes());
                proof {
                    reveal_strlit("content-type");
                    reveal_strlit("application/json");
                    assert(is_token("content-type"@));
                    assert(lowercase("content-type"@) =~= "content-type"@);
                    vstd::string::is_ascii_spec_bytes("application/json");
                    assert("application/json".spec_bytes() =~= json_content_type());
                }
                b
            },
            None => self,
        }
    }

    /// Sets the timeout for connecting and for the first byte of the response.
    pub fn timeout(self, duration: Duration) -> (b: Self)
        ensures
            b@ == (BuilderView { timeout: Some(duration), ..self@ }),
    {
        let mut b = self;
        b.timeout = Some(duration);
        b
    }

    /// Sets the longest idle time between frames of the response body.
    pub fn between_bytes_timeout(self, duration: Duration) -> (b: Self)
        ensures
            b@ == (BuilderView { between_bytes_timeout: Some(duration), ..self@ }),
    {
        let mut b = self;
        b.between_bytes_timeout = Some(duration);
        b
    }

    /// Sets the largest number of redirects to follow; 0 turns following off.
    pub fn redirect_limit(self, max: u8) -> (b: Self)
        ensures
            b@ == (BuilderView { redirect_limit: max, ..self@ }),
    {
        let mut b = self;
        b.redirect_limit = max;
        b
    }
}


/// The scheme of a request, as the `wasi:http` transport takes it.
#[derive(PartialEq, Eq, Structural, Clone, Copy, Debug)]
pub enum Scheme {
    Http,
    Https,
}

/// The timeouts of a request, in nanoseconds, as the `wasi:http` transport
/// takes them.
#[derive(PartialEq, Eq, Structural, Clone, Copy, Debug)]
pub struct TransportOptions {
    pub connect_timeout: Option<u64>,
    pub first_byte_timeout: Option<u64>,
    pub between_bytes_timeout: Option<u64>,
}

/// A request in the pieces that the `wasi:http` transport takes.
pub struct OutgoingRequest {
    pub method: WasiMethod,
    pub scheme: Scheme,
    pub authority: Option<String>,
    pub path_with_query: Option<String>,
    /// The header list: names and values, in order.
    pub headers: Vec<(String, Vec<u8>)>,
    /// The body; an empty one is sent without a body stream.
    pub body: Vec<u8>,
    /// The timeouts, where any is set.
    pub options: Option<TransportOptions>,
}

/// What `Duration::as_nanos` gives for a duration.
pub uninterp spec fn spec_duration_nanos(d: Duration) -> u128;

/// Calls `Duration::as_nanos`.
///
/// Claimed: the result is the one named by `spec_duration_nanos`.
#[verifier::external_body]
fn duration_nanos(d: &Duration) -> (n: u128)
    ensures
        n == spec_duration_nanos(*d),
{
    d.as_nanos()
}

/// The nanoseconds of an optional duration.
pub open spec fn duration_nanos_of(t: Option<Duration>) -> Option<u128> {
    match t {
        Some(d) => Some(spec_duration_nanos(d)),
        None => None,
    }
}

/// A timeout in nanoseconds as the transport takes it: the low 64 bits.
pub open spec fn low_nanos(t: Option<u128>) -> Option<u64> {
    match t {
        Some(n) => Some(n as u64),
        None => None,
    }
}

/// The transport options for a request timeout and a between-bytes timeout,
/// in nanoseconds: none where neither is set, else the request timeout for
/// both connecting and the first byte, and the between-bytes timeout.
pub open spec fn options_for_nanos(timeout: Option<u128>, between: Option<u128>) -> Option<TransportOptions> {
    if timeout is None && between is None {
        None
    } else {
        Some(TransportOptions {
            connect_timeout: low_nanos(timeout),
            first_byte_timeout: low_nanos(timeout),
            between_bytes_timeout: low_nanos(between),
        })
    }
}

/// The transport options for a request timeout and a between-bytes timeout.
pub open spec fn options_for(timeout: Option<Duration>, between: Option<Duration>) -> Option<TransportOptions> {
    options_for_nanos(duration_nanos_of(timeout), duration_nanos_of(between))
}

fn low_nanos_of(t: Option<u128>) -> (r: Option<u64>)
    ensures
        r == low_nanos(t),
{
    match t {
        Some(n) => Some(n as u64),
        None => None,
    }
}

/// The transport options for timeouts given in nanoseconds.
pub fn options_from_nanos(timeout: Option<u128>, between: Option<u128>) -> (r: Option<TransportOptions>)
    ensures
        r == options_for_nanos(timeout, between),
{
    if timeout.is_some() || between.is_some() {
        Some(TransportOptions {
            connect_timeout: low_nanos_of(timeout),
            first_byte_timeout: low_nanos_of(timeout),
            between_bytes_timeout: low_nanos_of(between),
        })
    } else {
        None
    }
}

fn nanos_of(t: Option<Duration>) -> (r: Option<u128>)
    ensures
        r == duration_nanos_of(t),
{
    match t {
        Some(d) => {
            let n: u128 = duration_nanos(&d);
            Some(n)
        },
        None => None,
    }
}

/// The transport options for a request timeout and a between-bytes timeout.
pub fn transport_options(timeout: Option<Duration>, between: Option<Duration>) -> (r: Option<TransportOptions>)
    ensures
        r == options_for(timeout, between),
{
    options_from_nanos(nanos_of(timeout), nanos_of(between))
}

/// Whether `r` is the request that a URI with the pieces `p` gives for the
/// other parts: the scheme must be `http` or `https` (anything else, or none,
/// is a URL error), and the rest is handed on as it is.
pub open spec fn request_for(
    r: Result<OutgoingRequest, FetchError>,
    p: UriView,
    method: Method,
    headers: Seq<EntryView>,
    body: Seq<u8>,
    timeout: Option<Duration>,
    between: Option<Duration>,
) -> bool {
    match p.1 {
        None => r matches Err(FetchError::Url(m)) && m@ == "Missing URL scheme"@,
        Some(s) => if s == "https"@ || s == "http"@ {
            r matches Ok(o) && {
                &&& o.scheme == (if s == "https"@ { Scheme::Https } else { Scheme::Http })
                &&& sent_as(method, o.method)
                &&& opt_text(o.authority) == p.2
                &&& opt_text(o.path_with_query) == p.3
                &&& entries_of(o.headers@) == headers
                &&& o.body@ == body
                &&& o.options == options_for(timeout, between)
            }
        } else {
            r matches Err(FetchError::Url(m)) && m@ == "Unsupported scheme: "@ + s
        },
    }
}

/// Translates a request whose URI http has parsed (or failed to) into the
/// pieces that the transport takes.
pub fn outgoing_from_parts(
    parsed: Result<UriParts, String>,
    method: &Method,
    headers: &Headers,
    body: Vec<u8>,
    timeout: Option<Duration>,
    between: Option<Duration>,
) -> (r: Result<OutgoingRequest, FetchError>)
    ensures
        parsed matches Err(e) ==> (r matches Err(FetchError::Url(m)) && m@ == "Invalid URI: "@ + e@),
        parsed matches Ok(p) ==> request_for(r, parts_view(p), *method, headers@, body@, timeout, between),
{
    let p = match parsed {
        Ok(p) => p,
        Err(e) => {
            return Err(FetchError::Url(String::from_str("Invalid URI: ").concat(e.as_str())));
        },
    };
    let ghost pv = parts_view(p);
    let scheme = match &p.scheme {
        Some(s) => {
            if *s == String::from_str("https") {
                Scheme::Https
            } else if *s == String::from_str("http") {
                Scheme::Http
            } else {
                return Err(FetchError::Url(String::from_str("Unsupported scheme: ").concat(s.as_str())));
            }
        },
        None => {
            return Err(FetchError::Url(String::from_str("Missing URL scheme")));
        },
    };
    let o = OutgoingRequest {
        method: to_wasi_method(method),
        scheme,
        authority: p.authority,
        path_with_query: p.path_and_query,
        headers: headers.entries(),
        body,
        options: transport_options(timeout, between),
    };
    Ok(o)
}

/// Translates a request into the pieces that the transport takes: http
/// parses the URI, and the scheme must be `http` or `https`.
pub fn prepare_request(
    method: &Method,
    uri: &str,
    headers: &Headers,
    body: Vec<u8>,
    timeout: Option<Duration>,
    between: Option<Duration>,
) -> (r: Result<OutgoingRequest, FetchError>)
    ensures
        spec_uri_parse(uri@) matches Err(e) ==> (r matches Err(FetchError::Url(m)) && m@ == headed("Invalid URI: "@, e)),
        spec_uri_parse(uri@) matches Ok(p) ==> request_for(r, p, *method, headers@, body@, timeout, between),
{
    let parsed = parse_uri(uri);
    outgoing_from_parts(parsed, method, headers, body, timeout, between)
}


/// Whether a status code is a redirection (3xx), as
/// `http::StatusCode::is_redirection` says.
pub open spec fn is_redirect_status(status: u16) -> bool {
    300 <= status < 400
}

/// The status code "303 See Other".
pub const SEE_OTHER: u16 = 303;

/// An exchange in progress: the request is sent again for each redirect that
/// is followed.
pub struct Exchange {
    method: Method,
    url: String,
    headers: Headers,
    body: Option<Vec<u8>>,
    timeout: Option<Duration>,
    between_bytes_timeout: Option<Duration>,
    redirect_limit: u8,
    redirects: u8,
}

/// What an exchange holds, as the contracts see it.
pub struct ExchangeView {
    /// The method of the next request.
    pub method: Method,
    /// The URI of the next request, as http writes it.
    pub url: Seq<char>,
    pub headers: Seq<EntryView>,
    pub body: Option<Seq<u8>>,
    pub timeout: Option<Duration>,
    pub between_bytes_timeout: Option<Duration>,
    pub redirect_limit: u8,
    /// The number of redirect responses seen so far.
    pub redirects: u8,
}

impl View for Exchange {
    type V = ExchangeView;

    closed spec fn view(&self) -> ExchangeView {
        ExchangeView {
            method: self.method,
            url: self.url@,
            headers: self.headers@,
            body: opt_bytes(self.body),
            timeout: self.timeout,
            between_bytes_timeout: self.between_bytes_timeout,
            redirect_limit: self.redirect_limit,
            redirects: self.redirects,
        }
    }
}

/// What the client does after a response.
#[derive(PartialEq, Eq, Structural, Clone, Copy, Debug)]
pub enum Next {
    /// Send the next request of the exchange: a redirect is followed.
    Follow,
    /// Hand the response to the caller.
    Deliver,
}

/// What a response leads to.
pub enum Step {
    /// The response is handed to the caller.
    Deliver,
    /// The redirect is followed to `url`, with `method`.
    Follow(Seq<char>, Method),
    /// More redirects came than the limit allows.
    TooMany,
    /// The redirect's location is no text.
    BadLocation,
    /// The redirect's location does not resolve to a URI; the message of the
    /// URL error.
    Unresolvable(Seq<char>),
}

/// What a response of `status` with `headers` leads to in the exchange `e`.
pub open spec fn spec_step(e: ExchangeView, status: u16, headers: Seq<EntryView>) -> Step {
    if !(e.redirect_limit > 0 && is_redirect_status(status)) {
        Step::Deliver
    } else if e.redirects >= e.redirect_limit {
        Step::TooMany
    } else {
        match lookup(headers, "location"@) {
            None => Step::Deliver,
            Some(v) => if !(forall|i: int| 0 <= i < v.len() ==> is_visible_byte(#[trigger] v[i])) {
                Step::BadLocation
            } else {
                match spec_resolve(e.url, ascii_text(v)) {
                    Err(m) => Step::Unresolvable(m),
                    Ok(t) => Step::Follow(t, if status == SEE_OTHER { Method::Get } else { e.method }),
                }
            },
        }
    }
}

/// The exchange after a response that did not end it: a redirect response is
/// counted, and a followed redirect sets the next URI and method.
pub open spec fn spec_after(e: ExchangeView, status: u16, headers: Seq<EntryView>) -> ExchangeView {
    let counted = if e.redirect_limit > 0 && is_redirect_status(status) {
        ExchangeView { redirects: (e.redirects + 1) as u8, ..e }
    } else {
        e
    };
    match spec_step(e, status, headers) {
        Step::Follow(url, method) => ExchangeView { url, method, ..counted },
        _ => counted,
    }
}

/// The body that the next request of an exchange carries: the builder's body
/// on the first request; after a redirect, none for GET and HEAD, else the
/// builder's body again.
pub open spec fn hop_body(e: ExchangeView) -> Seq<u8> {
    if e.redirects > 0 && (e.method is Get || e.method is Head) {
        Seq::empty()
    } else {
        match e.body {
            Some(b) => b,
            None => Seq::empty(),
        }
    }
}

/// The exchange that a builder starts, with the URI as http wrote it.
pub open spec fn started(b: BuilderView, url: Seq<char>) -> ExchangeView {
    ExchangeView {
        method: b.method,
        url,
        headers: b.headers,
        body: b.body,
        timeout: b.timeout,
        between_bytes_timeout: b.between_bytes_timeout,
        redirect_limit: b.redirect_limit,
        redirects: 0,
    }
}

impl RequestBuilder {
    /// Starts the exchange, given what http made of the builder's URL: a URL
    /// that http refuses is a URL error naming it.
    pub fn start_from(self, parsed: Result<UriParts, String>) -> (r: Result<Exchange, FetchError>)
        ensures
            parsed matches Ok(p) ==> (r matches Ok(x) && x@ == started(self@, p.text@)),
            parsed matches Err(e) ==> (r matches Err(FetchError::Url(m))
                && m@ == "Invalid URL '"@ + self@.url + "': "@ + e@),
    {
        match parsed {
            Ok(p) => Ok(Exchange {
                method: self.method,
                url: p.text,
                headers: self.headers,
                body: self.body,
                timeout: self.timeout,
                between_bytes_timeout: self.between_bytes_timeout,
                redirect_limit: self.redirect_limit,
                redirects: 0,
            }),
            Err(e) => {
                let m = String::from_str("Invalid URL '").concat(self.url.as_str()).concat("': ").concat(e.as_str());
                Err(FetchError::Url(m))
            },
        }
    }

    /// Starts the exchange: http parses the URL, which is then sent to.
    pub fn start(self) -> (r: Result<Exchange, FetchError>)
        ensures
            spec_uri_parse(self@.url) matches Ok(p) ==> (r matches Ok(x) && x@ == started(self@, p.0)),
            spec_uri_parse(self@.url) matches Err(e) ==> (r matches Err(FetchError::Url(m))
                && m@ == "Invalid URL '"@ + self@.url + "': "@ + e),
    {
        let parsed = parse_uri(self.url.as_str());
        self.start_from(parsed)
    }
}

impl Exchange {
    #[verifier::type_invariant]
    closed spec fn within_limit(&self) -> bool {
        self.redirects <= self.redirect_limit
    }

    /// The request to send next, in the pieces that the transport takes.
    pub fn request(&self) -> (r: Result<OutgoingRequest, FetchError>)
        ensures
            spec_uri_parse(self@.url) matches Err(e) ==> (r matches Err(FetchError::Url(m)) && m@ == headed("Invalid URI: "@, e)),
            spec_uri_parse(self@.url) matches Ok(p) ==> request_for(
                r,
                p,
                self@.method,
                self@.headers,
                hop_body(self@),
                self@.timeout,
                self@.between_bytes_timeout,
            ),
    {
        let body = if self.redirects > 0 && self.method.is_get_or_head() {
            Vec::new()
        } else {
            match &self.body {
                Some(b) => copy_bytes(b),
                None => Vec::new(),
            }
        };
        proof {
            assert(body@ =~= hop_body(self@));
        }
        prepare_request(&self.method, self.url.as_str(), &self.headers, body, self.timeout, self.between_bytes_timeout)
    }

    /// Takes in a response of `status` with `headers`, and decides whether a
    /// redirect is followed (the exchange then sends its next request), the
    /// response goes to the caller, or the exchange fails.
    pub fn on_response(&mut self, status: u16, headers: &Headers) -> (r: Result<Next, FetchError>)
        ensures
            final(self)@.redirects <= final(self)@.redirect_limit,
            match spec_step(old(self)@, status, headers@) {
                Step::Deliver => r == Ok::<Next, FetchError>(Next::Deliver),
                Step::Follow(_, _) => r == Ok::<Next, FetchError>(Next::Follow),
                Step::TooMany => r matches Err(FetchError::Transport(m)) && m@ == "Too many redirects"@,
                Step::BadLocation => r matches Err(FetchError::Transport(m))
                    && m@ == "Invalid Location header: failed to convert header to a str"@,
                Step::Unresolvable(msg) => r matches Err(FetchError::Url(m)) && m@ == msg,
            },
            r is Ok ==> final(self)@ == spec_after(old(self)@, status, headers@),
    {
        proof {
            use_type_invariant(&*self);
        }
        if !(self.redirect_limit > 0 && 300 <= status && status < 400) {
            return Ok(Next::Deliver);
        }
        if self.redirects >= self.redirect_limit {
            return Err(FetchError::Transport(String::from_str("Too many redirects")));
        }
        self.redirects = self.redirects + 1;
        let location = match headers.get("location") {
            Some(v) => v,
            None => {
                proof {
                    reveal_strlit("location");
                    assert(normal_name("location"@) == Some("location"@)) by {
                        assert(lowercase("location"@) =~= "location"@);
                    }
                }
                return Ok(Next::Deliver);
            },
        };
        proof {
            reveal_strlit("location");
            assert(normal_name("location"@) == Some("location"@)) by {
                assert(lowercase("location"@) =~= "location"@);
            }
        }
        let text = match value_to_str(location.as_slice()) {
            Some(t) => t,
            None => {
                return Err(FetchError::Transport(String::from_str("Invalid Location header: failed to convert header to a str")));
            },
        };
        let target = resolve_redirect(self.url.as_str(), text.as_str());
        match target {
            Ok(t) => {
                self.url = t;
                if status == SEE_OTHER {
                    self.method = Method::Get;
                }
                Ok(Next::Follow)
            },
            Err(e) => Err(e),
        }
    }
}


/// The number of redirects that an exchange follows, one after another, for
/// the responses `rs` in turn: it stops at the first response that does not
/// lead to a followed redirect.
pub open spec fn follows(e: ExchangeView, rs: Seq<(u16, Seq<EntryView>)>) -> nat
    decreases rs.len(),
{
    if rs.len() == 0 {
        0
    } else {
        match spec_step(e, rs[0].0, rs[0].1) {
            Step::Follow(_, _) => 1 + follows(spec_after(e, rs[0].0, rs[0].1), rs.drop_first()),
            _ => 0,
        }
    }
}

/// However the server answers, an exchange follows no more redirects than
/// its limit allows: an exchange that starts with none followed sends at most
/// `redirect_limit + 1` requests.
pub proof fn law_redirects_within_limit(e: ExchangeView, rs: Seq<(u16, Seq<EntryView>)>)
    requires
        e.redirects <= e.redirect_limit,
    ensures
        e.redirects + follows(e, rs) <= e.redirect_limit,
    decreases rs.len(),
{
    if rs.len() > 0 {
        if let Step::Follow(_, _) = spec_step(e, rs[0].0, rs[0].1) {
            law_redirects_within_limit(spec_after(e, rs[0].0, rs[0].1), rs.drop_first());
        }
    }
}

/// With a redirect limit of 0 redirects are not followed: every response
/// goes to the caller as it came.
pub proof fn law_limit_zero_delivers(e: ExchangeView, status: u16, headers: Seq<EntryView>)
    requires
        e.redirect_limit == 0,
    ensures
        spec_step(e, status, headers) is Deliver,
        spec_after(e, status, headers) == e,
{
}

/// A response that is no redirect goes to the caller, and the exchange is
/// left as it was.
pub proof fn law_non_redirect_delivers(e: ExchangeView, status: u16, headers: Seq<EntryView>)
    requires
        !is_redirect_status(status),
    ensures
        spec_step(e, status, headers) is Deliver,
        spec_after(e, status, headers) == e,
{
}

/// Once the limit is reached, the next redirect fails the exchange with
/// "Too many redirects".
pub proof fn law_one_redirect_too_many(e: ExchangeView, status: u16, headers: Seq<EntryView>)
    requires
        e.redirect_limit > 0,
        e.redirects == e.redirect_limit,
        is_redirect_status(status),
    ensures
        spec_step(e, status, headers) is TooMany,
{
}

/// Every request of an exchange goes with the builder's headers, body,
/// timeouts and redirect limit: a response never changes them.
pub proof fn law_request_parts_kept(e: ExchangeView, status: u16, headers: Seq<EntryView>)
    ensures
        spec_after(e, status, headers).headers == e.headers,
        spec_after(e, status, headers).body == e.body,
        spec_after(e, status, headers).timeout == e.timeout,
        spec_after(e, status, headers).between_bytes_timeout == e.between_bytes_timeout,
        spec_after(e, status, headers).redirect_limit == e.redirect_limit,
{
}

/// A followed "303 See Other" turns the request into a GET without a body;
/// any other followed redirect keeps the method.
pub proof fn law_see_other_becomes_get(e: ExchangeView, status: u16, headers: Seq<EntryView>)
    requires
        spec_step(e, status, headers) is Follow,
    ensures
        status == SEE_OTHER ==> spec_after(e, status, headers).method is Get
            && hop_body(spec_after(e, status, headers)) == Seq::<u8>::empty(),
        status != SEE_OTHER ==> spec_after(e, status, headers).method == e.method,
        spec_after(e, status, headers).redirects == e.redirects + 1,
{
}

/// A followed redirect of a GET or HEAD request sends no body; one of any
/// other method sends the builder's body again.
pub proof fn law_redirect_body(e: ExchangeView, status: u16, headers: Seq<EntryView>)
    requires
        spec_step(e, status, headers) is Follow,
    ensures
        ({
            let n = spec_after(e, status, headers);
            if n.method is Get || n.method is Head {
                hop_body(n) == Seq::<u8>::empty()
            } else {
                hop_body(n) == match e.body {
                    Some(b) => b,
                    None => Seq::<u8>::empty(),
                }
            }
        }),
{
}

/// Below the limit, every redirection (any status from 300 to 399) whose
/// `location` is visible text that resolves against the current URI is
/// followed to the resolved URI: the method becomes GET after "303 See Other"
/// and stays otherwise, and one more redirect is counted.
pub proof fn law_redirect_followed(
    e: ExchangeView,
    status: u16,
    headers: Seq<EntryView>,
    location: Seq<u8>,
    target: Seq<char>,
)
    requires
        e.redirects < e.redirect_limit,
        300 <= status < 400,
        lookup(headers, "location"@) == Some(location),
        forall|i: int| 0 <= i < location.len() ==> is_visible_byte(#[trigger] location[i]),
        spec_resolve(e.url, ascii_text(location)) == Ok::<Seq<char>, Seq<char>>(target),
    ensures
        spec_step(e, status, headers) is Follow,
        spec_after(e, status, headers).url == target,
        spec_after(e, status, headers).method == (if status == 303 { Method::Get } else { e.method }),
        spec_after(e, status, headers).redirects == e.redirects + 1,
{
}

/// The timeouts reach the transport: the request timeout, where set, is both
/// the connect and the first-byte timeout, and the between-bytes timeout,
/// where set, is the between-bytes timeout, each in nanoseconds (their low 64
/// bits), whatever the other is; with neither set there are no options.
pub proof fn law_timeouts_reach_transport(timeout: Option<Duration>, between: Option<Duration>)
    ensures
        timeout is None && between is None <==> options_for(timeout, between) is None,
        timeout matches Some(d) ==> (options_for(timeout, between) matches Some(o)
            && o.connect_timeout == Some(spec_duration_nanos(d) as u64)
            && o.first_byte_timeout == Some(spec_duration_nanos(d) as u64)),
        between matches Some(d) ==> (options_for(timeout, between) matches Some(o)
            && o.between_bytes_timeout == Some(spec_duration_nanos(d) as u64)),
        timeout is None && between is Some ==> (options_for(timeout, between) matches Some(o)
            && o.connect_timeout is None && o.first_byte_timeout is None),
        timeout is Some && between is None ==> (options_for(timeout, between) matches Some(o)
            && o.between_bytes_timeout is None),
{
}

/// The first request of an exchange, before any redirect, carries the
/// builder's body (none where it has none), whatever the method.
pub proof fn law_first_request_carries_body(e: ExchangeView)
    requires
        e.redirects == 0,
    ensures
        hop_body(e) == match e.body {
            Some(b) => b,
            None => Seq::<u8>::empty(),
        },
{
}

/// Starting an exchange keeps every setting of the builder: the method,
/// headers, body, timeouts and redirect limit; the URI is the one http
/// parsed, and no redirect has been seen.
pub proof fn law_start_keeps_settings(b: BuilderView, url: Seq<char>)
    ensures
        started(b, url).method == b.method,
        started(b, url).url == url,
        started(b, url).headers == b.headers,
        started(b, url).body == b.body,
        started(b, url).timeout == b.timeout,
        started(b, url).between_bytes_timeout == b.between_bytes_timeout,
        started(b, url).redirect_limit == b.redirect_limit,
        started(b, url).redirects == 0,
{
}

/// Below the limit, a redirection without a `location` goes to the caller,
/// and one whose `location` is no visible text fails the exchange.
pub proof fn law_redirect_without_usable_location(e: ExchangeView, status: u16, headers: Seq<EntryView>)
    requires
        e.redirects < e.redirect_limit,
        300 <= status < 400,
    ensures
        lookup(headers, "location"@) is None ==> spec_step(e, status, headers) is Deliver,
        lookup(headers, "location"@) matches Some(v) && (exists|i: int| 0 <= i < v.len() && !is_visible_byte(#[trigger] v[i]))
            ==> spec_step(e, status, headers) is BadLocation,
{
}

/// A request goes out exactly for the schemes `http` and `https`, each to its
/// own transport scheme, with the method, authority, path, headers, body and
/// timeouts that it was given; any other scheme, or none, is a URL error.
pub proof fn law_request_pieces(
    r: Result<OutgoingRequest, FetchError>,
    p: UriView,
    method: Method,
    headers: Seq<EntryView>,
    body: Seq<u8>,
    timeout: Option<Duration>,
    between: Option<Duration>,
)
    requires
        request_for(r, p, method, headers, body, timeout, between),
    ensures
        p.1 == Some("https"@) ==> (r matches Ok(o) && o.scheme == Scheme::Https),
        p.1 == Some("http"@) ==> (r matches Ok(o) && o.scheme == Scheme::Http),
        r is Ok <==> (p.1 == Some("https"@) || p.1 == Some("http"@)),
        r is Err ==> r->Err_0 is Url,
        r matches Ok(o) ==> {
            &&& sent_as(method, o.method)
            &&& opt_text(o.authority) == p.2
            &&& opt_text(o.path_with_query) == p.3
            &&& entries_of(o.headers@) == headers
            &&& o.body@ == body
            &&& o.options == options_for(timeout, between)
        },
{
    reveal_strlit("https");
    reveal_strlit("http");
    assert("https"@ != "http"@) by {
        assert("https"@.len() != "http"@.len());
    }
}

} // verus!
