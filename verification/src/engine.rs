//! What the browser does to get a page: which request a URL calls for, and
//! what follows from the response. Nothing here touches the network or the
//! disk; the caller carries the requests out and hands back what they brought.
use crate::parser::{header_texts, response_parsed, HttpResponseParseError, HttpResponseParser};
use crate::response::Response;
use crate::text::{same_text, to_chars};
use crate::url::{parsed, ParseError, UrlView, URL};
use vstd::prelude::*;
use vstd::string::*;

verus! {

/// How many redirects are followed before fetching gives up.
pub const MAX_REDIRECTS: u32 = 10;

/// The schemes by which a request is told apart.
#[derive(Debug, Clone, Copy, PartialEq, Eq, Structural)]
pub enum Scheme {
    Http,
    Https,
    File,
    Data,
    ViewSource,
    Unknown,
}

/// Why no request can be made for a URL.
#[derive(Debug, Clone, Copy, PartialEq, Eq, Structural)]
pub enum RequestError {
    /// The URL has no host, and the scheme needs one.
    MissingHost,
    /// The URL has no path, and the scheme needs one.
    MissingPath,
    /// The URL has no data, and the scheme needs some.
    MissingData,
    /// The scheme is none that can be requested.
    UnsupportedScheme,
    /// The URL to show the source of is no URL.
    Url(ParseError),
}

/// Why fetching stops without a page.
#[derive(Debug, Clone, Copy, PartialEq, Eq, Structural)]
pub enum FetchError {
    /// What came back over HTTP is no HTTP response.
    Response(HttpResponseParseError),
    /// A redirect names no location.
    MissingLocation,
    /// A redirect is relative, and the URL fetched has no host to start from.
    MissingBase,
    /// The location of a redirect is no URL.
    Location(ParseError),
    /// The redirect after the last one allowed was still a redirect.
    TooManyRedirects,
}

/// What is to be done to get what a URL names.
#[derive(Debug)]
pub enum Request {
    /// Connect to the host on port 80, send the message, read to the end:
    /// an HTTP response.
    Http { host: String, message: String },
    /// The same under TLS, on port 443.
    Https { host: String, message: String },
    /// Read the file at the path: a file response.
    File { path: String },
    /// Nothing is to be done: the URL carried this data, and it is the
    /// response.
    Data(String),
    /// Request this URL instead and show what it brings as source.
    ViewSource(URL),
    /// Nothing is to be done, and there is no response.
    Nothing,
}

/// A `Request` with its texts as character sequences.
pub enum RequestView {
    Http { host: Seq<char>, message: Seq<char> },
    Https { host: Seq<char>, message: Seq<char> },
    File { path: Seq<char> },
    Data(Seq<char>),
    ViewSource(UrlView),
    Nothing,
}

impl View for Request {
    type V = RequestView;

    open spec fn view(&self) -> RequestView {
        match self {
            Request::Http { host, message } => RequestView::Http { host: host@, message: message@ },
            Request::Https { host, message } => RequestView::Https {
                host: host@,
                message: message@,
            },
            Request::File { path } => RequestView::File { path: path@ },
            Request::Data(data) => RequestView::Data(data@),
            Request::ViewSource(url) => RequestView::ViewSource(url@),
            Request::Nothing => RequestView::Nothing,
        }
    }
}

/// The scheme that `text` names.
pub open spec fn scheme_named(text: Seq<char>) -> Scheme {
    if text == seq!['h', 't', 't', 'p'] {
        Scheme::Http
    } else if text == seq!['h', 't', 't', 'p', 's'] {
        Scheme::Https
    } else if text == seq!['f', 'i', 'l', 'e'] {
        Scheme::File
    } else if text == seq!['d', 'a', 't', 'a'] {
        Scheme::Data
    } else if text == seq!['v', 'i', 'e', 'w', '-', 's', 'o', 'u', 'r', 'c', 'e'] {
        Scheme::ViewSource
    } else {
        Scheme::Unknown
    }
}

/// The message that asks `host` for `path` over HTTP/1.1.
pub open spec fn get_message(path: Seq<char>, host: Seq<char>) -> Seq<char> {
    "GET "@ + path + " HTTP/1.1\r\nHost: "@ + host
        + "\r\nConnection: close\r\nUser-Agent: browser_rust\r\n\r\n"@
}

/// The host and the path of a URL that is requested from a server. Both
/// have to be there.
pub open spec fn host_and_path(url: UrlView) -> Result<(Seq<char>, Seq<char>), RequestError> {
    match url.host() {
        None => Err(RequestError::MissingHost),
        Some(host) => match url.path() {
            None => Err(RequestError::MissingPath),
            Some(path) => Ok((host, path)),
        },
    }
}

/// The request that an `http` URL calls for: its path, from its host.
pub open spec fn http_request(url: UrlView) -> Result<RequestView, RequestError> {
    match host_and_path(url) {
        Ok((host, path)) => Ok(RequestView::Http { host, message: get_message(path, host) }),
        Err(e) => Err(e),
    }
}

/// The request that an `https` URL calls for: its path, from its host.
pub open spec fn https_request(url: UrlView) -> Result<RequestView, RequestError> {
    match host_and_path(url) {
        Ok((host, path)) => Ok(RequestView::Https { host, message: get_message(path, host) }),
        Err(e) => Err(e),
    }
}

/// The request that a `file` URL calls for: a read of its path.
pub open spec fn file_request(url: UrlView) -> Result<RequestView, RequestError> {
    match url.path() {
        None => Err(RequestError::MissingPath),
        Some(path) => Ok(RequestView::File { path }),
    }
}

/// The request that `url` calls for, by its scheme.
pub open spec fn requested(url: UrlView) -> Result<RequestView, RequestError> {
    match scheme_named(url.scheme()) {
        Scheme::Http => http_request(url),
        Scheme::Https => https_request(url),
        Scheme::File => file_request(url),
        Scheme::Data => data_request(url),
        Scheme::ViewSource => source_request(url),
        Scheme::Unknown => Err(RequestError::UnsupportedScheme),
    }
}

/// The request that a `data` URL calls for: none, its data is the response.
pub open spec fn data_request(url: UrlView) -> Result<RequestView, RequestError> {
    match url.data() {
        None => Err(RequestError::MissingData),
        Some(data) => Ok(RequestView::Data(data)),
    }
}

/// The request that a `view-source` URL calls for: the one for the URL that
/// its data spells out.
pub open spec fn source_request(url: UrlView) -> Result<RequestView, RequestError> {
    match url.data() {
        None => Err(RequestError::MissingData),
        Some(data) => match parsed(data) {
            Ok(inner) => Ok(RequestView::ViewSource(inner)),
            Err(e) => Err(RequestError::Url(e)),
        },
    }
}

impl Scheme {
    /// The scheme that `text` names.
    pub fn of(text: &str) -> (scheme: Scheme)
        ensures
            scheme == scheme_named(text@),
    {
        let chars = to_chars(text);
        let http: Vec<char> = vec!['h', 't', 't', 'p'];
        let https: Vec<char> = vec!['h', 't', 't', 'p', 's'];
        let file: Vec<char> = vec!['f', 'i', 'l', 'e'];
        let data: Vec<char> = vec!['d', 'a', 't', 'a'];
        let source: Vec<char> = vec!['v', 'i', 'e', 'w', '-', 's', 'o', 'u', 'r', 'c', 'e'];
        proof {
            assert(http@ =~= seq!['h', 't', 't', 'p']);
            assert(https@ =~= seq!['h', 't', 't', 'p', 's']);
            assert(file@ =~= seq!['f', 'i', 'l', 'e']);
            assert(data@ =~= seq!['d', 'a', 't', 'a']);
            assert(source@ =~= seq!['v', 'i', 'e', 'w', '-', 's', 'o', 'u', 'r', 'c', 'e']);
        }
        if same_text(&chars, &http) {
            Scheme::Http
        } else if same_text(&chars, &https) {
            Scheme::Https
        } else if same_text(&chars, &file) {
            Scheme::File
        } else if same_text(&chars, &data) {
            Scheme::Data
        } else if same_text(&chars, &source) {
            Scheme::ViewSource
        } else {
            Scheme::Unknown
        }
    }
}

/// The message that asks `host` for `path`.
fn message_for(path: &str, host: &str) -> (message: String)
    ensures
        message@ == get_message(path@, host@),
{
    let mut message = String::from_str("GET ");
    message.append(path);
    message.append(" HTTP/1.1\r\nHost: ");
    message.append(host);
    message.append("\r\nConnection: close\r\nUser-Agent: browser_rust\r\n\r\n");
    message
}

/// The host and the path of `url`, for a request to a server.
fn server_and_path(url: &URL) -> (r: Result<(&str, &str), RequestError>)
    ensures
        match r {
            Ok((host, path)) => host_and_path(url@) == Ok::<
                (Seq<char>, Seq<char>),
                RequestError,
            >((host@, path@)),
            Err(e) => host_and_path(url@) == Err::<(Seq<char>, Seq<char>), RequestError>(e),
        },
{
    let host = match url.host() {
        Some(host) => host,
        None => {
            return Err(RequestError::MissingHost);
        },
    };
    match url.path() {
        Some(path) => Ok((host, path)),
        None => Err(RequestError::MissingPath),
    }
}

/// The request for a URL of the scheme `http`.
pub fn request_http(url: &URL) -> (r: Result<Request, RequestError>)
    ensures
        match r {
            Ok(request) => http_request(url@) == Ok::<RequestView, RequestError>(request@),
            Err(e) => http_request(url@) == Err::<RequestView, RequestError>(e),
        },
{
    match server_and_path(url) {
        Ok((host, path)) => Ok(
            Request::Http { host: String::from_str(host), message: message_for(path, host) },
        ),
        Err(e) => Err(e),
    }
}

/// The request for a URL of the scheme `https`.
pub fn request_https(url: &URL) -> (r: Result<Request, RequestError>)
    ensures
        match r {
            Ok(request) => https_request(url@) == Ok::<RequestView, RequestError>(request@),
            Err(e) => https_request(url@) == Err::<RequestView, RequestError>(e),
        },
{
    match server_and_path(url) {
        Ok((host, path)) => Ok(
            Request::Https { host: String::from_str(host), message: message_for(path, host) },
        ),
        Err(e) => Err(e),
    }
}

/// The request for a URL of the scheme `file`.
pub fn request_file(url: &URL) -> (r: Result<Request, RequestError>)
    ensures
        match r {
            Ok(request) => file_request(url@) == Ok::<RequestView, RequestError>(request@),
            Err(e) => file_request(url@) == Err::<RequestView, RequestError>(e),
        },
{
    match url.path() {
        Some(path) => Ok(Request::File { path: String::from_str(path) }),
        None => Err(RequestError::MissingPath),
    }
}

/// The request for a URL of the scheme `data`: none, its data is the
/// response.
pub fn request_data(url: &URL) -> (r: Result<Request, RequestError>)
    ensures
        match r {
            Ok(request) => data_request(url@) == Ok::<RequestView, RequestError>(request@),
            Err(e) => data_request(url@) == Err::<RequestView, RequestError>(e),
        },
{
    match url.data() {
        Some(data) => Ok(Request::Data(String::from_str(data))),
        None => Err(RequestError::MissingData),
    }
}

/// The URL that a URL of the scheme `view-source` shows the source of.
pub fn request_view_source(url: &URL) -> (r: Result<URL, RequestError>)
    ensures
        match r {
            Ok(inner) => source_request(url@) == Ok::<RequestView, RequestError>(
                RequestView::ViewSource(inner@),
            ),
            Err(e) => source_request(url@) == Err::<RequestView, RequestError>(e),
        },
{
    let data = match url.data() {
        Some(data) => data,
        None => {
            return Err(RequestError::MissingData);
        },
    };
    match URL::parse(data) {
        Ok(inner) => Ok(inner),
        Err(e) => Err(RequestError::Url(e)),
    }
}

/// The request that `url` calls for.
pub fn request(url: &URL) -> (r: Result<Request, RequestError>)
    ensures
        match r {
            Ok(request) => requested(url@) == Ok::<RequestView, RequestError>(request@),
            Err(e) => requested(url@) == Err::<RequestView, RequestError>(e),
        },
{
    match Scheme::of(url.scheme()) {
        Scheme::Http => request_http(url),
        Scheme::Https => request_https(url),
        Scheme::File => request_file(url),
        Scheme::Data => request_data(url),
        Scheme::ViewSource => match request_view_source(url) {
            Ok(inner) => Ok(Request::ViewSource(inner)),
            Err(e) => Err(e),
        },
        Scheme::Unknown => Err(RequestError::UnsupportedScheme),
    }
}

/// The shorter message with which a URL that is asked directly asks `host`
/// for `path`. Over plain HTTP a blank follows the version.
pub open spec fn short_message(path: Seq<char>, host: Seq<char>, secure: bool) -> Seq<char> {
    "GET "@ + path + (if secure {
        " HTTP/1.1\r\nHost: "@
    } else {
        " HTTP/1.1 \r\nHost: "@
    }) + host + "\r\nConnection: close\r\n\r\n"@
}

/// The request that `url` calls for when it is asked directly: only `http`,
/// `https` and `file` are requested, with shorter messages, and a URL of any
/// other scheme calls for nothing.
pub open spec fn asked_directly(url: UrlView) -> Result<RequestView, RequestError> {
    match scheme_named(url.scheme()) {
        Scheme::Https => match host_and_path(url) {
            Ok((host, path)) => Ok(
                RequestView::Https { host, message: short_message(path, host, true) },
            ),
            Err(e) => Err(e),
        },
        Scheme::Http => match host_and_path(url) {
            Ok((host, path)) => Ok(
                RequestView::Http { host, message: short_message(path, host, false) },
            ),
            Err(e) => Err(e),
        },
        Scheme::File => file_request(url),
        _ => Ok(RequestView::Nothing),
    }
}

/// The shorter message that asks `host` for `path`.
fn short_message_for(path: &str, host: &str, secure: bool) -> (message: String)
    ensures
        message@ == short_message(path@, host@, secure),
{
    let mut message = String::from_str("GET ");
    message.append(path);
    if secure {
        message.append(" HTTP/1.1\r\nHost: ");
    } else {
        message.append(" HTTP/1.1 \r\nHost: ");
    }
    message.append(host);
    message.append("\r\nConnection: close\r\n\r\n");
    message
}

impl URL {
    /// The request that this URL calls for when it is asked directly.
    pub fn request(&self) -> (r: Result<Request, RequestError>)
        ensures
            match r {
                Ok(request) => asked_directly(self@) == Ok::<RequestView, RequestError>(request@),
                Err(e) => asked_directly(self@) == Err::<RequestView, RequestError>(e),
            },
    {
        match Scheme::of(self.scheme()) {
            Scheme::Https => match server_and_path(self) {
                Ok((host, path)) => Ok(
                    Request::Https {
                        host: String::from_str(host),
                        message: short_message_for(path, host, true),
                    },
                ),
                Err(e) => Err(e),
            },
            Scheme::Http => match server_and_path(self) {
                Ok((host, path)) => Ok(
                    Request::Http {
                        host: String::from_str(host),
                        message: short_message_for(path, host, false),
                    },
                ),
                Err(e) => Err(e),
            },
            Scheme::File => request_file(self),
            _ => Ok(Request::Nothing),
        }
    }
}

impl Request {
    /// The response that needs no request to be carried out, where this is
    /// such a one.
    pub fn ready(self) -> (r: Option<Response>)
        ensures
            match self@ {
                RequestView::Data(data) => r matches Some(Response::Data(text)) && text@ == data,
                RequestView::Nothing => r matches Some(Response::Nothing),
                _ => r is None,
            },
    {
        match self {
            Request::Data(data) => Some(Response::Data(data)),
            Request::Nothing => Some(Response::Nothing),
            _ => None,
        }
    }
}

/// What fetching does next with a response.
#[derive(Debug)]
pub enum Step {
    /// The response is a redirect: this URL is to be requested next.
    Follow(URL),
    /// The response is the page.
    Deliver,
    /// Fetching ends without a page.
    Fail(FetchError),
}

/// A `Step` with its URL as a view.
pub enum StepView {
    Follow(UrlView),
    Deliver,
    Fail(FetchError),
}

impl View for Step {
    type V = StepView;

    open spec fn view(&self) -> StepView {
        match self {
            Step::Follow(url) => StepView::Follow(url@),
            Step::Deliver => StepView::Deliver,
            Step::Fail(e) => StepView::Fail(*e),
        }
    }
}

/// Whether `status` says that the page is elsewhere.
pub open spec fn is_redirect(status: u32) -> bool {
    300 <= status < 400
}

/// The text of the URL that a redirect to `location` leads to, seen from
/// `origin`: a location that begins with `/` is a path on the host of
/// `origin`, any other stands for itself.
pub open spec fn redirect_target(origin: UrlView, location: Seq<char>) -> Option<Seq<char>> {
    if location.len() > 0 && location[0] == '/' {
        match origin.host() {
            Some(host) => Some(origin.scheme() + "://"@ + host + location),
            None => None,
        }
    } else {
        Some(location)
    }
}

/// Where a redirect with the given headers leads, seen from `origin`.
pub open spec fn redirected(origin: UrlView, headers: Map<Seq<char>, Seq<char>>) -> StepView {
    if !headers.contains_key("Location"@) {
        StepView::Fail(FetchError::MissingLocation)
    } else {
        match redirect_target(origin, headers["Location"@]) {
            None => StepView::Fail(FetchError::MissingBase),
            Some(target) => match parsed(target) {
                Ok(next) => StepView::Follow(next),
                Err(e) => StepView::Fail(FetchError::Location(e)),
            },
        }
    }
}

/// What fetching `origin` does with `response`, the response to the request
/// made after `followed` redirects. Only an HTTP response can redirect; one
/// that does is followed unless `MAX_REDIRECTS` were followed already.
pub open spec fn fetched(origin: UrlView, response: Response, followed: u32) -> StepView {
    match response {
        Response::Http(text) => match response_parsed(text@) {
            Err(e) => StepView::Fail(FetchError::Response(e)),
            Ok(parsed) => if !is_redirect(parsed.status) {
                StepView::Deliver
            } else if followed >= MAX_REDIRECTS {
                StepView::Fail(FetchError::TooManyRedirects)
            } else {
                redirected(origin, parsed.headers)
            },
        },
        _ => StepView::Deliver,
    }
}

/// Where the redirect that `parsed` is leads, seen from `url`.
fn follow(url: &URL, parsed: &HttpResponseParser) -> (step: Step)
    ensures
        step@ == redirected(url@, parsed@.headers),
{
    let headers = parsed.headers_map();
    let location = match headers.get("Location") {
        Some(location) => location,
        None => {
            return Step::Fail(FetchError::MissingLocation);
        },
    };
    assert(header_texts(*headers)["Location"@] == location@);
    let chars = to_chars(location.as_str());
    let target = if chars.len() > 0 && chars[0] == '/' {
        let host = match url.host() {
            Some(host) => host,
            None => {
                return Step::Fail(FetchError::MissingBase);
            },
        };
        let mut target = String::from_str(url.scheme());
        target.append("://");
        target.append(host);
        target.append(location.as_str());
        target
    } else {
        location.clone()
    };
    match URL::parse(target.as_str()) {
        Ok(next) => Step::Follow(next),
        Err(e) => Step::Fail(FetchError::Location(e)),
    }
}

/// What fetching `url` does next, now that the request made after `followed`
/// redirects has brought `response`.
pub fn fetch(url: &URL, response: &Response, followed: u32) -> (step: Step)
    ensures
        step@ == fetched(url@, *response, followed),
{
    match response {
        Response::Http(text) => match HttpResponseParser::parse(text.as_str()) {
            Err(e) => Step::Fail(FetchError::Response(e)),
            Ok(parsed) => {
                let status = parsed.status();
                if !(300 <= status && status < 400) {
                    Step::Deliver
                } else if followed >= MAX_REDIRECTS {
                    Step::Fail(FetchError::TooManyRedirects)
                } else {
                    follow(url, &parsed)
                }
            },
        },
        _ => Step::Deliver,
    }
}

} // verus!
