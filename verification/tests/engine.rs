use browser_rust::engine::{
    fetch, request, request_data, request_file, request_http, request_https, request_view_source,
    FetchError, Request, RequestError, Scheme, Step, MAX_REDIRECTS,
};
use browser_rust::parser::HttpResponseParseError;
use browser_rust::response::Response;
use browser_rust::url::{ParseError, URL};

fn url(text: &str) -> URL {
    text.parse().unwrap()
}

fn redirect(location_line: &str) -> Response {
    Response::Http(format!("HTTP/1.1 301 Moved\r\n{}\r\n\r\n", location_line))
}

#[test]
fn scheme_by_name() {
    assert_eq!(Scheme::of("http"), Scheme::Http);
    assert_eq!(Scheme::of("https"), Scheme::Https);
    assert_eq!(Scheme::of("file"), Scheme::File);
    assert_eq!(Scheme::of("data"), Scheme::Data);
    assert_eq!(Scheme::of("view-source"), Scheme::ViewSource);
    assert_eq!(Scheme::of("HTTP"), Scheme::Unknown);
    assert_eq!(Scheme::of(""), Scheme::Unknown);
    assert_eq!(Scheme::of("httpx"), Scheme::Unknown);
}

#[test]
fn request_for_http_url() {
    match request(&url("http://example.org/index.html")).unwrap() {
        Request::Http { host, message } => {
            assert_eq!(host, "example.org");
            assert_eq!(
                message,
                "GET /index.html HTTP/1.1\r\nHost: example.org\r\nConnection: close\r\nUser-Agent: browser_rust\r\n\r\n"
            );
        }
        other => panic!("{:?}", other),
    }
}

#[test]
fn request_for_https_url_without_path() {
    match request(&url("https://example.org:8443")).unwrap() {
        Request::Https { host, message } => {
            assert_eq!(host, "example.org:8443");
            assert_eq!(
                message,
                "GET / HTTP/1.1\r\nHost: example.org:8443\r\nConnection: close\r\nUser-Agent: browser_rust\r\n\r\n"
            );
        }
        other => panic!("{:?}", other),
    }
}

#[test]
fn request_for_file_and_data_urls() {
    assert!(matches!(
        request(&url("file:///etc/hosts")).unwrap(),
        Request::File { path } if path == "/etc/hosts"
    ));
    assert!(matches!(
        request(&url("data:text/html,Hello World!")).unwrap(),
        Request::Data(data) if data == "text/html,Hello World!"
    ));
    assert!(matches!(
        request_file(&url("file:/a")).unwrap(),
        Request::File { path } if path == "/a"
    ));
    assert!(matches!(
        request_data(&url("data:")).unwrap(),
        Request::Data(data) if data.is_empty()
    ));
}

#[test]
fn request_errors() {
    assert_eq!(request(&url("http:/no/host")).err(), Some(RequestError::MissingHost));
    assert_eq!(request(&url("https:opaque")).err(), Some(RequestError::MissingHost));
    assert_eq!(request(&url("file:opaque")).err(), Some(RequestError::MissingPath));
    assert_eq!(request(&url("data:/looks/like/a/path")).err(), Some(RequestError::MissingData));
    assert_eq!(request_http(&url("file:///x")).err(), None);
    assert_eq!(request_https(&url("data:x")).err(), Some(RequestError::MissingHost));
    assert_eq!(request_file(&url("data:x")).err(), Some(RequestError::MissingPath));
    assert_eq!(request_data(&url("http://h/")).err(), Some(RequestError::MissingData));
}

#[test]
fn source_of_a_url() {
    let inner = request_view_source(&url("data:http://example.org")).unwrap();
    assert_eq!(inner.scheme(), "http");
    assert_eq!(inner.host(), Some("example.org"));
    assert_eq!(inner.path(), Some("/"));
    assert_eq!(
        request_view_source(&url("data:ftp://x/")).err(),
        Some(RequestError::Url(ParseError::UnknownScheme))
    );
    assert_eq!(
        request_view_source(&url("data:")).err(),
        Some(RequestError::Url(ParseError::Empty))
    );
    assert_eq!(
        request_view_source(&url("http://h/")).err(),
        Some(RequestError::MissingData)
    );
}

#[test]
fn asked_directly() {
    match url("http://h/p").request().unwrap() {
        Request::Http { host, message } => {
            assert_eq!(host, "h");
            assert_eq!(message, "GET /p HTTP/1.1 \r\nHost: h\r\nConnection: close\r\n\r\n");
        }
        other => panic!("{:?}", other),
    }
    match url("https://h/p").request().unwrap() {
        Request::Https { host, message } => {
            assert_eq!(host, "h");
            assert_eq!(message, "GET /p HTTP/1.1\r\nHost: h\r\nConnection: close\r\n\r\n");
        }
        other => panic!("{:?}", other),
    }
    assert!(matches!(url("file:///f").request().unwrap(), Request::File { path } if path == "/f"));
    assert!(matches!(url("data:x").request().unwrap(), Request::Nothing));
    assert_eq!(url("http:x").request().err(), Some(RequestError::MissingHost));
}

#[test]
fn ready_responses() {
    assert!(matches!(
        Request::Data("d".to_string()).ready(),
        Some(Response::Data(data)) if data == "d"
    ));
    assert!(matches!(Request::Nothing.ready(), Some(Response::Nothing)));
    assert!(Request::File { path: "p".to_string() }.ready().is_none());
    assert!(request(&url("http://h/")).unwrap().ready().is_none());
}

#[test]
fn page_is_delivered() {
    let origin = url("http://example.org/");
    let page = Response::Http("HTTP/1.1 200 OK\r\n\r\n\r\nhi".to_string());
    assert!(matches!(fetch(&origin, &page, 0), Step::Deliver));
    assert!(matches!(fetch(&origin, &page, MAX_REDIRECTS), Step::Deliver));
    let edge = Response::Http("HTTP/1.1 299 x\r\n\r\n\r\n".to_string());
    assert!(matches!(fetch(&origin, &edge, 0), Step::Deliver));
    let edge = Response::Http("HTTP/1.1 400 x\r\n\r\n\r\n".to_string());
    assert!(matches!(fetch(&origin, &edge, 0), Step::Deliver));
    assert!(matches!(fetch(&origin, &Response::File("f".to_string()), 0), Step::Deliver));
    assert!(matches!(fetch(&origin, &Response::Data("d".to_string()), 3), Step::Deliver));
    assert!(matches!(fetch(&origin, &Response::Nothing, 0), Step::Deliver));
}

#[test]
fn redirect_is_followed() {
    let origin = url("http://example.org/old");
    match fetch(&origin, &redirect("Location:https://example.com/new"), 0) {
        Step::Follow(next) => {
            assert_eq!(next.scheme(), "https");
            assert_eq!(next.host(), Some("example.com"));
            assert_eq!(next.path(), Some("/new"));
        }
        other => panic!("{:?}", other),
    }
    for status in [300, 302, 399] {
        let response =
            Response::Http(format!("HTTP/1.1 {} x\r\nLocation:http://a\r\n\r\n", status));
        assert!(matches!(fetch(&origin, &response, MAX_REDIRECTS - 1), Step::Follow(_)));
    }
}

#[test]
fn relative_redirect_starts_from_the_url_fetched() {
    let origin = url("https://example.org:8443/old/page");
    match fetch(&origin, &redirect("Location:/new/page"), 9) {
        Step::Follow(next) => {
            assert_eq!(next.scheme(), "https");
            assert_eq!(next.host(), Some("example.org:8443"));
            assert_eq!(next.path(), Some("/new/page"));
        }
        other => panic!("{:?}", other),
    }
    let origin = url("file:/no/host");
    assert!(matches!(
        fetch(&origin, &redirect("Location:/new"), 0),
        Step::Fail(FetchError::MissingBase)
    ));
}

#[test]
fn redirect_failures() {
    let origin = url("http://example.org/");
    assert!(matches!(
        fetch(&origin, &redirect("Server:x"), 0),
        Step::Fail(FetchError::MissingLocation)
    ));
    // Header names are matched as they are written.
    assert!(matches!(
        fetch(&origin, &redirect("location:http://a/"), 0),
        Step::Fail(FetchError::MissingLocation)
    ));
    // The value is all that follows the colon: a blank before the URL makes
    // its scheme unknown.
    assert!(matches!(
        fetch(&origin, &redirect("Location: http://a/"), 0),
        Step::Fail(FetchError::Location(ParseError::UnknownScheme))
    ));
    assert!(matches!(
        fetch(&origin, &redirect("Location:"), 0),
        Step::Fail(FetchError::Location(ParseError::Empty))
    ));
    assert!(matches!(
        fetch(&origin, &redirect("Location:nowhere"), 0),
        Step::Fail(FetchError::Location(ParseError::SchemeMissing))
    ));
    assert!(matches!(
        fetch(&origin, &Response::Http("garbage".to_string()), 0),
        Step::Fail(FetchError::Response(HttpResponseParseError::MissingHTTPVersion))
    ));
    assert!(matches!(
        fetch(&origin, &Response::Http("garbage".to_string()), MAX_REDIRECTS),
        Step::Fail(FetchError::Response(HttpResponseParseError::MissingHTTPVersion))
    ));
}

#[test]
fn too_many_redirects() {
    assert_eq!(MAX_REDIRECTS, 10);
    let origin = url("http://example.org/");
    let response = redirect("Location:http://example.org/");
    let mut followed = 0;
    loop {
        match fetch(&origin, &response, followed) {
            Step::Follow(_) => followed += 1,
            Step::Fail(FetchError::TooManyRedirects) => break,
            other => panic!("{:?}", other),
        }
    }
    assert_eq!(followed, 10);
    assert!(matches!(
        fetch(&origin, &redirect("Server:x"), 10),
        Step::Fail(FetchError::TooManyRedirects)
    ));
    assert!(matches!(
        fetch(&origin, &response, u32::MAX),
        Step::Fail(FetchError::TooManyRedirects)
    ));
}
