//! Reading what came back: the parts of an HTTP response, and the text of an
//! HTML body without its tags.
use crate::response::Response;
use crate::text::{
    find, find_in, lemma_split_tail, parse_u32, parse_u32_in, split_once, tail, to_chars, to_text,
};
use vstd::hash_map::StringHashMap;
use vstd::prelude::*;
use vstd::string::*;

verus! {

/// Why a text is no HTTP response.
#[derive(Debug, Clone, Copy, PartialEq, Eq, Structural)]
pub enum HttpResponseParseError {
    /// No space ends the HTTP version.
    MissingHTTPVersion,
    /// No space ends the status, or the status is no number.
    MissingStatus,
    /// No line break ends the status message.
    MissingStatusMessage,
    /// No empty line ends the headers, or a header line has no colon.
    MalformedHeader,
}

impl HttpResponseParseError {
    /// The error in words.
    pub fn message(&self) -> (text: &'static str)
        ensures
            text@ == match self {
                HttpResponseParseError::MissingHTTPVersion => "missing http version in response"@,
                HttpResponseParseError::MissingStatus => "missing status number in response"@,
                HttpResponseParseError::MissingStatusMessage => "missing status message in response"@,
                HttpResponseParseError::MalformedHeader => "malformed header in response"@,
            },
    {
        match self {
            HttpResponseParseError::MissingHTTPVersion => "missing http version in response",
            HttpResponseParseError::MissingStatus => "missing status number in response",
            HttpResponseParseError::MissingStatusMessage => "missing status message in response",
            HttpResponseParseError::MalformedHeader => "malformed header in response",
        }
    }
}

/// The line break of HTTP.
pub open spec fn crlf() -> Seq<char> {
    seq!['\r', '\n']
}

/// The empty line that ends the headers.
pub open spec fn blank_line() -> Seq<char> {
    seq!['\r', '\n', '\r', '\n']
}

/// `s` cut at every line break, left to right. A text without a line break
/// is one line, the empty text too.
pub open spec fn lines(s: Seq<char>) -> Seq<Seq<char>>
    decreases s.len(),
{
    match find(s, crlf()) {
        Some(i) => if 0 <= i && i + 2 <= s.len() {
            seq![s.subrange(0, i)] + lines(tail(s, i + 2))
        } else {
            seq![s]
        },
        None => seq![s],
    }
}

/// The headers that `lines` add to `headers`, read in order up to the first
/// empty line: each line is a name, a colon and a value, and a later line
/// replaces an earlier one of the same name. `None` where a line that is read
/// has no colon.
pub open spec fn headers_from(lines: Seq<Seq<char>>, headers: Map<Seq<char>, Seq<char>>) -> Option<
    Map<Seq<char>, Seq<char>>,
>
    decreases lines.len(),
{
    if lines.len() == 0 || lines[0].len() == 0 {
        Some(headers)
    } else {
        match split_once(lines[0], seq![':']) {
            Some((name, value)) => headers_from(lines.drop_first(), headers.insert(name, value)),
            None => None,
        }
    }
}

/// The parts of an HTTP response.
pub struct HttpResponseView {
    pub http_version: Seq<char>,
    pub status: u32,
    pub message: Seq<char>,
    pub headers: Map<Seq<char>, Seq<char>>,
    pub body: Seq<char>,
}

/// What `s` is as an HTTP response, or why it is none.
///
/// The version runs to the first space, the status from there to the next
/// space, the message from there to the first line break. The headers run
/// from there to the first empty line, and the body is what follows it.
pub open spec fn response_parsed(s: Seq<char>) -> Result<HttpResponseView, HttpResponseParseError> {
    match split_once(s, seq![' ']) {
        None => Err(HttpResponseParseError::MissingHTTPVersion),
        Some((http_version, rest)) => match split_once(rest, seq![' ']) {
            None => Err(HttpResponseParseError::MissingStatus),
            Some((status, rest)) => match parse_u32(status) {
                None => Err(HttpResponseParseError::MissingStatus),
                Some(status) => match split_once(rest, crlf()) {
                    None => Err(HttpResponseParseError::MissingStatusMessage),
                    Some((message, rest)) => match split_once(rest, blank_line()) {
                        None => Err(HttpResponseParseError::MalformedHeader),
                        Some((raw_headers, body)) => match headers_from(
                            lines(raw_headers),
                            Map::empty(),
                        ) {
                            None => Err(HttpResponseParseError::MalformedHeader),
                            Some(headers) => Ok(
                                HttpResponseView { http_version, status, message, headers, body },
                            ),
                        },
                    },
                },
            },
        },
    }
}

/// The headers held in `map`, values as character sequences.
pub open spec fn header_texts(map: StringHashMap<String>) -> Map<Seq<char>, Seq<char>> {
    map@.map_values(|value: String| value@)
}

/// An HTTP response taken apart.
pub struct HttpResponseParser {
    http_version: String,
    status: u32,
    message: String,
    headers: StringHashMap<String>,
    body: String,
}

impl View for HttpResponseParser {
    type V = HttpResponseView;

    closed spec fn view(&self) -> HttpResponseView {
        HttpResponseView {
            http_version: self.http_version@,
            status: self.status,
            message: self.message@,
            headers: header_texts(self.headers),
            body: self.body@,
        }
    }
}

/// Reads the header lines in `chars[from..to]` into a map.
fn parse_headers(chars: &Vec<char>, from: usize, to: usize) -> (r: Option<StringHashMap<String>>)
    requires
        from <= to <= chars.len(),
    ensures
        match r {
            Some(map) => headers_from(lines(chars@.subrange(from as int, to as int)), Map::empty())
                == Some(header_texts(map)),
            None => headers_from(lines(chars@.subrange(from as int, to as int)), Map::empty())
                is None,
        },
{
    let line_break: Vec<char> = vec!['\r', '\n'];
    let colon: Vec<char> = vec![':'];
    let ghost s = chars@;
    let ghost goal = headers_from(lines(s.subrange(from as int, to as int)), Map::empty());
    let mut headers: StringHashMap<String> = StringHashMap::new();
    let mut pos: usize = from;
    let mut more = true;
    proof {
        assert(line_break@ =~= crlf());
        assert(colon@ =~= seq![':']);
        assert(header_texts(headers) =~= Map::empty());
    }
    while more
        invariant
            s == chars@,
            line_break@ == crlf(),
            colon@ == seq![':'],
            from <= pos <= to <= chars.len(),
            goal == headers_from(lines(s.subrange(from as int, to as int)), Map::empty()),
            more ==> goal == headers_from(
                lines(s.subrange(pos as int, to as int)),
                header_texts(headers),
            ),
            !more ==> goal == Some(header_texts(headers)),
        decreases
                if more {
                    to - pos + 1
                } else {
                    0
                },
    {
        let ghost cur = s.subrange(pos as int, to as int);
        let ghost before = header_texts(headers);
        let found = find_in(chars, pos, to, &line_break);
        let line_end: usize = match found {
            Some(e) => e,
            None => to,
        };
        let ghost line = s.subrange(pos as int, line_end as int);
        proof {
            match found {
                Some(e) => {
                    assert(cur.subrange(0, e - pos) =~= line);
                    assert(tail(cur, e - pos + 2) =~= s.subrange(e + 2, to as int));
                    assert(lines(cur) == seq![line] + lines(s.subrange(e + 2, to as int)));
                    assert(lines(cur).drop_first() =~= lines(s.subrange(e + 2, to as int)));
                },
                None => {
                    assert(cur =~= line);
                    assert(lines(cur) == seq![line]);
                    assert(lines(cur).drop_first() =~= Seq::<Seq<char>>::empty());
                },
            }
            assert(lines(cur)[0] == line);
        }
        if line_end == pos {
            assert(line.len() == 0);
            assert(goal == Some(before));
            more = false;
        } else {
            match find_in(chars, pos, line_end, &colon) {
                None => {
                    return None;
                },
                Some(c) => {
                    let name = to_text(chars, pos, c);
                    let value = to_text(chars, c + 1, line_end);
                    proof {
                        assert(line.subrange(0, c - pos) =~= name@);
                        assert(tail(line, c - pos + 1) =~= value@);
                        assert(split_once(line, seq![':']) == Some((name@, value@)));
                    }
                    headers.insert(name, value);
                    proof {
                        assert(header_texts(headers) =~= before.insert(name@, value@));
                        assert(goal == headers_from(lines(cur).drop_first(), header_texts(headers)));
                        if found is None {
                            assert(headers_from(
                                Seq::<Seq<char>>::empty(),
                                header_texts(headers),
                            ) == Some(header_texts(headers)));
                        }
                    }
                    match found {
                        Some(e) => {
                            pos = e + 2;
                        },
                        None => {
                            more = false;
                        },
                    }
                },
            }
        }
    }
    Some(headers)
}

impl HttpResponseParser {
    /// Takes `response` apart.
    pub fn parse(response: &str) -> (r: Result<HttpResponseParser, HttpResponseParseError>)
        ensures
            match r {
                Ok(parser) => response_parsed(response@) == Ok::<
                    HttpResponseView,
                    HttpResponseParseError,
                >(parser@),
                Err(e) => response_parsed(response@) == Err::<
                    HttpResponseView,
                    HttpResponseParseError,
                >(e),
            },
    {
        let chars = to_chars(response);
        let end = chars.len();
        let space: Vec<char> = vec![' '];
        let line_break: Vec<char> = vec!['\r', '\n'];
        let blank: Vec<char> = vec!['\r', '\n', '\r', '\n'];
        let ghost s = chars@;
        proof {
            assert(space@ =~= seq![' ']);
            assert(line_break@ =~= crlf());
            assert(blank@ =~= blank_line());
            assert(tail(s, 0) =~= s);
        }
        let version_end = match find_in(&chars, 0, end, &space) {
            Some(i) => i,
            None => {
                return Err(HttpResponseParseError::MissingHTTPVersion);
            },
        };
        let ghost rest1 = tail(s, version_end + 1);
        proof {
            lemma_split_tail(s, 0, space@, version_end as int);
            assert(split_once(s, seq![' ']) == Some((s.subrange(0, version_end as int), rest1)));
        }
        let status_end = match find_in(&chars, version_end + 1, end, &space) {
            Some(i) => i,
            None => {
                return Err(HttpResponseParseError::MissingStatus);
            },
        };
        let ghost rest2 = tail(s, status_end + 1);
        proof {
            lemma_split_tail(s, version_end + 1, space@, status_end as int);
            assert(split_once(rest1, seq![' ']) == Some(
                (s.subrange(version_end + 1, status_end as int), rest2),
            ));
        }
        let status = match parse_u32_in(&chars, version_end + 1, status_end) {
            Some(status) => status,
            None => {
                return Err(HttpResponseParseError::MissingStatus);
            },
        };
        let message_end = match find_in(&chars, status_end + 1, end, &line_break) {
            Some(i) => i,
            None => {
                return Err(HttpResponseParseError::MissingStatusMessage);
            },
        };
        let ghost rest3 = tail(s, message_end + 2);
        proof {
            lemma_split_tail(s, status_end + 1, crlf(), message_end as int);
            assert(split_once(rest2, crlf()) == Some(
                (s.subrange(status_end + 1, message_end as int), rest3),
            ));
        }
        let headers_end = match find_in(&chars, message_end + 2, end, &blank) {
            Some(i) => i,
            None => {
                return Err(HttpResponseParseError::MalformedHeader);
            },
        };
        proof {
            lemma_split_tail(s, message_end + 2, blank_line(), headers_end as int);
            assert(split_once(rest3, blank_line()) == Some(
                (s.subrange(message_end + 2, headers_end as int), tail(s, headers_end + 4)),
            ));
        }
        let headers = match parse_headers(&chars, message_end + 2, headers_end) {
            Some(headers) => headers,
            None => {
                return Err(HttpResponseParseError::MalformedHeader);
            },
        };
        Ok(
            HttpResponseParser {
                http_version: to_text(&chars, 0, version_end),
                status,
                message: to_text(&chars, status_end + 1, message_end),
                headers,
                body: to_text(&chars, headers_end + 4, end),
            },
        )
    }

    /// The status code.
    pub fn status(&self) -> (status: u32)
        ensures
            status == self@.status,
    {
        self.status
    }

    /// The body: all that follows the empty line.
    pub fn body(&self) -> (body: &str)
        ensures
            body@ == self@.body,
    {
        self.body.as_str()
    }

    /// The message that follows the status code.
    pub fn status_message(&self) -> (message: &str)
        ensures
            message@ == self@.message,
    {
        self.message.as_str()
    }

    /// The headers, by name.
    pub fn headers_map(&self) -> (headers: &StringHashMap<String>)
        ensures
            header_texts(*headers) == self@.headers,
    {
        &self.headers
    }

    /// The HTTP version that the response names.
    pub fn http_version(&self) -> (version: &str)
        ensures
            version@ == self@.http_version,
    {
        self.http_version.as_str()
    }

    /// The response as it is shown: the text of its body without the tags.
    pub fn to_text(&self) -> (text: String)
        ensures
            text@ == visible_text(self@.body),
    {
        HTMLParser::parse(self.body())
    }
}

/// Whether a reader that has read all of `s` is inside a tag: the last angle
/// bracket of `s`, if it has one, opens.
pub open spec fn inside_tag(s: Seq<char>) -> bool
    decreases s.len(),
{
    if s.len() == 0 {
        false
    } else if s.last() == '<' {
        true
    } else if s.last() == '>' {
        false
    } else {
        inside_tag(s.drop_last())
    }
}

/// The text of `s` that lies outside its tags: every character that is no
/// angle bracket and is not read inside a tag, in order.
pub open spec fn visible_text(s: Seq<char>) -> Seq<char>
    decreases s.len(),
{
    if s.len() == 0 {
        Seq::empty()
    } else if s.last() != '<' && s.last() != '>' && !inside_tag(s.drop_last()) {
        visible_text(s.drop_last()).push(s.last())
    } else {
        visible_text(s.drop_last())
    }
}

/// The reader of HTML bodies.
pub struct HTMLParser;

impl HTMLParser {
    /// The text of `body` without its tags.
    pub fn parse(body: &str) -> (text: String)
        ensures
            text@ == visible_text(body@),
    {
        let mut in_tag = false;
        let mut text = String::new();
        let chars = to_chars(body);
        let mut i: usize = 0;
        while i < chars.len()
            invariant
                i <= chars.len(),
                in_tag == inside_tag(chars@.take(i as int)),
                text@ == visible_text(chars@.take(i as int)),
            decreases chars.len() - i,
        {
            let c = chars[i];
            proof {
                let longer = chars@.take(i + 1);
                assert(longer.drop_last() =~= chars@.take(i as int));
                assert(longer.last() == c);
            }
            if c == '<' {
                in_tag = true;
            } else if c == '>' {
                in_tag = false;
            } else if !in_tag {
                text.push(c);
            }
            i += 1;
        }
        assert(chars@.take(chars.len() as int) =~= chars@);
        text
    }
}

/// What is shown for `response`: the text of an HTTP body without its tags,
/// and any other response as the text it carries. A source view shows what it
/// wraps as it came.
pub open spec fn shown(response: Response) -> Result<Seq<char>, HttpResponseParseError> {
    match response {
        Response::Http(res) => match response_parsed(res@) {
            Ok(parsed) => Ok(visible_text(parsed.body)),
            Err(e) => Err(e),
        },
        other => Ok(other.text()),
    }
}

/// Turns `response` into what is to be shown for it. There has to be a
/// response.
pub fn parse(response: Response) -> (r: Result<String, HttpResponseParseError>)
    requires
        !(response is Nothing),
    ensures
        match r {
            Ok(text) => shown(response) == Ok::<Seq<char>, HttpResponseParseError>(text@),
            Err(e) => shown(response) == Err::<Seq<char>, HttpResponseParseError>(e),
        },
{
    match response {
        Response::Http(res) => match HttpResponseParser::parse(res.as_str()) {
            Ok(parsed) => Ok(parsed.to_text()),
            Err(e) => Err(e),
        },
        other => Ok(other.to_text()),
    }
}

} // verus!
