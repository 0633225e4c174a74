//! URLs of the few schemes that the browser follows, held as one text with
//! the places at which its parts end.
use crate::text::{find, find_in, lemma_find, parse_u32, parse_u32_in, stands_at, tail, to_chars};
use vstd::prelude::*;
use vstd::string::*;

verus! {

/// Why a text is no URL.
#[derive(Debug, Clone, Copy, PartialEq, Eq, Structural)]
pub enum ParseError {
    /// The text is empty.
    Empty,
    /// The text has no colon, so nothing ends the scheme.
    SchemeMissing,
    /// The text ends right after `//`.
    HostMissing,
    /// The scheme is none of `http`, `https`, `file` and `data`.
    UnknownScheme,
}

impl ParseError {
    /// The error in words.
    pub fn message(&self) -> (text: &'static str)
        ensures
            text@ == match self {
                ParseError::Empty => "Cannot parse empty string"@,
                ParseError::SchemeMissing => "missing scheme"@,
                ParseError::HostMissing => "missing host"@,
                ParseError::UnknownScheme => "unknown scheme"@,
            },
    {
        match self {
            ParseError::Empty => "Cannot parse empty string",
            ParseError::SchemeMissing => "missing scheme",
            ParseError::HostMissing => "missing host",
            ParseError::UnknownScheme => "unknown scheme",
        }
    }
}

/// A URL as a text and the places in it: the scheme ends at `scheme_end`,
/// where the colon stands; host, path and data end where their fields say,
/// if the URL has them.
pub struct UrlView {
    pub text: Seq<char>,
    pub scheme_end: int,
    pub host_end: Option<int>,
    pub path_end: Option<int>,
    pub data_end: Option<int>,
}

impl UrlView {
    /// Whether the places lie in the text and in order, so that every part
    /// is a stretch of the text.
    pub open spec fn wf(self) -> bool {
        &&& 0 <= self.scheme_end < self.text.len()
        &&& match self.host_end {
            Some(host_end) => {
                &&& self.scheme_end + 3 <= host_end
                &&& self.path_end matches Some(path_end) && host_end <= path_end
            },
            None => true,
        }
        &&& match self.path_end {
            Some(path_end) => self.scheme_end + 1 <= path_end <= self.text.len(),
            None => true,
        }
        &&& match self.data_end {
            Some(data_end) => self.scheme_end + 1 <= data_end <= self.text.len(),
            None => true,
        }
    }

    /// The scheme: what stands before the colon.
    pub open spec fn scheme(self) -> Seq<char> {
        self.text.subrange(0, self.scheme_end)
    }

    /// The host with its port, if the URL has an authority: what stands
    /// between `://` and the path.
    pub open spec fn host(self) -> Option<Seq<char>> {
        match self.host_end {
            Some(host_end) => Some(self.text.subrange(self.scheme_end + 3, host_end)),
            None => None,
        }
    }

    /// The port: the number after the first colon of the host, if the host
    /// has a colon and a number follows it.
    pub open spec fn port(self) -> Option<u32> {
        match self.host() {
            Some(host) => match find(host, seq![':']) {
                Some(colon) => parse_u32(tail(host, colon + 1)),
                None => None,
            },
            None => None,
        }
    }

    /// The path, if the URL is hierarchical: from the end of the host, or
    /// from behind the colon where there is no host.
    pub open spec fn path(self) -> Option<Seq<char>> {
        match self.path_end {
            Some(path_end) => match self.host_end {
                Some(host_end) => Some(self.text.subrange(host_end, path_end)),
                None => Some(self.text.subrange(self.scheme_end + 1, path_end)),
            },
            None => None,
        }
    }

    /// The data, if the URL is opaque: all that stands behind the colon.
    pub open spec fn data(self) -> Option<Seq<char>> {
        match self.data_end {
            Some(data_end) => Some(self.text.subrange(self.scheme_end + 1, data_end)),
            None => None,
        }
    }
}

/// Whether `scheme` is one of the schemes that a URL may have.
pub open spec fn allowed_scheme(scheme: Seq<char>) -> bool {
    ||| scheme == seq!['h', 't', 't', 'p']
    ||| scheme == seq!['h', 't', 't', 'p', 's']
    ||| scheme == seq!['f', 'i', 'l', 'e']
    ||| scheme == seq!['d', 'a', 't', 'a']
}

/// What `s` is as a URL, or why it is none.
///
/// The scheme runs to the first colon. A `/` right behind the colon makes
/// the URL hierarchical: all that follows the colon is its path, unless a
/// second `/` follows, in which case the host runs from behind `//` to the
/// next `/` and the path from there. A host that no `/` ends gets the path
/// `/`, which is appended to the text. Without a `/` behind the colon the URL
/// is opaque, and all that follows the colon is its data.
pub open spec fn parsed(s: Seq<char>) -> Result<UrlView, ParseError> {
    if s.len() == 0 {
        Err(ParseError::Empty)
    } else {
        match find(s, seq![':']) {
            None => Err(ParseError::SchemeMissing),
            Some(colon) => {
                let end = s.len() as int;
                if !allowed_scheme(s.subrange(0, colon)) {
                    Err(ParseError::UnknownScheme)
                } else if colon + 1 < end && s[colon + 1] == '/' {
                    if colon + 2 < end && s[colon + 2] == '/' {
                        if colon + 3 == end {
                            Err(ParseError::HostMissing)
                        } else {
                            match find(tail(s, colon + 3), seq!['/']) {
                                Some(slash) => Ok(
                                    UrlView {
                                        text: s,
                                        scheme_end: colon,
                                        host_end: Some(colon + 3 + slash),
                                        path_end: Some(end),
                                        data_end: None,
                                    },
                                ),
                                None => Ok(
                                    UrlView {
                                        text: s.push('/'),
                                        scheme_end: colon,
                                        host_end: Some(end),
                                        path_end: Some(end + 1),
                                        data_end: None,
                                    },
                                ),
                            }
                        }
                    } else {
                        Ok(
                            UrlView {
                                text: s,
                                scheme_end: colon,
                                host_end: None,
                                path_end: Some(end),
                                data_end: None,
                            },
                        )
                    }
                } else {
                    Ok(
                        UrlView {
                            text: s,
                            scheme_end: colon,
                            host_end: None,
                            path_end: None,
                            data_end: Some(end),
                        },
                    )
                }
            },
        }
    }
}

/// Every URL that a text is parsed to is well formed, has an allowed scheme,
/// and is either hierarchical or opaque.
pub proof fn lemma_parsed(s: Seq<char>)
    ensures
        parsed(s) matches Ok(url) ==> {
            &&& url.wf()
            &&& allowed_scheme(url.scheme())
            &&& url.text[url.scheme_end] == ':'
            &&& url.path() is Some <==> url.data() is None
            &&& url.host() is Some ==> url.path() is Some
        },
{
    let colon_pat = seq![':'];
    let slash_pat = seq!['/'];
    lemma_find(s, colon_pat);
    if s.len() > 0 {
        if let Some(colon) = find(s, colon_pat) {
            assert(s.subrange(colon, colon + 1)[0] == colon_pat[0]);
            lemma_find(tail(s, colon + 3), slash_pat);
            if let Ok(url) = parsed(s) {
                assert(url.scheme() =~= s.subrange(0, colon));
            }
        }
    }
}

/// A URL.
#[derive(Debug)]
pub struct URL {
    serialization: String,
    scheme_end: usize,
    host_end: Option<usize>,
    path_end: Option<usize>,
    data_end: Option<usize>,
}

/// The place `place`, if there is one, as a mathematical integer.
pub open spec fn place(place: Option<usize>) -> Option<int> {
    match place {
        Some(p) => Some(p as int),
        None => None,
    }
}

impl View for URL {
    type V = UrlView;

    closed spec fn view(&self) -> UrlView {
        UrlView {
            text: self.serialization@,
            scheme_end: self.scheme_end as int,
            host_end: place(self.host_end),
            path_end: place(self.path_end),
            data_end: place(self.data_end),
        }
    }
}

/// Whether `chars[0..end]` is an allowed scheme.
fn is_allowed_scheme(chars: &Vec<char>, end: usize) -> (allowed: bool)
    requires
        end <= chars.len(),
    ensures
        allowed == allowed_scheme(chars@.subrange(0, end as int)),
{
    let http: Vec<char> = vec!['h', 't', 't', 'p'];
    let https: Vec<char> = vec!['h', 't', 't', 'p', 's'];
    let file: Vec<char> = vec!['f', 'i', 'l', 'e'];
    let data: Vec<char> = vec!['d', 'a', 't', 'a'];
    proof {
        assert(http@ =~= seq!['h', 't', 't', 'p']);
        assert(https@ =~= seq!['h', 't', 't', 'p', 's']);
        assert(file@ =~= seq!['f', 'i', 'l', 'e']);
        assert(data@ =~= seq!['d', 'a', 't', 'a']);
        assert(http@.len() == 4 && https@.len() == 5 && file@.len() == 4 && data@.len() == 4);
        assert(chars@.subrange(0, end as int).len() == end);
    }
    if end == 4 {
        stands_at(chars, 0, &http) || stands_at(chars, 0, &file) || stands_at(chars, 0, &data)
    } else if end == 5 {
        stands_at(chars, 0, &https)
    } else {
        false
    }
}

impl URL {
    #[verifier::type_invariant]
    spec fn well_formed(&self) -> bool {
        self@.wf()
    }

    /// Reads `s` as a URL.
    pub fn parse(s: &str) -> (r: Result<URL, ParseError>)
        ensures
            match r {
                Ok(url) => parsed(s@) == Ok::<UrlView, ParseError>(url@) && url@.wf(),
                Err(e) => parsed(s@) == Err::<UrlView, ParseError>(e),
            },
    {
        let chars = to_chars(s);
        let end = chars.len();
        if end == 0 {
            return Err(ParseError::Empty);
        }
        let colon_pat: Vec<char> = vec![':'];
        let slash_pat: Vec<char> = vec!['/'];
        proof {
            assert(colon_pat@ =~= seq![':']);
            assert(slash_pat@ =~= seq!['/']);
            assert(chars@.subrange(0, end as int) =~= chars@);
            lemma_parsed(s@);
        }
        let scheme_end = match find_in(&chars, 0, end, &colon_pat) {
            Some(colon) => colon,
            None => {
                return Err(ParseError::SchemeMissing);
            },
        };
        if !is_allowed_scheme(&chars, scheme_end) {
            return Err(ParseError::UnknownScheme);
        }
        let mut serialization = String::from_str(s);
        if scheme_end + 1 < end && chars[scheme_end + 1] == '/' {
            if scheme_end + 2 < end && chars[scheme_end + 2] == '/' {
                let after_scheme = scheme_end + 3;
                if after_scheme == end {
                    return Err(ParseError::HostMissing);
                }
                match find_in(&chars, after_scheme, end, &slash_pat) {
                    Some(slash) => Ok(
                        URL {
                            serialization,
                            scheme_end,
                            host_end: Some(slash),
                            path_end: Some(end),
                            data_end: None,
                        },
                    ),
                    None => {
                        serialization.push('/');
                        let path_end = serialization.as_str().unicode_len();
                        Ok(
                            URL {
                                serialization,
                                scheme_end,
                                host_end: Some(end),
                                path_end: Some(path_end),
                                data_end: None,
                            },
                        )
                    },
                }
            } else {
                Ok(URL { serialization, scheme_end, host_end: None, path_end: Some(end), data_end: None })
            }
        } else {
            Ok(URL { serialization, scheme_end, host_end: None, path_end: None, data_end: Some(end) })
        }
    }

    /// The scheme.
    pub fn scheme(&self) -> (scheme: &str)
        ensures
            scheme@ == self@.scheme(),
    {
        proof {
            use_type_invariant(self);
        }
        self.serialization.as_str().substring_char(0, self.scheme_end)
    }

    /// The host with its port, if the URL has an authority.
    pub fn host(&self) -> (host: Option<&str>)
        ensures
            match host {
                Some(h) => self@.host() == Some(h@),
                None => self@.host() is None,
            },
    {
        proof {
            use_type_invariant(self);
        }
        match self.host_end {
            Some(host_end) => Some(
                self.serialization.as_str().substring_char(self.scheme_end + 3, host_end),
            ),
            None => None,
        }
    }

    /// The port, if the host names one.
    pub fn port(&self) -> (port: Option<u32>)
        ensures
            port == self@.port(),
    {
        let host = match self.host() {
            Some(host) => host,
            None => {
                return None;
            },
        };
        let chars = to_chars(host);
        let colon_pat: Vec<char> = vec![':'];
        proof {
            assert(colon_pat@ =~= seq![':']);
            assert(chars@.subrange(0, chars.len() as int) =~= chars@);
        }
        match find_in(&chars, 0, chars.len(), &colon_pat) {
            Some(colon) => parse_u32_in(&chars, colon + 1, chars.len()),
            None => None,
        }
    }

    /// The path, if the URL is hierarchical.
    pub fn path(&self) -> (path: Option<&str>)
        ensures
            match path {
                Some(p) => self@.path() == Some(p@),
                None => self@.path() is None,
            },
    {
        proof {
            use_type_invariant(self);
        }
        let path_end = match self.path_end {
            Some(path_end) => path_end,
            None => {
                return None;
            },
        };
        match self.host_end {
            Some(host_end) => Some(self.serialization.as_str().substring_char(host_end, path_end)),
            None => Some(
                self.serialization.as_str().substring_char(self.scheme_end + 1, path_end),
            ),
        }
    }

    /// The data, if the URL is opaque.
    pub fn data(&self) -> (data: Option<&str>)
        ensures
            match data {
                Some(d) => self@.data() == Some(d@),
                None => self@.data() is None,
            },
    {
        proof {
            use_type_invariant(self);
        }
        match self.data_end {
            Some(data_end) => Some(
                self.serialization.as_str().substring_char(self.scheme_end + 1, data_end),
            ),
            None => None,
        }
    }
}

impl Clone for URL {
    fn clone(&self) -> (url: URL)
        ensures
            url@ == self@,
    {
        proof {
            use_type_invariant(self);
        }
        URL {
            serialization: self.serialization.clone(),
            scheme_end: self.scheme_end,
            host_end: self.host_end,
            path_end: self.path_end,
            data_end: self.data_end,
        }
    }
}

impl core::str::FromStr for URL {
    type Err = ParseError;

    /// Reads `s` as a URL, as `URL::parse` does.
    fn from_str(s: &str) -> (r: Result<URL, ParseError>)
        ensures
            match r {
                Ok(url) => parsed(s@) == Ok::<UrlView, ParseError>(url@) && url@.wf(),
                Err(e) => parsed(s@) == Err::<UrlView, ParseError>(e),
            },
    {
        URL::parse(s)
    }
}

} // verus!
