//! What a request can bring back.
use vstd::prelude::*;
use vstd::string::*;

verus! {

/// What a request for a URL brought back, by the kind of source it came from.
#[derive(Debug)]
pub enum Response {
    /// The raw text of an HTTP exchange: status line, headers and body.
    Http(String),
    /// The text of a local file.
    File(String),
    /// The payload carried by the URL itself.
    Data(String),
    /// Another response, to be shown as its source.
    ViewSource(Box<Response>),
    /// Nothing was requested.
    Nothing,
}

impl Response {
    /// The response as it is shown when nothing interprets it: the text it
    /// carries, the text of what it wraps, or a remark that there is none.
    pub open spec fn text(self) -> Seq<char>
        decreases self,
    {
        match self {
            Response::Http(res) => res@,
            Response::File(res) => res@,
            Response::Data(res) => res@,
            Response::ViewSource(res) => (*res).text(),
            Response::Nothing => "No response"@,
        }
    }

    /// The response as text.
    pub fn to_text(&self) -> (text: String)
        ensures
            text@ == self.text(),
        decreases self,
    {
        match self {
            Response::Http(res) => res.clone(),
            Response::File(res) => res.clone(),
            Response::Data(res) => res.clone(),
            Response::ViewSource(res) => res.to_text(),
            Response::Nothing => String::from_str("No response"),
        }
    }
}

} // verus!
