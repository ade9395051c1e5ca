//! Responses as plain values.
//!
//! A response of the HTTP layer carries its body as a stream. The decisions of
//! this library need the status, the header lines and, where the body was
//! made here, its text: `Response` holds exactly those.

use std::collections::HashMap;
use vstd::prelude::*;

verus! {

/// An ordered list of header lines, or of substitution pairs.
pub type Pairs = Vec<(String, String)>;

/// What a list of pairs holds.
pub type PairsView = Seq<(Seq<char>, Seq<char>)>;

/// Appends a copy of every pair of `more` to `pairs`, in order.
pub fn append_pairs(pairs: &mut Pairs, more: &Pairs)
    ensures
        final(pairs).deep_view() == old(pairs).deep_view() + more.deep_view(),
{
    let mut i: usize = 0;
    assert(more.deep_view().take(0) == PairsView::empty());
    assert(pairs.deep_view() + PairsView::empty() == pairs.deep_view());
    while i < more.len()
        invariant
            i <= more.len(),
            pairs.deep_view() == old(pairs).deep_view() + more.deep_view().take(i as int),
        decreases more.len() - i,
    {
        let ghost before = pairs.deep_view();
        let name = more[i].0.clone();
        let value = more[i].1.clone();
        pairs.push((name, value));
        proof {
            assert(pairs.deep_view() == before.push((name@, value@)));
            assert(more.deep_view().take(i + 1) == more.deep_view().take(i as int).push(
                (name@, value@),
            ));
        }
        i += 1;
    }
    assert(more.deep_view().take(more.len() as int) == more.deep_view());
}

/// Copies a list of pairs.
pub fn clone_pairs(pairs: &Pairs) -> (copy: Pairs)
    ensures
        copy.deep_view() == pairs.deep_view(),
{
    let mut copy: Pairs = Vec::new();
    assert(copy.deep_view() == PairsView::empty());
    append_pairs(&mut copy, pairs);
    assert(PairsView::empty() + pairs.deep_view() == pairs.deep_view());
    copy
}

/// The body of a response.
#[derive(Debug, PartialEq, Eq)]
pub enum Body {
    /// The body is this text.
    Inline(String),
    /// The body is the stream of the file that the directory matcher found.
    Asset,
}

/// What a body holds.
pub enum BodyView {
    Inline(Seq<char>),
    Asset,
}

impl View for Body {
    type V = BodyView;

    open spec fn view(&self) -> BodyView {
        match self {
            Body::Inline(text) => BodyView::Inline(text@),
            Body::Asset => BodyView::Asset,
        }
    }
}

/// One response: status, header lines in the order in which they are sent,
/// and body.
#[derive(Debug, PartialEq, Eq)]
pub struct Response {
    pub status_code: u16,
    pub headers: Pairs,
    pub body: Body,
}

/// What a response holds.
pub struct ResponseView {
    pub status_code: u16,
    pub headers: PairsView,
    pub body: BodyView,
}

impl View for Response {
    type V = ResponseView;

    open spec fn view(&self) -> ResponseView {
        ResponseView {
            status_code: self.status_code,
            headers: self.headers.deep_view(),
            body: self.body@,
        }
    }
}

/// A temporary redirect to `location`: status 302, the target in a
/// `Location` header, no body.
pub open spec fn redirect_view(location: Seq<char>) -> ResponseView {
    ResponseView {
        status_code: 302,
        headers: seq![("Location"@, location)],
        body: BodyView::Inline(Seq::empty()),
    }
}

/// A successful plain-text response with the given body.
pub open spec fn text_view(text: Seq<char>) -> ResponseView {
    ResponseView {
        status_code: 200,
        headers: seq![("Content-Type"@, "text/plain; charset=utf-8"@)],
        body: BodyView::Inline(text),
    }
}

/// The JSON object with a single member, for a key and a value that need no
/// escaping.
pub open spec fn json_member(key: Seq<char>, value: Seq<char>) -> Seq<char> {
    "{\""@ + key + "\":\""@ + value + "\"}"@
}

/// A successful JSON response whose body is the object with the one member
/// `key`.
pub open spec fn json_view(key: Seq<char>, value: Seq<char>) -> ResponseView {
    ResponseView {
        status_code: 200,
        headers: seq![("Content-Type"@, "application/json; charset=utf-8"@)],
        body: BodyView::Inline(json_member(key, value)),
    }
}

/// The key under which an error payload carries its message.
pub open spec fn error_key() -> Seq<char> {
    "error"@
}

/// The error payload: the JSON object with the single member `error`.
pub open spec fn error_object(message: Seq<char>) -> Seq<char> {
    json_member(error_key(), message)
}

/// A JSON response that carries an error message. Its status is the one that
/// a JSON response has by default, 200.
pub open spec fn error_view(message: Seq<char>) -> ResponseView {
    json_view(error_key(), message)
}

/// A lower-case letter or a space.
pub open spec fn is_plain_char(c: char) -> bool {
    c == ' ' || ('a' <= c && c <= 'z')
}

/// The message is written in lower-case letters and spaces only, so JSON
/// writes it between quotes as it is.
pub open spec fn is_plain_message(message: Seq<char>) -> bool {
    forall|i: int| 0 <= i < message.len() ==> is_plain_char(#[trigger] message[i])
}

/// `rouille::Response::redirect_302`, taken apart into plain values. The
/// crate sets status 302, one header `Location` with the target, and an empty
/// body.
#[verifier::external_body]
pub(crate) fn rouille_redirect_302(location: &str) -> (response: Response)
    ensures
        response@ == redirect_view(location@),
{
    let built = rouille::Response::redirect_302(location.to_owned());
    let (mut reader, _) = built.data.into_reader_and_size();
    let mut body = String::new();
    let _ = std::io::Read::read_to_string(&mut reader, &mut body);
    let headers = built.headers.into_iter().map(|(n, v)| (n.into_owned(), v.into_owned()));
    Response { status_code: built.status_code, headers: headers.collect(), body: Body::Inline(body) }
}

/// `rouille::Response::text`, taken apart into plain values. The crate sets
/// status 200, one header `Content-Type: text/plain; charset=utf-8`, and the
/// text as the body.
#[verifier::external_body]
pub(crate) fn rouille_text(text: &str) -> (response: Response)
    ensures
        response@ == text_view(text@),
{
    let built = rouille::Response::text(text);
    let (mut reader, _) = built.data.into_reader_and_size();
    let mut body = String::new();
    let _ = std::io::Read::read_to_string(&mut reader, &mut body);
    let headers = built.headers.into_iter().map(|(n, v)| (n.into_owned(), v.into_owned()));
    Response { status_code: built.status_code, headers: headers.collect(), body: Body::Inline(body) }
}

/// `rouille::Response::json` on a map with one entry, taken apart into plain
/// values. The crate sets status 200, one header
/// `Content-Type: application/json; charset=utf-8`, and as the body the JSON
/// text of the map: for one entry an opening brace, the key in double quotes,
/// a colon, the value in double quotes and a closing brace. Text of
/// lower-case letters and spaces is written without escapes.
#[verifier::external_body]
fn rouille_json_member(key: &str, value: &str) -> (response: Response)
    requires
        is_plain_message(key@),
        is_plain_message(value@),
    ensures
        response@ == json_view(key@, value@),
{
    let mut content = HashMap::new();
    content.insert(key, value);
    let built = rouille::Response::json(&content);
    let (mut reader, _) = built.data.into_reader_and_size();
    let mut body = String::new();
    let _ = std::io::Read::read_to_string(&mut reader, &mut body);
    let headers = built.headers.into_iter().map(|(n, v)| (n.into_owned(), v.into_owned()));
    Response { status_code: built.status_code, headers: headers.collect(), body: Body::Inline(body) }
}

/// The error that a request can end in.
#[derive(Clone, Copy, Debug, PartialEq, Eq)]
pub enum RequestError {
    /// The request path names nothing in the served directory.
    NoMatch,
    /// The served file could not be read as text.
    FileUnreadable,
}

impl RequestError {
    /// The message that the error payload carries.
    pub open spec fn message_view(self) -> Seq<char> {
        match self {
            RequestError::NoMatch => "no match found"@,
            RequestError::FileUnreadable => "error reading file"@,
        }
    }

    /// The message that the error payload carries.
    pub fn message(&self) -> (text: &'static str)
        ensures
            text@ == self.message_view(),
            is_plain_message(text@),
    {
        match self {
            RequestError::NoMatch => {
                proof {
                    reveal_strlit("no match found");
                }
                "no match found"
            },
            RequestError::FileUnreadable => {
                proof {
                    reveal_strlit("error reading file");
                }
                "error reading file"
            },
        }
    }
}

/// The structured error payload for `error`.
pub fn error_response(error: RequestError) -> (response: Response)
    ensures
        response@ == error_view(error.message_view()),
{
    proof {
        reveal_strlit("error");
    }
    rouille_json_member("error", error.message())
}

} // verus!
