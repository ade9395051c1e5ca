//! The request decision engine: what is answered to a request.
//!
//! A request is answered in two steps. `RequestHandler::decide` says where
//! the body comes from. The caller fetches it: it reads the file, or asks the
//! directory matcher. `ResponseDecision::respond` then makes the response
//! from what was fetched. Nothing is kept from one request to the next.

use crate::access_log::{log_line, log_output, write_log, AccessLogEntry, Request};
use crate::asset::{AssetKind, ResolvedAsset};
use crate::clock::{is_ordinary_instant, log_time_pattern, utc_timestamp_text};
use crate::http::{
    append_pairs, clone_pairs, error_object, error_response, error_view, redirect_view,
    rouille_redirect_302, rouille_text, text_view, Body, BodyView, Pairs, PairsView, RequestError,
    Response, ResponseView,
};
use crate::substitute::{apply_substitutions, substitute};
use vstd::prelude::*;

verus! {

/// Where the body of a response comes from.
#[derive(Debug)]
pub enum BodySource {
    /// The request is redirected to this location.
    Redirect(String),
    /// The text of the file at this path, with these substitutions applied.
    FileText(String, Pairs),
    /// What the directory matcher finds under this base directory for this
    /// request path.
    DirectoryMatch(String, String),
    /// Nothing is served.
    NotFound,
}

/// What a body source holds.
pub enum BodySourceView {
    Redirect(Seq<char>),
    FileText(Seq<char>, PairsView),
    DirectoryMatch(Seq<char>, Seq<char>),
    NotFound,
}

impl View for BodySource {
    type V = BodySourceView;

    open spec fn view(&self) -> BodySourceView {
        match self {
            BodySource::Redirect(location) => BodySourceView::Redirect(location@),
            BodySource::FileText(path, substitutions) => BodySourceView::FileText(
                path@,
                substitutions.deep_view(),
            ),
            BodySource::DirectoryMatch(base, request_path) => BodySourceView::DirectoryMatch(
                base@,
                request_path@,
            ),
            BodySource::NotFound => BodySourceView::NotFound,
        }
    }
}

/// The decision on one request.
#[derive(Debug)]
pub struct ResponseDecision {
    /// Where the body comes from.
    pub body_source: BodySource,
    /// The status that was configured to stand in place of the default.
    pub status_code: Option<u16>,
    /// The header lines that are added to the response, in their order.
    pub extra_headers: Pairs,
}

/// What a decision holds.
pub struct ResponseDecisionView {
    pub body_source: BodySourceView,
    pub status_code: Option<u16>,
    pub extra_headers: PairsView,
}

impl View for ResponseDecision {
    type V = ResponseDecisionView;

    open spec fn view(&self) -> ResponseDecisionView {
        ResponseDecisionView {
            body_source: self.body_source@,
            status_code: self.status_code,
            extra_headers: self.extra_headers.deep_view(),
        }
    }
}

/// What the caller fetched for a decision.
#[derive(Debug)]
pub enum Fetched {
    /// Nothing was fetched.
    Nothing,
    /// The served file was read, and this is its text.
    FileText(String),
    /// The served file could not be read as text.
    FileUnreadable,
    /// The directory matcher answered with this status and these headers.
    Directory { status_code: u16, headers: Pairs },
}

/// What was fetched, as plain text and numbers.
pub enum FetchedView {
    Nothing,
    FileText(Seq<char>),
    FileUnreadable,
    Directory { status_code: u16, headers: PairsView },
}

impl View for Fetched {
    type V = FetchedView;

    open spec fn view(&self) -> FetchedView {
        match self {
            Fetched::Nothing => FetchedView::Nothing,
            Fetched::FileText(text) => FetchedView::FileText(text@),
            Fetched::FileUnreadable => FetchedView::FileUnreadable,
            Fetched::Directory { status_code, headers } => FetchedView::Directory {
                status_code: *status_code,
                headers: headers.deep_view(),
            },
        }
    }
}

/// A status that reports success or a redirect.
pub open spec fn is_success(status_code: u16) -> bool {
    200 <= status_code < 400
}

/// Tells whether a status reports success or a redirect.
pub fn status_is_success(status_code: u16) -> (success: bool)
    ensures
        success == is_success(status_code),
{
    status_code >= 200 && status_code < 400
}

/// The status of the answer to a request that matched nothing: the configured
/// status, or 404 where none is configured.
pub open spec fn no_match_status(status_code: Option<u16>) -> u16 {
    match status_code {
        Some(code) => code,
        None => 404,
    }
}

/// The answer to a request that matched nothing.
pub open spec fn no_match_view(status_code: Option<u16>) -> ResponseView {
    ResponseView {
        status_code: no_match_status(status_code),
        headers: error_view(RequestError::NoMatch.message_view()).headers,
        body: error_view(RequestError::NoMatch.message_view()).body,
    }
}

/// The response before the configured headers are added.
///
/// A redirect stands as it is. A file that was read is served as text with
/// status 200, whatever status is configured; one that was not read gives the
/// error payload with the status that such a payload has by default. A
/// directory match is passed on with status 200; without a match the error
/// payload is sent with the configured status, or 404.
pub open spec fn base_response(decision: ResponseDecisionView, fetched: FetchedView) -> ResponseView {
    match decision.body_source {
        BodySourceView::Redirect(location) => redirect_view(location),
        BodySourceView::FileText(_, substitutions) => match fetched {
            FetchedView::FileText(text) => text_view(substitute(text, substitutions)),
            _ => error_view(RequestError::FileUnreadable.message_view()),
        },
        BodySourceView::DirectoryMatch(_, _) => match fetched {
            FetchedView::Directory { status_code, headers } => if is_success(status_code) {
                ResponseView { status_code: 200, headers, body: BodyView::Asset }
            } else {
                no_match_view(decision.status_code)
            },
            _ => no_match_view(decision.status_code),
        },
        BodySourceView::NotFound => no_match_view(decision.status_code),
    }
}

/// The response to a request: the base response, followed by every
/// configured header in the order in which they were given. A header is
/// added also where one of its name is there already.
pub open spec fn response_of(decision: ResponseDecisionView, fetched: FetchedView) -> ResponseView {
    let base = base_response(decision, fetched);
    ResponseView {
        status_code: base.status_code,
        headers: base.headers + decision.extra_headers,
        body: base.body,
    }
}

impl ResponseDecision {
    /// Makes the response from what was fetched for this decision.
    pub fn respond(&self, fetched: &Fetched) -> (response: Response)
        ensures
            response@ == response_of(self@, fetched@),
    {
        let mut response = match &self.body_source {
            BodySource::Redirect(location) => rouille_redirect_302(location.as_str()),
            BodySource::FileText(_, substitutions) => match fetched {
                Fetched::FileText(text) => rouille_text(
                    apply_substitutions(text.as_str(), substitutions).as_str(),
                ),
                _ => error_response(RequestError::FileUnreadable),
            },
            BodySource::DirectoryMatch(_, _) => match fetched {
                Fetched::Directory { status_code, headers } => {
                    if status_is_success(*status_code) {
                        Response {
                            status_code: 200,
                            headers: clone_pairs(headers),
                            body: Body::Asset,
                        }
                    } else {
                        self.no_match()
                    }
                },
                _ => self.no_match(),
            },
            BodySource::NotFound => self.no_match(),
        };
        assert(response@ == base_response(self@, fetched@));
        append_pairs(&mut response.headers, &self.extra_headers);
        response
    }

    fn no_match(&self) -> (response: Response)
        ensures
            response@ == no_match_view(self.status_code),
    {
        let mut response = error_response(RequestError::NoMatch);
        response.status_code = match self.status_code {
            Some(code) => code,
            None => 404,
        };
        response
    }
}

/// What the server was started with, as far as requests are concerned. It is
/// fixed when the server starts and only read afterwards.
#[derive(Debug)]
pub struct RequestHandler {
    /// The asset that is served.
    pub asset: ResolvedAsset,
    /// The substitutions that are applied to the text of a served file.
    pub replace_map: Pairs,
    /// The header lines that are added to every response.
    pub headers: Pairs,
    /// The location to which every request is redirected, if any.
    pub redirect_location: Option<String>,
    /// The status to answer with where nothing matched, if any.
    pub status_code: Option<u16>,
    /// Whether each request is written out in full.
    pub verbose: bool,
}

impl RequestHandler {
    /// Where the body of the response to a request for `request_path` comes
    /// from. A configured redirect wins over the asset.
    pub open spec fn body_source(&self, request_path: Seq<char>) -> BodySourceView {
        match self.redirect_location {
            Some(location) => BodySourceView::Redirect(location@),
            None => match self.asset.kind {
                AssetKind::File => BodySourceView::FileText(
                    self.asset.path@,
                    self.replace_map.deep_view(),
                ),
                AssetKind::Directory => BodySourceView::DirectoryMatch(
                    self.asset.path@,
                    request_path,
                ),
                AssetKind::Missing => BodySourceView::NotFound,
            },
        }
    }

    /// The decision on a request for `request_path`.
    pub open spec fn decision(&self, request_path: Seq<char>) -> ResponseDecisionView {
        ResponseDecisionView {
            body_source: self.body_source(request_path),
            status_code: self.status_code,
            extra_headers: self.headers.deep_view(),
        }
    }

    /// Decides on a request for `request_path`.
    pub fn decide(&self, request_path: &str) -> (decision: ResponseDecision)
        ensures
            decision@ == self.decision(request_path@),
    {
        let body_source = match &self.redirect_location {
            Some(location) => BodySource::Redirect(location.clone()),
            None => match self.asset.kind {
                AssetKind::File => BodySource::FileText(
                    self.asset.path.clone(),
                    clone_pairs(&self.replace_map),
                ),
                AssetKind::Directory => BodySource::DirectoryMatch(
                    self.asset.path.clone(),
                    request_path.to_owned(),
                ),
                AssetKind::Missing => BodySource::NotFound,
            },
        };
        ResponseDecision {
            body_source,
            status_code: self.status_code,
            extra_headers: clone_pairs(&self.headers),
        }
    }

    /// Writes what is printed for a request that was answered with
    /// `response` at the instant `unix_seconds` seconds after the start of
    /// 1970: the log line with the status of the response, and the request in
    /// full where the server is verbose. Something is written for every
    /// instant of the years 0 to 9999, and nothing for an instant that cannot
    /// be written as a date.
    pub fn log(&self, request: &Request, unix_seconds: i64, response: &Response) -> (output:
        Option<String>)
        ensures
            output is Some == utc_timestamp_text(unix_seconds, log_time_pattern()) is Some,
            is_ordinary_instant(unix_seconds) ==> output is Some,
            output matches Some(written) ==> written@ == log_output(
                log_line(
                    request.remote_ip@,
                    utc_timestamp_text(unix_seconds, log_time_pattern())->0,
                    request.method@,
                    request.raw_url@,
                    response.status_code,
                ),
                request.text_view(),
                self.verbose,
            ),
    {
        match AccessLogEntry::at(request, unix_seconds, response.status_code) {
            Some(entry) => Some(write_log(&entry, request, self.verbose)),
            None => None,
        }
    }

    /// Answers a request for `request_path`, for which `fetched` was fetched.
    pub fn handle(&self, request_path: &str, fetched: &Fetched) -> (response: Response)
        ensures
            response@ == response_of(self.decision(request_path@), fetched@),
    {
        self.decide(request_path).respond(fetched)
    }
}

/// The two error payloads, written out.
pub proof fn lemma_error_payloads()
    ensures
        error_object(RequestError::NoMatch.message_view()) == "{\"error\":\"no match found\"}"@,
        error_object(RequestError::FileUnreadable.message_view())
            == "{\"error\":\"error reading file\"}"@,
{
    reveal_strlit("{\"");
    reveal_strlit("error");
    reveal_strlit("\":\"");
    reveal_strlit("\"}");
    reveal_strlit("no match found");
    reveal_strlit("error reading file");
    reveal_strlit("{\"error\":\"no match found\"}");
    reveal_strlit("{\"error\":\"error reading file\"}");
    assert(error_object("no match found"@) =~= "{\"error\":\"no match found\"}"@);
    assert(error_object("error reading file"@) =~= "{\"error\":\"error reading file\"}"@);
}

/// Where a redirect is configured, every request is answered with the
/// redirect to that location: whatever the asset is, whatever status is
/// configured and whatever was fetched. The configured headers follow the
/// `Location` header.
pub proof fn lemma_redirect_wins(
    handler: RequestHandler,
    request_path: Seq<char>,
    fetched: FetchedView,
)
    requires
        handler.redirect_location is Some,
    ensures
        response_of(handler.decision(request_path), fetched) == (ResponseView {
            status_code: 302,
            headers: seq![("Location"@, handler.redirect_location->0@)]
                + handler.headers.deep_view(),
            body: BodyView::Inline(Seq::empty()),
        }),
{
}

/// A file that is served without substitutions is sent as it was read, with
/// status 200 and with the configured headers in their order behind the
/// content type.
pub proof fn lemma_file_served_unchanged(
    handler: RequestHandler,
    request_path: Seq<char>,
    text: Seq<char>,
)
    requires
        handler.redirect_location is None,
        handler.asset.kind == AssetKind::File,
        handler.replace_map@.len() == 0,
    ensures
        response_of(handler.decision(request_path), FetchedView::FileText(text)) == (ResponseView {
            status_code: 200,
            headers: seq![("Content-Type"@, "text/plain; charset=utf-8"@)]
                + handler.headers.deep_view(),
            body: BodyView::Inline(text),
        }),
{
    assert(handler.replace_map.deep_view() =~= PairsView::empty());
}

/// A served file always answers with status 200, whatever status is
/// configured.
pub proof fn lemma_file_status_is_200(
    handler: RequestHandler,
    request_path: Seq<char>,
    fetched: FetchedView,
)
    requires
        handler.redirect_location is None,
        handler.asset.kind == AssetKind::File,
    ensures
        response_of(handler.decision(request_path), fetched).status_code == 200,
{
}

/// A request that matches nothing in a served directory is answered with the
/// error payload `{"error":"no match found"}`, under the configured status,
/// or under 404 where none is configured.
pub proof fn lemma_no_match_in_directory(
    handler: RequestHandler,
    request_path: Seq<char>,
    status_code: u16,
    headers: PairsView,
)
    requires
        handler.redirect_location is None,
        handler.asset.kind == AssetKind::Directory,
        !is_success(status_code),
    ensures
        response_of(
            handler.decision(request_path),
            FetchedView::Directory { status_code, headers },
        ) == (ResponseView {
            status_code: match handler.status_code {
                Some(code) => code,
                None => 404,
            },
            headers: seq![("Content-Type"@, "application/json; charset=utf-8"@)]
                + handler.headers.deep_view(),
            body: BodyView::Inline("{\"error\":\"no match found\"}"@),
        }),
{
    lemma_error_payloads();
}

/// A request that the directory matcher could serve is passed on with status
/// 200.
pub proof fn lemma_match_in_directory(
    handler: RequestHandler,
    request_path: Seq<char>,
    status_code: u16,
    headers: PairsView,
)
    requires
        handler.redirect_location is None,
        handler.asset.kind == AssetKind::Directory,
        is_success(status_code),
    ensures
        response_of(
            handler.decision(request_path),
            FetchedView::Directory { status_code, headers },
        ) == (ResponseView {
            status_code: 200,
            headers: headers + handler.headers.deep_view(),
            body: BodyView::Asset,
        }),
{
}

} // verus!
