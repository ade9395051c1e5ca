//! The access logger: one line for each request, and on demand the request
//! written out in full.

use crate::http::{Pairs, PairsView};
use crate::clock::{format_utc, is_ordinary_instant, log_time_pattern, utc_timestamp_text};
use crate::style::{bold_code, paint_bold, styled};
use crate::text::{decimal, decimal_text};
use vstd::prelude::*;

verus! {

/// A request, as far as it is logged.
#[derive(Debug)]
pub struct Request {
    /// The address of the client.
    pub remote_ip: String,
    /// The method of the request.
    pub method: String,
    /// The URL as the client sent it.
    pub raw_url: String,
    /// The header lines in the order in which the client sent them.
    pub headers: Pairs,
    /// The body as text; empty where the request has none.
    pub body: String,
}

/// What the log line of one request holds.
#[derive(Debug)]
pub struct AccessLogEntry {
    /// The address of the client.
    pub client_ip: String,
    /// The time of the request, as it is written in the line.
    pub timestamp: String,
    /// The method of the request.
    pub method: String,
    /// The URL as the client sent it.
    pub raw_url: String,
    /// The status of the response.
    pub status_code: u16,
}

/// The log line of a request: the client address in bold, two dashes, the
/// time in square brackets, method and URL in double quotes, and the status.
pub open spec fn log_line(
    client_ip: Seq<char>,
    timestamp: Seq<char>,
    method: Seq<char>,
    raw_url: Seq<char>,
    status_code: u16,
) -> Seq<char> {
    styled(bold_code(), client_ip) + " - - ["@ + timestamp + "] \""@ + method + " "@ + raw_url
        + "\" "@ + decimal(status_code as nat)
}

impl AccessLogEntry {
    /// The entry for a request that was answered with `status_code` at the
    /// time written as `timestamp`.
    pub fn new(request: &Request, timestamp: String, status_code: u16) -> (entry: AccessLogEntry)
        ensures
            entry.client_ip@ == request.remote_ip@,
            entry.timestamp@ == timestamp@,
            entry.method@ == request.method@,
            entry.raw_url@ == request.raw_url@,
            entry.status_code == status_code,
    {
        AccessLogEntry {
            client_ip: request.remote_ip.clone(),
            timestamp,
            method: request.method.clone(),
            raw_url: request.raw_url.clone(),
            status_code,
        }
    }

    /// The entry for a request that was answered with `status_code` at the
    /// instant `unix_seconds` seconds after the start of 1970. The time is
    /// written as day, month name and year, then hour, minute and second.
    /// There is an entry for every instant of the years 0 to 9999, and none
    /// for an instant that cannot be written as a date.
    pub fn at(request: &Request, unix_seconds: i64, status_code: u16) -> (entry: Option<
        AccessLogEntry,
    >)
        ensures
            entry is Some == utc_timestamp_text(unix_seconds, log_time_pattern()) is Some,
            is_ordinary_instant(unix_seconds) ==> entry is Some,
            entry matches Some(made) ==> {
                &&& made.client_ip@ == request.remote_ip@
                &&& Some(made.timestamp@) == utc_timestamp_text(unix_seconds, log_time_pattern())
                &&& made.method@ == request.method@
                &&& made.raw_url@ == request.raw_url@
                &&& made.status_code == status_code
            },
    {
        match format_utc(unix_seconds, "%d/%b/%Y %T") {
            Some(timestamp) => Some(AccessLogEntry::new(request, timestamp, status_code)),
            None => None,
        }
    }

    /// The line of this entry.
    pub open spec fn line_view(&self) -> Seq<char> {
        log_line(self.client_ip@, self.timestamp@, self.method@, self.raw_url@, self.status_code)
    }

    /// Writes the line of this entry, without a line break.
    pub fn line(&self) -> (line: String)
        ensures
            line@ == self.line_view(),
    {
        let mut line = paint_bold(self.client_ip.as_str());
        line.append(" - - [");
        line.append(self.timestamp.as_str());
        line.append("] \"");
        line.append(self.method.as_str());
        line.append(" ");
        line.append(self.raw_url.as_str());
        line.append("\" ");
        line.append(decimal_text(self.status_code).as_str());
        line
    }
}

/// The header lines of a request, each written as a line break followed by
/// `Name: Value`, in the order of the headers.
pub open spec fn header_lines(headers: PairsView) -> Seq<char>
    decreases headers.len(),
{
    if headers.len() == 0 {
        Seq::empty()
    } else {
        header_lines(headers.drop_last()) + "\n"@ + headers.last().0 + ": "@ + headers.last().1
    }
}

/// A request written out in full: the request line, then every header on a
/// line of its own, then, only where the body is not empty, an empty line and
/// the body.
pub open spec fn request_text(
    method: Seq<char>,
    raw_url: Seq<char>,
    headers: PairsView,
    body: Seq<char>,
) -> Seq<char> {
    let head = method + " "@ + raw_url + header_lines(headers);
    if body.len() > 0 {
        head + "\n\n"@ + body
    } else {
        head
    }
}

/// The marker that opens a request written out in full.
pub open spec fn dump_start() -> Seq<char> {
    "\n<!---------- Request Start ----------\n\n"@
}

/// The marker that closes a request written out in full.
pub open spec fn dump_end() -> Seq<char> {
    "\n\n----------  Request End  ----------!>\n"@
}

impl Request {
    /// This request written out in full.
    pub open spec fn text_view(&self) -> Seq<char> {
        request_text(self.method@, self.raw_url@, self.headers.deep_view(), self.body@)
    }

    /// Writes this request out in full.
    pub fn text(&self) -> (text: String)
        ensures
            text@ == self.text_view(),
    {
        let mut text = self.method.clone();
        text.append(" ");
        text.append(self.raw_url.as_str());
        let ghost start = text@;
        let mut i: usize = 0;
        assert(self.headers.deep_view().take(0) == PairsView::empty());
        assert(start + Seq::<char>::empty() == start);
        while i < self.headers.len()
            invariant
                i <= self.headers.len(),
                text@ == start + header_lines(self.headers.deep_view().take(i as int)),
            decreases self.headers.len() - i,
        {
            proof {
                let all = self.headers.deep_view();
                assert(all.take(i + 1).drop_last() == all.take(i as int));
                assert(all.take(i + 1).last() == (self.headers@[i as int].0@, self.headers@[i as int].1@));
            }
            text.append("\n");
            text.append(self.headers[i].0.as_str());
            text.append(": ");
            text.append(self.headers[i].1.as_str());
            i += 1;
        }
        assert(self.headers.deep_view().take(self.headers.len() as int) == self.headers.deep_view());
        if self.body.as_str().unicode_len() > 0 {
            text.append("\n\n");
            text.append(self.body.as_str());
        }
        text
    }

    /// The block that verbose mode prints for this request: the request
    /// written out in full between the two markers.
    pub fn dump(&self) -> (block: String)
        ensures
            block@ == dump_start() + self.text_view() + dump_end(),
    {
        let mut block = "\n<!---------- Request Start ----------\n\n".to_owned();
        block.append(self.text().as_str());
        block.append("\n\n----------  Request End  ----------!>\n");
        block
    }
}

/// What is printed for a request: the log line, and in verbose mode the
/// request in full behind it. Every part ends with a line break.
pub open spec fn log_output(line: Seq<char>, request_text: Seq<char>, verbose: bool) -> Seq<char> {
    if verbose {
        line + "\n"@ + dump_start() + request_text + dump_end() + "\n"@
    } else {
        line + "\n"@
    }
}

/// Writes what is printed for a request.
pub fn write_log(entry: &AccessLogEntry, request: &Request, verbose: bool) -> (output: String)
    ensures
        output@ == log_output(entry.line_view(), request.text_view(), verbose),
{
    let mut output = entry.line();
    output.append("\n");
    if verbose {
        output.append(request.dump().as_str());
        output.append("\n");
    }
    output
}

/// Every header is written exactly once, in the order of the headers: the
/// lines of a list followed by one more header are the lines of the list,
/// followed by the line of that header.
pub proof fn lemma_header_lines_in_order(headers: PairsView, next: (Seq<char>, Seq<char>))
    ensures
        header_lines(headers.push(next)) == header_lines(headers) + "\n"@ + next.0 + ": "@
            + next.1,
        header_lines(PairsView::empty()) == Seq::<char>::empty(),
{
    assert(headers.push(next).drop_last() == headers);
}

/// The body is written only where it is not empty: a request without body
/// ends with its last header.
pub proof fn lemma_body_only_if_present(
    method: Seq<char>,
    raw_url: Seq<char>,
    headers: PairsView,
    body: Seq<char>,
)
    ensures
        body.len() == 0 ==> request_text(method, raw_url, headers, body) == method + " "@ + raw_url
            + header_lines(headers),
        body.len() > 0 ==> request_text(method, raw_url, headers, body) == method + " "@ + raw_url
            + header_lines(headers) + "\n\n"@ + body,
{
}

} // verus!
