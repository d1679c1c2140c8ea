//! The fallback path: what to make of a page that was fetched without a
//! browser. The title is found by a plain search for its tags, and the whole
//! body, tags and all, is taken as the text.

use vstd::prelude::*;
use vstd::string::StringExecFns;
use crate::content::{page_model, PageModel, ScrapedContent};
use crate::strings::{
    chars_of, decimal, decimal_text, find, first_in, followed_by, lemma_first_in_is_least, text_of,
};

verus! {

/// How the fetch introduces itself: as a browser in common use.
pub const USER_AGENT: &'static str =
    "Mozilla/5.0 (Windows NT 10.0; Win64; x64; rv:109.0) Gecko/20100101 Firefox/115.0";

/// The kinds of content that the fetch asks for.
pub const ACCEPT: &'static str =
    "text/html,application/xhtml+xml,application/xml;q=0.9,image/webp,*/*;q=0.8";

/// The languages that the fetch asks for.
pub const ACCEPT_LANGUAGE: &'static str = "en-US,en;q=0.9";

/// The tag that opens a title.
pub open spec fn open_tag() -> Seq<char> {
    "<title>"@
}

/// The tag that closes a title.
pub open spec fn close_tag() -> Seq<char> {
    "</title>"@
}

/// The title that a plain search finds in `html`: what follows the first
/// opening tag, up to the next opening tag, and of that what stands before the
/// first closing tag. Without an opening tag the title is `Untitled`.
pub open spec fn raw_title(html: Seq<char>) -> Seq<char> {
    match first_in(html, open_tag(), 0, html.len() as int) {
        None => "Untitled"@,
        Some(opened) => {
            let start = opened + open_tag().len();
            let limit = match first_in(html, open_tag(), start, html.len() as int) {
                Some(next) => next,
                None => html.len() as int,
            };
            let end = match first_in(html, close_tag(), start, limit) {
                Some(closed) => closed,
                None => limit,
            };
            html.subrange(start, end)
        },
    }
}

/// The page that the fallback path makes of `html`, fetched from `url`: no
/// date and no author, and the whole of `html` as its text.
pub open spec fn static_page_model(url: Seq<char>, html: Seq<char>) -> PageModel {
    page_model(url, raw_title(html), html, None, None)
}

/// The title that a plain search finds in `html`.
pub fn page_title(html: &str) -> (title: String)
    ensures
        title@ == raw_title(html@),
{
    let hay = chars_of(html);
    let opening = chars_of("<title>");
    let closing = chars_of("</title>");
    match find(&hay, &opening, 0, hay.len()) {
        None => String::from_str("Untitled"),
        Some(opened) => {
            proof {
                lemma_first_in_is_least(hay@, opening@, 0, hay@.len() as int);
            }
            let start = opened + opening.len();
            let limit = match find(&hay, &opening, start, hay.len()) {
                Some(next) => {
                    proof {
                        lemma_first_in_is_least(hay@, opening@, start as int, hay@.len() as int);
                    }
                    next
                },
                None => hay.len(),
            };
            let end = match find(&hay, &closing, start, limit) {
                Some(closed) => {
                    proof {
                        lemma_first_in_is_least(hay@, closing@, start as int, limit as int);
                    }
                    closed
                },
                None => limit,
            };
            text_of(&hay, start, end)
        },
    }
}

/// The page that the fallback path makes of `html`, fetched from `url`.
pub fn static_page(url: &str, html: &str) -> (page: ScrapedContent)
    ensures
        page@ == static_page_model(url@, html@),
        page@.wf(),
{
    let title = page_title(html);
    ScrapedContent::assemble(url, title.as_str(), html, None, None)
}

/// Whether an HTTP status reports success: one of 200 to 299.
pub open spec fn is_success(status: u16) -> bool {
    200 <= status < 300
}

/// What the HTTP library displays for the status `code`, where `code` is a
/// status to it: the number and the reason that goes with it.
pub uninterp spec fn status_display(code: u16) -> Option<Seq<char>>;

/// Makes the status of `code` with `reqwest::StatusCode::from_u16` and takes
/// the text that it displays; nothing where `from_u16` refuses the code. The
/// text depends on `code` alone and is the value that `status_display` names.
#[verifier::external_body]
pub(crate) fn status_line(code: u16) -> (line: Option<String>)
    ensures
        line.deep_view() == status_display(code),
{
    reqwest::StatusCode::from_u16(code).ok().map(|status| status.to_string())
}

/// How a status is written in a message: as the HTTP library displays it, or
/// as its number where the library has no such status.
pub open spec fn status_text(code: u16, display: Option<Seq<char>>) -> Seq<char> {
    match display {
        Some(line) => line,
        None => decimal(code as nat),
    }
}

/// The message for a response whose status does not report success.
pub open spec fn status_failure_text(code: u16, display: Option<Seq<char>>) -> Seq<char> {
    "Request failed with status "@ + status_text(code, display)
}

/// The message for a response whose status does not report success, given
/// what the HTTP library displays for the status.
pub fn status_failure(code: u16, display: Option<String>) -> (message: String)
    ensures
        message@ == status_failure_text(code, display.deep_view()),
{
    let shown = match display {
        Some(line) => line,
        None => decimal_text(code as u64),
    };
    followed_by("Request failed with status ", shown.as_str())
}

/// The outcome of a fetch that was answered: the page made of the body where
/// the status reports success, the message otherwise.
pub open spec fn response_outcome(
    url: Seq<char>,
    status: u16,
    display: Option<Seq<char>>,
    body: Seq<char>,
) -> Result<PageModel, Seq<char>> {
    if is_success(status) {
        Ok(static_page_model(url, body))
    } else {
        Err(status_failure_text(status, display))
    }
}

/// The mathematical value of the outcome of a fetch.
pub open spec fn fetch_outcome_model(outcome: Result<ScrapedContent, String>) -> Result<
    PageModel,
    Seq<char>,
> {
    match outcome {
        Ok(page) => Ok(page@),
        Err(message) => Err(message@),
    }
}

/// The outcome of a fetch of `url` that was answered with `status` and `body`.
pub fn page_from_response(url: &str, status: u16, body: &str) -> (outcome: Result<
    ScrapedContent,
    String,
>)
    ensures
        fetch_outcome_model(outcome) == response_outcome(
            url@,
            status,
            status_display(status),
            body@,
        ),
        outcome matches Ok(page) ==> page@.wf(),
{
    if 200 <= status && status < 300 {
        Ok(static_page(url, body))
    } else {
        Err(status_failure(status, status_line(status)))
    }
}

/// The step of a fetch at which it failed without an answer.
#[derive(Clone, Copy, PartialEq, Eq, Debug, Structural)]
pub enum FetchStage {
    /// The client could not be made.
    BuildClient,
    /// The request was not answered.
    Send,
    /// The body of the answer could not be read.
    ReadBody,
}

/// The message for a fetch that failed at `stage` for the reason `cause`.
pub open spec fn fetch_failure_text(stage: FetchStage, cause: Seq<char>) -> Seq<char> {
    match stage {
        FetchStage::BuildClient => "Failed to build HTTP client: "@ + cause,
        FetchStage::Send => "Request failed: "@ + cause,
        FetchStage::ReadBody => "Failed to read response body: "@ + cause,
    }
}

/// The message for a fetch that failed at `stage` for the reason `cause`.
pub fn fetch_failure(stage: FetchStage, cause: &str) -> (message: String)
    ensures
        message@ == fetch_failure_text(stage, cause@),
{
    match stage {
        FetchStage::BuildClient => followed_by("Failed to build HTTP client: ", cause),
        FetchStage::Send => followed_by("Request failed: ", cause),
        FetchStage::ReadBody => followed_by("Failed to read response body: ", cause),
    }
}

} // verus!
