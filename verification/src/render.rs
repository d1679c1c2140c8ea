//! The rendered path: what to make of the values that the extraction scripts
//! give back from a page that a browser has loaded.

use vstd::prelude::*;
use vstd::string::StringExecFns;
use crate::content::{page_model, PageModel, ScrapedContent};

verus! {

/// The script that reads a page. It takes as main content the first element
/// that is `main`, an `article`, or marked as main content by role, class or
/// name, and the document's body where there is none; as date of publication
/// the time the article names as published, else the page's date, else the
/// first time element's; as author the page's author, else the article's,
/// else the text of the first element that links to an author. A date or an
/// author that cannot be read is left out. If reading fails as a whole, the
/// script gives the body's text and the title alone.
pub const EXTRACTION_SCRIPT: &'static str = r#"
    (function() {
        try {
            let mainContent = document.querySelector('main, article, [role="main"], .main-content, #main-content, .content, #content');
            if (!mainContent) {
                mainContent = document.body;
            }

            const content = mainContent ? mainContent.innerText : document.body.innerText;
            const title = document.title || '';

            let publishedDate = null;
            try {
                const metaPublished = document.querySelector('meta[property="article:published_time"]');
                if (metaPublished) publishedDate = metaPublished.content;
                if (!publishedDate) {
                    const metaDate = document.querySelector('meta[name="date"]');
                    if (metaDate) publishedDate = metaDate.content;
                }
                if (!publishedDate) {
                    const timeEl = document.querySelector('time[datetime]');
                    if (timeEl) publishedDate = timeEl.getAttribute('datetime');
                }
            } catch (e) {
                console.error('Error extracting date:', e);
            }

            let author = null;
            try {
                const metaAuthor = document.querySelector('meta[name="author"]');
                if (metaAuthor) author = metaAuthor.content;
                if (!author) {
                    const metaArticleAuthor = document.querySelector('meta[property="article:author"]');
                    if (metaArticleAuthor) author = metaArticleAuthor.content;
                }
                if (!author) {
                    const authorEl = document.querySelector('[rel="author"]');
                    if (authorEl) author = authorEl.textContent;
                }
            } catch (e) {
                console.error('Error extracting author:', e);
            }

            return {
                content: content || '',
                title: title || '',
                publishedDate: publishedDate,
                author: author
            };
        } catch (error) {
            console.error('Extraction error:', error);
            return {
                content: document.body.innerText || '',
                title: document.title || '',
                publishedDate: null,
                author: null
            };
        }
    })()
"#;

/// The script that reads the text of the document's body.
pub const BODY_TEXT_SCRIPT: &'static str = "document.body.innerText";

/// The script that reads the document's title.
pub const TITLE_SCRIPT: &'static str = "document.title";

/// A JSON value of `serde_json`. Nothing inside it is visible here: it is
/// read through [`member_text`] and [`string_text`] alone.
#[verifier::external_type_specification]
#[verifier::external_body]
pub struct ExJsonValue(serde_json::Value);

/// The members of the JSON object `value` that are strings, by key. It is
/// empty where `value` is no object.
pub uninterp spec fn json_texts(value: serde_json::Value) -> Map<Seq<char>, Seq<char>>;

/// The text of `value` where `value` is a JSON string, and nothing otherwise.
pub uninterp spec fn json_string(value: serde_json::Value) -> Option<Seq<char>>;

/// The string under `key` in `value`, if `value` is an object that has one.
pub open spec fn json_member_text(value: serde_json::Value, key: Seq<char>) -> Option<Seq<char>> {
    if json_texts(value).contains_key(key) {
        Some(json_texts(value)[key])
    } else {
        None
    }
}

/// Looks `key` up with `serde_json::Value::get` and reads what it finds with
/// `Value::as_str`. `get` gives nothing unless `value` is an object with a
/// member under `key`, `as_str` nothing unless that member is a string: so
/// the result is the entry of `json_texts(value)` under `key`, if there is one.
#[verifier::external_body]
pub(crate) fn member_text(value: &serde_json::Value, key: &str) -> (found: Option<String>)
    ensures
        found.deep_view() == if json_texts(*value).contains_key(key@) {
            Some(json_texts(*value)[key@])
        } else {
            None
        },
{
    value.get(key).and_then(serde_json::Value::as_str).map(str::to_owned)
}

/// Reads `value` with `serde_json::Value::as_str`, which gives the text of a
/// JSON string and nothing for any other value.
#[verifier::external_body]
pub(crate) fn string_text(value: &serde_json::Value) -> (found: Option<String>)
    ensures
        found.deep_view() == json_string(*value),
{
    value.as_str().map(str::to_owned)
}

/// The title of a page that gave none.
pub open spec fn default_title() -> Seq<char> {
    "Untitled"@
}

/// `found`, or `fallback` where nothing was found.
pub open spec fn text_or(found: Option<Seq<char>>, fallback: Seq<char>) -> Seq<char> {
    match found {
        Some(text) => text,
        None => fallback,
    }
}

/// The page made of the four strings that the extraction script may give.
/// A missing content is empty, a missing title is `Untitled`, and a date or
/// an author that is missing is left out.
pub open spec fn member_page_model(
    url: Seq<char>,
    content: Option<Seq<char>>,
    title: Option<Seq<char>>,
    published_date: Option<Seq<char>>,
    author: Option<Seq<char>>,
) -> PageModel {
    page_model(
        url,
        text_or(title, default_title()),
        text_or(content, Seq::empty()),
        published_date,
        author,
    )
}

/// The page that the record `value` of the extraction script describes: the
/// page made of its strings `content`, `title`, `publishedDate` and `author`,
/// where a member that is no string counts as missing.
pub open spec fn extracted_page_model(url: Seq<char>, value: serde_json::Value) -> PageModel {
    member_page_model(
        url,
        json_member_text(value, "content"@),
        json_member_text(value, "title"@),
        json_member_text(value, "publishedDate"@),
        json_member_text(value, "author"@),
    )
}

/// The page of `url` made of the four strings that the extraction script may
/// give.
pub fn page_from_members(
    url: &str,
    content: Option<String>,
    title: Option<String>,
    published_date: Option<String>,
    author: Option<String>,
) -> (page: ScrapedContent)
    ensures
        page@ == member_page_model(
            url@,
            content.deep_view(),
            title.deep_view(),
            published_date.deep_view(),
            author.deep_view(),
        ),
        page@.wf(),
{
    let text = match content {
        Some(text) => text,
        None => String::new(),
    };
    let title = match title {
        Some(title) => title,
        None => String::from_str("Untitled"),
    };
    ScrapedContent::assemble(url, title.as_str(), text.as_str(), published_date, author)
}

/// The page of `url` that the record `value` of the extraction script
/// describes.
pub fn extracted_page(url: &str, value: &serde_json::Value) -> (page: ScrapedContent)
    ensures
        page@ == extracted_page_model(url@, *value),
        page@.wf(),
{
    let content = member_text(value, "content");
    let title = member_text(value, "title");
    let published_date = member_text(value, "publishedDate");
    let author = member_text(value, "author");
    page_from_members(url, content, title, published_date, author)
}

/// What a script gave back, read as a text: the text of a JSON string, and
/// nothing where the script gave no value or another kind of value.
pub open spec fn script_text(value: Option<serde_json::Value>) -> Option<Seq<char>> {
    match value {
        Some(json) => json_string(json),
        None => None,
    }
}

/// What a script gave back, read as a text.
pub fn read_text(value: &Option<serde_json::Value>) -> (found: Option<String>)
    ensures
        found.deep_view() == script_text(*value),
{
    match value {
        Some(json) => string_text(json),
        None => None,
    }
}

/// The page of last resort: the text of the document's body, the title that
/// was read after it or `Untitled`, and neither date nor author.
pub open spec fn fallback_page_model(
    url: Seq<char>,
    body: Seq<char>,
    title: Option<Seq<char>>,
) -> PageModel {
    page_model(url, text_or(title, default_title()), body, None, None)
}

/// The page of last resort for `url`, made of the body's text and the title
/// that was read after it, if any.
pub fn fallback_page(url: &str, body: &str, title: Option<String>) -> (page: ScrapedContent)
    ensures
        page@ == fallback_page_model(url@, body@, title.deep_view()),
        page@.wf(),
{
    let title = match title {
        Some(title) => title,
        None => String::from_str("Untitled"),
    };
    ScrapedContent::assemble(url, title.as_str(), body, None, None)
}

} // verus!
