//! Search results. Result pages are read by the caller of this library; the
//! parser here is the place where reading them would go, and finds nothing.

use vstd::prelude::*;

verus! {

/// One hit of a web search.
#[derive(Debug, PartialEq, Eq)]
pub struct SearchResult {
    /// The title of the page that was found.
    pub title: String,
    /// The URL of the page.
    pub url: String,
    /// The passage of the page that the search engine shows.
    pub snippet: String,
}

/// The hits on a result page of DuckDuckGo, at most `limit` of them. No page
/// is read here: the outcome is always a success without hits.
pub fn parse_duckduckgo_results(html: &str, limit: usize) -> (parsed: Result<
    Vec<SearchResult>,
    String,
>)
    ensures
        parsed matches Ok(results) && results@.len() == 0,
{
    Ok(Vec::new())
}

} // verus!
