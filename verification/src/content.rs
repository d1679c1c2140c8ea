//! The records that a scrape produces.

use vstd::prelude::*;
use crate::text::{
    clean_text, lemma_normalize_idempotent, lemma_words_of_normal_form, normalize, word_count,
    words,
};
use crate::url::{domain_text, extract_domain, parsed_url};

verus! {

/// The mathematical value of a [`ContentMetadata`].
pub struct MetadataModel {
    pub published_date: Option<Seq<char>>,
    pub author: Option<Seq<char>>,
    pub domain: Seq<char>,
    pub word_count: nat,
}

/// The mathematical value of a [`ScrapedContent`].
pub struct PageModel {
    pub url: Seq<char>,
    pub title: Seq<char>,
    pub content: Seq<char>,
    pub metadata: MetadataModel,
}

impl PageModel {
    /// What holds of every page: title and content are in normal form, the
    /// word count is that of the content, and the domain is that of the URL.
    pub open spec fn wf(self) -> bool {
        &&& self.title == normalize(self.title)
        &&& self.content == normalize(self.content)
        &&& self.metadata.word_count == words(self.content).len()
        &&& self.metadata.domain == domain_text(parsed_url(self.url))
    }
}

/// The page made of the given URL, raw title and raw text: title and text are
/// normalised, the words of the text are counted, and the domain is taken
/// from the URL.
pub open spec fn page_model(
    url: Seq<char>,
    title: Seq<char>,
    text: Seq<char>,
    published_date: Option<Seq<char>>,
    author: Option<Seq<char>>,
) -> PageModel {
    PageModel {
        url,
        title: normalize(title),
        content: normalize(text),
        metadata: MetadataModel {
            published_date,
            author,
            domain: domain_text(parsed_url(url)),
            word_count: words(normalize(text)).len(),
        },
    }
}

/// Every page made by `page_model` is well formed, and counts the words of
/// the raw text.
pub proof fn lemma_page_model_wf(
    url: Seq<char>,
    title: Seq<char>,
    text: Seq<char>,
    published_date: Option<Seq<char>>,
    author: Option<Seq<char>>,
)
    ensures
        page_model(url, title, text, published_date, author).wf(),
        page_model(url, title, text, published_date, author).metadata.word_count == words(
            text,
        ).len(),
{
    lemma_normalize_idempotent(title);
    lemma_normalize_idempotent(text);
    lemma_words_of_normal_form(text);
}

/// What is known about a page besides its text.
#[derive(Debug, PartialEq, Eq)]
pub struct ContentMetadata {
    published_date: Option<String>,
    author: Option<String>,
    domain: String,
    word_count: usize,
}

impl View for ContentMetadata {
    type V = MetadataModel;

    closed spec fn view(&self) -> MetadataModel {
        MetadataModel {
            published_date: self.published_date.deep_view(),
            author: self.author.deep_view(),
            domain: self.domain@,
            word_count: self.word_count as nat,
        }
    }
}

fn copy_optional(text: &Option<String>) -> (copy: Option<String>)
    ensures
        copy.deep_view() == text.deep_view(),
{
    match text {
        Some(text) => Some(text.clone()),
        None => None,
    }
}

impl Clone for ContentMetadata {
    fn clone(&self) -> (copy: Self)
        ensures
            copy@ == self@,
    {
        ContentMetadata {
            published_date: copy_optional(&self.published_date),
            author: copy_optional(&self.author),
            domain: self.domain.clone(),
            word_count: self.word_count,
        }
    }
}

impl ContentMetadata {
    /// When the page was published, where the page says so.
    pub fn published_date(&self) -> (date: &Option<String>)
        ensures
            date.deep_view() == self@.published_date,
    {
        &self.published_date
    }

    /// The author of the page, where the page names one.
    pub fn author(&self) -> (author: &Option<String>)
        ensures
            author.deep_view() == self@.author,
    {
        &self.author
    }

    /// The host of the page's URL, or `unknown`.
    pub fn domain(&self) -> (domain: &String)
        ensures
            domain@ == self@.domain,
    {
        &self.domain
    }

    /// The number of words in the page's content.
    pub fn word_count(&self) -> (count: usize)
        ensures
            count == self@.word_count,
    {
        self.word_count
    }
}

/// One page whose text was extracted.
#[derive(Debug, PartialEq, Eq)]
pub struct ScrapedContent {
    url: String,
    title: String,
    content: String,
    metadata: ContentMetadata,
}

impl View for ScrapedContent {
    type V = PageModel;

    closed spec fn view(&self) -> PageModel {
        PageModel {
            url: self.url@,
            title: self.title@,
            content: self.content@,
            metadata: self.metadata@,
        }
    }
}

impl Clone for ScrapedContent {
    fn clone(&self) -> (copy: Self)
        ensures
            copy@ == self@,
    {
        proof {
            use_type_invariant(self);
        }
        ScrapedContent {
            url: self.url.clone(),
            title: self.title.clone(),
            content: self.content.clone(),
            metadata: self.metadata.clone(),
        }
    }
}

impl ScrapedContent {
    /// What holds of every page: see [`PageModel::wf`].
    #[verifier::type_invariant]
    pub open spec fn well_formed(self) -> bool {
        self@.wf()
    }

    /// Makes the page of `url` from its raw title and raw text.
    pub fn assemble(
        url: &str,
        title: &str,
        text: &str,
        published_date: Option<String>,
        author: Option<String>,
    ) -> (page: ScrapedContent)
        ensures
            page@ == page_model(
                url@,
                title@,
                text@,
                published_date.deep_view(),
                author.deep_view(),
            ),
            page@.wf(),
    {
        let content = clean_text(text);
        let word_count = word_count(content.as_str());
        let domain = extract_domain(url);
        proof {
            lemma_page_model_wf(
                url@,
                title@,
                text@,
                published_date.deep_view(),
                author.deep_view(),
            );
        }
        ScrapedContent {
            url: url.to_owned(),
            title: clean_text(title),
            content,
            metadata: ContentMetadata { published_date, author, domain, word_count },
        }
    }

    /// The URL that the page was asked for under.
    pub fn url(&self) -> (url: &String)
        ensures
            url@ == self@.url,
    {
        &self.url
    }

    /// The page's title, in normal form.
    pub fn title(&self) -> (title: &String)
        ensures
            title@ == self@.title,
            title@ == normalize(title@),
    {
        proof {
            use_type_invariant(self);
        }
        &self.title
    }

    /// The page's text, in normal form.
    pub fn content(&self) -> (content: &String)
        ensures
            content@ == self@.content,
            content@ == normalize(content@),
    {
        proof {
            use_type_invariant(self);
        }
        &self.content
    }

    /// What is known about the page besides its text. The word count in it is
    /// the number of words of [`content`](Self::content).
    pub fn metadata(&self) -> (metadata: &ContentMetadata)
        ensures
            metadata@ == self@.metadata,
            metadata@.word_count == words(self@.content).len(),
            metadata@.domain == domain_text(parsed_url(self@.url)),
    {
        proof {
            use_type_invariant(self);
        }
        &self.metadata
    }
}

/// The mathematical value of a [`ScrapeResult`].
pub struct ResultModel {
    pub success: bool,
    pub content: Option<PageModel>,
    pub error: Option<Seq<char>>,
}

impl ResultModel {
    /// Exactly one of content and error is there: the content after a
    /// success, the error after a failure; and the content is well formed.
    pub open spec fn wf(self) -> bool {
        &&& self.success <==> self.content is Some
        &&& !self.success <==> self.error is Some
        &&& self.content matches Some(page) ==> page.wf()
    }

    /// The result of a scrape that gave `page`.
    pub open spec fn succeeded(page: PageModel) -> ResultModel {
        ResultModel { success: true, content: Some(page), error: None }
    }

    /// The result of a scrape that failed with `message`.
    pub open spec fn failed(message: Seq<char>) -> ResultModel {
        ResultModel { success: false, content: None, error: Some(message) }
    }
}

/// A well-formed result holds its content or its error, never both and never
/// neither.
pub proof fn lemma_exactly_one(result: ResultModel)
    requires
        result.wf(),
    ensures
        (result.content is Some) != (result.error is Some),
        result.success == (result.content is Some),
{
}

/// How the scrape of one URL ended.
#[derive(Debug, PartialEq, Eq)]
pub struct ScrapeResult {
    success: bool,
    content: Option<ScrapedContent>,
    error: Option<String>,
}

impl View for ScrapeResult {
    type V = ResultModel;

    closed spec fn view(&self) -> ResultModel {
        ResultModel {
            success: self.success,
            content: match self.content {
                Some(page) => Some(page@),
                None => None,
            },
            error: self.error.deep_view(),
        }
    }
}

impl Clone for ScrapeResult {
    fn clone(&self) -> (copy: Self)
        ensures
            copy@ == self@,
    {
        proof {
            use_type_invariant(self);
        }
        ScrapeResult {
            success: self.success,
            content: match &self.content {
                Some(page) => Some(page.clone()),
                None => None,
            },
            error: copy_optional(&self.error),
        }
    }
}

impl ScrapeResult {
    /// What holds of every result: see [`ResultModel::wf`].
    #[verifier::type_invariant]
    pub open spec fn well_formed(self) -> bool {
        self@.wf()
    }

    /// The result of a scrape that gave `page`.
    pub fn succeeded(page: ScrapedContent) -> (result: ScrapeResult)
        ensures
            result@ == ResultModel::succeeded(page@),
            result@.wf(),
    {
        proof {
            use_type_invariant(&page);
        }
        ScrapeResult { success: true, content: Some(page), error: None }
    }

    /// The result of a scrape that failed with `message`.
    pub fn failed(message: String) -> (result: ScrapeResult)
        ensures
            result@ == ResultModel::failed(message@),
            result@.wf(),
    {
        ScrapeResult { success: false, content: None, error: Some(message) }
    }

    /// Whether the scrape gave a page.
    pub fn success(&self) -> (success: bool)
        ensures
            success == self@.success,
            success == (self@.content is Some),
            success == (self@.error is None),
    {
        proof {
            use_type_invariant(self);
        }
        self.success
    }

    /// The page, after a success.
    pub fn content(&self) -> (content: &Option<ScrapedContent>)
        ensures
            content is Some <==> self@.success,
            content matches Some(page) ==> self@.content == Some(page@) && page@.wf(),
    {
        proof {
            use_type_invariant(self);
        }
        &self.content
    }

    /// The message, after a failure.
    pub fn error(&self) -> (error: &Option<String>)
        ensures
            error is Some <==> !self@.success,
            error.deep_view() == self@.error,
    {
        proof {
            use_type_invariant(self);
        }
        &self.error
    }
}

} // verus!
