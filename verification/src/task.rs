//! The scrape of one URL as a state machine. The machine decides; whoever
//! drives it does the work: it carries out the [`Action`] that the task asks
//! for and hands back the [`Event`] that tells how the work went.
//!
//! Each attempt first tries to render the page in a browser. If the browser
//! cannot be launched, the same attempt fetches the page without one. An
//! attempt that fails is followed, after a wait that doubles each time, by
//! the next one, until the attempts that were allowed are used up.

use vstd::prelude::*;
use vstd::string::StringExecFns;
use crate::content::{PageModel, ResultModel, ScrapeResult, ScrapedContent};
use crate::render::{
    extracted_page, extracted_page_model, fallback_page, fallback_page_model, read_text,
    script_text, BODY_TEXT_SCRIPT, EXTRACTION_SCRIPT, TITLE_SCRIPT,
};
use crate::retry::{annotate, attempt_text, backoff, backoff_ms};
use crate::static_fetch::{
    fetch_failure, fetch_failure_text, is_success, page_from_response, response_outcome,
    status_display, FetchStage,
};
use crate::strings::followed_by;
use crate::url::{
    check_url, error_text, parsed_url, verdict, verdict_model, UrlError, UrlErrorModel,
};

verus! {

/// How long a page that has loaded is left alone before its text is read, in
/// milliseconds.
pub const SETTLE_MS: u64 = 1500;

/// The kinds of failure.
#[derive(Clone, Copy, PartialEq, Eq, Debug, Structural)]
pub enum ErrorKind {
    /// The URL is malformed, or its scheme is not allowed.
    InvalidUrl,
    /// The browser could not be launched.
    EngineLaunchFailure,
    /// The page could not be opened or did not load.
    NavigationFailure,
    /// The page gave no usable text.
    ExtractionFailure,
    /// The fetch without a browser failed, or its status reported no success.
    HttpFailure,
    /// A step of the attempt ran out of time.
    AttemptTimeout,
    /// All attempts together ran out of time.
    OverallTimeout,
}

impl ErrorKind {
    /// Whether a failure of this kind is followed by another attempt, as
    /// long as one is left. An invalid URL and the end of the time allowed
    /// to all attempts end the scrape; a browser that cannot be launched is
    /// made up for within the same attempt.
    pub open spec fn retryable(self) -> bool {
        self is NavigationFailure || self is ExtractionFailure || self is HttpFailure
            || self is AttemptTimeout
    }

    /// Whether a failure of this kind is followed by another attempt, as
    /// long as one is left.
    pub fn is_retryable(&self) -> (retryable: bool)
        ensures
            retryable == self.retryable(),
    {
        match self {
            ErrorKind::NavigationFailure => true,
            ErrorKind::ExtractionFailure => true,
            ErrorKind::HttpFailure => true,
            ErrorKind::AttemptTimeout => true,
            ErrorKind::InvalidUrl => false,
            ErrorKind::EngineLaunchFailure => false,
            ErrorKind::OverallTimeout => false,
        }
    }
}

/// The scripts that are run in a page.
#[derive(Clone, Copy, PartialEq, Eq, Debug, Structural)]
pub enum Script {
    /// Gives a record with the main content, the title, the date of
    /// publication and the author.
    Extraction,
    /// Gives the text of the document's body.
    BodyText,
    /// Gives the document's title.
    Title,
}

impl Script {
    /// The text of the script.
    pub open spec fn source_text(self) -> Seq<char> {
        match self {
            Script::Extraction => EXTRACTION_SCRIPT@,
            Script::BodyText => BODY_TEXT_SCRIPT@,
            Script::Title => TITLE_SCRIPT@,
        }
    }

    /// The text of the script, to be run in the page.
    pub fn source(&self) -> (text: &'static str)
        ensures
            text@ == self.source_text(),
    {
        match self {
            Script::Extraction => EXTRACTION_SCRIPT,
            Script::BodyText => BODY_TEXT_SCRIPT,
            Script::Title => TITLE_SCRIPT,
        }
    }
}

/// What the driver is asked to do next.
#[derive(Debug, PartialEq, Eq)]
pub enum Action {
    /// Launch a browser of its own for this attempt.
    LaunchBrowser,
    /// Open a fresh tab in the browser.
    OpenTab,
    /// Give the tab `timeout_ms` for its navigation and send it to `url`.
    Navigate { url: String, timeout_ms: u64 },
    /// Wait until the tab reports that the document has loaded.
    AwaitNavigation,
    /// Leave the page alone for `wait_ms`, so that deferred scripts can run.
    Settle { wait_ms: u64 },
    /// Run `script` in the page.
    Evaluate { script: Script },
    /// Fetch `url` without a browser, within `timeout_ms`.
    HttpGet { url: String, timeout_ms: u64 },
    /// Wait `wait_ms` before the next attempt.
    Wait { wait_ms: u64 },
    /// Nothing: the scrape has ended.
    Finish,
}

/// The mathematical value of an [`Action`].
pub enum ActionModel {
    LaunchBrowser,
    OpenTab,
    Navigate { url: Seq<char>, timeout_ms: u64 },
    AwaitNavigation,
    Settle { wait_ms: u64 },
    Evaluate { script: Script },
    HttpGet { url: Seq<char>, timeout_ms: u64 },
    Wait { wait_ms: u64 },
    Finish,
}

impl View for Action {
    type V = ActionModel;

    open spec fn view(&self) -> ActionModel {
        match self {
            Action::LaunchBrowser => ActionModel::LaunchBrowser,
            Action::OpenTab => ActionModel::OpenTab,
            Action::Navigate { url, timeout_ms } => ActionModel::Navigate {
                url: url@,
                timeout_ms: *timeout_ms,
            },
            Action::AwaitNavigation => ActionModel::AwaitNavigation,
            Action::Settle { wait_ms } => ActionModel::Settle { wait_ms: *wait_ms },
            Action::Evaluate { script } => ActionModel::Evaluate { script: *script },
            Action::HttpGet { url, timeout_ms } => ActionModel::HttpGet {
                url: url@,
                timeout_ms: *timeout_ms,
            },
            Action::Wait { wait_ms } => ActionModel::Wait { wait_ms: *wait_ms },
            Action::Finish => ActionModel::Finish,
        }
    }
}

/// How the work that was asked for went.
#[derive(Debug, PartialEq)]
pub enum Event {
    /// The step was carried out; it gives no value.
    Done,
    /// The step failed for the reason `cause`; `timed_out` tells whether it
    /// ran out of time.
    Failed { timed_out: bool, cause: String },
    /// The script ran and gave `value`, or no value at all.
    Evaluated { value: Option<serde_json::Value> },
    /// The fetch was answered with `status` and `body`.
    Responded { status: u16, body: String },
    /// The fetch failed at `stage` for the reason `cause`.
    FetchFailed { stage: FetchStage, timed_out: bool, cause: String },
    /// The time allowed to all attempts together is over.
    DeadlineExceeded,
}

/// The mathematical value of an [`Event`].
pub enum EventModel {
    Done,
    Failed { timed_out: bool, cause: Seq<char> },
    Evaluated { value: Option<serde_json::Value> },
    Responded { status: u16, body: Seq<char> },
    FetchFailed { stage: FetchStage, timed_out: bool, cause: Seq<char> },
    DeadlineExceeded,
}

impl View for Event {
    type V = EventModel;

    open spec fn view(&self) -> EventModel {
        match self {
            Event::Done => EventModel::Done,
            Event::Failed { timed_out, cause } => EventModel::Failed {
                timed_out: *timed_out,
                cause: cause@,
            },
            Event::Evaluated { value } => EventModel::Evaluated { value: *value },
            Event::Responded { status, body } => EventModel::Responded {
                status: *status,
                body: body@,
            },
            Event::FetchFailed { stage, timed_out, cause } => EventModel::FetchFailed {
                stage: *stage,
                timed_out: *timed_out,
                cause: cause@,
            },
            Event::DeadlineExceeded => EventModel::DeadlineExceeded,
        }
    }
}

/// Where the scrape of one URL stands.
#[derive(Debug, PartialEq, Eq)]
pub enum Stage {
    /// The attempt is launching its browser.
    Launching,
    /// The browser runs; a tab is being opened.
    OpeningTab,
    /// The tab is being sent to the URL.
    Navigating,
    /// The document is loading.
    AwaitingLoad,
    /// The document has loaded and is left alone for a moment.
    Settling,
    /// The extraction script runs.
    Extracting,
    /// The extraction script gave nothing; the body's text is read instead.
    ReadingBody,
    /// The body's text is `body`; the title is read after it.
    ReadingTitle { body: String },
    /// The browser could not be launched; the page is fetched without one.
    Fetching,
    /// The attempt failed; the wait before the next one runs.
    BackingOff,
    /// The scrape gave `page`.
    Succeeded { page: ScrapedContent },
    /// The scrape failed. `kind` is the kind of the failure that ended it;
    /// there is none where no attempt was allowed.
    Failed { kind: Option<ErrorKind>, message: String },
}

/// The mathematical value of a [`Stage`].
pub enum StageModel {
    Launching,
    OpeningTab,
    Navigating,
    AwaitingLoad,
    Settling,
    Extracting,
    ReadingBody,
    ReadingTitle { body: Seq<char> },
    Fetching,
    BackingOff,
    Succeeded { page: PageModel },
    Failed { kind: Option<ErrorKind>, message: Seq<char> },
}

impl View for Stage {
    type V = StageModel;

    open spec fn view(&self) -> StageModel {
        match self {
            Stage::Launching => StageModel::Launching,
            Stage::OpeningTab => StageModel::OpeningTab,
            Stage::Navigating => StageModel::Navigating,
            Stage::AwaitingLoad => StageModel::AwaitingLoad,
            Stage::Settling => StageModel::Settling,
            Stage::Extracting => StageModel::Extracting,
            Stage::ReadingBody => StageModel::ReadingBody,
            Stage::ReadingTitle { body } => StageModel::ReadingTitle { body: body@ },
            Stage::Fetching => StageModel::Fetching,
            Stage::BackingOff => StageModel::BackingOff,
            Stage::Succeeded { page } => StageModel::Succeeded { page: page@ },
            Stage::Failed { kind, message } => StageModel::Failed {
                kind: *kind,
                message: message@,
            },
        }
    }
}

impl StageModel {
    /// Whether the scrape has ended.
    pub open spec fn is_final(self) -> bool {
        self is Succeeded || self is Failed
    }
}

/// The mathematical value of a [`ScrapeTask`].
pub struct TaskModel {
    /// The URL to scrape. It never changes.
    pub url: Seq<char>,
    /// The time allowed to one attempt, in milliseconds.
    pub timeout_ms: u64,
    /// The number of attempts allowed.
    pub max_retries: u32,
    /// The number of attempts begun so far.
    pub attempt: u32,
    /// Where the scrape stands.
    pub stage: StageModel,
}

impl TaskModel {
    /// What holds of every task: no more attempts are begun than allowed; an
    /// attempt is under way unless the scrape has ended; a wait is followed
    /// by another attempt; and a page is well formed and is the page of the
    /// task's URL.
    pub open spec fn wf(self) -> bool {
        &&& self.attempt <= self.max_retries
        &&& !self.stage.is_final() ==> self.attempt >= 1
        &&& self.stage is BackingOff ==> self.attempt < self.max_retries
        &&& self.stage matches StageModel::Succeeded { page } ==> page.wf() && page.url == self.url
    }

    /// The task at another stage.
    pub open spec fn at(self, stage: StageModel) -> TaskModel {
        TaskModel { stage, ..self }
    }

    /// The task after its attempt failed with `cause`: it waits for the next
    /// attempt if one is left, and has failed with the report of this attempt
    /// if none is.
    pub open spec fn attempt_failed(self, kind: ErrorKind, cause: Seq<char>) -> TaskModel {
        if self.attempt < self.max_retries {
            self.at(StageModel::BackingOff)
        } else {
            self.at(
                StageModel::Failed {
                    kind: Some(kind),
                    message: attempt_text(self.attempt, self.max_retries, cause),
                },
            )
        }
    }

    /// The task after all attempts together ran out of time.
    pub open spec fn timed_out(self) -> TaskModel {
        self.at(
            StageModel::Failed {
                kind: Some(ErrorKind::OverallTimeout),
                message: "Overall timeout exceeded"@,
            },
        )
    }
}

/// The kind of a failed step: a timeout if the step ran out of time, and
/// `otherwise` if it failed for another reason.
pub open spec fn kind_of(timed_out: bool, otherwise: ErrorKind) -> ErrorKind {
    if timed_out {
        ErrorKind::AttemptTimeout
    } else {
        otherwise
    }
}

/// The task for `url`, given the verdict on the URL. A refused URL fails at
/// once, before any attempt. Otherwise the first attempt begins, unless no
/// attempt is allowed: then the task fails with an empty message.
pub open spec fn begun(
    url: Seq<char>,
    timeout_ms: u64,
    max_retries: u32,
    checked: Result<(), UrlErrorModel>,
) -> TaskModel {
    match checked {
        Err(error) => TaskModel {
            url,
            timeout_ms,
            max_retries,
            attempt: 0,
            stage: StageModel::Failed {
                kind: Some(ErrorKind::InvalidUrl),
                message: error_text(error),
            },
        },
        Ok(()) => if max_retries == 0 {
            TaskModel {
                url,
                timeout_ms,
                max_retries,
                attempt: 0,
                stage: StageModel::Failed { kind: None, message: Seq::empty() },
            }
        } else {
            TaskModel { url, timeout_ms, max_retries, attempt: 1, stage: StageModel::Launching }
        },
    }
}

/// The task for `url` as [`ScrapeTask::new`] makes it.
pub open spec fn started(url: Seq<char>, timeout_ms: u64, max_retries: u32) -> TaskModel {
    begun(url, timeout_ms, max_retries, verdict(parsed_url(url)))
}

/// What the task asks its driver to do.
pub open spec fn pending(task: TaskModel) -> ActionModel {
    match task.stage {
        StageModel::Launching => ActionModel::LaunchBrowser,
        StageModel::OpeningTab => ActionModel::OpenTab,
        StageModel::Navigating => ActionModel::Navigate {
            url: task.url,
            timeout_ms: task.timeout_ms,
        },
        StageModel::AwaitingLoad => ActionModel::AwaitNavigation,
        StageModel::Settling => ActionModel::Settle { wait_ms: SETTLE_MS },
        StageModel::Extracting => ActionModel::Evaluate { script: Script::Extraction },
        StageModel::ReadingBody => ActionModel::Evaluate { script: Script::BodyText },
        StageModel::ReadingTitle { .. } => ActionModel::Evaluate { script: Script::Title },
        StageModel::Fetching => ActionModel::HttpGet {
            url: task.url,
            timeout_ms: task.timeout_ms,
        },
        StageModel::BackingOff => ActionModel::Wait { wait_ms: backoff_ms(task.attempt) },
        StageModel::Succeeded { .. } => ActionModel::Finish,
        StageModel::Failed { .. } => ActionModel::Finish,
    }
}

/// The task after a step of the rendered path that gives no value: on
/// `Done` it goes on to `next`; if the step failed, so has the attempt, and
/// its cause is `prefix` followed by the step's own.
pub open spec fn after_plain_step(
    task: TaskModel,
    event: EventModel,
    next: StageModel,
    kind: ErrorKind,
    prefix: Seq<char>,
) -> TaskModel {
    match event {
        EventModel::Done => task.at(next),
        EventModel::Failed { timed_out, cause } => task.attempt_failed(
            kind_of(timed_out, kind),
            prefix + cause,
        ),
        _ => task,
    }
}

/// The task after `event`.
///
/// A task that has ended stays as it is. The end of the time allowed to all
/// attempts fails any other task at once. Otherwise the event is taken as
/// the answer to what the task asked for, and an event that is no answer to
/// that leaves the task as it is.
pub open spec fn step(task: TaskModel, event: EventModel) -> TaskModel {
    if task.stage.is_final() {
        task
    } else if event is DeadlineExceeded {
        task.timed_out()
    } else {
        match task.stage {
            StageModel::Launching => match event {
                EventModel::Done => task.at(StageModel::OpeningTab),
                EventModel::Failed { .. } => task.at(StageModel::Fetching),
                _ => task,
            },
            StageModel::OpeningTab => after_plain_step(
                task,
                event,
                StageModel::Navigating,
                ErrorKind::NavigationFailure,
                "Failed to create tab: "@,
            ),
            StageModel::Navigating => after_plain_step(
                task,
                event,
                StageModel::AwaitingLoad,
                ErrorKind::NavigationFailure,
                "Failed to navigate: "@,
            ),
            StageModel::AwaitingLoad => after_plain_step(
                task,
                event,
                StageModel::Settling,
                ErrorKind::NavigationFailure,
                "Navigation timeout: "@,
            ),
            StageModel::Settling => match event {
                EventModel::Done => task.at(StageModel::Extracting),
                _ => task,
            },
            StageModel::Extracting => match event {
                EventModel::Evaluated { value: Some(record) } => task.at(
                    StageModel::Succeeded { page: extracted_page_model(task.url, record) },
                ),
                EventModel::Evaluated { value: None } => task.at(StageModel::ReadingBody),
                EventModel::Failed { timed_out, cause } => task.attempt_failed(
                    kind_of(timed_out, ErrorKind::ExtractionFailure),
                    "Failed to extract content: "@ + cause,
                ),
                _ => task,
            },
            StageModel::ReadingBody => match event {
                EventModel::Evaluated { value } => match script_text(value) {
                    Some(body) => task.at(StageModel::ReadingTitle { body }),
                    None => task.attempt_failed(
                        ErrorKind::ExtractionFailure,
                        "No value returned from extraction and fallback failed"@,
                    ),
                },
                EventModel::Failed { timed_out, cause } => task.attempt_failed(
                    kind_of(timed_out, ErrorKind::ExtractionFailure),
                    "Fallback extraction failed: "@ + cause,
                ),
                _ => task,
            },
            StageModel::ReadingTitle { body } => match event {
                EventModel::Evaluated { value } => task.at(
                    StageModel::Succeeded {
                        page: fallback_page_model(task.url, body, script_text(value)),
                    },
                ),
                EventModel::Failed { .. } => task.at(
                    StageModel::Succeeded { page: fallback_page_model(task.url, body, None) },
                ),
                _ => task,
            },
            StageModel::Fetching => match event {
                EventModel::Responded { status, body } => match response_outcome(
                    task.url,
                    status,
                    status_display(status),
                    body,
                ) {
                    Ok(page) => task.at(StageModel::Succeeded { page }),
                    Err(cause) => task.attempt_failed(ErrorKind::HttpFailure, cause),
                },
                EventModel::FetchFailed { stage, timed_out, cause } => task.attempt_failed(
                    kind_of(timed_out, ErrorKind::HttpFailure),
                    fetch_failure_text(stage, cause),
                ),
                _ => task,
            },
            StageModel::BackingOff => match event {
                EventModel::Done => TaskModel {
                    attempt: (task.attempt + 1) as u32,
                    stage: StageModel::Launching,
                    ..task
                },
                _ => task,
            },
            StageModel::Succeeded { .. } => task,
            StageModel::Failed { .. } => task,
        }
    }
}

/// The kind of the failure that `event` reports to `task`, if it reports one.
/// A task that has ended is told nothing any more, and a title that cannot
/// be read is no failure.
pub open spec fn reported(task: TaskModel, event: EventModel) -> Option<ErrorKind> {
    if task.stage.is_final() {
        None
    } else if event is DeadlineExceeded {
        Some(ErrorKind::OverallTimeout)
    } else {
        match (task.stage, event) {
            (StageModel::Launching, EventModel::Failed { .. }) => Some(
                ErrorKind::EngineLaunchFailure,
            ),
            (StageModel::OpeningTab, EventModel::Failed { timed_out, .. }) => Some(
                kind_of(timed_out, ErrorKind::NavigationFailure),
            ),
            (StageModel::Navigating, EventModel::Failed { timed_out, .. }) => Some(
                kind_of(timed_out, ErrorKind::NavigationFailure),
            ),
            (StageModel::AwaitingLoad, EventModel::Failed { timed_out, .. }) => Some(
                kind_of(timed_out, ErrorKind::NavigationFailure),
            ),
            (StageModel::Extracting, EventModel::Failed { timed_out, .. }) => Some(
                kind_of(timed_out, ErrorKind::ExtractionFailure),
            ),
            (StageModel::ReadingBody, EventModel::Failed { timed_out, .. }) => Some(
                kind_of(timed_out, ErrorKind::ExtractionFailure),
            ),
            (StageModel::ReadingBody, EventModel::Evaluated { value }) => if script_text(value)
                is None {
                Some(ErrorKind::ExtractionFailure)
            } else {
                None
            },
            (StageModel::Fetching, EventModel::Responded { status, .. }) => if is_success(status) {
                None
            } else {
                Some(ErrorKind::HttpFailure)
            },
            (StageModel::Fetching, EventModel::FetchFailed { timed_out, .. }) => Some(
                kind_of(timed_out, ErrorKind::HttpFailure),
            ),
            _ => None,
        }
    }
}

/// How the task ended, if it has.
pub open spec fn outcome(task: TaskModel) -> Option<ResultModel> {
    match task.stage {
        StageModel::Succeeded { page } => Some(ResultModel::succeeded(page)),
        StageModel::Failed { message, .. } => Some(ResultModel::failed(message)),
        _ => None,
    }
}

/// The scrape of one URL.
#[derive(Debug, PartialEq, Eq)]
pub struct ScrapeTask {
    url: String,
    timeout_ms: u64,
    max_retries: u32,
    attempt: u32,
    stage: Stage,
}

impl View for ScrapeTask {
    type V = TaskModel;

    closed spec fn view(&self) -> TaskModel {
        TaskModel {
            url: self.url@,
            timeout_ms: self.timeout_ms,
            max_retries: self.max_retries,
            attempt: self.attempt,
            stage: self.stage@,
        }
    }
}

fn classify(timed_out: bool, otherwise: ErrorKind) -> (kind: ErrorKind)
    ensures
        kind == kind_of(timed_out, otherwise),
{
    if timed_out {
        ErrorKind::AttemptTimeout
    } else {
        otherwise
    }
}

/// The stage after the attempt number `attempt` failed with `cause`.
fn fail_attempt(max_retries: u32, attempt: u32, kind: ErrorKind, cause: &str) -> (stage: Stage)
    ensures
        stage@ == if attempt < max_retries {
            StageModel::BackingOff
        } else {
            StageModel::Failed {
                kind: Some(kind),
                message: attempt_text(attempt, max_retries, cause@),
            }
        },
{
    if attempt < max_retries {
        Stage::BackingOff
    } else {
        Stage::Failed { kind: Some(kind), message: annotate(attempt, max_retries, cause) }
    }
}

/// The stage after a step of the rendered path that gives no value.
fn plain_step(
    max_retries: u32,
    attempt: u32,
    event: Event,
    current: Stage,
    next: Stage,
    kind: ErrorKind,
    prefix: &str,
) -> (stage: Stage)
    ensures
        stage@ == match event@ {
            EventModel::Done => next@,
            EventModel::Failed { timed_out, cause } => if attempt < max_retries {
                StageModel::BackingOff
            } else {
                StageModel::Failed {
                    kind: Some(kind_of(timed_out, kind)),
                    message: attempt_text(attempt, max_retries, prefix@ + cause),
                }
            },
            _ => current@,
        },
{
    match event {
        Event::Done => next,
        Event::Failed { timed_out, cause } => {
            let cause = followed_by(prefix, cause.as_str());
            fail_attempt(max_retries, attempt, classify(timed_out, kind), cause.as_str())
        },
        _ => current,
    }
}

/// The attempt number and the stage that follow `event`.
fn transition(
    url: &String,
    timeout_ms: u64,
    max_retries: u32,
    attempt: u32,
    stage: Stage,
    event: Event,
) -> (moved: (u32, Stage))
    requires
        (TaskModel { url: url@, timeout_ms, max_retries, attempt, stage: stage@ }).wf(),
    ensures
        (TaskModel { url: url@, timeout_ms, max_retries, attempt: moved.0, stage: moved.1@ })
            == step(
            TaskModel { url: url@, timeout_ms, max_retries, attempt, stage: stage@ },
            event@,
        ),
        moved.1@ matches StageModel::Succeeded { page } ==> page.wf() && page.url == url@,
{
    match stage {
        Stage::Succeeded { page } => (attempt, Stage::Succeeded { page }),
        Stage::Failed { kind, message } => (attempt, Stage::Failed { kind, message }),
        Stage::Launching => match event {
            Event::DeadlineExceeded => (attempt, overall_timeout()),
            Event::Done => (attempt, Stage::OpeningTab),
            Event::Failed { .. } => (attempt, Stage::Fetching),
            _ => (attempt, Stage::Launching),
        },
        Stage::OpeningTab => match event {
            Event::DeadlineExceeded => (attempt, overall_timeout()),
            event => (
                attempt,
                plain_step(
                    max_retries,
                    attempt,
                    event,
                    Stage::OpeningTab,
                    Stage::Navigating,
                    ErrorKind::NavigationFailure,
                    "Failed to create tab: ",
                ),
            ),
        },
        Stage::Navigating => match event {
            Event::DeadlineExceeded => (attempt, overall_timeout()),
            event => (
                attempt,
                plain_step(
                    max_retries,
                    attempt,
                    event,
                    Stage::Navigating,
                    Stage::AwaitingLoad,
                    ErrorKind::NavigationFailure,
                    "Failed to navigate: ",
                ),
            ),
        },
        Stage::AwaitingLoad => match event {
            Event::DeadlineExceeded => (attempt, overall_timeout()),
            event => (
                attempt,
                plain_step(
                    max_retries,
                    attempt,
                    event,
                    Stage::AwaitingLoad,
                    Stage::Settling,
                    ErrorKind::NavigationFailure,
                    "Navigation timeout: ",
                ),
            ),
        },
        Stage::Settling => match event {
            Event::DeadlineExceeded => (attempt, overall_timeout()),
            Event::Done => (attempt, Stage::Extracting),
            _ => (attempt, Stage::Settling),
        },
        Stage::Extracting => match event {
            Event::DeadlineExceeded => (attempt, overall_timeout()),
            Event::Evaluated { value: Some(record) } => (
                attempt,
                Stage::Succeeded { page: extracted_page(url.as_str(), &record) },
            ),
            Event::Evaluated { value: None } => (attempt, Stage::ReadingBody),
            Event::Failed { timed_out, cause } => {
                let cause = followed_by("Failed to extract content: ", cause.as_str());
                (
                    attempt,
                    fail_attempt(
                        max_retries,
                        attempt,
                        classify(timed_out, ErrorKind::ExtractionFailure),
                        cause.as_str(),
                    ),
                )
            },
            _ => (attempt, Stage::Extracting),
        },
        Stage::ReadingBody => match event {
            Event::DeadlineExceeded => (attempt, overall_timeout()),
            Event::Evaluated { value } => match read_text(&value) {
                Some(body) => (attempt, Stage::ReadingTitle { body }),
                None => (
                    attempt,
                    fail_attempt(
                        max_retries,
                        attempt,
                        ErrorKind::ExtractionFailure,
                        "No value returned from extraction and fallback failed",
                    ),
                ),
            },
            Event::Failed { timed_out, cause } => {
                let cause = followed_by("Fallback extraction failed: ", cause.as_str());
                (
                    attempt,
                    fail_attempt(
                        max_retries,
                        attempt,
                        classify(timed_out, ErrorKind::ExtractionFailure),
                        cause.as_str(),
                    ),
                )
            },
            _ => (attempt, Stage::ReadingBody),
        },
        Stage::ReadingTitle { body } => match event {
            Event::DeadlineExceeded => (attempt, overall_timeout()),
            Event::Evaluated { value } => (
                attempt,
                Stage::Succeeded {
                    page: fallback_page(url.as_str(), body.as_str(), read_text(&value)),
                },
            ),
            Event::Failed { .. } => (
                attempt,
                Stage::Succeeded { page: fallback_page(url.as_str(), body.as_str(), None) },
            ),
            _ => (attempt, Stage::ReadingTitle { body }),
        },
        Stage::Fetching => match event {
            Event::DeadlineExceeded => (attempt, overall_timeout()),
            Event::Responded { status, body } => match page_from_response(
                url.as_str(),
                status,
                body.as_str(),
            ) {
                Ok(page) => (attempt, Stage::Succeeded { page }),
                Err(cause) => (
                    attempt,
                    fail_attempt(max_retries, attempt, ErrorKind::HttpFailure, cause.as_str()),
                ),
            },
            Event::FetchFailed { stage, timed_out, cause } => {
                let cause = fetch_failure(stage, cause.as_str());
                (
                    attempt,
                    fail_attempt(
                        max_retries,
                        attempt,
                        classify(timed_out, ErrorKind::HttpFailure),
                        cause.as_str(),
                    ),
                )
            },
            _ => (attempt, Stage::Fetching),
        },
        Stage::BackingOff => match event {
            Event::DeadlineExceeded => (attempt, overall_timeout()),
            Event::Done => (attempt + 1, Stage::Launching),
            _ => (attempt, Stage::BackingOff),
        },
    }
}

/// The stage of a task whose attempts together ran out of time.
fn overall_timeout() -> (stage: Stage)
    ensures
        stage@ == (StageModel::Failed {
            kind: Some(ErrorKind::OverallTimeout),
            message: "Overall timeout exceeded"@,
        }),
{
    Stage::Failed {
        kind: Some(ErrorKind::OverallTimeout),
        message: String::from_str("Overall timeout exceeded"),
    }
}

impl ScrapeTask {
    /// What holds of every task: see [`TaskModel::wf`].
    #[verifier::type_invariant]
    pub open spec fn well_formed(self) -> bool {
        self@.wf()
    }

    /// The task for `url`, given the verdict on the URL: see [`begun`].
    pub fn begin(
        url: &str,
        timeout_ms: u64,
        max_retries: u32,
        checked: Result<(), UrlError>,
    ) -> (task: ScrapeTask)
        ensures
            task@ == begun(url@, timeout_ms, max_retries, verdict_model(checked)),
            task@.wf(),
    {
        let (attempt, stage) = match checked {
            Err(error) => (
                0,
                Stage::Failed { kind: Some(ErrorKind::InvalidUrl), message: error.message() },
            ),
            Ok(()) => if max_retries == 0 {
                (0, Stage::Failed { kind: None, message: String::new() })
            } else {
                (1, Stage::Launching)
            },
        };
        ScrapeTask { url: url.to_owned(), timeout_ms, max_retries, attempt, stage }
    }

    /// The task that scrapes `url`, with `timeout_ms` for each attempt and at
    /// most `max_retries` attempts. The URL is checked here, once: a URL
    /// that is refused fails the task before any attempt.
    pub fn new(url: &str, timeout_ms: u64, max_retries: u32) -> (task: ScrapeTask)
        ensures
            task@ == started(url@, timeout_ms, max_retries),
            task@.wf(),
    {
        ScrapeTask::begin(url, timeout_ms, max_retries, check_url(url))
    }

    /// What the driver is to do next.
    pub fn action(&self) -> (action: Action)
        ensures
            action@ == pending(self@),
    {
        match &self.stage {
            Stage::Launching => Action::LaunchBrowser,
            Stage::OpeningTab => Action::OpenTab,
            Stage::Navigating => Action::Navigate {
                url: self.url.clone(),
                timeout_ms: self.timeout_ms,
            },
            Stage::AwaitingLoad => Action::AwaitNavigation,
            Stage::Settling => Action::Settle { wait_ms: SETTLE_MS },
            Stage::Extracting => Action::Evaluate { script: Script::Extraction },
            Stage::ReadingBody => Action::Evaluate { script: Script::BodyText },
            Stage::ReadingTitle { .. } => Action::Evaluate { script: Script::Title },
            Stage::Fetching => Action::HttpGet {
                url: self.url.clone(),
                timeout_ms: self.timeout_ms,
            },
            Stage::BackingOff => Action::Wait { wait_ms: backoff(self.attempt) },
            Stage::Succeeded { .. } => Action::Finish,
            Stage::Failed { .. } => Action::Finish,
        }
    }

    /// Takes in how the work that was asked for went: see [`step`].
    pub fn on_event(self, event: Event) -> (next: ScrapeTask)
        ensures
            next@ == step(self@, event@),
            next@.wf(),
    {
        proof {
            use_type_invariant(&self);
        }
        let ScrapeTask { url, timeout_ms, max_retries, attempt, stage } = self;
        let (attempt, stage) = transition(&url, timeout_ms, max_retries, attempt, stage, event);
        ScrapeTask { url, timeout_ms, max_retries, attempt, stage }
    }

    /// The kind of the failure that `event` tells of at the stage where the
    /// scrape stands, if it tells of one: see [`reported`].
    pub fn reports(&self, event: &Event) -> (kind: Option<ErrorKind>)
        ensures
            kind == reported(self@, event@),
    {
        match &self.stage {
            Stage::Succeeded { .. } => None,
            Stage::Failed { .. } => None,
            stage => match event {
                Event::DeadlineExceeded => Some(ErrorKind::OverallTimeout),
                Event::Failed { timed_out, .. } => match stage {
                    Stage::Launching => Some(ErrorKind::EngineLaunchFailure),
                    Stage::OpeningTab => Some(classify(*timed_out, ErrorKind::NavigationFailure)),
                    Stage::Navigating => Some(classify(*timed_out, ErrorKind::NavigationFailure)),
                    Stage::AwaitingLoad => Some(
                        classify(*timed_out, ErrorKind::NavigationFailure),
                    ),
                    Stage::Extracting => Some(classify(*timed_out, ErrorKind::ExtractionFailure)),
                    Stage::ReadingBody => Some(
                        classify(*timed_out, ErrorKind::ExtractionFailure),
                    ),
                    _ => None,
                },
                Event::Evaluated { value } => match stage {
                    Stage::ReadingBody => match read_text(value) {
                        Some(_) => None,
                        None => Some(ErrorKind::ExtractionFailure),
                    },
                    _ => None,
                },
                Event::Responded { status, .. } => match stage {
                    Stage::Fetching => if 200 <= *status && *status < 300 {
                        None
                    } else {
                        Some(ErrorKind::HttpFailure)
                    },
                    _ => None,
                },
                Event::FetchFailed { timed_out, .. } => match stage {
                    Stage::Fetching => Some(classify(*timed_out, ErrorKind::HttpFailure)),
                    _ => None,
                },
                Event::Done => None,
            },
        }
    }

    /// Whether the scrape has ended.
    pub fn is_finished(&self) -> (finished: bool)
        ensures
            finished == self@.stage.is_final(),
    {
        match &self.stage {
            Stage::Succeeded { .. } => true,
            Stage::Failed { .. } => true,
            _ => false,
        }
    }

    /// The URL that the task scrapes.
    pub fn url(&self) -> (url: &String)
        ensures
            url@ == self@.url,
    {
        &self.url
    }

    /// The time allowed to one attempt, in milliseconds.
    pub fn timeout_ms(&self) -> (timeout_ms: u64)
        ensures
            timeout_ms == self@.timeout_ms,
    {
        self.timeout_ms
    }

    /// The number of attempts allowed.
    pub fn max_retries(&self) -> (max_retries: u32)
        ensures
            max_retries == self@.max_retries,
    {
        self.max_retries
    }

    /// The number of attempts begun so far, never more than are allowed.
    pub fn attempt(&self) -> (attempt: u32)
        ensures
            attempt == self@.attempt,
            attempt <= self@.max_retries,
    {
        proof {
            use_type_invariant(self);
        }
        self.attempt
    }

    /// Where the scrape stands.
    pub fn stage(&self) -> (stage: &Stage)
        ensures
            stage@ == self@.stage,
    {
        &self.stage
    }

    /// The kind of the failure that ended the scrape, if one did.
    pub fn failure_kind(&self) -> (kind: Option<ErrorKind>)
        ensures
            kind == match self@.stage {
                StageModel::Failed { kind, .. } => kind,
                _ => None,
            },
    {
        match &self.stage {
            Stage::Failed { kind, .. } => *kind,
            _ => None,
        }
    }

    /// The result of a task that has ended; a task that has not is handed
    /// back as it is. A page in the result is the page of the task's URL.
    pub fn into_result(self) -> (ended: Result<ScrapeResult, ScrapeTask>)
        ensures
            match ended {
                Ok(result) => {
                    &&& outcome(self@) == Some(result@)
                    &&& result@.wf()
                    &&& result@.content matches Some(page) ==> page.url == self@.url
                },
                Err(task) => outcome(self@) is None && task@ == self@,
            },
    {
        proof {
            use_type_invariant(&self);
        }
        let ScrapeTask { url, timeout_ms, max_retries, attempt, stage } = self;
        match stage {
            Stage::Succeeded { page } => Ok(ScrapeResult::succeeded(page)),
            Stage::Failed { message, .. } => Ok(ScrapeResult::failed(message)),
            stage => Err(ScrapeTask { url, timeout_ms, max_retries, attempt, stage }),
        }
    }
}

} // verus!
