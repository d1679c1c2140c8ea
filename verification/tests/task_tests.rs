use scrape_core::content::ScrapeResult;
use scrape_core::retry::{annotate, backoff, overall_budget};
use scrape_core::runs::replay;
use scrape_core::static_fetch::FetchStage;
use scrape_core::task::{Action, ErrorKind, Event, ScrapeTask, Script, Stage};
use scrape_core::url::UrlError;
use serde_json::Value;

const URL: &str = "https://a.b.com/x";

fn failed(cause: &str) -> Event {
    Event::Failed { timed_out: false, cause: cause.to_string() }
}

fn timed_out(cause: &str) -> Event {
    Event::Failed { timed_out: true, cause: cause.to_string() }
}

fn evaluated(value: Value) -> Event {
    Event::Evaluated { value: Some(value) }
}

fn record(content: &str, title: &str) -> Value {
    let mut map = serde_json::Map::new();
    map.insert("content".to_string(), Value::String(content.to_string()));
    map.insert("title".to_string(), Value::String(title.to_string()));
    Value::Object(map)
}

fn feed(task: ScrapeTask, events: Vec<Event>) -> ScrapeTask {
    replay(task, events)
}

fn up_to_extraction() -> Vec<Event> {
    vec![Event::Done, Event::Done, Event::Done, Event::Done, Event::Done]
}

fn finish(task: ScrapeTask) -> ScrapeResult {
    task.into_result().expect("the task has ended")
}

#[test]
fn a_fresh_task_launches_a_browser() {
    let task = ScrapeTask::new(URL, 45000, 3);
    assert!(!task.is_finished());
    assert_eq!(task.attempt(), 1);
    assert_eq!(task.max_retries(), 3);
    assert_eq!(task.timeout_ms(), 45000);
    assert_eq!(task.url(), URL);
    assert_eq!(task.stage(), &Stage::Launching);
    assert_eq!(task.action(), Action::LaunchBrowser);
    assert_eq!(task.failure_kind(), None);
}

#[test]
fn the_rendered_path_asks_for_each_step_in_turn() {
    let mut task = ScrapeTask::new(URL, 30000, 3);
    let expected = [
        Action::LaunchBrowser,
        Action::OpenTab,
        Action::Navigate { url: URL.to_string(), timeout_ms: 30000 },
        Action::AwaitNavigation,
        Action::Settle { wait_ms: 1500 },
        Action::Evaluate { script: Script::Extraction },
    ];
    for action in expected {
        assert_eq!(task.action(), action);
        task = task.on_event(Event::Done);
    }
    assert_eq!(task.action(), Action::Evaluate { script: Script::Extraction });
    assert_eq!(task.attempt(), 1);
}

#[test]
fn a_record_from_the_page_ends_the_scrape() {
    let task = feed(ScrapeTask::new(URL, 45000, 3), up_to_extraction());
    let task = task.on_event(evaluated(record(" Some   text ", "A  title")));
    assert!(task.is_finished());
    assert_eq!(task.action(), Action::Finish);
    assert_eq!(task.attempt(), 1);
    let result = finish(task);
    assert!(result.success());
    assert_eq!(result.error(), &None);
    let page = result.content().as_ref().unwrap();
    assert_eq!(page.url(), URL);
    assert_eq!(page.title(), "A title");
    assert_eq!(page.content(), "Some text");
    assert_eq!(page.metadata().word_count(), 2);
    assert_eq!(page.metadata().domain(), "a.b.com");
}

#[test]
fn scheme_rejection_uses_no_attempt() {
    let task = ScrapeTask::new("ftp://example.com", 45000, 3);
    assert!(task.is_finished());
    assert_eq!(task.failure_kind(), Some(ErrorKind::InvalidUrl));
    assert_eq!(task.attempt(), 0);
    assert_eq!(task.action(), Action::Finish);
    let result = finish(task);
    assert!(!result.success());
    assert_eq!(result.content(), &None);
    assert_eq!(result.error(), &Some("Only http and https schemes are allowed".to_string()));
}

#[test]
fn a_malformed_url_uses_no_attempt() {
    let task = ScrapeTask::new("not a url", 45000, 3);
    assert!(task.is_finished());
    assert_eq!(task.failure_kind(), Some(ErrorKind::InvalidUrl));
    assert_eq!(task.attempt(), 0);
    let result = finish(task);
    assert_eq!(result.error(), &Some("Invalid URL: relative URL without a base".to_string()));
}

#[test]
fn begin_follows_the_verdict_it_is_given() {
    let refused = ScrapeTask::begin(URL, 1, 3, Err(UrlError::SchemeNotAllowed));
    assert_eq!(refused.failure_kind(), Some(ErrorKind::InvalidUrl));
    assert_eq!(refused.attempt(), 0);
    let accepted = ScrapeTask::begin("anything", 1, 3, Ok(()));
    assert_eq!(accepted.stage(), &Stage::Launching);
    assert_eq!(accepted.attempt(), 1);
}

#[test]
fn a_task_that_has_ended_takes_no_more_events() {
    let task = ScrapeTask::new("ftp://example.com", 45000, 3);
    let after = feed(task, vec![Event::Done, failed("x"), Event::DeadlineExceeded]);
    assert_eq!(after, ScrapeTask::new("ftp://example.com", 45000, 3));
}

#[test]
fn no_attempt_allowed_fails_with_an_empty_message() {
    let task = ScrapeTask::new(URL, 45000, 0);
    assert!(task.is_finished());
    assert_eq!(task.attempt(), 0);
    assert_eq!(task.failure_kind(), None);
    let result = finish(task);
    assert!(!result.success());
    assert_eq!(result.error(), &Some(String::new()));
}

#[test]
fn retry_after_failures_then_success() {
    let mut task = ScrapeTask::new(URL, 45000, 3);
    let mut waited: u64 = 0;
    for attempt in 1..3u32 {
        assert_eq!(task.attempt(), attempt);
        task = feed(task, vec![Event::Done, Event::Done, failed("connection reset")]);
        assert!(!task.is_finished());
        assert_eq!(task.stage(), &Stage::BackingOff);
        match task.action() {
            Action::Wait { wait_ms } => {
                assert_eq!(wait_ms, 1000 * 2u64.pow(attempt - 1));
                waited += wait_ms;
            },
            other => panic!("expected a wait, got {:?}", other),
        }
        task = task.on_event(Event::Done);
        assert_eq!(task.action(), Action::LaunchBrowser);
    }
    assert_eq!(task.attempt(), 3);
    assert_eq!(waited, 3000);
    task = feed(task, up_to_extraction());
    task = task.on_event(evaluated(record("text", "title")));
    let result = finish(task);
    assert!(result.success());
    assert_eq!(result.content().as_ref().unwrap().url(), URL);
}

#[test]
fn the_last_failure_is_reported_with_its_attempt() {
    let mut task = ScrapeTask::new(URL, 45000, 3);
    task = feed(task, vec![Event::Done, failed("first"), Event::Done]);
    task = feed(task, vec![Event::Done, Event::Done, failed("second"), Event::Done]);
    assert_eq!(task.attempt(), 3);
    task = feed(task, vec![Event::Done, Event::Done, Event::Done, failed("third")]);
    assert!(task.is_finished());
    assert_eq!(task.attempt(), 3);
    assert_eq!(task.failure_kind(), Some(ErrorKind::NavigationFailure));
    assert_eq!(task.action(), Action::Finish);
    let result = finish(task);
    assert!(!result.success());
    assert_eq!(result.error(), &Some("Attempt 3/3: Navigation timeout: third".to_string()));
}

#[test]
fn each_step_reports_its_own_cause() {
    let cases: Vec<(usize, &str, ErrorKind)> = vec![
        (1, "Attempt 1/1: Failed to create tab: boom", ErrorKind::NavigationFailure),
        (2, "Attempt 1/1: Failed to navigate: boom", ErrorKind::NavigationFailure),
        (3, "Attempt 1/1: Navigation timeout: boom", ErrorKind::NavigationFailure),
        (5, "Attempt 1/1: Failed to extract content: boom", ErrorKind::ExtractionFailure),
    ];
    for (steps, message, kind) in cases {
        let mut task = ScrapeTask::new(URL, 45000, 1);
        for _ in 0..steps {
            task = task.on_event(Event::Done);
        }
        let task = task.on_event(failed("boom"));
        assert!(task.is_finished());
        assert_eq!(task.failure_kind(), Some(kind));
        assert_eq!(finish(task).error(), &Some(message.to_string()));
    }
}

#[test]
fn a_step_that_ran_out_of_time_is_a_timeout() {
    let task = feed(ScrapeTask::new(URL, 45000, 1), vec![Event::Done, Event::Done]);
    let task = task.on_event(timed_out("took too long"));
    assert_eq!(task.failure_kind(), Some(ErrorKind::AttemptTimeout));
    assert_eq!(
        finish(task).error(),
        &Some("Attempt 1/1: Failed to navigate: took too long".to_string())
    );
}

#[test]
fn launch_failure_falls_back_to_a_plain_fetch() {
    let task = ScrapeTask::new(URL, 20000, 3).on_event(failed("no browser"));
    assert_eq!(task.stage(), &Stage::Fetching);
    assert_eq!(task.attempt(), 1);
    assert_eq!(task.action(), Action::HttpGet { url: URL.to_string(), timeout_ms: 20000 });
    let task = task.on_event(Event::Responded {
        status: 200,
        body: "<html><title>Plain  page</title> some   body</html>".to_string(),
    });
    assert!(task.is_finished());
    assert_eq!(task.attempt(), 1);
    let result = finish(task);
    assert!(result.success());
    let page = result.content().as_ref().unwrap();
    assert_eq!(page.url(), URL);
    assert_eq!(page.title(), "Plain page");
    assert_eq!(page.content(), "<html><title>Plain page</title> some body</html>");
    assert_eq!(page.metadata().word_count(), 4);
    assert_eq!(page.metadata().domain(), "a.b.com");
    assert_eq!(page.metadata().published_date(), &None);
    assert_eq!(page.metadata().author(), &None);
}

#[test]
fn a_bad_status_on_the_fallback_is_retried() {
    let task = ScrapeTask::new(URL, 20000, 2).on_event(failed("no browser"));
    let task = task.on_event(Event::Responded { status: 503, body: String::new() });
    assert_eq!(task.stage(), &Stage::BackingOff);
    assert_eq!(task.action(), Action::Wait { wait_ms: 1000 });
    let task = feed(task, vec![Event::Done, failed("no browser")]);
    assert_eq!(task.attempt(), 2);
    let task = task.on_event(Event::Responded { status: 503, body: String::new() });
    assert_eq!(task.failure_kind(), Some(ErrorKind::HttpFailure));
    assert_eq!(
        finish(task).error(),
        &Some("Attempt 2/2: Request failed with status 503 Service Unavailable".to_string())
    );
}

#[test]
fn a_fetch_that_is_not_answered_fails_the_attempt() {
    let cases = [
        (FetchStage::BuildClient, "Attempt 1/1: Failed to build HTTP client: why"),
        (FetchStage::Send, "Attempt 1/1: Request failed: why"),
        (FetchStage::ReadBody, "Attempt 1/1: Failed to read response body: why"),
    ];
    for (stage, message) in cases {
        let task = ScrapeTask::new(URL, 20000, 1).on_event(failed("no browser"));
        let task =
            task.on_event(Event::FetchFailed { stage, timed_out: false, cause: "why".to_string() });
        assert_eq!(task.failure_kind(), Some(ErrorKind::HttpFailure));
        assert_eq!(finish(task).error(), &Some(message.to_string()));
    }
    let task = ScrapeTask::new(URL, 20000, 1).on_event(failed("no browser"));
    let task = task.on_event(Event::FetchFailed {
        stage: FetchStage::Send,
        timed_out: true,
        cause: "slow".to_string(),
    });
    assert_eq!(task.failure_kind(), Some(ErrorKind::AttemptTimeout));
}

#[test]
fn without_a_record_the_body_and_title_are_read() {
    let task = feed(ScrapeTask::new(URL, 45000, 3), up_to_extraction());
    let task = task.on_event(Event::Evaluated { value: None });
    assert_eq!(task.stage(), &Stage::ReadingBody);
    assert_eq!(task.action(), Action::Evaluate { script: Script::BodyText });
    let task = task.on_event(evaluated(Value::String(" the   body ".to_string())));
    assert_eq!(task.stage(), &Stage::ReadingTitle { body: " the   body ".to_string() });
    assert_eq!(task.action(), Action::Evaluate { script: Script::Title });
    let task = task.on_event(evaluated(Value::String("The Title".to_string())));
    let result = finish(task);
    let page = result.content().as_ref().unwrap();
    assert_eq!(page.title(), "The Title");
    assert_eq!(page.content(), "the body");
    assert_eq!(page.metadata().word_count(), 2);
    assert_eq!(page.metadata().published_date(), &None);
    assert_eq!(page.metadata().author(), &None);
}

#[test]
fn a_title_that_cannot_be_read_is_untitled() {
    for last in [failed("gone"), Event::Evaluated { value: None }, evaluated(Value::Null)] {
        let task = feed(ScrapeTask::new(URL, 45000, 3), up_to_extraction());
        let task = task.on_event(Event::Evaluated { value: None });
        let task = task.on_event(evaluated(Value::String("body".to_string())));
        let task = task.on_event(last);
        let result = finish(task);
        assert!(result.success());
        assert_eq!(result.content().as_ref().unwrap().title(), "Untitled");
    }
}

#[test]
fn a_body_that_is_no_text_fails_the_attempt() {
    for value in [None, Some(Value::Null), Some(Value::Bool(false))] {
        let task = feed(ScrapeTask::new(URL, 45000, 1), up_to_extraction());
        let task = task.on_event(Event::Evaluated { value: None });
        let task = task.on_event(Event::Evaluated { value });
        assert_eq!(task.failure_kind(), Some(ErrorKind::ExtractionFailure));
        assert_eq!(
            finish(task).error(),
            &Some(
                "Attempt 1/1: No value returned from extraction and fallback failed".to_string()
            )
        );
    }
    let task = feed(ScrapeTask::new(URL, 45000, 1), up_to_extraction());
    let task = task.on_event(Event::Evaluated { value: None });
    let task = task.on_event(failed("detached"));
    assert_eq!(
        finish(task).error(),
        &Some("Attempt 1/1: Fallback extraction failed: detached".to_string())
    );
}

#[test]
fn the_deadline_ends_a_task_wherever_it_stands() {
    let prefixes: Vec<Vec<Event>> = vec![
        vec![],
        vec![Event::Done],
        vec![Event::Done, Event::Done, Event::Done],
        up_to_extraction(),
        vec![failed("no browser")],
        vec![Event::Done, failed("tab")],
    ];
    for prefix in prefixes {
        let task = feed(ScrapeTask::new(URL, 45000, 3), prefix);
        assert!(!task.is_finished());
        let task = task.on_event(Event::DeadlineExceeded);
        assert!(task.is_finished());
        assert_eq!(task.failure_kind(), Some(ErrorKind::OverallTimeout));
        assert_eq!(finish(task).error(), &Some("Overall timeout exceeded".to_string()));
    }
}

#[test]
fn the_deadline_does_not_undo_a_success() {
    let task = feed(ScrapeTask::new(URL, 45000, 3), up_to_extraction());
    let task = task.on_event(evaluated(record("text", "title")));
    let task = task.on_event(Event::DeadlineExceeded);
    assert!(finish(task).success());
}

#[test]
fn an_event_that_answers_nothing_is_ignored() {
    let task = ScrapeTask::new(URL, 45000, 3);
    let task = task.on_event(Event::Responded { status: 200, body: "x".to_string() });
    assert_eq!(task.stage(), &Stage::Launching);
    let task = task.on_event(Event::Evaluated { value: None });
    assert_eq!(task.stage(), &Stage::Launching);
    let task = feed(task, vec![Event::Done, Event::Done, Event::Done, Event::Done]);
    assert_eq!(task.stage(), &Stage::Settling);
    let task = task.on_event(failed("a wait cannot fail"));
    assert_eq!(task.stage(), &Stage::Settling);
    assert_eq!(task.attempt(), 1);
}

#[test]
fn a_task_that_runs_is_handed_back() {
    let task = ScrapeTask::new(URL, 45000, 3).on_event(Event::Done);
    match task.into_result() {
        Ok(_) => panic!("the task has not ended"),
        Err(task) => {
            assert_eq!(task.stage(), &Stage::OpeningTab);
            assert_eq!(task.url(), URL);
        },
    }
}

#[test]
fn exactly_one_of_content_and_error() {
    let success = finish(
        feed(ScrapeTask::new(URL, 45000, 3), up_to_extraction())
            .on_event(evaluated(record("t", "t"))),
    );
    let failure = finish(ScrapeTask::new("ftp://example.com", 45000, 3));
    for result in [success, failure] {
        assert_ne!(result.content().is_some(), result.error().is_some());
        assert_eq!(result.success(), result.content().is_some());
    }
}

#[test]
fn result_constructors() {
    let failure = ScrapeResult::failed("why".to_string());
    assert!(!failure.success());
    assert_eq!(failure.error(), &Some("why".to_string()));
    assert_eq!(failure.content(), &None);
    let page = scrape_core::content::ScrapedContent::assemble(URL, "t", "a b c", None, None);
    let success = ScrapeResult::succeeded(page.clone());
    assert!(success.success());
    assert_eq!(success.content(), &Some(page));
    assert_eq!(success.error(), &None);
    assert_eq!(success.clone(), success);
}

#[test]
fn backoff_doubles() {
    assert_eq!(backoff(0), 1000);
    assert_eq!(backoff(1), 1000);
    assert_eq!(backoff(2), 2000);
    assert_eq!(backoff(3), 4000);
    assert_eq!(backoff(4), 8000);
    assert_eq!(backoff(11), 1_024_000);
    assert_eq!(backoff(55), 1000 * (1u64 << 54));
}

#[test]
fn backoff_stops_at_the_largest_number() {
    assert_eq!(backoff(56), u64::MAX);
    assert_eq!(backoff(64), u64::MAX);
    assert_eq!(backoff(u32::MAX), u64::MAX);
}

#[test]
fn overall_budget_adds_five_seconds() {
    assert_eq!(overall_budget(45000), 50000);
    assert_eq!(overall_budget(0), 5000);
    assert_eq!(overall_budget(u64::MAX - 5000), u64::MAX);
    assert_eq!(overall_budget(u64::MAX - 4999), u64::MAX);
    assert_eq!(overall_budget(u64::MAX), u64::MAX);
}

#[test]
fn annotate_names_attempt_and_limit() {
    assert_eq!(annotate(2, 3, "boom"), "Attempt 2/3: boom");
    assert_eq!(annotate(10, 12, ""), "Attempt 10/12: ");
    assert_eq!(annotate(u32::MAX, u32::MAX, "x"), "Attempt 4294967295/4294967295: x");
}

#[test]
fn each_failure_has_its_kind() {
    let launching = ScrapeTask::new(URL, 45000, 3);
    assert_eq!(launching.reports(&failed("no browser")), Some(ErrorKind::EngineLaunchFailure));
    assert_eq!(launching.reports(&timed_out("slow")), Some(ErrorKind::EngineLaunchFailure));
    assert_eq!(launching.reports(&Event::Done), None);
    assert_eq!(launching.reports(&Event::DeadlineExceeded), Some(ErrorKind::OverallTimeout));

    let opening = launching.on_event(Event::Done);
    assert_eq!(opening.reports(&failed("x")), Some(ErrorKind::NavigationFailure));
    assert_eq!(opening.reports(&timed_out("x")), Some(ErrorKind::AttemptTimeout));

    let extracting = feed(ScrapeTask::new(URL, 45000, 3), up_to_extraction());
    assert_eq!(extracting.reports(&failed("x")), Some(ErrorKind::ExtractionFailure));
    assert_eq!(extracting.reports(&Event::Evaluated { value: None }), None);

    let reading_body = extracting.on_event(Event::Evaluated { value: None });
    assert_eq!(
        reading_body.reports(&Event::Evaluated { value: None }),
        Some(ErrorKind::ExtractionFailure)
    );
    assert_eq!(reading_body.reports(&evaluated(Value::String("body".to_string()))), None);

    let reading_title = reading_body.on_event(evaluated(Value::String("body".to_string())));
    assert_eq!(reading_title.reports(&failed("x")), None);

    let fetching = ScrapeTask::new(URL, 45000, 3).on_event(failed("no browser"));
    assert_eq!(
        fetching.reports(&Event::Responded { status: 404, body: String::new() }),
        Some(ErrorKind::HttpFailure)
    );
    assert_eq!(fetching.reports(&Event::Responded { status: 200, body: String::new() }), None);
    assert_eq!(
        fetching.reports(&Event::FetchFailed {
            stage: FetchStage::Send,
            timed_out: false,
            cause: "x".to_string()
        }),
        Some(ErrorKind::HttpFailure)
    );

    let ended = ScrapeTask::new("ftp://example.com", 45000, 3);
    assert_eq!(ended.reports(&failed("x")), None);
    assert_eq!(ended.reports(&Event::DeadlineExceeded), None);
}

#[test]
fn kinds_that_are_retried() {
    assert!(ErrorKind::NavigationFailure.is_retryable());
    assert!(ErrorKind::ExtractionFailure.is_retryable());
    assert!(ErrorKind::HttpFailure.is_retryable());
    assert!(ErrorKind::AttemptTimeout.is_retryable());
    assert!(!ErrorKind::InvalidUrl.is_retryable());
    assert!(!ErrorKind::EngineLaunchFailure.is_retryable());
    assert!(!ErrorKind::OverallTimeout.is_retryable());
}

#[test]
fn the_waits_of_five_attempts_add_up() {
    let mut task = ScrapeTask::new(URL, 45000, 5);
    let mut waits = Vec::new();
    while !task.is_finished() {
        let event = match task.action() {
            Action::Wait { wait_ms } => {
                waits.push(wait_ms);
                Event::Done
            },
            Action::LaunchBrowser => Event::Done,
            _ => failed("always"),
        };
        task = task.on_event(event);
    }
    assert_eq!(waits, vec![1000, 2000, 4000, 8000]);
    assert_eq!(waits.iter().sum::<u64>(), 1000 * (2u64.pow(4) - 1));
    assert_eq!(task.attempt(), 5);
    assert_eq!(
        finish(task).error(),
        &Some("Attempt 5/5: Failed to create tab: always".to_string())
    );
}

#[test]
fn a_replay_is_the_events_one_by_one() {
    let events = || {
        vec![
            Event::Done,
            failed("tab"),
            Event::Done,
            failed("no browser"),
            Event::Responded { status: 200, body: "<title>t</title>".to_string() },
        ]
    };
    let mut stepwise = ScrapeTask::new(URL, 45000, 3);
    for event in events() {
        stepwise = stepwise.on_event(event);
    }
    let replayed = replay(ScrapeTask::new(URL, 45000, 3), events());
    assert_eq!(replayed, stepwise);
    assert!(replayed.is_finished());
    assert_eq!(replayed.attempt(), 2);
    let unchanged = replay(ScrapeTask::new(URL, 45000, 3), Vec::new());
    assert_eq!(unchanged, ScrapeTask::new(URL, 45000, 3));
}
