use scrape_core::batch::{
    deadline_result, plan_groups, start_group, start_single, task_failure, BatchConfig, Group,
    DEFAULT_MAX_CONCURRENT, DEFAULT_MAX_RETRIES, DEFAULT_TIMEOUT_MS,
};
use scrape_core::content::ScrapeResult;
use scrape_core::task::{Action, ErrorKind, Event, ScrapeTask, Stage};

fn urls(count: usize) -> Vec<String> {
    (0..count).map(|i| format!("https://site{}.example.com/page", i)).collect()
}

fn run_to_the_end(task: ScrapeTask) -> ScrapeResult {
    let mut task = task;
    while !task.is_finished() {
        let event = match task.action() {
            Action::LaunchBrowser => {
                Event::Failed { timed_out: false, cause: "no browser".to_string() }
            },
            Action::HttpGet { url, .. } => {
                if url.contains("site1") {
                    Event::Responded { status: 500, body: String::new() }
                } else {
                    Event::Responded { status: 200, body: format!("<title>{}</title>", url) }
                }
            },
            Action::Wait { .. } => Event::Done,
            other => panic!("unexpected action {:?}", other),
        };
        task = task.on_event(event);
    }
    task.into_result().expect("the task has ended")
}

fn scrape_all(urls: &Vec<String>, max_concurrent: Option<usize>) -> (Vec<ScrapeResult>, usize) {
    let config = BatchConfig::resolve(None, Some(2), max_concurrent);
    let mut results = Vec::new();
    let mut peak = 0;
    for group in plan_groups(urls.len(), config.max_concurrent) {
        let tasks = start_group(urls, group, &config);
        peak = peak.max(tasks.len());
        results.extend(tasks.into_iter().map(run_to_the_end));
    }
    (results, peak)
}

#[test]
fn defaults_stand_in_for_what_is_not_chosen() {
    let config = BatchConfig::resolve(None, None, None);
    assert_eq!(config.timeout_ms, 45000);
    assert_eq!(config.max_retries, 3);
    assert_eq!(config.max_concurrent, 5);
    assert_eq!(DEFAULT_TIMEOUT_MS, 45000);
    assert_eq!(DEFAULT_MAX_RETRIES, 3);
    assert_eq!(DEFAULT_MAX_CONCURRENT, 5);
}

#[test]
fn choices_are_kept() {
    let config = BatchConfig::resolve(Some(1000), Some(7), Some(2));
    assert_eq!(config, BatchConfig { timeout_ms: 1000, max_retries: 7, max_concurrent: 2 });
    let config = BatchConfig::resolve(Some(0), Some(0), Some(1));
    assert_eq!(config, BatchConfig { timeout_ms: 0, max_retries: 0, max_concurrent: 1 });
}

#[test]
fn no_urls_side_by_side_gives_way_to_the_default() {
    let config = BatchConfig::resolve(None, None, Some(0));
    assert_eq!(config.max_concurrent, 5);
    assert_eq!(plan_groups(7, 0), vec![Group { start: 0, end: 5 }, Group { start: 5, end: 7 }]);
}

#[test]
fn five_urls_two_at_a_time_make_three_groups() {
    assert_eq!(
        plan_groups(5, 2),
        vec![
            Group { start: 0, end: 2 },
            Group { start: 2, end: 4 },
            Group { start: 4, end: 5 }
        ]
    );
}

#[test]
fn groups_that_come_out_even() {
    assert_eq!(plan_groups(10, 5), vec![Group { start: 0, end: 5 }, Group { start: 5, end: 10 }]);
    assert_eq!(plan_groups(3, 3), vec![Group { start: 0, end: 3 }]);
    assert_eq!(plan_groups(3, 1).len(), 3);
}

#[test]
fn a_group_larger_than_the_batch() {
    assert_eq!(plan_groups(3, 100), vec![Group { start: 0, end: 3 }]);
    assert_eq!(plan_groups(1, usize::MAX), vec![Group { start: 0, end: 1 }]);
}

#[test]
fn an_empty_batch_has_no_group() {
    assert_eq!(plan_groups(0, 5), vec![]);
    assert_eq!(plan_groups(0, 0), vec![]);
    assert_eq!(plan_groups(0, 1), vec![]);
    let (results, peak) = scrape_all(&Vec::new(), None);
    assert!(results.is_empty());
    assert_eq!(peak, 0);
}

#[test]
fn groups_lie_end_to_end_and_are_never_too_large() {
    for count in 0..40usize {
        for size in 1..9usize {
            let groups = plan_groups(count, size);
            assert_eq!(groups.len(), (count + size - 1) / size);
            let mut position = 0;
            for group in groups {
                assert_eq!(group.start, position);
                assert!(group.start < group.end);
                assert!(group.end - group.start <= size);
                position = group.end;
            }
            assert_eq!(position, count);
        }
    }
}

#[test]
fn a_group_starts_a_task_for_each_of_its_urls() {
    let urls = urls(5);
    let config = BatchConfig::resolve(Some(9000), Some(4), Some(2));
    let tasks = start_group(&urls, Group { start: 2, end: 4 }, &config);
    assert_eq!(tasks.len(), 2);
    for (offset, task) in tasks.iter().enumerate() {
        assert_eq!(task.url(), &urls[2 + offset]);
        assert_eq!(task.timeout_ms(), 9000);
        assert_eq!(task.max_retries(), 4);
        assert_eq!(task.attempt(), 1);
        assert_eq!(task.stage(), &Stage::Launching);
    }
    assert!(start_group(&urls, Group { start: 3, end: 3 }, &config).is_empty());
}

#[test]
fn a_group_beyond_the_urls_starts_what_there_is() {
    let urls = urls(3);
    let config = BatchConfig::resolve(None, None, None);
    let tasks = start_group(&urls, Group { start: 2, end: 9 }, &config);
    assert_eq!(tasks.len(), 1);
    assert_eq!(tasks[0].url(), &urls[2]);
    assert!(start_group(&urls, Group { start: 3, end: 9 }, &config).is_empty());
    assert!(start_group(&urls, Group { start: 7, end: 9 }, &config).is_empty());
    assert!(start_group(&urls, Group { start: 2, end: 1 }, &config).is_empty());
}

#[test]
fn a_refused_url_does_not_stop_its_group() {
    let urls =
        vec!["https://ok.example.com".to_string(), "ftp://no.example.com".to_string()];
    let config = BatchConfig::resolve(None, None, None);
    let tasks = start_group(&urls, Group { start: 0, end: 2 }, &config);
    assert!(!tasks[0].is_finished());
    assert!(tasks[1].is_finished());
    assert_eq!(tasks[1].failure_kind(), Some(ErrorKind::InvalidUrl));
}

#[test]
fn results_come_in_the_order_of_the_urls() {
    let urls = urls(5);
    let (results, peak) = scrape_all(&urls, Some(2));
    assert_eq!(results.len(), urls.len());
    assert!(peak <= 2);
    for (position, result) in results.iter().enumerate() {
        if position == 1 {
            assert!(!result.success());
            assert_eq!(
                result.error(),
                &Some(
                    "Attempt 2/2: Request failed with status 500 Internal Server Error"
                        .to_string()
                )
            );
        } else {
            assert!(result.success());
            assert_eq!(result.content().as_ref().unwrap().url(), &urls[position]);
        }
        assert_ne!(result.content().is_some(), result.error().is_some());
    }
}

#[test]
fn one_url_is_a_batch_of_one() {
    let urls = urls(1);
    let (results, peak) = scrape_all(&urls, None);
    assert_eq!(results.len(), 1);
    assert_eq!(peak, 1);
    assert_eq!(results[0].content().as_ref().unwrap().url(), &urls[0]);
}

#[test]
fn results_for_scrapes_that_were_cut_short() {
    let late = deadline_result();
    assert!(!late.success());
    assert_eq!(late.error(), &Some("Overall timeout exceeded".to_string()));
    let broken = task_failure("task 7 panicked");
    assert!(!broken.success());
    assert_eq!(broken.error(), &Some("Task error: task 7 panicked".to_string()));
    assert_eq!(broken.content(), &None);
}

#[test]
fn a_single_url_takes_the_defaults() {
    let task = start_single("https://example.com/one", None, None);
    assert_eq!(task.timeout_ms(), 45000);
    assert_eq!(task.max_retries(), 3);
    assert_eq!(task.url(), "https://example.com/one");
    assert_eq!(task.stage(), &Stage::Launching);
    let task = start_single("https://example.com/one", Some(10), Some(1));
    assert_eq!(task.timeout_ms(), 10);
    assert_eq!(task.max_retries(), 1);
    let urls = vec!["https://example.com/one".to_string()];
    let config = BatchConfig::resolve(Some(10), Some(1), None);
    let mut group = start_group(&urls, Group { start: 0, end: 1 }, &config);
    assert_eq!(group.pop(), Some(task));
}
