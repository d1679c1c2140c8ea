//! What holds of a task whatever its driver reports: laws of single steps,
//! and of whole runs, that is of the events of a scrape in a row.

use vstd::prelude::*;
use vstd::arithmetic::power2::pow2;
use crate::content::{lemma_page_model_wf, ResultModel};
use crate::render::{default_title, json_member_text, script_text, text_or};
use crate::retry::{
    attempt_text, backoff_ms, backoff_wait, lemma_backoff_grows, lemma_total_backoff,
    total_backoff,
};
use crate::static_fetch::{is_success, raw_title, static_page_model, FetchStage};
use crate::task::{
    begun, outcome, pending, reported, step, ActionModel, ErrorKind, Event, EventModel,
    ScrapeTask, StageModel, TaskModel,
};
use crate::url::UrlErrorModel;

verus! {

/// The task after the events of `events`, one after the other.
pub open spec fn run(task: TaskModel, events: Seq<EventModel>) -> TaskModel
    decreases events.len(),
{
    if events.len() == 0 {
        task
    } else {
        step(run(task, events.drop_last()), events.last())
    }
}

/// The mathematical values of some events.
pub open spec fn event_models(events: Seq<Event>) -> Seq<EventModel> {
    Seq::new(events.len(), |k: int| events[k]@)
}

/// Hands `events` to `task`, one after the other, as a driver would that
/// met with exactly these.
pub fn replay(task: ScrapeTask, events: Vec<Event>) -> (last: ScrapeTask)
    ensures
        last@ == run(task@, event_models(events@)),
        last@.wf(),
{
    let ghost first = task@;
    let ghost all = event_models(events@);
    let mut last = task;
    proof {
        assert(all.take(0) == Seq::<EventModel>::empty());
        use_type_invariant(&last);
    }
    for event in iter: events
        invariant
            iter.seq() == events@,
            all == event_models(events@),
            last@ == run(first, all.take(iter.index() as int)),
            last@.wf(),
    {
        proof {
            let seen = all.take(iter.index() + 1);
            assert(seen.drop_last() == all.take(iter.index() as int));
            assert(seen.last() == event@);
        }
        last = last.on_event(event);
    }
    proof {
        assert(all.take(events@.len() as int) == all);
    }
    last
}

/// The time that the waits between attempts took during `events`, in
/// milliseconds: each wait that the task asked for and that was reported as
/// done counts with the time asked for.
pub open spec fn waited(task: TaskModel, events: Seq<EventModel>) -> nat
    decreases events.len(),
{
    if events.len() == 0 {
        0
    } else {
        let before = run(task, events.drop_last());
        let earlier = waited(task, events.drop_last());
        if before.stage is BackingOff && events.last() is Done {
            earlier + backoff_ms(before.attempt) as nat
        } else {
            earlier
        }
    }
}

/// The waits that precede the attempt number `attempt`, added up: one after
/// each earlier attempt.
pub open spec fn waits_before(attempt: nat) -> nat
    decreases attempt,
{
    if attempt <= 1 {
        0
    } else {
        waits_before((attempt - 1) as nat) + backoff_ms((attempt - 1) as u32) as nat
    }
}

/// A step keeps a task well formed. It never changes the URL, the time
/// allowed or the number of attempts allowed, and it begins at most one
/// attempt.
pub proof fn lemma_step_keeps_wf(task: TaskModel, event: EventModel)
    requires
        task.wf(),
    ensures
        step(task, event).wf(),
        step(task, event).url == task.url,
        step(task, event).timeout_ms == task.timeout_ms,
        step(task, event).max_retries == task.max_retries,
        task.attempt <= step(task, event).attempt <= task.attempt + 1,
{
    let next = step(task, event);
    match next.stage {
        StageModel::Succeeded { page } => {
            if !task.stage.is_final() {
                match task.stage {
                    StageModel::Extracting => {
                        let record = event->Evaluated_value->0;
                        lemma_page_model_wf(
                            task.url,
                            text_or(json_member_text(record, "title"@), default_title()),
                            text_or(json_member_text(record, "content"@), Seq::empty()),
                            json_member_text(record, "publishedDate"@),
                            json_member_text(record, "author"@),
                        );
                    },
                    StageModel::ReadingTitle { body } => {
                        lemma_page_model_wf(task.url, default_title(), body, None, None);
                        if event is Evaluated {
                            lemma_page_model_wf(
                                task.url,
                                text_or(script_text(event->Evaluated_value), default_title()),
                                body,
                                None,
                                None,
                            );
                        }
                    },
                    StageModel::Fetching => {
                        let body = event->Responded_body;
                        lemma_page_model_wf(task.url, raw_title(body), body, None, None);
                    },
                    _ => {},
                }
            }
        },
        _ => {},
    }
}

/// A run keeps a task well formed and never changes its URL.
pub proof fn lemma_run_keeps_wf(task: TaskModel, events: Seq<EventModel>)
    requires
        task.wf(),
    ensures
        run(task, events).wf(),
        run(task, events).url == task.url,
        run(task, events).max_retries == task.max_retries,
        task.attempt <= run(task, events).attempt,
    decreases events.len(),
{
    if events.len() > 0 {
        lemma_run_keeps_wf(task, events.drop_last());
        lemma_step_keeps_wf(run(task, events.drop_last()), events.last());
    }
}

/// However a task ends, its result holds either a page or a message, never
/// both and never neither; and a page is the page of the task's URL.
pub proof fn lemma_outcome_is_one_of_two(task: TaskModel)
    requires
        task.wf(),
    ensures
        outcome(task) is Some <==> task.stage.is_final(),
        outcome(task) matches Some(result) ==> {
            &&& result.wf()
            &&& (result.content is Some) != (result.error is Some)
            &&& result.content matches Some(page) ==> page.url == task.url
        },
{
}

/// Whatever the driver reports after a task was begun for `url`, a result
/// that holds a page holds the page of `url`.
pub proof fn lemma_page_is_of_the_url(
    url: Seq<char>,
    timeout_ms: u64,
    max_retries: u32,
    checked: Result<(), UrlErrorModel>,
    events: Seq<EventModel>,
)
    ensures
        outcome(run(begun(url, timeout_ms, max_retries, checked), events)) matches Some(result)
            ==> result.wf() && (result.content matches Some(page) ==> page.url == url),
{
    let task = begun(url, timeout_ms, max_retries, checked);
    lemma_run_keeps_wf(task, events);
    lemma_outcome_is_one_of_two(run(task, events));
}

/// A URL that is refused fails its task with `InvalidUrl` before any attempt:
/// no attempt is counted, nothing is asked of the driver, and no event
/// changes that.
pub proof fn lemma_refused_url_uses_no_attempt(
    url: Seq<char>,
    timeout_ms: u64,
    max_retries: u32,
    error: UrlErrorModel,
    events: Seq<EventModel>,
)
    ensures
        ({
            let task = begun(url, timeout_ms, max_retries, Err(error));
            &&& task.attempt == 0
            &&& task.stage matches StageModel::Failed { kind, .. } && kind == Some(
                ErrorKind::InvalidUrl,
            )
            &&& pending(task) == ActionModel::Finish
            &&& run(task, events) == task
        }),
    decreases events.len(),
{
    if events.len() > 0 {
        lemma_refused_url_uses_no_attempt(url, timeout_ms, max_retries, error, events.drop_last());
    }
}

/// When the browser cannot be launched, the same attempt fetches the page
/// without one; and an answer whose status reports success then gives the
/// page of the fallback path, which has neither date nor author.
pub proof fn lemma_launch_failure_falls_back(
    task: TaskModel,
    timed_out: bool,
    cause: Seq<char>,
    status: u16,
    body: Seq<char>,
)
    requires
        task.wf(),
        task.stage is Launching,
        is_success(status),
    ensures
        ({
            let fetching = step(task, EventModel::Failed { timed_out, cause });
            let fetched = step(fetching, EventModel::Responded { status, body });
            &&& fetching.attempt == task.attempt
            &&& pending(fetching) == ActionModel::HttpGet {
                url: task.url,
                timeout_ms: task.timeout_ms,
            }
            &&& fetched.attempt == task.attempt
            &&& fetched.stage == StageModel::Succeeded {
                page: static_page_model(task.url, body),
            }
            &&& static_page_model(task.url, body).wf()
            &&& static_page_model(task.url, body).metadata.published_date is None
            &&& static_page_model(task.url, body).metadata.author is None
        }),
{
    lemma_page_model_wf(task.url, raw_title(body), body, None, None);
}

/// What a failure does to a task depends on its kind alone. A failure that
/// can be retried ends the attempt: the task waits for the next attempt if
/// one is left, and has failed if none is. A browser that cannot be launched
/// sends the same attempt to the plain fetch. The end of the time allowed to
/// all attempts fails the task. And a task fails with the kind that was
/// reported to it, and only when a failure was reported.
pub proof fn lemma_failures_by_kind(task: TaskModel, event: EventModel)
    requires
        task.wf(),
        !task.stage.is_final(),
    ensures
        reported(task, event) is Some && reported(task, event)->0.retryable() && task.attempt
            < task.max_retries ==> step(task, event) == task.at(StageModel::BackingOff),
        reported(task, event) is Some && reported(task, event)->0.retryable() && task.attempt
            == task.max_retries ==> step(task, event).stage is Failed && step(task, event).attempt
            == task.attempt,
        reported(task, event) == Some(ErrorKind::EngineLaunchFailure) ==> step(task, event)
            == task.at(StageModel::Fetching),
        reported(task, event) == Some(ErrorKind::OverallTimeout) ==> step(task, event)
            == task.timed_out(),
        reported(task, event) != Some(ErrorKind::InvalidUrl),
        step(task, event).stage matches StageModel::Failed { kind, .. } ==> kind is Some && kind
            == reported(task, event),
        reported(task, event) is None ==> !(step(task, event).stage is Failed),
        reported(task, event) is None && step(task, event).stage is BackingOff ==> step(
            task,
            event,
        ) == task,
{
}

/// A failed attempt that is not the last is followed by a wait of
/// `backoff_ms` of its number, and the wait by the next attempt, which
/// launches a browser of its own.
pub proof fn lemma_failed_attempt_is_retried(task: TaskModel, kind: ErrorKind, cause: Seq<char>)
    requires
        task.wf(),
        !task.stage.is_final(),
        task.attempt < task.max_retries,
    ensures
        ({
            let waiting = task.attempt_failed(kind, cause);
            let retrying = step(waiting, EventModel::Done);
            &&& waiting.stage is BackingOff
            &&& pending(waiting) == ActionModel::Wait { wait_ms: backoff_ms(task.attempt) }
            &&& retrying.stage is Launching
            &&& retrying.attempt == task.attempt + 1
            &&& pending(retrying) == ActionModel::LaunchBrowser
        }),
{
}

/// The last attempt that is allowed is followed by no wait: its failure
/// ends the scrape, with the report of that attempt as the message.
pub proof fn lemma_last_failure_ends_the_scrape(task: TaskModel, kind: ErrorKind, cause: Seq<char>)
    requires
        task.wf(),
        !task.stage.is_final(),
        task.attempt == task.max_retries,
    ensures
        ({
            let ended = task.attempt_failed(kind, cause);
            &&& pending(ended) == ActionModel::Finish
            &&& outcome(ended) == Some(
                ResultModel::failed(attempt_text(task.attempt, task.max_retries, cause)),
            )
        }),
{
}

/// A task that was begun has waited, between its attempts, exactly the waits
/// that precede the attempt it has reached: whenever attempt number `n` is
/// under way, the waits after the attempts 1 to `n - 1` are over.
pub proof fn lemma_waits_precede_attempts(
    url: Seq<char>,
    timeout_ms: u64,
    max_retries: u32,
    checked: Result<(), UrlErrorModel>,
    events: Seq<EventModel>,
)
    ensures
        ({
            let task = begun(url, timeout_ms, max_retries, checked);
            waited(task, events) == waits_before(run(task, events).attempt as nat)
        }),
    decreases events.len(),
{
    let task = begun(url, timeout_ms, max_retries, checked);
    if events.len() > 0 {
        lemma_waits_precede_attempts(url, timeout_ms, max_retries, checked, events.drop_last());
        lemma_run_keeps_wf(task, events.drop_last());
    }
}

/// As long as the waits fit the machine's numbers, the waits that precede
/// attempt number `attempt` add up to `1000 * (2^(attempt - 1) - 1)`
/// milliseconds.
pub proof fn lemma_waits_before_total(attempt: nat)
    requires
        1 <= attempt <= u32::MAX,
        backoff_wait(attempt) <= u64::MAX,
    ensures
        waits_before(attempt) == total_backoff((attempt - 1) as nat),
        waits_before(attempt) == 1000 * (pow2((attempt - 1) as nat) - 1),
    decreases attempt,
{
    lemma_total_backoff((attempt - 1) as nat);
    if attempt > 1 {
        lemma_backoff_grows((attempt - 1) as nat, attempt);
        lemma_waits_before_total((attempt - 1) as nat);
    }
}

/// A run in two parts is the run of the second part after the first, and
/// its waits are those of both parts.
pub proof fn lemma_run_of_parts(task: TaskModel, first: Seq<EventModel>, second: Seq<EventModel>)
    ensures
        run(task, first + second) == run(run(task, first), second),
        waited(task, first + second) == waited(task, first) + waited(run(task, first), second),
    decreases second.len(),
{
    if second.len() == 0 {
        assert(first + second == first);
    } else {
        assert((first + second).drop_last() == first + second.drop_last());
        assert((first + second).last() == second.last());
        lemma_run_of_parts(task, first, second.drop_last());
    }
}

/// A run of one event is one step, and it took the time of a wait if the
/// event ended one.
pub proof fn lemma_run_of_one(task: TaskModel, event: EventModel)
    ensures
        run(task, seq![event]) == step(task, event),
        waited(task, seq![event]) == if task.stage is BackingOff && event is Done {
            backoff_ms(task.attempt) as nat
        } else {
            0
        },
{
    let one = seq![event];
    assert(one.drop_last() == Seq::<EventModel>::empty());
    assert(one.last() == event);
    assert(run(task, one.drop_last()) == task);
    assert(waited(task, one.drop_last()) == 0);
}

/// The events of an attempt that fails: the browser cannot be launched, the
/// plain fetch is not answered either, and the wait that follows is carried
/// out.
pub open spec fn failing_attempt(cause: Seq<char>) -> Seq<EventModel> {
    seq![EventModel::Failed { timed_out: false, cause }] + seq![
        EventModel::FetchFailed { stage: FetchStage::Send, timed_out: false, cause },
    ] + seq![EventModel::Done]
}

/// The events of an attempt that succeeds without a browser: the browser
/// cannot be launched, and the plain fetch is answered.
pub open spec fn fetching_attempt(cause: Seq<char>, status: u16, body: Seq<char>) -> Seq<
    EventModel,
> {
    seq![EventModel::Failed { timed_out: false, cause }] + seq![
        EventModel::Responded { status, body },
    ]
}

/// The events of attempts that fail one after the other, `failures` of them.
pub open spec fn failing_attempts(failures: nat, cause: Seq<char>) -> Seq<EventModel>
    decreases failures,
{
    if failures == 0 {
        Seq::empty()
    } else {
        failing_attempts((failures - 1) as nat, cause) + failing_attempt(cause)
    }
}

/// An attempt that fails and is not the last leads, after its wait, to the
/// next attempt.
pub proof fn lemma_failing_attempt(task: TaskModel, cause: Seq<char>)
    requires
        task.wf(),
        task.stage is Launching,
        task.attempt < task.max_retries,
    ensures
        run(task, failing_attempt(cause)) == (TaskModel {
            attempt: (task.attempt + 1) as u32,
            ..task
        }),
        waited(task, failing_attempt(cause)) == backoff_ms(task.attempt),
{
    let launch = EventModel::Failed { timed_out: false, cause };
    let fetch = EventModel::FetchFailed { stage: FetchStage::Send, timed_out: false, cause };
    let fetching = task.at(StageModel::Fetching);
    let waiting = task.at(StageModel::BackingOff);
    lemma_run_of_one(task, launch);
    assert(step(task, launch) == fetching);
    lemma_run_of_one(fetching, fetch);
    assert(step(fetching, fetch) == waiting);
    lemma_run_of_one(waiting, EventModel::Done);
    lemma_run_of_parts(task, seq![launch], seq![fetch]);
    lemma_run_of_parts(task, seq![launch] + seq![fetch], seq![EventModel::Done]);
}

/// An attempt that finds no browser and whose plain fetch is answered with
/// success gives the page that was fetched, without any wait.
pub proof fn lemma_fetching_attempt(task: TaskModel, cause: Seq<char>, status: u16, body: Seq<char>)
    requires
        task.wf(),
        task.stage is Launching,
        is_success(status),
    ensures
        run(task, fetching_attempt(cause, status, body)) == task.at(
            StageModel::Succeeded { page: static_page_model(task.url, body) },
        ),
        waited(task, fetching_attempt(cause, status, body)) == 0,
{
    let launch = EventModel::Failed { timed_out: false, cause };
    let answer = EventModel::Responded { status, body };
    let fetching = task.at(StageModel::Fetching);
    lemma_run_of_one(task, launch);
    assert(step(task, launch) == fetching);
    lemma_run_of_one(fetching, answer);
    lemma_run_of_parts(task, seq![launch], seq![answer]);
}

/// After `failures` failed attempts, fewer than are allowed, the next
/// attempt is under way, and the waits that precede it are over.
pub proof fn lemma_after_failing_attempts(
    url: Seq<char>,
    timeout_ms: u64,
    max_retries: u32,
    failures: nat,
    cause: Seq<char>,
)
    requires
        failures < max_retries,
    ensures
        run(begun(url, timeout_ms, max_retries, Ok(())), failing_attempts(failures, cause)) == (
        TaskModel {
            url,
            timeout_ms,
            max_retries,
            attempt: (failures + 1) as u32,
            stage: StageModel::Launching,
        }),
        waited(begun(url, timeout_ms, max_retries, Ok(())), failing_attempts(failures, cause))
            == waits_before(failures + 1),
    decreases failures,
{
    let task = begun(url, timeout_ms, max_retries, Ok(()));
    if failures > 0 {
        let earlier = failing_attempts((failures - 1) as nat, cause);
        lemma_after_failing_attempts(url, timeout_ms, max_retries, (failures - 1) as nat, cause);
        lemma_run_of_parts(task, earlier, failing_attempt(cause));
        lemma_failing_attempt(run(task, earlier), cause);
    }
}

/// Where all attempts but the last fail and the last succeeds, the scrape
/// succeeds: it gives the page that the last attempt fetched, after the
/// waits that precede the last attempt, and no others.
pub proof fn lemma_success_on_the_last_attempt(
    url: Seq<char>,
    timeout_ms: u64,
    max_retries: u32,
    cause: Seq<char>,
    status: u16,
    body: Seq<char>,
)
    requires
        max_retries >= 1,
        is_success(status),
    ensures
        ({
            let task = begun(url, timeout_ms, max_retries, Ok(()));
            let events = failing_attempts((max_retries - 1) as nat, cause) + fetching_attempt(
                cause,
                status,
                body,
            );
            &&& outcome(run(task, events)) == Some(
                ResultModel::succeeded(static_page_model(url, body)),
            )
            &&& run(task, events).attempt == max_retries
            &&& waited(task, events) == waits_before(max_retries as nat)
        }),
{
    let task = begun(url, timeout_ms, max_retries, Ok(()));
    let earlier = failing_attempts((max_retries - 1) as nat, cause);
    lemma_after_failing_attempts(url, timeout_ms, max_retries, (max_retries - 1) as nat, cause);
    lemma_run_of_parts(task, earlier, fetching_attempt(cause, status, body));
    lemma_fetching_attempt(run(task, earlier), cause, status, body);
}

} // verus!
