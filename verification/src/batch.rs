//! Scraping many URLs: the settings of a batch, and its division into groups
//! that run one after the other, each group's URLs side by side.

use vstd::prelude::*;
use vstd::arithmetic::div_mod::lemma_fundamental_div_mod_converse;
use vstd::string::StringExecFns;
use crate::content::{ResultModel, ScrapeResult};
use crate::strings::followed_by;
use crate::task::{started, ScrapeTask};

verus! {

/// The time allowed to one attempt where none is given, in milliseconds.
pub const DEFAULT_TIMEOUT_MS: u64 = 45000;

/// The number of attempts allowed where none is given.
pub const DEFAULT_MAX_RETRIES: u32 = 3;

/// The number of URLs scraped side by side where none is given.
pub const DEFAULT_MAX_CONCURRENT: usize = 5;

/// The settings of a batch.
#[derive(Clone, Copy, PartialEq, Eq, Debug, Structural)]
pub struct BatchConfig {
    /// The time allowed to one attempt, in milliseconds.
    pub timeout_ms: u64,
    /// The number of attempts allowed for each URL.
    pub max_retries: u32,
    /// The number of URLs scraped side by side.
    pub max_concurrent: usize,
}

/// The number of URLs that run side by side under `max_concurrent`: the
/// number itself, or the default where it is zero.
pub open spec fn group_size(max_concurrent: usize) -> nat {
    if max_concurrent == 0 {
        DEFAULT_MAX_CONCURRENT as nat
    } else {
        max_concurrent as nat
    }
}

/// The settings that the given choices make: each choice that was not made,
/// and a choice of no URLs side by side, gives way to the default.
pub open spec fn resolved(
    timeout_ms: Option<u64>,
    max_retries: Option<u32>,
    max_concurrent: Option<usize>,
) -> BatchConfig {
    BatchConfig {
        timeout_ms: match timeout_ms {
            Some(chosen) => chosen,
            None => DEFAULT_TIMEOUT_MS,
        },
        max_retries: match max_retries {
            Some(chosen) => chosen,
            None => DEFAULT_MAX_RETRIES,
        },
        max_concurrent: match max_concurrent {
            Some(chosen) => group_size(chosen) as usize,
            None => DEFAULT_MAX_CONCURRENT,
        },
    }
}

impl BatchConfig {
    /// The settings that the given choices make.
    pub fn resolve(
        timeout_ms: Option<u64>,
        max_retries: Option<u32>,
        max_concurrent: Option<usize>,
    ) -> (config: BatchConfig)
        ensures
            config == resolved(timeout_ms, max_retries, max_concurrent),
            config.max_concurrent >= 1,
    {
        BatchConfig {
            timeout_ms: match timeout_ms {
                Some(chosen) => chosen,
                None => DEFAULT_TIMEOUT_MS,
            },
            max_retries: match max_retries {
                Some(chosen) => chosen,
                None => DEFAULT_MAX_RETRIES,
            },
            max_concurrent: match max_concurrent {
                Some(chosen) => if chosen == 0 {
                    DEFAULT_MAX_CONCURRENT
                } else {
                    chosen
                },
                None => DEFAULT_MAX_CONCURRENT,
            },
        }
    }
}

/// A group of a batch: the URLs at the positions `start..end`.
#[derive(Clone, Copy, PartialEq, Eq, Debug, Structural)]
pub struct Group {
    /// The position of the group's first URL.
    pub start: usize,
    /// The position after the group's last URL.
    pub end: usize,
}

/// The number of groups that `count` URLs make, `size` to a group: `count`
/// divided by `size`, rounded up.
pub open spec fn group_count(count: nat, size: nat) -> nat {
    if size == 0 {
        0
    } else {
        ((count + size - 1) / size as int) as nat
    }
}

/// Where the group number `k` ends: `size` positions after its start, or
/// with the last URL.
pub open spec fn group_end(k: int, count: nat, size: nat) -> int {
    if (k + 1) * size <= count {
        (k + 1) * size
    } else {
        count as int
    }
}

/// The group number `k`, counted from zero, of `count` URLs taken `size` to
/// a group.
pub open spec fn planned_group(k: int, count: nat, size: nat) -> Group {
    Group { start: (k * size) as usize, end: group_end(k, count, size) as usize }
}

/// The groups of `count` URLs, taken `size` to a group in the order in which
/// they were given.
pub open spec fn planned(count: nat, size: nat) -> Seq<Group> {
    Seq::new(group_count(count, size), |k: int| planned_group(k, count, size))
}

/// Divides `count` URLs into groups of at most `max_concurrent`, or of at
/// most the default number where `max_concurrent` is zero.
pub fn plan_groups(count: usize, max_concurrent: usize) -> (groups: Vec<Group>)
    ensures
        groups@ == planned(count as nat, group_size(max_concurrent)),
{
    let size = if max_concurrent == 0 {
        DEFAULT_MAX_CONCURRENT
    } else {
        max_concurrent
    };
    let mut groups: Vec<Group> = Vec::new();
    let mut start: usize = 0;
    proof {
        assert(groups@.len() * size == 0) by (nonlinear_arith)
            requires
                groups@.len() == 0,
        ;
        if count == 0 {
            lemma_fundamental_div_mod_converse(size - 1, size as int, 0, size - 1);
        }
    }
    while start < count
        invariant
            size >= 1,
            start <= count,
            start == count ==> groups@.len() == group_count(count as nat, size as nat),
            start < count ==> start == groups@.len() * size,
            forall|k: int|
                0 <= k < groups@.len() ==> groups@[k] == planned_group(
                    k,
                    count as nat,
                    size as nat,
                ),
        decreases count - start,
    {
        let end = if count - start > size {
            start + size
        } else {
            count
        };
        proof {
            let k = groups@.len() as int;
            assert((k + 1) * size == k * size + size) by (nonlinear_arith);
            if end == count {
                lemma_fundamental_div_mod_converse(
                    count + size - 1,
                    size as int,
                    k + 1,
                    count - 1 - k * size,
                );
            }
        }
        groups.push(Group { start, end });
        start = end;
    }
    proof {
        assert(groups@ =~= planned(count as nat, size as nat));
    }
    groups
}

/// The groups of a batch lie end to end, from the first URL to the last;
/// none is empty and none holds more than `size` URLs; and without URLs
/// there is no group.
pub proof fn lemma_groups_partition(count: nat, size: nat)
    requires
        size >= 1,
        count <= usize::MAX,
    ensures
        count == 0 <==> planned(count, size).len() == 0,
        count > 0 ==> planned(count, size).first().start == 0 && planned(count, size).last().end
            == count,
        forall|k: int|
            0 <= k < planned(count, size).len() ==> {
                let group = #[trigger] planned(count, size)[k];
                &&& group.start < group.end <= count
                &&& group.end - group.start <= size
            },
        forall|k: int|
            0 <= k < planned(count, size).len() - 1 ==> (#[trigger] planned(count, size)[k]).end
                == planned(count, size)[k + 1].start,
{
    let n = group_count(count, size) as int;
    let total = count + size - 1;
    vstd::arithmetic::div_mod::lemma_fundamental_div_mod(total, size as int);
    vstd::arithmetic::div_mod::lemma_mod_bound(total, size as int);
    // n * size <= total < (n + 1) * size
    assert(size * n == n * size) by (nonlinear_arith);
    assert((n + 1) * size == n * size + size) by (nonlinear_arith);
    assert(n >= 0);
    if count == 0 {
        assert(n == 0) by (nonlinear_arith)
            requires
                n >= 0,
                n * size <= size - 1,
                size >= 1,
        ;
    } else {
        assert(n >= 1) by (nonlinear_arith)
            requires
                (n + 1) * size > count + size - 1,
                (n + 1) * size == n * size + size,
                count >= 1,
                n >= 0,
        ;
        assert(0 * size == 0);
        assert((n - 1 + 1) * size == n * size);
    }
    assert forall|k: int| 0 <= k < planned(count, size).len() implies {
        let group = #[trigger] planned(count, size)[k];
        &&& group.start < group.end <= count
        &&& group.end - group.start <= size
        &&& group.start == k * size
        &&& group.end == group_end(k, count, size)
    } by {
        assert((k + 1) * size == k * size + size) by (nonlinear_arith);
        assert(k * size >= 0) by (nonlinear_arith)
            requires
                k >= 0,
                size >= 1,
        ;
        assert(k * size < count) by (nonlinear_arith)
            requires
                0 <= k <= n - 1,
                n * size <= count + size - 1,
                size >= 1,
        ;
    }
    assert forall|k: int| 0 <= k < planned(count, size).len() - 1 implies (#[trigger] planned(
        count,
        size,
    )[k]).end == planned(count, size)[k + 1].start by {
        assert((k + 1) * size == k * size + size) by (nonlinear_arith);
        assert((k + 1) * size < count) by (nonlinear_arith)
            requires
                0 <= k + 1 <= n - 1,
                n * size <= count + size - 1,
                size >= 1,
        ;
    }
}

/// Every URL of a batch is in exactly one group: the URL at position `at` is
/// in the group number `at / size`, and in no other.
pub proof fn lemma_every_url_is_in_one_group(count: nat, size: nat, at: int)
    requires
        size >= 1,
        count <= usize::MAX,
        0 <= at < count,
    ensures
        0 <= at / (size as int) < planned(count, size).len(),
        planned(count, size)[at / (size as int)].start <= at < planned(count, size)[at / (
        size as int)].end,
        forall|k: int|
            0 <= k < planned(count, size).len() && (#[trigger] planned(count, size)[k]).start <= at
                < planned(count, size)[k].end ==> k == at / (size as int),
{
    let n = group_count(count, size) as int;
    let d = size as int;
    let q = at / d;
    lemma_groups_partition(count, size);
    vstd::arithmetic::div_mod::lemma_fundamental_div_mod(at, d);
    vstd::arithmetic::div_mod::lemma_mod_bound(at, d);
    vstd::arithmetic::div_mod::lemma_fundamental_div_mod(count + size - 1, d);
    vstd::arithmetic::div_mod::lemma_mod_bound(count + size - 1, d);
    assert(d * q == q * size) by (nonlinear_arith)
        requires
            d == size,
    ;
    assert(d * n == n * size) by (nonlinear_arith)
        requires
            d == size,
    ;
    assert((q + 1) * size == q * size + size) by (nonlinear_arith);
    assert(q >= 0) by (nonlinear_arith)
        requires
            q * size + size > at,
            at >= 0,
            size >= 1,
            (q + 1) * size == q * size + size,
    ;
    assert(q < n) by (nonlinear_arith)
        requires
            q * size <= at,
            at < count,
            n * size + size > count + size - 1,
            size >= 1,
    ;
    assert forall|k: int|
        0 <= k < planned(count, size).len() && (#[trigger] planned(count, size)[k]).start <= at
            < planned(count, size)[k].end implies k == q by {
        assert((k + 1) * size == k * size + size) by (nonlinear_arith);
        assert(k * size >= 0) by (nonlinear_arith)
            requires
                k >= 0,
                size >= 1,
        ;
        assert(k * size < count) by (nonlinear_arith)
            requires
                0 <= k <= n - 1,
                n * size <= count + size - 1,
                size >= 1,
        ;
        assert(planned(count, size)[k].start == k * size);
        assert(planned(count, size)[k].end <= (k + 1) * size);
        assert(k == q) by (nonlinear_arith)
            requires
                k * size <= at,
                at < k * size + size,
                q * size <= at,
                at < q * size + size,
                size >= 1,
        ;
    }
}

/// The positions of `group` at which a batch of `count` URLs has a URL: those
/// of the group, as far as they lie before `count`.
pub open spec fn positions(group: Group, count: nat) -> (int, int) {
    let end = if group.end <= count {
        group.end as int
    } else {
        count as int
    };
    if group.start <= end {
        (group.start as int, end)
    } else {
        (end, end)
    }
}

/// Begins the scrape of each URL of `group`, in the order of the URLs: one
/// task for each position of the group at which `urls` has a URL.
pub fn start_group(urls: &Vec<String>, group: Group, config: &BatchConfig) -> (tasks: Vec<
    ScrapeTask,
>)
    ensures
        tasks@.len() == positions(group, urls@.len()).1 - positions(group, urls@.len()).0,
        forall|j: int|
            0 <= j < tasks@.len() ==> (#[trigger] tasks@[j])@ == started(
                urls@[positions(group, urls@.len()).0 + j]@,
                config.timeout_ms,
                config.max_retries,
            ),
        forall|j: int| 0 <= j < tasks@.len() ==> (#[trigger] tasks@[j])@.wf(),
{
    let end = if group.end <= urls.len() {
        group.end
    } else {
        urls.len()
    };
    let start = if group.start <= end {
        group.start
    } else {
        end
    };
    let mut tasks: Vec<ScrapeTask> = Vec::new();
    let mut position: usize = start;
    while position < end
        invariant
            start <= position <= end <= urls@.len(),
            tasks@.len() == position - start,
            forall|j: int|
                0 <= j < tasks@.len() ==> (#[trigger] tasks@[j])@ == started(
                    urls@[start + j]@,
                    config.timeout_ms,
                    config.max_retries,
                ),
            forall|j: int| 0 <= j < tasks@.len() ==> (#[trigger] tasks@[j])@.wf(),
        decreases end - position,
    {
        let task = ScrapeTask::new(urls[position].as_str(), config.timeout_ms, config.max_retries);
        tasks.push(task);
        position = position + 1;
    }
    tasks
}

/// Begins the scrape of a single URL, with the settings that the given
/// choices make: the one task of a batch that holds `url` alone.
pub fn start_single(url: &str, timeout_ms: Option<u64>, max_retries: Option<u32>) -> (task:
    ScrapeTask)
    ensures
        task@ == started(
            url@,
            resolved(timeout_ms, max_retries, None).timeout_ms,
            resolved(timeout_ms, max_retries, None).max_retries,
        ),
        task@.wf(),
{
    let config = BatchConfig::resolve(timeout_ms, max_retries, None);
    ScrapeTask::new(url, config.timeout_ms, config.max_retries)
}

/// The result for a URL whose attempts together ran out of time.
pub fn deadline_result() -> (result: ScrapeResult)
    ensures
        result@ == ResultModel::failed("Overall timeout exceeded"@),
        result@.wf(),
{
    ScrapeResult::failed(String::from_str("Overall timeout exceeded"))
}

/// The result for a URL whose scrape broke off for the reason `cause`
/// without reaching an end of its own.
pub fn task_failure(cause: &str) -> (result: ScrapeResult)
    ensures
        result@ == ResultModel::failed("Task error: "@ + cause@),
        result@.wf(),
{
    ScrapeResult::failed(followed_by("Task error: ", cause))
}

} // verus!
