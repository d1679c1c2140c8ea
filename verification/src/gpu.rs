//! Reading what `nvidia-smi` prints: the graphics cards of the machine that
//! can run CUDA, and the version of CUDA. Running the program is left to the
//! caller; here its output is read.

use vstd::prelude::*;
use vstd::string::StringExecFns;
use crate::fields::{
    parse_at_most, parse_number, pieces, split, split_bounds, trim_bounds, trim_text, trimmed,
};
use crate::strings::{chars_of, find, first_in, followed_by, lemma_first_in_is_least, text_of};
use crate::text::{
    is_space, is_whitespace, is_word, lemma_words_of_parts, lemma_words_of_word, words,
};

verus! {

/// A graphics card.
#[derive(Debug, PartialEq, Eq)]
pub struct GpuInfo {
    /// The card's index on the machine.
    pub id: u32,
    /// The card's name.
    pub name: String,
    /// The card's memory, in megabytes.
    pub memory: u64,
    /// The card's compute capability.
    pub compute_capability: Option<String>,
}

/// The mathematical value of a [`GpuInfo`].
pub struct GpuModel {
    pub id: u32,
    pub name: Seq<char>,
    pub memory: u64,
    pub compute_capability: Option<Seq<char>>,
}

impl View for GpuInfo {
    type V = GpuModel;

    open spec fn view(&self) -> GpuModel {
        GpuModel {
            id: self.id,
            name: self.name@,
            memory: self.memory,
            compute_capability: self.compute_capability.deep_view(),
        }
    }
}

/// The mathematical values of some cards.
pub open spec fn gpu_models(gpus: Seq<GpuInfo>) -> Seq<GpuModel> {
    Seq::new(gpus.len(), |k: int| gpus[k]@)
}

/// `text` in lower case, as the standard library makes it.
pub uninterp spec fn lowercase_of(text: Seq<char>) -> Seq<char>;

/// `str::to_lowercase`: the lower-case equivalent of `text`. It goes by the
/// characters of `text` alone, so the result is the value that
/// `lowercase_of` names; nothing else is claimed of it.
#[verifier::external_body]
pub(crate) fn to_lowercase(text: &str) -> (lower: String)
    ensures
        lower@ == lowercase_of(text@),
{
    text.to_lowercase()
}

/// Whether a name that was put in lower case is that of a card by Nvidia:
/// whether `nvidia` stands in it.
pub open spec fn names_nvidia(lowered: Seq<char>) -> bool {
    first_in(lowered, "nvidia"@, 0, lowered.len() as int) is Some
}

/// Whether a name that was put in lower case is that of a card by Nvidia.
pub fn is_nvidia(lowered: &str) -> (is: bool)
    ensures
        is == names_nvidia(lowered@),
{
    let hay = chars_of(lowered);
    let needle = chars_of("nvidia");
    find(&hay, &needle, 0, hay.len()).is_some()
}

/// The card that a line of the listing describes. The line holds, between
/// commas, the index, the name, the memory and the compute capability, each
/// with or without white space around it, and possibly more after them. It
/// counts only if index and memory are numbers that fit, the name is that of
/// a card by Nvidia, and the compute capability is not empty.
pub open spec fn gpu_of_line(line: Seq<char>) -> Option<GpuModel> {
    let parts = split(trimmed(line), ',');
    if parts.len() < 4 {
        None
    } else {
        let id = parse_at_most(trimmed(parts[0]), u32::MAX as u64);
        let name = trimmed(parts[1]);
        let memory = parse_at_most(trimmed(parts[2]), u64::MAX);
        let capability = trimmed(parts[3]);
        if id is Some && memory is Some && names_nvidia(lowercase_of(name)) && capability.len()
            > 0 {
            Some(
                GpuModel {
                    id: id->0 as u32,
                    name,
                    memory: memory->0,
                    compute_capability: Some(capability),
                },
            )
        } else {
            None
        }
    }
}

/// The cards that the given lines describe, in the order of the lines.
pub open spec fn gpus_of_lines(lines: Seq<Seq<char>>) -> Seq<GpuModel>
    decreases lines.len(),
{
    if lines.len() == 0 {
        Seq::empty()
    } else {
        let before = gpus_of_lines(lines.drop_last());
        match gpu_of_line(lines.last()) {
            Some(gpu) => before.push(gpu),
            None => before,
        }
    }
}

/// The cards that a listing describes, one to a line.
pub open spec fn gpus_of(listing: Seq<char>) -> Seq<GpuModel> {
    gpus_of_lines(split(listing, '\n'))
}

/// The card that the line `chars[from..to]` describes.
fn gpu_in(chars: &Vec<char>, from: usize, to: usize) -> (gpu: Option<GpuInfo>)
    requires
        from <= to <= chars@.len(),
    ensures
        match gpu {
            Some(found) => gpu_of_line(chars@.subrange(from as int, to as int)) == Some(found@),
            None => gpu_of_line(chars@.subrange(from as int, to as int)) is None,
        },
{
    let (start, end) = trim_bounds(chars, from, to);
    let fields = split_bounds(chars, start, end, ',');
    if fields.len() < 4 {
        return None;
    }
    let ghost parts = pieces(chars@, fields@);
    proof {
        assert(parts[0] == chars@.subrange(fields@[0].0 as int, fields@[0].1 as int));
        assert(parts[1] == chars@.subrange(fields@[1].0 as int, fields@[1].1 as int));
        assert(parts[2] == chars@.subrange(fields@[2].0 as int, fields@[2].1 as int));
        assert(parts[3] == chars@.subrange(fields@[3].0 as int, fields@[3].1 as int));
    }
    let (id_start, id_end) = trim_bounds(chars, fields[0].0, fields[0].1);
    let (name_start, name_end) = trim_bounds(chars, fields[1].0, fields[1].1);
    let (memory_start, memory_end) = trim_bounds(chars, fields[2].0, fields[2].1);
    let (capability_start, capability_end) = trim_bounds(chars, fields[3].0, fields[3].1);
    let id = parse_number(chars, id_start, id_end, u32::MAX as u64);
    let memory = parse_number(chars, memory_start, memory_end, u64::MAX);
    match (id, memory) {
        (Some(id), Some(memory)) => {
            let name = text_of(chars, name_start, name_end);
            let lowered = to_lowercase(name.as_str());
            if is_nvidia(lowered.as_str()) && capability_start < capability_end {
                let capability = text_of(chars, capability_start, capability_end);
                Some(
                    GpuInfo {
                        id: id as u32,
                        name,
                        memory,
                        compute_capability: Some(capability),
                    },
                )
            } else {
                None
            }
        },
        _ => None,
    }
}

/// The cards that the listing of `nvidia-smi` describes, in its order.
pub fn parse_gpu_listing(listing: &str) -> (gpus: Vec<GpuInfo>)
    ensures
        gpu_models(gpus@) == gpus_of(listing@),
{
    let chars = chars_of(listing);
    let lines = split_bounds(&chars, 0, chars.len(), '\n');
    let ghost texts = pieces(chars@, lines@);
    proof {
        assert(chars@.subrange(0, chars@.len() as int) == chars@);
        assert(texts.take(0) == Seq::<Seq<char>>::empty());
    }
    let mut gpus: Vec<GpuInfo> = Vec::new();
    let mut k: usize = 0;
    while k < lines.len()
        invariant
            k <= lines@.len(),
            texts == pieces(chars@, lines@),
            forall|j: int|
                0 <= j < lines@.len() ==> 0 <= (#[trigger] lines@[j]).0 <= lines@[j].1
                    <= chars@.len(),
            gpu_models(gpus@) == gpus_of_lines(texts.take(k as int)),
        decreases lines@.len() - k,
    {
        let (from, to) = lines[k];
        let ghost before = gpu_models(gpus@);
        proof {
            assert(texts.take(k + 1).drop_last() == texts.take(k as int));
            assert(texts.take(k + 1).last() == chars@.subrange(from as int, to as int));
        }
        match gpu_in(&chars, from, to) {
            Some(gpu) => {
                gpus.push(gpu);
                proof {
                    assert(gpu_models(gpus@) =~= before.push(gpu@));
                }
            },
            None => {},
        }
        k = k + 1;
    }
    proof {
        assert(texts.take(lines@.len() as int) == texts);
    }
    gpus
}

/// What precedes the version of CUDA in the report of `nvidia-smi`.
pub open spec fn cuda_marker() -> Seq<char> {
    "CUDA Version:"@
}

/// The first word of `s`, if it has one.
pub open spec fn first_word(s: Seq<char>) -> Option<Seq<char>> {
    if words(s).len() > 0 {
        Some(words(s)[0])
    } else {
        None
    }
}

/// The version of CUDA that a report of `nvidia-smi` names: the first word
/// after the first marker, on the marker's line and before the next marker.
/// There is none without a marker, and none where no word follows the first.
pub open spec fn cuda_version_of(report: Seq<char>) -> Option<Seq<char>> {
    match first_in(report, cuda_marker(), 0, report.len() as int) {
        None => None,
        Some(at) => {
            let start = at + cuda_marker().len();
            let line_end = match first_in(report, seq!['\n'], start, report.len() as int) {
                Some(feed) => feed,
                None => report.len() as int,
            };
            let end = match first_in(report, cuda_marker(), start, line_end) {
                Some(next) => next,
                None => line_end,
            };
            first_word(report.subrange(start, end))
        },
    }
}

/// A text of white space alone has no words.
proof fn lemma_no_words_in_space(s: Seq<char>)
    requires
        forall|j: int| 0 <= j < s.len() ==> is_space(#[trigger] s[j]),
    ensures
        words(s).len() == 0,
    decreases s.len(),
{
    if s.len() > 0 {
        lemma_no_words_in_space(s.drop_last());
    }
}

/// Where a word stands after nothing but white space and is followed by
/// white space or by nothing, it is the first word.
proof fn lemma_first_word(before: Seq<char>, word: Seq<char>, after: Seq<char>)
    requires
        forall|j: int| 0 <= j < before.len() ==> is_space(#[trigger] before[j]),
        is_word(word),
        after.len() == 0 || is_space(after[0]),
    ensures
        first_word(before + word + after) == Some(word),
{
    lemma_no_words_in_space(before);
    lemma_words_of_word(word);
    assert(before + word + after == before + (word + after));
    lemma_words_of_parts(before, word + after);
    if after.len() == 0 {
        assert(word + after == word);
    } else {
        let closed = word.push(after[0]);
        assert(closed.drop_last() == word);
        assert(words(closed) == words(word));
        assert(closed + after.drop_first() == word + after);
        lemma_words_of_parts(closed, after.drop_first());
    }
}

/// The first word of `chars[from..to]`, if it has one.
fn first_word_in(chars: &Vec<char>, from: usize, to: usize) -> (word: Option<String>)
    requires
        from <= to <= chars@.len(),
    ensures
        word.deep_view() == first_word(chars@.subrange(from as int, to as int)),
{
    let ghost text = chars@.subrange(from as int, to as int);
    let mut start: usize = from;
    while start < to && is_whitespace(chars[start])
        invariant
            from <= start <= to <= chars@.len(),
            forall|j: int| from <= j < start ==> is_space(#[trigger] chars@[j]),
        decreases to - start,
    {
        start = start + 1;
    }
    if start == to {
        proof {
            lemma_no_words_in_space(text);
        }
        return None;
    }
    let mut end: usize = start + 1;
    while end < to && !is_whitespace(chars[end])
        invariant
            from <= start < end <= to <= chars@.len(),
            forall|j: int| start <= j < end ==> !is_space(#[trigger] chars@[j]),
        decreases to - end,
    {
        end = end + 1;
    }
    proof {
        let before = chars@.subrange(from as int, start as int);
        let word = chars@.subrange(start as int, end as int);
        let after = chars@.subrange(end as int, to as int);
        assert(text == before + word + after);
        lemma_first_word(before, word, after);
    }
    Some(text_of(chars, start, end))
}

/// The version of CUDA that a report of `nvidia-smi` names.
pub fn parse_cuda_version(report: &str) -> (version: Option<String>)
    ensures
        version.deep_view() == cuda_version_of(report@),
{
    let chars = chars_of(report);
    let marker = chars_of("CUDA Version:");
    let feed = vec!['\n'];
    proof {
        assert(feed@ == seq!['\n']);
    }
    match find(&chars, &marker, 0, chars.len()) {
        None => None,
        Some(at) => {
            proof {
                lemma_first_in_is_least(chars@, marker@, 0, chars@.len() as int);
            }
            let start = at + marker.len();
            let line_end = match find(&chars, &feed, start, chars.len()) {
                Some(feed_at) => {
                    proof {
                        lemma_first_in_is_least(
                            chars@,
                            feed@,
                            start as int,
                            chars@.len() as int,
                        );
                    }
                    feed_at
                },
                None => chars.len(),
            };
            let end = match find(&chars, &marker, start, line_end) {
                Some(next) => {
                    proof {
                        lemma_first_in_is_least(chars@, marker@, start as int, line_end as int);
                    }
                    next
                },
                None => line_end,
            };
            first_word_in(&chars, start, end)
        },
    }
}

/// What is known about CUDA on the machine.
#[derive(Debug, PartialEq, Eq)]
pub struct CudaInfo {
    /// Whether a card that can run CUDA was found.
    pub available: bool,
    /// The number of the cards found.
    pub gpu_count: u32,
    /// The cards found.
    pub gpus: Vec<GpuInfo>,
    /// The version of the driver.
    pub driver_version: Option<String>,
    /// The version of CUDA.
    pub cuda_version: Option<String>,
    /// Why no card is available.
    pub error: Option<String>,
}

/// The mathematical value of a [`CudaInfo`].
pub struct CudaModel {
    pub available: bool,
    pub gpu_count: u32,
    pub gpus: Seq<GpuModel>,
    pub driver_version: Option<Seq<char>>,
    pub cuda_version: Option<Seq<char>>,
    pub error: Option<Seq<char>>,
}

impl View for CudaInfo {
    type V = CudaModel;

    open spec fn view(&self) -> CudaModel {
        CudaModel {
            available: self.available,
            gpu_count: self.gpu_count,
            gpus: gpu_models(self.gpus@),
            driver_version: self.driver_version.deep_view(),
            cuda_version: self.cuda_version.deep_view(),
            error: self.error.deep_view(),
        }
    }
}

/// What to tell when no card is available, for the reason `error`.
pub open spec fn unavailable_model(error: Seq<char>) -> CudaModel {
    CudaModel {
        available: false,
        gpu_count: 0,
        gpus: Seq::empty(),
        driver_version: None,
        cuda_version: None,
        error: Some(error),
    }
}

/// What to tell of the given cards and versions: with a card, the cards,
/// their number (at most the largest `u32`) and the versions; without one,
/// that none was detected, and nothing else.
pub open spec fn cuda_model(
    gpus: Seq<GpuModel>,
    driver_version: Option<Seq<char>>,
    cuda_version: Option<Seq<char>>,
) -> CudaModel {
    if gpus.len() == 0 {
        unavailable_model("No NVIDIA GPUs with CUDA support detected"@)
    } else {
        CudaModel {
            available: true,
            gpu_count: if gpus.len() <= u32::MAX {
                gpus.len() as u32
            } else {
                u32::MAX
            },
            gpus,
            driver_version,
            cuda_version,
            error: None,
        }
    }
}

/// What to tell when no card is available, for the reason `error`.
pub fn cuda_unavailable(error: String) -> (info: CudaInfo)
    ensures
        info@ == unavailable_model(error@),
{
    let info = CudaInfo {
        available: false,
        gpu_count: 0,
        gpus: Vec::new(),
        driver_version: None,
        cuda_version: None,
        error: Some(error),
    };
    proof {
        assert(gpu_models(info.gpus@) =~= Seq::<GpuModel>::empty());
    }
    info
}

/// What to tell of the given cards and versions.
pub fn cuda_info(
    gpus: Vec<GpuInfo>,
    driver_version: Option<String>,
    cuda_version: Option<String>,
) -> (info: CudaInfo)
    ensures
        info@ == cuda_model(
            gpu_models(gpus@),
            driver_version.deep_view(),
            cuda_version.deep_view(),
        ),
{
    if gpus.len() == 0 {
        cuda_unavailable(String::from_str("No NVIDIA GPUs with CUDA support detected"))
    } else {
        let gpu_count: u32 = if gpus.len() <= u32::MAX as usize {
            gpus.len() as u32
        } else {
            u32::MAX
        };
        CudaInfo { available: true, gpu_count, gpus, driver_version, cuda_version, error: None }
    }
}

/// Why `nvidia-smi` gave no listing.
#[derive(Debug, PartialEq, Eq)]
pub enum ProbeFailure {
    /// The program could not be run, for the given reason.
    NotRun(String),
    /// The program ran and failed; it said the given text.
    Failed(String),
}

/// The message for a probe that gave no listing.
pub open spec fn probe_failure_text(failure: ProbeFailure) -> Seq<char> {
    match failure {
        ProbeFailure::NotRun(reason) => "NVIDIA drivers not installed or nvidia-smi not found: "@
            + reason@,
        ProbeFailure::Failed(said) => "nvidia-smi failed: "@ + said@,
    }
}

/// What to tell when `nvidia-smi` gave no listing.
pub fn probe_failed(failure: ProbeFailure) -> (info: CudaInfo)
    ensures
        info@ == unavailable_model(probe_failure_text(failure)),
{
    match failure {
        ProbeFailure::NotRun(reason) => cuda_unavailable(
            followed_by("NVIDIA drivers not installed or nvidia-smi not found: ", reason.as_str()),
        ),
        ProbeFailure::Failed(said) => cuda_unavailable(
            followed_by("nvidia-smi failed: ", said.as_str()),
        ),
    }
}

/// What a probe that gave a listing tells, over mathematical values: the
/// cards of the listing, the driver's version as it was printed, without the
/// white space around it, and the version of CUDA that the report names.
pub open spec fn detected_model(
    listing: Seq<char>,
    driver_output: Option<Seq<char>>,
    report: Option<Seq<char>>,
) -> CudaModel {
    cuda_model(
        gpus_of(listing),
        match driver_output {
            Some(printed) => Some(trimmed(printed)),
            None => None,
        },
        match report {
            Some(text) => cuda_version_of(text),
            None => None,
        },
    )
}

/// What to tell after `nvidia-smi` gave `listing`, printed `driver_output`
/// when asked for the driver's version, and `report` when asked for nothing
/// in particular.
pub fn detect_from(listing: &str, driver_output: Option<String>, report: Option<String>) -> (info:
    CudaInfo)
    ensures
        info@ == detected_model(listing@, driver_output.deep_view(), report.deep_view()),
{
    let gpus = parse_gpu_listing(listing);
    let driver_version = match driver_output {
        Some(printed) => Some(trim_text(printed.as_str())),
        None => None,
    };
    let cuda_version = match report {
        Some(text) => parse_cuda_version(text.as_str()),
        None => None,
    };
    cuda_info(gpus, driver_version, cuda_version)
}

} // verus!
