//! Where to look for a browser that can render pages. The environment is
//! handed in, and so is what exists on disk: nothing here reads either.

use vstd::prelude::*;
use crate::strings::followed_by;

verus! {

/// The directories of the environment under which browsers are installed.
#[derive(Debug, PartialEq, Eq)]
pub struct BrowserEnv {
    /// The directory of installed programs.
    pub program_files: Option<String>,
    /// The directory of installed 32-bit programs.
    pub program_files_x86: Option<String>,
    /// The directory of the user's own programs.
    pub local_app_data: Option<String>,
}

/// The mathematical value of a [`BrowserEnv`].
pub struct BrowserEnvModel {
    pub program_files: Option<Seq<char>>,
    pub program_files_x86: Option<Seq<char>>,
    pub local_app_data: Option<Seq<char>>,
}

impl View for BrowserEnv {
    type V = BrowserEnvModel;

    open spec fn view(&self) -> BrowserEnvModel {
        BrowserEnvModel {
            program_files: self.program_files.deep_view(),
            program_files_x86: self.program_files_x86.deep_view(),
            local_app_data: self.local_app_data.deep_view(),
        }
    }
}

/// Where Chrome lies under a directory of programs.
pub open spec fn chrome_tail() -> Seq<char> {
    "\\Google\\Chrome\\Application\\chrome.exe"@
}

/// Where Chromium lies under a directory of programs.
pub open spec fn chromium_tail() -> Seq<char> {
    "\\Chromium\\Application\\chrome.exe"@
}

/// Where Edge lies under a directory of programs.
pub open spec fn edge_tail() -> Seq<char> {
    "\\Microsoft\\Edge\\Application\\msedge.exe"@
}

/// The path `tail` under `root`, if there is such a root.
pub open spec fn under(root: Option<Seq<char>>, tail: Seq<char>) -> Seq<Seq<char>> {
    match root {
        Some(directory) => seq![directory + tail],
        None => Seq::empty(),
    }
}

/// The paths at which a browser may be installed, the most welcome first:
/// Chrome, then Chromium, then Edge, each under the directories that the
/// environment names.
pub open spec fn candidates(env: BrowserEnvModel) -> Seq<Seq<char>> {
    under(env.program_files, chrome_tail()) + under(env.program_files_x86, chrome_tail()) + under(
        env.local_app_data,
        chrome_tail(),
    ) + under(env.program_files, chromium_tail()) + under(env.local_app_data, chromium_tail())
        + under(env.program_files_x86, edge_tail()) + under(env.program_files, edge_tail())
}

fn push_under(paths: &mut Vec<String>, root: &Option<String>, tail: &str)
    ensures
        final(paths).deep_view() == old(paths).deep_view() + under(root.deep_view(), tail@),
{
    match root {
        Some(directory) => {
            let path = followed_by(directory.as_str(), tail);
            paths.push(path);
            assert(paths.deep_view() =~= old(paths).deep_view() + seq![directory@ + tail@]);
        },
        None => {
            assert(paths.deep_view() =~= old(paths).deep_view() + Seq::<Seq<char>>::empty());
        },
    }
}

/// The paths at which a browser may be installed, the most welcome first.
pub fn candidate_paths(env: &BrowserEnv) -> (paths: Vec<String>)
    ensures
        paths.deep_view() == candidates(env@),
{
    let mut paths: Vec<String> = Vec::new();
    assert(paths.deep_view() =~= Seq::<Seq<char>>::empty());
    push_under(&mut paths, &env.program_files, "\\Google\\Chrome\\Application\\chrome.exe");
    push_under(&mut paths, &env.program_files_x86, "\\Google\\Chrome\\Application\\chrome.exe");
    push_under(&mut paths, &env.local_app_data, "\\Google\\Chrome\\Application\\chrome.exe");
    push_under(&mut paths, &env.program_files, "\\Chromium\\Application\\chrome.exe");
    push_under(&mut paths, &env.local_app_data, "\\Chromium\\Application\\chrome.exe");
    push_under(&mut paths, &env.program_files_x86, "\\Microsoft\\Edge\\Application\\msedge.exe");
    push_under(&mut paths, &env.program_files, "\\Microsoft\\Edge\\Application\\msedge.exe");
    paths
}

/// The position of the first path, from `from` on, that is present: `present`
/// tells for each path, by position, whether a file lies there.
pub open spec fn first_present(present: Seq<bool>, from: int) -> Option<int>
    decreases present.len() - from,
{
    if from < 0 || from >= present.len() {
        None
    } else if present[from] {
        Some(from)
    } else {
        first_present(present, from + 1)
    }
}

/// The browser to launch: the first of `paths` that is present, if any.
/// `present` tells for each path, by position, whether a file lies there; a
/// path without such an entry counts as absent.
pub open spec fn located(paths: Seq<Seq<char>>, present: Seq<bool>) -> Option<Seq<char>> {
    match first_present(present, 0) {
        Some(at) => if at < paths.len() {
            Some(paths[at])
        } else {
            None
        },
        None => None,
    }
}

/// Picks the browser to launch: the first of `paths` that is present.
pub fn locate_renderer(paths: &Vec<String>, present: &Vec<bool>) -> (found: Option<String>)
    ensures
        found.deep_view() == located(paths.deep_view(), present@),
{
    let mut at: usize = 0;
    while at < present.len()
        invariant
            at <= present@.len(),
            first_present(present@, 0) == first_present(present@, at as int),
        decreases present@.len() - at,
    {
        if present[at] {
            if at < paths.len() {
                return Some(paths[at].clone());
            } else {
                return None;
            }
        }
        at = at + 1;
    }
    None
}

} // verus!
