//! The orchestrator's decisions for one run: what to do with the outcome of
//! the search step, and how the per-entry status loop advances.
//!
//! A failed search step ends the run with no status checks at all. A search
//! output with no entries ends the run informationally. Otherwise every entry
//! is resolved to a path, in the order the search utility produced it, and
//! the status utility is run once per path; how one entry's check ends never
//! stops the following entries.

use crate::entries::{entries_spec, split_entries, views_of};
use crate::resolver::{get_final_path, home_dir_string, resolved_path_spec};
use vstd::prelude::*;

verus! {

/// How the search step ended: its invocation never started, or it exited
/// with the given success flag and captured output.
pub enum SearchStep {
    LaunchFailed,
    Exited { success: bool, stdout: String },
}

/// Whether the search step completed with a success status.
pub open spec fn search_ok(s: SearchStep) -> bool {
    match s {
        SearchStep::Exited { success, .. } => success,
        SearchStep::LaunchFailed => false,
    }
}

/// The captured output of a completed search step.
pub open spec fn search_text(s: SearchStep) -> Seq<char>
    recommends
        s is Exited,
{
    match s {
        SearchStep::Exited { stdout, .. } => stdout@,
        SearchStep::LaunchFailed => Seq::empty(),
    }
}

/// What one run does after the search step: abort on a search failure, stop
/// with an informational message when there are no entries, abort when no
/// home directory can be determined, or check the listed resolved paths.
pub enum RunPlan {
    SearchError,
    NoEntries,
    HomeError,
    CheckRepos(Vec<String>),
}

/// Holds when `p` checks exactly the entries `es` resolved against `home`,
/// in order.
pub open spec fn plan_checks(p: RunPlan, home: Seq<char>, es: Seq<Seq<char>>) -> bool {
    match p {
        RunPlan::CheckRepos(paths) => {
            &&& paths@.len() == es.len()
            &&& forall|i: int| 0 <= i < es.len() ==> paths@[i]@ == resolved_path_spec(home, es[i])
        },
        _ => false,
    }
}

/// The orchestrator's decision for a known home directory. A search step
/// that did not succeed yields no status checks at all; an empty entry list
/// ends the run informationally; otherwise every entry is resolved against
/// `home`, in search-output order, one path per entry.
pub fn plan_with_home(home: &str, search: &SearchStep) -> (p: RunPlan)
    ensures
        !search_ok(*search) ==> p is SearchError,
        search_ok(*search) && entries_spec(search_text(*search)).len() == 0 ==> p is NoEntries,
        search_ok(*search) && entries_spec(search_text(*search)).len() > 0 ==> plan_checks(
            p,
            home@,
            entries_spec(search_text(*search)),
        ),
{
    match search {
        SearchStep::LaunchFailed => RunPlan::SearchError,
        SearchStep::Exited { success, stdout } => {
            if !*success {
                RunPlan::SearchError
            } else {
                let es = split_entries(stdout.as_str());
                if es.len() == 0 {
                    RunPlan::NoEntries
                } else {
                    let mut paths: Vec<String> = Vec::new();
                    let mut i: usize = 0;
                    while i < es.len()
                        invariant
                            i <= es@.len(),
                            views_of(es@) == entries_spec(stdout@),
                            paths@.len() == i,
                            forall|j: int|
                                0 <= j < i ==> paths@[j]@ == resolved_path_spec(
                                    home@,
                                    views_of(es@)[j],
                                ),
                        decreases es@.len() - i,
                    {
                        let entry = &es[i];
                        let path = get_final_path(home, entry.as_str());
                        paths.push(path);
                        i = i + 1;
                    }
                    RunPlan::CheckRepos(paths)
                }
            }
        },
    }
}

/// The orchestrator's decision for one run, against the home directory that
/// the host environment reports. Whatever directory that is, a failed search
/// yields no checks and an empty entry list ends the run informationally;
/// with entries present, either every entry is resolved against the reported
/// home directory in order, or the plan says that no home directory could be
/// determined.
pub fn plan_run(search: &SearchStep) -> (p: RunPlan)
    ensures
        !search_ok(*search) ==> p is SearchError,
        search_ok(*search) && entries_spec(search_text(*search)).len() == 0 ==> p is NoEntries,
        search_ok(*search) && entries_spec(search_text(*search)).len() > 0 ==> (p is HomeError
            || exists|h: Seq<char>| plan_checks(p, h, entries_spec(search_text(*search)))),
{
    match home_dir_string() {
        Some(home) => {
            let p = plan_with_home(home.as_str(), search);
            proof {
                if search_ok(*search) && entries_spec(search_text(*search)).len() > 0 {
                    assert(plan_checks(p, home@, entries_spec(search_text(*search))));
                }
            }
            p
        },
        None => {
            match search {
                SearchStep::LaunchFailed => RunPlan::SearchError,
                SearchStep::Exited { success, stdout } => {
                    if !*success {
                        RunPlan::SearchError
                    } else {
                        let es = split_entries(stdout.as_str());
                        if es.len() == 0 {
                            RunPlan::NoEntries
                        } else {
                            RunPlan::HomeError
                        }
                    }
                },
            }
        },
    }
}

/// How the status utility's invocation for one entry ended: it never
/// started, or it exited with the given success flag.
pub enum StatusOutcome {
    LaunchFailed,
    Exited { success: bool },
}

/// The state of the per-entry loop: the resolved paths to check, in search
/// order, and the position of the next entry to check.
pub struct BatchRun {
    paths: Vec<String>,
    next_index: usize,
}

impl BatchRun {
    /// The resolved paths, as sequences of characters.
    pub closed spec fn paths_view(&self) -> Seq<Seq<char>> {
        views_of(self.paths@)
    }

    /// The position of the next entry to check.
    pub closed spec fn pos(&self) -> int {
        self.next_index as int
    }

    /// The loop never stands past the end of the path list.
    pub closed spec fn wf(&self) -> bool {
        self.next_index <= self.paths@.len()
    }

    /// A run over the given resolved paths, standing at the first entry.
    pub fn new(paths: Vec<String>) -> (r: BatchRun)
        ensures
            r.wf(),
            r.pos() == 0,
            r.paths_view() == views_of(paths@),
    {
        BatchRun { paths, next_index: 0 }
    }

    /// The path of the entry to check next, or `None` once every entry has
    /// been checked.
    pub fn current(&self) -> (r: Option<String>)
        requires
            self.wf(),
        ensures
            self.pos() < self.paths_view().len() ==> (r matches Some(p) && p@
                == self.paths_view()[self.pos()]),
            self.pos() >= self.paths_view().len() ==> r is None,
    {
        if self.next_index < self.paths.len() {
            Some(self.paths[self.next_index].clone())
        } else {
            None
        }
    }

    /// Moves past the current entry. The outcome of that entry's status
    /// check is taken and ignored: however the status utility ended, the
    /// following entry is still the next to be checked — one entry's failure
    /// never stops the rest of the batch.
    pub fn advance(&mut self, _outcome: &StatusOutcome)
        requires
            old(self).wf(),
            old(self).pos() < old(self).paths_view().len(),
        ensures
            final(self).wf(),
            final(self).pos() == old(self).pos() + 1,
            final(self).paths_view() == old(self).paths_view(),
    {
        let n = self.paths.len();
        assert(self.next_index < n);
        self.next_index = self.next_index + 1;
    }
}

} // verus!
